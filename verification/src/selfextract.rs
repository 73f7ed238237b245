use vstd::prelude::*;
use vstd::string::StringExecFns;

use crate::descriptor::ArchiveDescriptor;
use crate::ops::{acts, lemma_acts_grow, FsAct, FsOp};
use crate::paths::{join_spec, join_str};

verus! {

/// The whole self-extracting plan: replace any previous installed tree, make
/// the downloaded image executable, run it so that it deposits its fixed
/// output directory beside itself, rename that directory to the installed
/// tree's name, delete the fixed launcher and desktop-integration artifacts
/// that are not part of the runnable layout, and rename the payload directory
/// to the expected binary-root name. All paths are composed from the
/// descriptor; nothing depends on an ambient working directory.
pub open spec fn self_extract_acts(d: ArchiveDescriptor) -> Seq<FsAct> {
    let install = d.install_dir_spec();
    seq![
        FsAct::RemoveDirAllIfExists { path: install },
        FsAct::SetExecPerms { path: d.archive_path_spec() },
        FsAct::RunSelfExtract { path: d.archive_path_spec() },
        FsAct::Rename {
            from: join_spec(d.storage_directory@, "squashfs-root"@),
            to: install,
        },
        FsAct::RemoveFile { path: join_spec(install, "AppRun"@) },
        FsAct::RemoveFile { path: join_spec(install, "nvim.desktop"@) },
        FsAct::RemoveFile { path: join_spec(install, "nvim.png"@) },
        FsAct::Rename {
            from: join_spec(install, "usr"@),
            to: join_spec(install, "nvim-linux64"@),
        },
    ]
}

/// Plans the extraction of a self-extracting executable image. Nothing is
/// decoded here, so planning never fails; failures can only arise while the
/// plan is carried out.
pub fn extract_self_extracting(d: &ArchiveDescriptor) -> (r: Vec<FsOp>)
    ensures
        acts(r@) == self_extract_acts(*d),
{
    let install = d.install_dir();
    let archive = d.archive_path();
    let mut ops: Vec<FsOp> = Vec::new();
    ops.push(FsOp::RemoveDirAllIfExists(install.clone()));
    ops.push(FsOp::SetExecPerms(archive.clone()));
    ops.push(FsOp::RunSelfExtract(archive));
    ops.push(FsOp::Rename(join_str(&d.storage_directory, "squashfs-root"), install.clone()));
    ops.push(FsOp::RemoveFile(join_str(&install, "AppRun")));
    ops.push(FsOp::RemoveFile(join_str(&install, "nvim.desktop")));
    ops.push(FsOp::RemoveFile(join_str(&install, "nvim.png")));
    ops.push(FsOp::Rename(join_str(&install, "usr"), join_str(&install, "nvim-linux64")));
    proof {
        assert(acts(ops@) =~= self_extract_acts(*d));
    }
    ops
}

} // verus!
