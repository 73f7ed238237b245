use vstd::prelude::*;

use crate::descriptor::{
    lemma_archive_apart_from_install, lemma_archive_apart_from_name, ArchiveDescriptor,
};
use crate::errors::InstallError;
use crate::ops::{acts, can_remove, lemma_acts_grow, FsAct, FsOp};
use crate::paths::join_spec;
use crate::selfextract::{extract_self_extracting, self_extract_acts};
use crate::targz_backend::{gunzip_of, tar_entries_of};
use crate::targz_extract::{
    extract_targz, rejected_count, targz_acts_range, targz_plan_acts, TAR_PROGRESS_TOTAL,
};
use crate::zip_backend::zip_entries_of;
use crate::zip_extract::{extract_zip, zip_body_acts, zip_plan_acts};

verus! {

/// Which extraction procedure the host platform calls for. The real selector
/// is the build target, not the archive's format string; the surrounding
/// program picks exactly one variant.
#[derive(Clone, Copy, Debug, PartialEq, Eq, Structural)]
pub enum Platform {
    /// A self-mounting executable image.
    SelfExtracting,
    /// A zip container.
    Zip,
    /// A gzip-compressed tar stream.
    GzipTar,
}

/// The extraction actions the selected variant plans for the archive.
pub open spec fn extraction_acts(
    p: Platform,
    d: ArchiveDescriptor,
    bytes: Seq<u8>,
    platform_name: Seq<char>,
) -> Seq<FsAct> {
    match p {
        Platform::SelfExtracting => self_extract_acts(d),
        Platform::Zip => zip_plan_acts(d, zip_entries_of(bytes)->Some_0),
        Platform::GzipTar => targz_plan_acts(
            d,
            platform_name,
            tar_entries_of(gunzip_of(bytes)->Some_0),
        ),
    }
}

/// When the selected variant can plan the extraction at all.
pub open spec fn extraction_succeeds(p: Platform, bytes: Seq<u8>) -> bool {
    match p {
        Platform::SelfExtracting => true,
        Platform::Zip => zip_entries_of(bytes) matches Some(ents) && (forall|k: int|
            0 <= k < ents.len() ==> (#[trigger] ents[k]) is Some),
        Platform::GzipTar => gunzip_of(bytes) is Some,
    }
}

/// What a successful installation returns: the full ordered plan, archive
/// removal included, and the extractor's progress reports.
#[derive(Debug)]
pub struct InstallOutcome {
    pub ops: Vec<FsOp>,
    pub progress: Vec<u64>,
    pub progress_total: u64,
}

/// No action planned for a zip entry can remove the archive file itself.
proof fn lemma_zip_body_spares_archive(
    d: ArchiveDescriptor,
    ents: Seq<Option<(Seq<char>, bool, Seq<u8>)>>,
    n: int,
)
    ensures
        forall|j: int|
            0 <= j < zip_body_acts(d.install_dir_spec(), ents, n).len() ==> !can_remove(
                #[trigger] zip_body_acts(d.install_dir_spec(), ents, n)[j],
                d.archive_path_spec(),
            ),
    decreases n,
{
    lemma_archive_apart_from_install(d);
    if n > 0 {
        lemma_zip_body_spares_archive(d, ents, n - 1);
        let dir = d.install_dir_spec();
        let head = zip_body_acts(dir, ents, n - 1);
        let e = ents[n - 1]->Some_0;
        let tail = crate::zip_extract::zip_entry_acts(dir, e);
        assert forall|j: int|
            0 <= j < zip_body_acts(dir, ents, n).len() implies !can_remove(
            #[trigger] zip_body_acts(dir, ents, n)[j],
            d.archive_path_spec(),
        ) by {
            if j < head.len() {
                assert(zip_body_acts(dir, ents, n)[j] == head[j]);
            } else {
                assert(zip_body_acts(dir, ents, n)[j] == tail[j - head.len()]);
                assert(join_spec(dir, e.0) != d.archive_path_spec());
            }
        }
    }
}

/// No action planned for a tar item can remove the archive file itself.
proof fn lemma_targz_body_spares_archive(
    d: ArchiveDescriptor,
    ents: Seq<Option<(Seq<char>, Seq<u8>)>>,
    n: int,
)
    ensures
        forall|j: int|
            0 <= j < targz_acts_range(d.install_dir_spec(), ents, 0, n).len() ==> !can_remove(
                #[trigger] targz_acts_range(d.install_dir_spec(), ents, 0, n)[j],
                d.archive_path_spec(),
            ),
    decreases n,
{
    lemma_archive_apart_from_install(d);
    if n > 0 {
        lemma_targz_body_spares_archive(d, ents, n - 1);
        let dir = d.install_dir_spec();
        let head = targz_acts_range(dir, ents, 0, n - 1);
        let tail = crate::targz_extract::targz_entry_acts(dir, ents[n - 1]);
        assert forall|j: int|
            0 <= j < targz_acts_range(dir, ents, 0, n).len() implies !can_remove(
            #[trigger] targz_acts_range(dir, ents, 0, n)[j],
            d.archive_path_spec(),
        ) by {
            if j < head.len() {
                assert(targz_acts_range(dir, ents, 0, n)[j] == head[j]);
            } else {
                assert(targz_acts_range(dir, ents, 0, n)[j] == tail[j - head.len()]);
                match ents[n - 1] {
                    Some(v) => {
                        assert(join_spec(dir, v.0) != d.archive_path_spec());
                    },
                    None => {},
                }
            }
        }
    }
}

/// Installs from a downloaded archive: plans the selected variant's
/// extraction, then — only after every extraction action — the removal of the
/// original archive file.
///
/// Succeeds exactly when the variant can plan the extraction; an extraction
/// error is propagated unchanged and nothing is planned, so a failed install
/// leaves the archive for a later retry. On success the actions are exactly
/// the variant's plan followed by the archive's removal; the first action
/// replaces any previous installed tree, the last and only removal of the
/// archive file comes after everything else.
pub fn install_plan(
    p: Platform,
    d: &ArchiveDescriptor,
    archive: &Vec<u8>,
    platform_name: &String,
) -> (r: Result<InstallOutcome, InstallError>)
    ensures
        r is Ok <==> extraction_succeeds(p, archive@),
        r matches Ok(out) ==> acts(out.ops@) == extraction_acts(p, *d, archive@, platform_name@)
            + seq![FsAct::RemoveFile { path: d.archive_path_spec() }],
        r matches Ok(out) ==> {
            &&& out.ops@.len() > 0
            &&& acts(out.ops@)[0] == (FsAct::RemoveDirAllIfExists { path: d.install_dir_spec() })
            &&& acts(out.ops@).last() == (FsAct::RemoveFile { path: d.archive_path_spec() })
        },
        d.wf() ==> (r matches Ok(out) ==> forall|j: int|
            0 <= j < acts(out.ops@).len() - 1 ==> !can_remove(
                #[trigger] acts(out.ops@)[j],
                d.archive_path_spec(),
            )),
        p == Platform::SelfExtracting ==> r is Ok,
        p == Platform::Zip && zip_entries_of(archive@) is None ==> r == Err::<
            InstallOutcome,
            InstallError,
        >(InstallError::ZipContainer),
        p == Platform::Zip && zip_entries_of(archive@) is Some && r is Err ==> r == Err::<
            InstallOutcome,
            InstallError,
        >(InstallError::ZipEntry),
        p == Platform::GzipTar && r is Err ==> r == Err::<InstallOutcome, InstallError>(
            InstallError::GzipStream,
        ),
        p == Platform::SelfExtracting ==> (r matches Ok(out) ==> out.progress@.len() == 0),
        p == Platform::Zip ==> (r matches Ok(out) ==> {
            let ents = zip_entries_of(archive@)->Some_0;
            &&& out.progress_total == ents.len()
            &&& out.progress@.len() == ents.len()
            &&& (forall|k: int|
                0 <= k < ents.len() ==> out.progress@[k] == if k + 1 < out.progress_total {
                    k + 1
                } else {
                    out.progress_total as int
                })
            &&& (forall|k1: int, k2: int|
                0 <= k1 <= k2 < ents.len() ==> out.progress@[k1] <= out.progress@[k2])
            &&& (ents.len() > 0 ==> out.progress@.last() == out.progress_total)
        }),
        p == Platform::GzipTar ==> (r matches Ok(out) ==> {
            let ents = tar_entries_of(gunzip_of(archive@)->Some_0);
            &&& out.progress_total == TAR_PROGRESS_TOTAL
            &&& out.progress@.len() + rejected_count(ents, ents.len() as int) == ents.len()
            &&& (forall|k: int|
                0 <= k < out.progress@.len() ==> out.progress@[k] == if k + 1
                    < TAR_PROGRESS_TOTAL {
                    k + 1
                } else {
                    TAR_PROGRESS_TOTAL as int
                })
            &&& (forall|k1: int, k2: int|
                0 <= k1 <= k2 < out.progress@.len() ==> out.progress@[k1] <= out.progress@[k2])
        }),
{
    match p {
        Platform::SelfExtracting => {
            let mut ops = extract_self_extracting(d);
            let ghost pre = ops@;
            ops.push(FsOp::RemoveFile(d.archive_path()));
            proof {
                lemma_acts_grow(pre, ops@);
                assert(acts(ops@) =~= self_extract_acts(*d) + seq![
                    FsAct::RemoveFile { path: d.archive_path_spec() },
                ]);
                if d.wf() {
                    lemma_archive_apart_from_install(*d);
                    reveal_strlit("squashfs-root");
                    assert(!"squashfs-root"@.contains('.')) by {
                        if "squashfs-root"@.contains('.') {
                            let k = choose|k: int|
                                0 <= k < "squashfs-root"@.len() && "squashfs-root"@[k] == '.';
                            assert(false);
                        }
                    }
                    assert(!"squashfs-root"@.contains('/')) by {
                        if "squashfs-root"@.contains('/') {
                            let k = choose|k: int|
                                0 <= k < "squashfs-root"@.len() && "squashfs-root"@[k] == '/';
                            assert(false);
                        }
                    }
                    lemma_archive_apart_from_name(*d, "squashfs-root"@);
                }
            }
            Ok(InstallOutcome { ops, progress: Vec::new(), progress_total: 0 })
        },
        Platform::Zip => {
            match extract_zip(d, archive) {
                Err(e) => Err(e),
                Ok(out) => {
                    let mut ops = out.ops;
                    let ghost pre = ops@;
                    ops.push(FsOp::RemoveFile(d.archive_path()));
                    proof {
                        lemma_acts_grow(pre, ops@);
                        let ghost ents = zip_entries_of(archive@)->Some_0;
                        assert(acts(ops@) =~= zip_plan_acts(*d, ents) + seq![
                            FsAct::RemoveFile { path: d.archive_path_spec() },
                        ]);
                        if d.wf() {
                            lemma_archive_apart_from_install(*d);
                            lemma_zip_body_spares_archive(*d, ents, ents.len() as int);
                        }
                    }
                    Ok(InstallOutcome {
                        ops,
                        progress: out.progress,
                        progress_total: out.total,
                    })
                },
            }
        },
        Platform::GzipTar => {
            match extract_targz(d, archive, platform_name) {
                Err(e) => Err(e),
                Ok(out) => {
                    let mut ops = out.ops;
                    let ghost pre = ops@;
                    ops.push(FsOp::RemoveFile(d.archive_path()));
                    proof {
                        lemma_acts_grow(pre, ops@);
                        let ghost ents = tar_entries_of(gunzip_of(archive@)->Some_0);
                        assert(acts(ops@) =~= targz_plan_acts(*d, platform_name@, ents) + seq![
                            FsAct::RemoveFile { path: d.archive_path_spec() },
                        ]);
                        if d.wf() {
                            lemma_archive_apart_from_install(*d);
                            lemma_targz_body_spares_archive(*d, ents, ents.len() as int);
                        }
                    }
                    Ok(InstallOutcome {
                        ops,
                        progress: out.progress,
                        progress_total: out.total,
                    })
                },
            }
        },
    }
}

} // verus!
