use vstd::prelude::*;
use vstd::string::StringExecFns;

use crate::descriptor::ArchiveDescriptor;
use crate::errors::InstallError;
use crate::ops::{acts, lemma_acts_grow, FsAct, FsOp};
use crate::paths::{join_spec, join_str, min_u64, parent_of, parent_spec};
use crate::zip_backend::{zip_entries_of, zip_open_len, zip_read_entry};

verus! {

/// The actions that materialize one decoded zip entry under `dir`: a
/// directory entry becomes its directory; a file entry first ensures its
/// enclosing directory, then is written.
pub open spec fn zip_entry_acts(dir: Seq<char>, e: (Seq<char>, bool, Seq<u8>)) -> Seq<FsAct> {
    let dest = join_spec(dir, e.0);
    if e.1 {
        seq![FsAct::CreateDirAll { path: dest }]
    } else {
        seq![
            FsAct::CreateDirAll { path: parent_spec(dest) },
            FsAct::WriteFile { path: dest, data: e.2 },
        ]
    }
}

/// The actions of the first `n` zip entries, in entry order.
pub open spec fn zip_body_acts(
    dir: Seq<char>,
    ents: Seq<Option<(Seq<char>, bool, Seq<u8>)>>,
    n: int,
) -> Seq<FsAct>
    decreases n,
{
    if n <= 0 {
        Seq::empty()
    } else {
        zip_body_acts(dir, ents, n - 1) + zip_entry_acts(dir, ents[n - 1]->Some_0)
    }
}

/// The whole zip plan: replace any previous installed tree, create the fresh
/// destination directory, then materialize every entry.
pub open spec fn zip_plan_acts(
    d: ArchiveDescriptor,
    ents: Seq<Option<(Seq<char>, bool, Seq<u8>)>>,
) -> Seq<FsAct> {
    seq![
        FsAct::RemoveDirAllIfExists { path: d.install_dir_spec() },
        FsAct::CreateDir { path: d.install_dir_spec() },
    ] + zip_body_acts(d.install_dir_spec(), ents, ents.len() as int)
}

/// What a successful zip extraction returns: the plan, and one progress
/// report per processed entry against the known total.
#[derive(Debug)]
pub struct ZipOutcome {
    pub ops: Vec<FsOp>,
    pub progress: Vec<u64>,
    pub total: u64,
}

/// Plans the extraction of a zip archive.
///
/// Succeeds exactly when the container opens and every entry decodes; a
/// single undecodable entry aborts the rest with an error. On success the
/// actions are exactly the zip plan, and the progress reports rise one step
/// per entry, never past the entry count, ending at the count.
pub fn extract_zip(d: &ArchiveDescriptor, archive: &Vec<u8>) -> (r: Result<
    ZipOutcome,
    InstallError,
>)
    ensures
        zip_entries_of(archive@) is None ==> r == Err::<ZipOutcome, InstallError>(
            InstallError::ZipContainer,
        ),
        zip_entries_of(archive@) matches Some(ents) ==> {
            &&& (r is Ok <==> (forall|k: int| 0 <= k < ents.len() ==> ents[k] is Some))
            &&& (r is Err ==> r == Err::<ZipOutcome, InstallError>(InstallError::ZipEntry))
            &&& (r matches Ok(out) ==> {
                &&& acts(out.ops@) == zip_plan_acts(*d, ents)
                &&& out.total == ents.len()
                &&& out.progress@.len() == ents.len()
                &&& (forall|k: int|
                    0 <= k < ents.len() ==> out.progress@[k] == if k + 1 < out.total {
                        k + 1
                    } else {
                        out.total as int
                    })
                &&& (forall|k: int| 0 <= k < ents.len() ==> out.progress@[k] <= out.total)
                &&& (forall|k1: int, k2: int|
                    0 <= k1 <= k2 < ents.len() ==> out.progress@[k1] <= out.progress@[k2])
                &&& (ents.len() > 0 ==> out.progress@.last() == out.total)
            })
        },
{
    let n = match zip_open_len(archive) {
        Ok(n) => n,
        Err(_) => {
            return Err(InstallError::ZipContainer);
        },
    };
    let ghost ents = zip_entries_of(archive@)->Some_0;
    let install = d.install_dir();
    let mut ops: Vec<FsOp> = Vec::new();
    ops.push(FsOp::RemoveDirAllIfExists(install.clone()));
    ops.push(FsOp::CreateDir(install.clone()));
    let mut progress: Vec<u64> = Vec::new();
    let total: u64 = n as u64;
    let mut i: usize = 0;
    while i < n
        invariant
            zip_entries_of(archive@) == Some(ents),
            n == ents.len(),
            total == n,
            i <= n,
            install@ == d.install_dir_spec(),
            forall|k: int| 0 <= k < i ==> ents[k] is Some,
            acts(ops@) == seq![
                FsAct::RemoveDirAllIfExists { path: d.install_dir_spec() },
                FsAct::CreateDir { path: d.install_dir_spec() },
            ] + zip_body_acts(d.install_dir_spec(), ents, i as int),
            progress@.len() == i,
            forall|k: int|
                0 <= k < i ==> progress@[k] == if k + 1 < total {
                    k + 1
                } else {
                    total as int
                },
        decreases n - i,
    {
        let entry = match zip_read_entry(archive, i) {
            Ok(e) => e,
            Err(_) => {
                return Err(InstallError::ZipEntry);
            },
        };
        let dest = join_str(&install, entry.name.as_str());
        let ghost gdest = dest@;
        let ghost gdata = entry.data@;
        let ghost pre = ops@;
        if entry.is_dir {
            ops.push(FsOp::CreateDirAll(dest));
            proof {
                lemma_acts_grow(pre, ops@);
                assert(ops@.last()@ == (FsAct::CreateDirAll { path: gdest }));
                assert(acts(ops@) =~= acts(pre) + zip_entry_acts(
                    d.install_dir_spec(),
                    ents[i as int]->Some_0,
                ));
            }
        } else {
            proof {
                reveal_strlit("/");
                assert(dest@[install@.len() as int] == '/');
                assert(dest@.contains('/'));
            }
            let parent = match parent_of(&dest) {
                Some(p) => p,
                None => {
                    proof {
                        assert(false);
                    }
                    return Err(InstallError::ZipEntry);
                },
            };
            ops.push(FsOp::CreateDirAll(parent));
            let ghost mid = ops@;
            ops.push(FsOp::WriteFile(dest, entry.data));
            proof {
                lemma_acts_grow(pre, mid);
                lemma_acts_grow(mid, ops@);
                assert(mid.last()@ == (FsAct::CreateDirAll { path: parent_spec(gdest) }));
                assert(ops@.last()@ == (FsAct::WriteFile { path: gdest, data: gdata }));
                assert(acts(ops@) =~= acts(pre) + zip_entry_acts(
                    d.install_dir_spec(),
                    ents[i as int]->Some_0,
                ));
            }
        }
        progress.push(min_u64(i as u64 + 1, total));
        i = i + 1;
        proof {
            assert(acts(ops@) =~= seq![
                FsAct::RemoveDirAllIfExists { path: d.install_dir_spec() },
                FsAct::CreateDir { path: d.install_dir_spec() },
            ] + zip_body_acts(d.install_dir_spec(), ents, i as int));
        }
    }
    Ok(ZipOutcome { ops, progress, total })
}

} // verus!
