use vstd::prelude::*;
use vstd::string::StringExecFns;

use crate::descriptor::ArchiveDescriptor;
use crate::errors::InstallError;
use crate::ops::{acts, lemma_acts_grow, FsAct, FsOp};
use crate::paths::{ends_with_sep, join_spec, join_str, min_u64, parent_of, parent_spec};
use crate::targz_backend::{gunzip, gunzip_of, tar_entries_of, tar_read_entry};

verus! {

/// The fixed estimated entry total used to scale tar progress reports; the
/// tar format reveals no exact count up front.
pub const TAR_PROGRESS_TOTAL: u64 = 1692;

/// The actions that materialize one yielded tar item under `dir`. An item the
/// reader rejected contributes nothing: extraction is lenient here. A decoded
/// entry is a directory exactly when its recorded path ends with the path
/// separator — the format's own directory flag is not consulted; otherwise
/// its enclosing directory is ensured and the file is written.
pub open spec fn targz_entry_acts(dir: Seq<char>, e: Option<(Seq<char>, Seq<u8>)>) -> Seq<FsAct> {
    match e {
        None => Seq::empty(),
        Some(v) => {
            let dest = join_spec(dir, v.0);
            if v.0.len() > 0 && v.0.last() == '/' {
                seq![FsAct::CreateDirAll { path: dest }]
            } else {
                seq![
                    FsAct::CreateDirAll { path: parent_spec(dest) },
                    FsAct::WriteFile { path: dest, data: v.1 },
                ]
            }
        },
    }
}

/// The actions of the tar items with indices in `[lo, hi)`, in order.
pub open spec fn targz_acts_range(
    dir: Seq<char>,
    ents: Seq<Option<(Seq<char>, Seq<u8>)>>,
    lo: int,
    hi: int,
) -> Seq<FsAct>
    decreases hi - lo,
{
    if hi <= lo {
        Seq::empty()
    } else {
        targz_acts_range(dir, ents, lo, hi - 1) + targz_entry_acts(dir, ents[hi - 1])
    }
}

/// The actions after all entries: migrate the legacy directory name if it is
/// present, then set executable permission bits on the binary at the
/// platform's known relative path.
pub open spec fn targz_suffix_acts(d: ArchiveDescriptor, platform: Seq<char>) -> Seq<FsAct> {
    let install = d.install_dir_spec();
    seq![
        FsAct::RenameIfExists {
            from: join_spec(install, "nvim-osx64"@),
            to: join_spec(install, "nvim-macos"@),
        },
        FsAct::SetExecPerms { path: join_spec(install, platform) + "/bin/nvim"@ },
    ]
}

/// The whole gzip-tar plan: replace any previous installed tree, materialize
/// every decoded entry, then migrate the legacy name and fix permissions.
pub open spec fn targz_plan_acts(
    d: ArchiveDescriptor,
    platform: Seq<char>,
    ents: Seq<Option<(Seq<char>, Seq<u8>)>>,
) -> Seq<FsAct> {
    seq![FsAct::RemoveDirAllIfExists { path: d.install_dir_spec() }] + targz_acts_range(
        d.install_dir_spec(),
        ents,
        0,
        ents.len() as int,
    ) + targz_suffix_acts(d, platform)
}

/// How many of the first `n` yielded tar items the reader rejected.
pub open spec fn rejected_count(ents: Seq<Option<(Seq<char>, Seq<u8>)>>, n: int) -> int
    decreases n,
{
    if n <= 0 {
        0
    } else {
        rejected_count(ents, n - 1) + if ents[n - 1] is None {
            1int
        } else {
            0int
        }
    }
}

/// What a successful gzip-tar extraction returns.
#[derive(Debug)]
pub struct TargzOutcome {
    pub ops: Vec<FsOp>,
    pub progress: Vec<u64>,
    pub total: u64,
    /// How many yielded items were rejected and skipped.
    pub skipped: u64,
}

/// Plans the extraction of a gzip-compressed tar archive.
///
/// Succeeds exactly when the gzip stream decodes; a rejected tar item is
/// skipped and the remaining items are still processed. On success the
/// actions are exactly the gzip-tar plan, and one progress report is made per
/// decoded entry against the fixed estimated total.
pub fn extract_targz(d: &ArchiveDescriptor, archive: &Vec<u8>, platform: &String) -> (r: Result<
    TargzOutcome,
    InstallError,
>)
    ensures
        r is Ok <==> gunzip_of(archive@) is Some,
        r is Err ==> r == Err::<TargzOutcome, InstallError>(InstallError::GzipStream),
        r matches Ok(out) ==> {
            let ents = tar_entries_of(gunzip_of(archive@)->Some_0);
            &&& acts(out.ops@) == targz_plan_acts(*d, platform@, ents)
            &&& out.total == TAR_PROGRESS_TOTAL
            &&& out.skipped == rejected_count(ents, ents.len() as int)
            &&& out.progress@.len() + out.skipped == ents.len()
            &&& (forall|k: int|
                0 <= k < out.progress@.len() ==> out.progress@[k] == if k + 1
                    < TAR_PROGRESS_TOTAL {
                    k + 1
                } else {
                    TAR_PROGRESS_TOTAL as int
                })
            &&& (forall|k: int|
                0 <= k < out.progress@.len() ==> out.progress@[k] <= TAR_PROGRESS_TOTAL)
            &&& (forall|k1: int, k2: int|
                0 <= k1 <= k2 < out.progress@.len() ==> out.progress@[k1] <= out.progress@[k2])
        },
{
    let tar = match gunzip(archive) {
        Ok(t) => t,
        Err(_) => {
            return Err(InstallError::GzipStream);
        },
    };
    let ghost ents = tar_entries_of(tar@);
    let install = d.install_dir();
    let mut ops: Vec<FsOp> = Vec::new();
    ops.push(FsOp::RemoveDirAllIfExists(install.clone()));
    proof {
        assert(acts(ops@) =~= seq![FsAct::RemoveDirAllIfExists { path: d.install_dir_spec() }]);
    }
    let mut progress: Vec<u64> = Vec::new();
    let mut skipped: u64 = 0;
    let mut i: usize = 0;
    let tar_len = tar.len();
    loop
        invariant
            tar_entries_of(tar@) == ents,
            tar_len == tar@.len(),
            i <= ents.len(),
            skipped <= i,
            install@ == d.install_dir_spec(),
            acts(ops@) == seq![FsAct::RemoveDirAllIfExists { path: d.install_dir_spec() }]
                + targz_acts_range(d.install_dir_spec(), ents, 0, i as int),
            skipped == rejected_count(ents, i as int),
            progress@.len() + skipped == i,
            forall|k: int|
                0 <= k < progress@.len() ==> progress@[k] == if k + 1 < TAR_PROGRESS_TOTAL {
                    k + 1
                } else {
                    TAR_PROGRESS_TOTAL as int
                },
        ensures
            i == ents.len(),
            skipped == rejected_count(ents, i as int),
            progress@.len() + skipped == i,
            install@ == d.install_dir_spec(),
            acts(ops@) == seq![FsAct::RemoveDirAllIfExists { path: d.install_dir_spec() }]
                + targz_acts_range(d.install_dir_spec(), ents, 0, i as int),
            forall|k: int|
                0 <= k < progress@.len() ==> progress@[k] == if k + 1 < TAR_PROGRESS_TOTAL {
                    k + 1
                } else {
                    TAR_PROGRESS_TOTAL as int
                },
        decreases ents.len() - i,
    {
        match tar_read_entry(&tar, i) {
            None => {
                break ;
            },
            Some(item) => {
                match item {
                    Err(_) => {
                        skipped = skipped + 1;
                        i = i + 1;
                        proof {
                            assert(acts(ops@) =~= seq![
                                FsAct::RemoveDirAllIfExists { path: d.install_dir_spec() },
                            ] + targz_acts_range(d.install_dir_spec(), ents, 0, i as int));
                        }
                    },
                    Ok(entry) => {
                        let dest = join_str(&install, entry.path.as_str());
                        let ghost gdest = dest@;
                        let ghost gdata = entry.data@;
                        let ghost pre = ops@;
                        if ends_with_sep(&entry.path) {
                            ops.push(FsOp::CreateDirAll(dest));
                            proof {
                                lemma_acts_grow(pre, ops@);
                                assert(ops@.last()@ == (FsAct::CreateDirAll { path: gdest }));
                                assert(acts(ops@) =~= acts(pre) + targz_entry_acts(
                                    d.install_dir_spec(),
                                    ents[i as int],
                                ));
                            }
                        } else {
                            proof {
                                reveal_strlit("/");
                                assert(dest@[install@.len() as int] == '/');
                                assert(dest@.contains('/'));
                            }
                            let parent = match parent_of(&dest) {
                                Some(p) => p,
                                None => {
                                    proof {
                                        assert(false);
                                    }
                                    return Err(InstallError::GzipStream);
                                },
                            };
                            ops.push(FsOp::CreateDirAll(parent));
                            let ghost mid = ops@;
                            ops.push(FsOp::WriteFile(dest, entry.data));
                            proof {
                                lemma_acts_grow(pre, mid);
                                lemma_acts_grow(mid, ops@);
                                assert(mid.last()@ == (FsAct::CreateDirAll {
                                    path: parent_spec(gdest),
                                }));
                                assert(ops@.last()@ == (FsAct::WriteFile {
                                    path: gdest,
                                    data: gdata,
                                }));
                                assert(acts(ops@) =~= acts(pre) + targz_entry_acts(
                                    d.install_dir_spec(),
                                    ents[i as int],
                                ));
                            }
                        }
                        progress.push(min_u64(progress.len() as u64 + 1, TAR_PROGRESS_TOTAL));
                        i = i + 1;
                        proof {
                            assert(acts(ops@) =~= seq![
                                FsAct::RemoveDirAllIfExists { path: d.install_dir_spec() },
                            ] + targz_acts_range(d.install_dir_spec(), ents, 0, i as int));
                        }
                    },
                }
            },
        }
    }
    let osx_from = join_str(&install, "nvim-osx64");
    let osx_to = join_str(&install, "nvim-macos");
    let ghost pre = ops@;
    ops.push(FsOp::RenameIfExists(osx_from, osx_to));
    let ghost mid = ops@;
    let mut bin = join_str(&install, platform.as_str());
    bin.append("/bin/nvim");
    let ghost gbin = bin@;
    ops.push(FsOp::SetExecPerms(bin));
    proof {
        lemma_acts_grow(pre, mid);
        lemma_acts_grow(mid, ops@);
        assert(mid.last()@ == (FsAct::RenameIfExists {
            from: join_spec(d.install_dir_spec(), "nvim-osx64"@),
            to: join_spec(d.install_dir_spec(), "nvim-macos"@),
        }));
        assert(ops@.last()@ == (FsAct::SetExecPerms { path: gbin }));
        assert(acts(ops@) =~= targz_plan_acts(*d, platform@, ents));
    }
    Ok(TargzOutcome { ops, progress, total: TAR_PROGRESS_TOTAL, skipped })
}

/// The plan always ends by granting execute permission to the binary at the
/// platform's known relative path inside the installed tree; an install
/// without those bits never counts as complete.
pub proof fn lemma_plan_ends_with_exec_perms(
    d: ArchiveDescriptor,
    platform: Seq<char>,
    ents: Seq<Option<(Seq<char>, Seq<u8>)>>,
)
    ensures
        targz_plan_acts(d, platform, ents).len() > 0,
        targz_plan_acts(d, platform, ents).last() == (FsAct::SetExecPerms {
            path: join_spec(d.install_dir_spec(), platform) + "/bin/nvim"@,
        }),
{
}

/// An entry whose recorded path ends with the path separator is materialized
/// as a directory, never as a file: among the planned actions, no file is
/// ever written at a path ending with the separator, as long as every decoded
/// entry has a non-empty recorded path.
pub proof fn lemma_separator_entry_never_file(
    dir: Seq<char>,
    ents: Seq<Option<(Seq<char>, Seq<u8>)>>,
    lo: int,
    hi: int,
)
    requires
        0 <= lo <= hi <= ents.len(),
        forall|k: int| lo <= k < hi ==> (#[trigger] ents[k] matches Some(v) ==> v.0.len() > 0),
    ensures
        forall|j: int|
            0 <= j < targz_acts_range(dir, ents, lo, hi).len() ==> (#[trigger] targz_acts_range(
                dir,
                ents,
                lo,
                hi,
            )[j] matches FsAct::WriteFile { path, .. } ==> path.len() > 0 && path.last() != '/'),
    decreases hi - lo,
{
    if lo < hi {
        lemma_separator_entry_never_file(dir, ents, lo, hi - 1);
        let head = targz_acts_range(dir, ents, lo, hi - 1);
        let tail = targz_entry_acts(dir, ents[hi - 1]);
        assert forall|j: int|
            0 <= j < targz_acts_range(dir, ents, lo, hi).len() implies (#[trigger] targz_acts_range(
            dir,
            ents,
            lo,
            hi,
        )[j] matches FsAct::WriteFile { path, .. } ==> path.len() > 0 && path.last() != '/') by {
            if j < head.len() {
                assert(targz_acts_range(dir, ents, lo, hi)[j] == head[j]);
            } else {
                assert(targz_acts_range(dir, ents, lo, hi)[j] == tail[j - head.len()]);
                match ents[hi - 1] {
                    Some(v) => {
                        if !(v.0.len() > 0 && v.0.last() == '/') {
                            let dest = join_spec(dir, v.0);
                            assert(dest.len() == dir.len() + "/"@.len() + v.0.len());
                            assert(dest.last() == v.0.last());
                        }
                    },
                    None => {},
                }
            }
        }
    }
}

/// The planned actions over a range split at any midpoint.
pub proof fn lemma_targz_range_split(
    dir: Seq<char>,
    ents: Seq<Option<(Seq<char>, Seq<u8>)>>,
    lo: int,
    m: int,
    hi: int,
)
    requires
        lo <= m <= hi,
    ensures
        targz_acts_range(dir, ents, lo, hi) == targz_acts_range(dir, ents, lo, m)
            + targz_acts_range(dir, ents, m, hi),
    decreases hi - m,
{
    if hi == m {
        assert(targz_acts_range(dir, ents, lo, hi) =~= targz_acts_range(dir, ents, lo, m)
            + targz_acts_range(dir, ents, m, hi));
    } else {
        lemma_targz_range_split(dir, ents, lo, m, hi - 1);
        assert(targz_acts_range(dir, ents, lo, hi) =~= targz_acts_range(dir, ents, lo, m)
            + targz_acts_range(dir, ents, m, hi));
    }
}

/// A rejected item amid otherwise-decodable items does not disturb the rest:
/// the actions fall apart into the actions before it, its own contribution
/// (none, when it is rejected), and the actions of everything after it,
/// whatever the item at `k` is.
pub proof fn lemma_item_isolated(
    dir: Seq<char>,
    ents: Seq<Option<(Seq<char>, Seq<u8>)>>,
    k: int,
)
    requires
        0 <= k < ents.len(),
    ensures
        targz_acts_range(dir, ents, 0, ents.len() as int) == targz_acts_range(dir, ents, 0, k)
            + targz_entry_acts(dir, ents[k]) + targz_acts_range(
            dir,
            ents,
            k + 1,
            ents.len() as int,
        ),
        ents[k] is None ==> targz_entry_acts(dir, ents[k]) == Seq::<FsAct>::empty(),
{
    let n = ents.len() as int;
    lemma_targz_range_split(dir, ents, 0, k + 1, n);
    lemma_targz_range_split(dir, ents, 0, k, k + 1);
    assert(targz_acts_range(dir, ents, k, k + 1) =~= targz_entry_acts(dir, ents[k]));
}

} // verus!
