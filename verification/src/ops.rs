use vstd::prelude::*;

verus! {

/// One filesystem action of an installation plan.
///
/// The library never touches the disk itself: an extractor turns an archive
/// into an ordered list of these actions, and the surrounding program carries
/// them out in order, stopping at the first action that fails.
#[derive(Clone, Debug, PartialEq, Eq)]
pub enum FsOp {
    /// Remove the directory tree at the path if anything exists there.
    RemoveDirAllIfExists(String),
    /// Create a single directory; fails if it already exists.
    CreateDir(String),
    /// Create a directory and all missing ancestors; never fails on existing ones.
    CreateDirAll(String),
    /// Create (or overwrite) a file at the path with the given bytes.
    WriteFile(String, Vec<u8>),
    /// Remove the file at the path; fails if it is missing.
    RemoveFile(String),
    /// Rename the first path to the second; fails if the source is missing.
    Rename(String, String),
    /// Rename the first path to the second only if the source exists.
    RenameIfExists(String, String),
    /// Set read and execute (no write) permission bits on the file at the path.
    SetExecPerms(String),
    /// Run the file at the path as a self-extraction subprocess; it deposits a
    /// fixed-named output directory beside the archive and reads its input only.
    RunSelfExtract(String),
}

/// The mathematical form of a filesystem action, over sequences.
pub enum FsAct {
    RemoveDirAllIfExists { path: Seq<char> },
    CreateDir { path: Seq<char> },
    CreateDirAll { path: Seq<char> },
    WriteFile { path: Seq<char>, data: Seq<u8> },
    RemoveFile { path: Seq<char> },
    Rename { from: Seq<char>, to: Seq<char> },
    RenameIfExists { from: Seq<char>, to: Seq<char> },
    SetExecPerms { path: Seq<char> },
    RunSelfExtract { path: Seq<char> },
}

impl View for FsOp {
    type V = FsAct;

    open spec fn view(&self) -> FsAct {
        match self {
            FsOp::RemoveDirAllIfExists(p) => FsAct::RemoveDirAllIfExists { path: p@ },
            FsOp::CreateDir(p) => FsAct::CreateDir { path: p@ },
            FsOp::CreateDirAll(p) => FsAct::CreateDirAll { path: p@ },
            FsOp::WriteFile(p, d) => FsAct::WriteFile { path: p@, data: d@ },
            FsOp::RemoveFile(p) => FsAct::RemoveFile { path: p@ },
            FsOp::Rename(f, t) => FsAct::Rename { from: f@, to: t@ },
            FsOp::RenameIfExists(f, t) => FsAct::RenameIfExists { from: f@, to: t@ },
            FsOp::SetExecPerms(p) => FsAct::SetExecPerms { path: p@ },
            FsOp::RunSelfExtract(p) => FsAct::RunSelfExtract { path: p@ },
        }
    }
}

/// The actions of a list of operations, in order.
pub open spec fn acts(s: Seq<FsOp>) -> Seq<FsAct> {
    s.map_values(|op: FsOp| op@)
}

pub proof fn lemma_acts_push(s: Seq<FsOp>, op: FsOp)
    ensures
        acts(s.push(op)) =~= acts(s).push(op@),
{
}

/// After pushing one operation, the action list grows by that operation's
/// action.
pub proof fn lemma_acts_grow(pre: Seq<FsOp>, post: Seq<FsOp>)
    requires
        post.len() == pre.len() + 1,
        forall|j: int| 0 <= j < pre.len() ==> post[j] == pre[j],
    ensures
        acts(post) =~= acts(pre).push(post.last()@),
{
    assert(post =~= pre.push(post.last()));
    lemma_acts_push(pre, post.last());
}

/// True when the path names something strictly inside the directory.
pub open spec fn is_under(p: Seq<char>, dir: Seq<char>) -> bool {
    p.len() >= dir.len() + 1 && p.subrange(0, dir.len() as int + 1) == dir.push('/')
}

/// True when carrying out the action may cause whatever currently sits at the
/// path to cease to exist (removal, a rename away or over it, an overwrite).
pub open spec fn can_remove(a: FsAct, p: Seq<char>) -> bool {
    match a {
        FsAct::RemoveDirAllIfExists { path } => p == path || is_under(p, path),
        FsAct::CreateDir { .. } => false,
        FsAct::CreateDirAll { .. } => false,
        FsAct::WriteFile { path, .. } => p == path,
        FsAct::RemoveFile { path } => p == path,
        FsAct::Rename { from, to } => p == from || is_under(p, from) || p == to || is_under(
            p,
            to,
        ),
        FsAct::RenameIfExists { from, to } => p == from || is_under(p, from) || p == to
            || is_under(p, to),
        FsAct::SetExecPerms { .. } => false,
        FsAct::RunSelfExtract { .. } => false,
    }
}

} // verus!
