use vstd::prelude::*;
use vstd::string::StringExecFns;

use crate::ops::is_under;
use crate::paths::join_str;

verus! {

/// Where a downloaded archive lies and what the installed tree is called.
///
/// The archive sits at `storage_directory/base_name.format_extension`; the
/// installed tree is created at `storage_directory/base_name`.
#[derive(Clone, Debug)]
pub struct ArchiveDescriptor {
    /// Directory holding the archive, and where the installed tree is created.
    pub storage_directory: String,
    /// Version-derived identifier: the archive's filename stem and the name of
    /// the installed directory.
    pub base_name: String,
    /// Suffix identifying the archive's format.
    pub format_extension: String,
}

impl ArchiveDescriptor {
    /// A descriptor as the download stage hands it over: the identifier is a
    /// single non-empty path component, and so is the extension.
    pub open spec fn wf(self) -> bool {
        &&& self.base_name@.len() > 0
        &&& !self.base_name@.contains('/')
        &&& !self.format_extension@.contains('/')
    }

    /// The path of the installed tree.
    pub open spec fn install_dir_spec(self) -> Seq<char> {
        self.storage_directory@ + "/"@ + self.base_name@
    }

    /// The path of the downloaded archive file.
    pub open spec fn archive_path_spec(self) -> Seq<char> {
        self.install_dir_spec() + "."@ + self.format_extension@
    }

    pub fn install_dir(&self) -> (r: String)
        ensures
            r@ == self.install_dir_spec(),
    {
        join_str(&self.storage_directory, self.base_name.as_str())
    }

    pub fn archive_path(&self) -> (r: String)
        ensures
            r@ == self.archive_path_spec(),
    {
        let mut r = self.install_dir();
        r.append(".");
        r.append(self.format_extension.as_str());
        r
    }
}

/// The archive file is never the installed tree, nothing inside it, nor any
/// path placed inside it: its name continues the tree's name with a dot, not
/// with a separator.
pub proof fn lemma_archive_apart_from_install(d: ArchiveDescriptor)
    ensures
        d.archive_path_spec() != d.install_dir_spec(),
        !is_under(d.archive_path_spec(), d.install_dir_spec()),
        forall|x: Seq<char>| (d.install_dir_spec() + "/"@ + x) != d.archive_path_spec(),
        forall|x: Seq<char>| !is_under(d.archive_path_spec(), d.install_dir_spec() + "/"@ + x),
{
    reveal_strlit("/");
    reveal_strlit(".");
    let inst = d.install_dir_spec();
    let arch = d.archive_path_spec();
    let il = inst.len() as int;
    assert(arch[il] == '.');
    assert(arch.len() > il);
    assert(!is_under(arch, inst)) by {
        if is_under(arch, inst) {
            assert(arch.subrange(0, il + 1)[il] == arch[il]);
            assert(inst.push('/')[il] == '/');
        }
    }
    assert forall|x: Seq<char>| (inst + "/"@ + x) != arch by {
        if (inst + "/"@ + x) == arch {
            assert((inst + "/"@ + x)[il] == '/');
        }
    }
    assert forall|x: Seq<char>| !is_under(arch, inst + "/"@ + x) by {
        let dir = inst + "/"@ + x;
        if is_under(arch, dir) {
            assert(arch.subrange(0, dir.len() as int + 1)[il] == arch[il]);
            assert(dir.push('/')[il] == dir[il]);
            assert(dir[il] == '/');
        }
    }
}

/// The archive file is not the self-extraction output directory nor anything
/// inside it: the archive's name holds a dot where that name has none.
pub proof fn lemma_archive_apart_from_name(d: ArchiveDescriptor, name: Seq<char>)
    requires
        d.wf(),
        !name.contains('.'),
        !name.contains('/'),
    ensures
        (d.storage_directory@ + "/"@ + name) != d.archive_path_spec(),
        !is_under(d.archive_path_spec(), d.storage_directory@ + "/"@ + name),
{
    reveal_strlit("/");
    reveal_strlit(".");
    let sl = d.storage_directory@.len() as int;
    let bl = d.base_name@.len() as int;
    let arch = d.archive_path_spec();
    let fixed = d.storage_directory@ + "/"@ + name;
    // The character of the archive path just after the base name is the dot.
    assert(arch[sl + 1 + bl] == '.');
    assert(arch.len() == sl + 1 + bl + 1 + d.format_extension@.len());
    if fixed == arch {
        // Same length forces the dot inside `name`, which has none.
        assert(fixed.len() == sl + 1 + name.len());
        assert(bl < name.len());
        assert(fixed[sl + 1 + bl] == name[bl]);
        assert(name.contains('.')) by {
            assert(name[bl] == '.');
        }
        assert(false);
    }
    if is_under(arch, fixed) {
        let pre = fixed.push('/');
        assert(arch.subrange(0, fixed.len() as int + 1) == pre);
        if bl < name.len() {
            // The dot would sit inside `name`.
            assert(arch.subrange(0, fixed.len() as int + 1)[sl + 1 + bl] == arch[sl + 1 + bl]);
            assert(pre[sl + 1 + bl] == name[bl]);
            assert(name.contains('.')) by {
                assert(name[bl] == '.');
            }
        } else if bl == name.len() {
            // The dot would sit on the appended separator.
            assert(arch.subrange(0, fixed.len() as int + 1)[sl + 1 + bl] == arch[sl + 1 + bl]);
            assert(pre[sl + 1 + bl] == '/');
        } else {
            // The appended separator would sit inside the base name.
            assert(arch.subrange(0, fixed.len() as int + 1)[sl + 1 + name.len() as int] == arch[sl + 1
                + name.len() as int]);
            assert(pre[sl + 1 + name.len() as int] == '/');
            assert(arch[sl + 1 + name.len() as int] == d.base_name@[name.len() as int]);
            assert(d.base_name@.contains('/')) by {
                assert(d.base_name@[name.len() as int] == '/');
            }
        }
        assert(false);
    }
}

} // verus!
