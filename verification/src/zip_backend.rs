use vstd::prelude::*;

verus! {

/// What the zip container holds, as a pure function of its bytes: `None` for
/// a container that cannot be opened, otherwise one element per entry, in
/// index order; an undecodable entry is `None`, a good one is its recorded
/// name, its directory flag, and its decompressed bytes.
pub uninterp spec fn zip_entries_of(b: Seq<u8>) -> Option<Seq<Option<(Seq<char>, bool, Seq<u8>)>>>;

/// One decoded zip entry.
pub struct ZipEntryData {
    /// The name recorded in the container, separators included.
    pub name: String,
    /// Whether the entry denotes a directory.
    pub is_dir: bool,
    /// The decompressed contents; empty for a directory.
    pub data: Vec<u8>,
}

/// Relies on `zip::ZipArchive::new` and `ZipArchive::len`: opening a container
/// over in-memory bytes succeeds or fails by those bytes alone, and `len` is
/// the entry count the central directory records.
#[verifier::external_body]
pub(crate) fn zip_open_len(b: &Vec<u8>) -> (r: Result<usize, ()>)
    ensures
        r is Ok <==> zip_entries_of(b@) is Some,
        r matches Ok(n) ==> n == zip_entries_of(b@)->Some_0.len(),
{
    match zip::ZipArchive::new(std::io::Cursor::new(b.as_slice())) {
        Ok(a) => Ok(a.len()),
        Err(_) => Err(()),
    }
}

/// Relies on `zip::ZipArchive::by_index` and `ZipFile::{name, is_dir}` plus the
/// entry's `Read` impl: for a fixed container and index they deterministically
/// yield the entry's recorded name, directory flag and decompressed bytes, or
/// fail on an undecodable entry.
#[verifier::external_body]
pub(crate) fn zip_read_entry(b: &Vec<u8>, i: usize) -> (r: Result<ZipEntryData, ()>)
    requires
        zip_entries_of(b@) is Some,
        i < zip_entries_of(b@)->Some_0.len(),
    ensures
        ({
            let e = zip_entries_of(b@)->Some_0[i as int];
            match r {
                Ok(out) => e matches Some(v) && out.name@ == v.0 && out.is_dir == v.1
                    && out.data@ == v.2,
                Err(_) => e is None,
            }
        }),
{
    let mut archive = match zip::ZipArchive::new(std::io::Cursor::new(b.as_slice())) {
        Ok(a) => a,
        Err(_) => return Err(()),
    };
    let mut f = match archive.by_index(i) {
        Ok(f) => f,
        Err(_) => return Err(()),
    };
    let name = f.name().to_owned();
    let is_dir = f.is_dir();
    let mut data = Vec::new();
    match std::io::Read::read_to_end(&mut f, &mut data) {
        Ok(_) => Ok(ZipEntryData { name, is_dir, data }),
        Err(_) => Err(()),
    }
}

} // verus!
