use vstd::prelude::*;

verus! {

/// What the gzip stream decompresses to, as a pure function of its bytes:
/// `None` for a stream the decoder rejects, otherwise the decompressed bytes.
pub uninterp spec fn gunzip_of(b: Seq<u8>) -> Option<Seq<u8>>;

/// Relies on `flate2::read::GzDecoder` driven by `Read::read_to_end`: the
/// decompression of in-memory bytes depends on those bytes alone.
#[verifier::external_body]
pub(crate) fn gunzip(b: &Vec<u8>) -> (r: Result<Vec<u8>, ()>)
    ensures
        r is Ok <==> gunzip_of(b@) is Some,
        r matches Ok(out) ==> out@ == gunzip_of(b@)->Some_0,
{
    let mut out = Vec::new();
    let mut dec = flate2::read::GzDecoder::new(b.as_slice());
    match std::io::Read::read_to_end(&mut dec, &mut out) {
        Ok(_) => Ok(out),
        Err(_) => Err(()),
    }
}

/// What the tar stream's entry iterator yields, as a pure function of the
/// (already decompressed) bytes: one element per yielded item, in order; an
/// item the reader rejects is `None`, a good one is its recorded path and its
/// contents. A path the tar reader rejects, or one that is not text, also
/// counts as rejected.
pub uninterp spec fn tar_entries_of(b: Seq<u8>) -> Seq<Option<(Seq<char>, Seq<u8>)>>;

/// One decoded tar entry.
pub struct TarEntryData {
    /// The path recorded in the stream, separators included.
    pub path: String,
    /// The entry's contents; empty for a directory.
    pub data: Vec<u8>,
}

/// Relies on `tar::Archive::entries` over in-memory bytes: iteration is
/// deterministic in the bytes, every yielded item consumed at least one byte
/// of a 512-byte header block (so there are no more items than bytes), and
/// `Entry::path` and the entry's `Read` impl yield its recorded path and
/// contents.
#[verifier::external_body]
pub(crate) fn tar_read_entry(b: &Vec<u8>, i: usize) -> (r: Option<Result<TarEntryData, ()>>)
    ensures
        r is Some ==> i < tar_entries_of(b@).len() <= b@.len(),
        r is None ==> i >= tar_entries_of(b@).len(),
        (match r {
            Some(item) => match tar_entries_of(b@)[i as int] {
                Some(v) => item matches Ok(out) && out.path@ == v.0 && out.data@ == v.1,
                None => item is Err,
            },
            None => true,
        }),
{
    let mut archive = tar::Archive::new(b.as_slice());
    let item = match archive.entries() {
        Ok(mut es) => es.nth(i)?,
        Err(_) => return None,
    };
    let mut e = match item {
        Ok(e) => e,
        Err(_) => return Some(Err(())),
    };
    let path = e.path().ok().and_then(|p| p.to_str().map(|s| s.to_owned()));
    let mut data = Vec::new();
    match (path, std::io::Read::read_to_end(&mut e, &mut data)) {
        (Some(path), Ok(_)) => Some(Ok(TarEntryData { path, data })),
        _ => Some(Err(())),
    }
}

} // verus!
