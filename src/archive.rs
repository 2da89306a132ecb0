//! The zip writer the package archive is written with, as far as the library
//! relies on it, and the outside error types that come with it.
//!
//! An archive in progress is seen as the list of its entries, each a name,
//! the compression it is stored with and the bytes written to it, in the
//! order they were started; and as open until it is finished or a write to
//! it fails.

use vstd::prelude::*;
use std::io::{Cursor, Write};
use zip::result::ZipError;
use zip::write::{FileOptions, ZipWriter};
use zip::CompressionMethod;

verus! {

/// `std::io::Error`, carried through the library's errors as it is.
#[verifier::external_type_specification]
#[verifier::external_body]
pub struct ExIoError(std::io::Error);

/// `zip::result::ZipError`, carried through the library's errors as it is.
#[verifier::external_type_specification]
#[verifier::external_body]
pub struct ExZipError(zip::result::ZipError);

/// How an entry's bytes are stored in the archive.
#[derive(Clone, Copy, Debug, PartialEq, Eq, Structural)]
pub enum Compression {
    Stored,
    Deflated,
}

/// An archive being written into memory: `zip::ZipWriter` over an in-memory
/// buffer, reached only through the functions below.
#[verifier::external_body]
pub struct ZipBuffer {
    writer: ZipWriter<Cursor<Vec<u8>>>,
}

/// The largest number of bytes an entry is written with here: deflating so
/// many bytes stays within the 4 GiB an entry may take without zip64 sizes.
pub const MAX_ENTRY_BYTES: usize = 0x8000_0000;

/// The entries of an archive being written, in the order they were started:
/// each its name, its compression and the bytes written to it so far.
pub uninterp spec fn zip_entries(w: ZipBuffer) -> Seq<(Seq<char>, Compression, Seq<u8>)>;

/// Whether an archive is still open: neither finished nor broken by a
/// failed write.
pub uninterp spec fn zip_open(w: ZipBuffer) -> bool;

/// The bytes of the finished archive that holds these entries.
pub uninterp spec fn zip_archive_bytes(entries: Seq<(Seq<char>, Compression, Seq<u8>)>) -> Seq<u8>;

/// Whether no entry holds more than `MAX_ENTRY_BYTES` bytes.
pub open spec fn entries_fit(entries: Seq<(Seq<char>, Compression, Seq<u8>)>) -> bool {
    forall|i: int| 0 <= i < entries.len() ==> (#[trigger] entries[i]).2.len() <= MAX_ENTRY_BYTES
}

/// Relies on `zip::ZipWriter::new`: a writer over an empty in-memory buffer
/// holds no entry and is open.
#[verifier::external_body]
pub(crate) fn zip_new() -> (w: ZipBuffer)
    ensures
        zip_entries(w) == Seq::<(Seq<char>, Compression, Seq<u8>)>::empty(),
        zip_open(w),
{
    ZipBuffer { writer: ZipWriter::new(Cursor::new(Vec::new())) }
}

/// Relies on `zip::ZipWriter::start_file`: an empty entry named `name`,
/// stored with `method`, follows the entries already there. On an open
/// writer whose entries fit, nothing fails: the buffer is in memory.
#[verifier::external_body]
pub(crate) fn zip_start_file(w: &mut ZipBuffer, name: &str, method: Compression) -> (r: Result<
    (),
    ZipError,
>)
    ensures
        zip_open(*old(w)) && entries_fit(zip_entries(*old(w))) ==> r is Ok,
        r is Ok ==> zip_open(*final(w)) && zip_entries(*final(w)) == zip_entries(*old(w)).push(
            (name@, method, Seq::<u8>::empty()),
        ),
{
    let method = match method {
        Compression::Stored => CompressionMethod::Stored,
        Compression::Deflated => CompressionMethod::Deflated,
    };
    w.writer.start_file(name, FileOptions::default().compression_method(method))
}

/// Relies on `std::io::Write::write_all` for `zip::ZipWriter`: the bytes
/// follow those of the entry started last. Each entry is written in one go,
/// right after it is started; on an open writer, no more than
/// `MAX_ENTRY_BYTES` bytes are always written.
#[verifier::external_body]
pub(crate) fn zip_write_all(w: &mut ZipBuffer, data: &[u8]) -> (r: Result<(), std::io::Error>)
    requires
        zip_entries(*old(w)).len() > 0,
        zip_entries(*old(w)).last().2.len() == 0,
    ensures
        zip_open(*old(w)) && data@.len() <= MAX_ENTRY_BYTES ==> r is Ok,
        r is Ok ==> zip_open(*final(w)) && zip_entries(*final(w)) == zip_entries(
            *old(w),
        ).update(
            zip_entries(*old(w)).len() - 1,
            (zip_entries(*old(w)).last().0, zip_entries(*old(w)).last().1, data@),
        ),
{
    w.writer.write_all(data)
}

/// Relies on `zip::ZipWriter::finish`: the bytes of the archive that holds
/// the entries written, taken out of the in-memory buffer. An open writer
/// whose entries fit is always finished.
#[verifier::external_body]
pub(crate) fn zip_finish(w: &mut ZipBuffer) -> (r: Result<Vec<u8>, ZipError>)
    ensures
        zip_open(*old(w)) && entries_fit(zip_entries(*old(w))) ==> r is Ok,
        r matches Ok(b) ==> b@ == zip_archive_bytes(zip_entries(*old(w))),
{
    w.writer.finish().map(|c| c.into_inner())
}

} // verus!
