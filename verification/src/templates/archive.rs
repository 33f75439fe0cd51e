//! The archive that a composition is written into: a zip archive that is
//! built in memory, member by member, with every member stored uncompressed.
//!
//! Everything in this file is trusted: the archive format is the work of the
//! `zip` crate, and the contracts below say what its writer does, in terms of
//! the members that were written so far.
use vstd::prelude::*;

verus! {

/// A zip archive under construction.
///
/// Trusted: holds a `zip::ZipWriter` over a `std::io::Cursor<Vec<u8>>`, which
/// the verifier does not look into.
#[verifier::external_body]
pub struct Archive {
    writer: zip::ZipWriter<std::io::Cursor<Vec<u8>>>,
}

/// Trusted: makes `zip::result::ZipError`, the error of the archive writer,
/// known as a type. Nothing is said about its values.
#[verifier::external_type_specification]
#[verifier::external_body]
pub struct ExZipError(zip::result::ZipError);

/// The members written to `archive` so far, in the order in which they were
/// written: of each its name, whether it is a directory, and its content.
pub uninterp spec fn archive_members(archive: Archive) -> Seq<(Seq<char>, bool, Seq<u8>)>;

/// Whether `archive` takes further members: it was made by `new_archive`,
/// and no call on it has failed or closed it since.
pub uninterp spec fn archive_open(archive: Archive) -> bool;

/// The most bytes that one file of the archive can hold.
pub const LARGEST_FILE: u64 = 0xFFFF_FFFF;

/// The bytes of the finished archive that holds `members`.
pub uninterp spec fn archive_encoding(members: Seq<(Seq<char>, bool, Seq<u8>)>) -> Seq<u8>;

/// The name under which a directory is recorded: the given name, with a
/// slash after it unless it already ends in a slash or a backslash.
pub open spec fn directory_name(name: Seq<char>) -> Seq<char> {
    if name.len() > 0 && (name.last() == '/' || name.last() == '\\') {
        name
    } else {
        name.push('/')
    }
}

/// The member that records the directory `name`.
pub open spec fn directory_member(name: Seq<char>) -> (Seq<char>, bool, Seq<u8>) {
    (directory_name(name), true, Seq::<u8>::empty())
}

/// The member that holds the file `name` with the content `data`.
pub open spec fn file_member(name: Seq<char>, data: Seq<u8>) -> (Seq<char>, bool, Seq<u8>) {
    (name, false, data)
}

/// An archive without members.
///
/// Trusted: calls `zip::ZipWriter::new` on an empty cursor. The new writer
/// has recorded no member and is open.
#[verifier::external_body]
pub(crate) fn new_archive() -> (archive: Archive)
    ensures
        archive_members(archive) == Seq::<(Seq<char>, bool, Seq<u8>)>::empty(),
        archive_open(archive),
{
    Archive { writer: zip::ZipWriter::new(std::io::Cursor::new(Vec::new())) }
}

/// Records the directory `name`.
///
/// Trusted: calls `zip::ZipWriter::add_directory` with the stored method.
/// Where it succeeds, one member was added after the others: an empty
/// directory entry under `directory_name(name)`. On an open archive it
/// succeeds and leaves the archive open: the writer fails only where the
/// buffer below it does, and a buffer in memory takes every write.
#[verifier::external_body]
pub(crate) fn archive_add_directory(archive: &mut Archive, name: &str) -> (done: Result<
    (),
    zip::result::ZipError,
>)
    ensures
        done is Ok ==> archive_members(*final(archive)) == archive_members(*old(archive)).push(
            directory_member(name@),
        ),
        archive_open(*old(archive)) ==> done is Ok && archive_open(*final(archive)),
{
    let options = zip::write::FileOptions::default();
    archive.writer.add_directory(name, options.compression_method(zip::CompressionMethod::Stored))
}

/// Begins the file `name`.
///
/// Trusted: calls `zip::ZipWriter::start_file` with the stored method. Where
/// it succeeds, one member was added after the others: a file under `name`,
/// so far without content. On an open archive it succeeds and leaves the
/// archive open.
#[verifier::external_body]
pub(crate) fn archive_start_file(archive: &mut Archive, name: &str) -> (done: Result<
    (),
    zip::result::ZipError,
>)
    ensures
        done is Ok ==> archive_members(*final(archive)) == archive_members(*old(archive)).push(
            file_member(name@, Seq::<u8>::empty()),
        ),
        archive_open(*old(archive)) ==> done is Ok && archive_open(*final(archive)),
{
    let options = zip::write::FileOptions::default();
    archive.writer.start_file(name, options.compression_method(zip::CompressionMethod::Stored))
}

/// Writes `data` to the file that was begun last.
///
/// Trusted: calls `std::io::Write::write_all` on the `zip::ZipWriter`. Where
/// it succeeds and the last member is a file, `data` was added to the end of
/// that member's content, and no other member changed. On an open archive
/// whose last member is a file, it succeeds and leaves the archive open
/// where the file then holds at most `LARGEST_FILE` bytes, and fails where
/// it would hold more: the writer counts the bytes of the current file and
/// refuses the write that takes them over that limit.
#[verifier::external_body]
pub(crate) fn archive_write_all(archive: &mut Archive, data: &Vec<u8>) -> (done: Result<
    (),
    zip::result::ZipError,
>)
    ensures
        done is Ok && archive_members(*old(archive)).len() > 0 && !archive_members(
            *old(archive),
        ).last().1 ==> archive_members(*final(archive)) == archive_members(
            *old(archive),
        ).drop_last().push(
            file_member(
                archive_members(*old(archive)).last().0,
                archive_members(*old(archive)).last().2 + data@,
            ),
        ),
        archive_open(*old(archive)) && archive_members(*old(archive)).len() > 0
            && !archive_members(*old(archive)).last().1 && archive_members(
            *old(archive),
        ).last().2.len() + data@.len() <= LARGEST_FILE ==> done is Ok && archive_open(
            *final(archive),
        ),
        archive_open(*old(archive)) && archive_members(*old(archive)).len() > 0
            && !archive_members(*old(archive)).last().1 && archive_members(
            *old(archive),
        ).last().2.len() + data@.len() > LARGEST_FILE ==> done is Err,
{
    std::io::Write::write_all(&mut archive.writer, data).map_err(zip::result::ZipError::from)
}

/// Closes the archive and hands out its bytes.
///
/// Trusted: calls `zip::ZipWriter::finish`. Where it succeeds, the bytes are
/// the encoding of the members that were written. With the options that this
/// file uses the writer reads no clock, so the bytes depend on the members
/// alone. On an open archive it succeeds.
#[verifier::external_body]
pub(crate) fn archive_finish(archive: &mut Archive) -> (done: Result<
    Vec<u8>,
    zip::result::ZipError,
>)
    ensures
        done matches Ok(bytes) ==> bytes@ == archive_encoding(archive_members(*old(archive))),
        archive_open(*old(archive)) ==> done is Ok,
{
    archive.writer.finish().map(|cursor| cursor.into_inner())
}

/// The text of an error of the archive writer.
///
/// Trusted: calls `to_string` on a `zip::result::ZipError`. Nothing is said
/// about the text.
#[verifier::external_body]
pub(crate) fn archive_error_text(error: &zip::result::ZipError) -> (text: String) {
    error.to_string()
}

} // verus!
