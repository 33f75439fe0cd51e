//! The build context of a publication: a tar archive that holds one file,
//! the build recipe.
use vstd::prelude::*;

verus! {

/// Trusted: makes `std::io::Error`, the error of the archive builder, known
/// as a type. Nothing is said about its values.
#[verifier::external_type_specification]
#[verifier::external_body]
pub struct ExIoError(std::io::Error);

/// The bytes of the tar archive that holds the one file `name` with the
/// permission bits `mode` and the content `data`.
pub uninterp spec fn context_encoding(name: Seq<char>, mode: u32, data: Seq<u8>) -> Seq<u8>;

/// Whether a character is an ASCII letter or digit.
pub open spec fn is_plain(c: char) -> bool {
    ('a' <= c && c <= 'z') || ('A' <= c && c <= 'Z') || ('0' <= c && c <= '9')
}

/// Whether a file name is plain: between one and a hundred ASCII letters and
/// digits. Such a name is one path component and fits the name field of an
/// archive header.
pub open spec fn plain_name(name: Seq<char>) -> bool {
    0 < name.len() <= 100 && forall|i: int| 0 <= i < name.len() ==> is_plain(#[trigger] name[i])
}

/// The tar archive that holds one file.
///
/// Trusted: calls `tar::Builder::append_data` on a builder over an empty
/// buffer (`tar::Builder::new`), with a fresh header (`tar::Header::new_gnu`,
/// `set_size`, `set_mode`), and takes the buffer out with
/// `tar::Builder::into_inner`. A success is the encoding of that one file:
/// the header reads no clock and no disk, so the bytes depend on the name,
/// the mode and the content alone. A plain name is taken: the builder
/// refuses only a path that it cannot write into the header, and a buffer in
/// memory takes every write.
#[verifier::external_body]
pub(crate) fn tar_single_file(name: &str, mode: u32, data: &Vec<u8>) -> (done: Result<
    Vec<u8>,
    std::io::Error,
>)
    ensures
        done matches Ok(bytes) ==> bytes@ == context_encoding(name@, mode, data@),
        plain_name(name@) ==> done is Ok,
{
    let mut header = tar::Header::new_gnu();
    header.set_size(data.len() as u64);
    header.set_mode(mode);
    let mut builder = tar::Builder::new(Vec::new());
    builder.append_data(&mut header, name, data.as_slice())?;
    builder.into_inner()
}

/// The text of an error of the archive builder.
///
/// Trusted: calls `to_string` on a `std::io::Error`. Nothing is said about
/// the text.
#[verifier::external_body]
pub(crate) fn io_error_text(error: &std::io::Error) -> (text: String) {
    error.to_string()
}

/// The permission bits of the recipe in the build context: read and write
/// for the owner, read for the others.
pub const RECIPE_MODE: u32 = 0o644;

/// The build context for the recipe with the content `recipe`, which stands
/// in the context under `recipe_name`.
///
/// A success is the tar archive that holds that one file. Under a plain
/// name, such as `Dockerfile`, it always succeeds; a failure carries the
/// builder's words.
pub fn build_context(recipe_name: &str, recipe: &Vec<u8>) -> (done: Result<Vec<u8>, String>)
    ensures
        done matches Ok(bytes) ==> bytes@ == context_encoding(recipe_name@, RECIPE_MODE, recipe@),
        plain_name(recipe_name@) ==> done is Ok,
{
    match tar_single_file(recipe_name, RECIPE_MODE, recipe) {
        Ok(bytes) => Ok(bytes),
        Err(error) => Err(io_error_text(&error)),
    }
}

/// The recipe's name in every build request is plain, so its build context
/// can always be made.
pub proof fn lemma_recipe_name_is_plain()
    ensures
        plain_name("Dockerfile"@),
{
    reveal_strlit("Dockerfile");
}

} // verus!
