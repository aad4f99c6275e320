//! Which files the player can open, judged by their names.
use vstd::prelude::*;

verus! {

/// The extension of a path as `std::path::Path::extension` finds it: the part
/// of the file name after its last dot, if the name has a dot that does not
/// begin it.
pub uninterp spec fn extension_of(path: Seq<char>) -> Option<Seq<char>>;

/// The lower-case form of a text as `str::to_lowercase` gives it.
pub uninterp spec fn lower_of(text: Seq<char>) -> Seq<char>;

/// Relies on `std::path::Path::extension`; a path given as `&str` is valid
/// UTF-8, and so is its extension.
#[verifier::external_body]
fn path_extension(path: &str) -> (r: Option<String>)
    ensures
        r.is_some() == extension_of(path@).is_some(),
        r matches Some(e) ==> e@ == extension_of(path@).unwrap(),
{
    std::path::Path::new(path).extension().and_then(|e| e.to_str()).map(|e| e.to_owned())
}

/// Relies on `str::to_lowercase`.
#[verifier::external_body]
fn lowercase(text: &str) -> (r: String)
    ensures
        r@ == lower_of(text@),
{
    text.to_lowercase()
}

/// The extension of `path`, in lower case.
pub open spec fn lowered_extension(path: Seq<char>) -> Option<Seq<char>> {
    match extension_of(path) {
        Some(e) => Some(lower_of(e)),
        None => None,
    }
}

/// The extension of `path`, in lower case, if it has one.
pub fn get_file_extension(path: &str) -> (r: Option<String>)
    ensures
        r.is_some() == lowered_extension(path@).is_some(),
        r matches Some(e) ==> e@ == lowered_extension(path@).unwrap(),
{
    match path_extension(path) {
        Some(e) => Some(lowercase(e.as_str())),
        None => None,
    }
}

/// The container formats the player reads, by lower-case extension.
pub open spec fn is_music_extension(ext: Seq<char>) -> bool {
    ext == "mp3"@ || ext == "flac"@ || ext == "wav"@
}

/// Whether an extension, already in lower case, names a format the player reads.
pub fn music_extension(ext: &str) -> (r: bool)
    ensures
        r == is_music_extension(ext@),
{
    let e = ext.to_owned();
    e == "mp3".to_owned() || e == "flac".to_owned() || e == "wav".to_owned()
}

/// Whether a path names a music file the player reads: its extension, in any
/// case, is mp3, flac or wav. That it is a regular file is checked by the caller.
pub fn has_music_extension(path: &str) -> (r: bool)
    ensures
        r == (lowered_extension(path@) matches Some(e) && is_music_extension(e)),
{
    match get_file_extension(path) {
        Some(e) => music_extension(e.as_str()),
        None => false,
    }
}

} // verus!
