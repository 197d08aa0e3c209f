use crate::paths::{extension_start, split_extension};
use vstd::prelude::*;
use vstd::string::StringExecFns;

verus! {

/// The first media type that the `mime_guess2` crate knows for a file
/// extension, if it knows one.
pub uninterp spec fn guessed_mime(extension: Seq<char>) -> Option<Seq<char>>;

/// `mime_guess2::MimeGuess::from_ext`, and `first_raw` of the guess: the
/// first media type listed for the extension, and none for the empty
/// extension.
#[verifier::external_body]
fn first_mime_of_extension(extension: &str) -> (mime: Option<String>)
    ensures
        extension@.len() == 0 ==> mime is None,
        match mime {
            Some(name) => guessed_mime(extension@) == Some(name@),
            None => guessed_mime(extension@) is None,
        },
{
    mime_guess2::MimeGuess::from_ext(extension).first_raw().map(|name| name.to_string())
}

/// The extension of a file: what follows the last dot of its name, unless
/// that dot is the name's first character; empty where there is none.
pub open spec fn extension_of(path: Seq<char>) -> Seq<char> {
    let split = extension_start(path);
    if split < path.len() {
        path.subrange(split + 1, path.len() as int)
    } else {
        Seq::<char>::empty()
    }
}

/// The media type guessed for a file from its extension.
pub open spec fn mime_of_path(path: Seq<char>) -> Option<Seq<char>> {
    if extension_of(path).len() == 0 {
        None
    } else {
        guessed_mime(extension_of(path))
    }
}

/// Guesses the media type of a file from its extension.
pub fn guess_mime_type(file_path: &String) -> (mime: Option<String>)
    ensures
        match mime {
            Some(name) => mime_of_path(file_path@) == Some(name@),
            None => mime_of_path(file_path@) is None,
        },
{
    let whole = file_path.as_str();
    let len = whole.unicode_len();
    let split = split_extension(whole);
    if split < len {
        let extension = whole.substring_char(split + 1, len);
        first_mime_of_extension(extension)
    } else {
        None
    }
}

/// Where the files of the web front end lie among the assets.
pub open spec fn web_asset_path(path: Seq<char>) -> Seq<char> {
    "web/"@ + path
}

/// The asset that a request for a page of the web front end is about.
pub fn web_asset(path: &String) -> (asset_path: String)
    ensures
        asset_path@ == web_asset_path(path@),
{
    let mut asset_path = String::from_str("web/");
    asset_path.append(path.as_str());
    asset_path
}

/// The answer to a request for a page of the web front end.
#[derive(Debug)]
pub enum Page {
    /// There is no such asset.
    NotFound,
    /// The asset's bytes, under the media type guessed from its name if
    /// one could be guessed.
    Found { data: Vec<u8>, content_type: Option<String> },
}

/// Answers a request for a page of the web front end, given the asset found
/// at `web_asset(path)`, if there is one.
pub fn index(path: &String, asset: Option<Vec<u8>>) -> (page: Page)
    ensures
        match asset {
            None => page is NotFound,
            Some(bytes) => page matches Page::Found { data, content_type } && data@ == bytes@
                && match content_type {
                Some(name) => mime_of_path(web_asset_path(path@)) == Some(name@),
                None => mime_of_path(web_asset_path(path@)) is None,
            },
        },
{
    match asset {
        None => Page::NotFound,
        Some(data) => {
            let asset_path = web_asset(path);
            let content_type = guess_mime_type(&asset_path);
            Page::Found { data, content_type }
        },
    }
}

} // verus!
