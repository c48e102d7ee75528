//! The list of logged-out tokens, as kept in its file: a JSON array of strings.
use vstd::prelude::*;
use crate::enums::Error;
use crate::outside::{json_string_list, parse_token_list, pretty_json_string_list, render_token_list, texts};

verus! {

/// Reads the blacklisted tokens from the file's text; a text that is not a
/// JSON array of strings is refused.
pub fn load_blacklist(text: &str) -> (r: Result<Vec<String>, Error>)
    ensures
        match json_string_list(text@) {
            Some(list) => r matches Ok(v) && texts(v@) == list,
            None => r == Err::<Vec<String>, Error>(Error::InvalidTokenList),
        },
{
    match parse_token_list(text) {
        Some(v) => Ok(v),
        None => Err(Error::InvalidTokenList),
    }
}

/// The file text that keeps the blacklisted tokens; reading it back with
/// `load_blacklist` gives the same tokens.
pub fn blacklist_file_text(tokens: &Vec<String>) -> (t: String)
    ensures
        t@ == pretty_json_string_list(texts(tokens@)),
        json_string_list(t@) == Some(texts(tokens@)),
{
    let rendered = render_token_list(tokens);
    rendered.unwrap()
}

} // verus!
