//! Looking a game's icon up on lutris.net: the address asked, the icon
//! address read from the answer, and where the icon is saved.
use vstd::prelude::*;
use crate::paths::{join, parent, path_join, path_parent};
use crate::text::{replace, replace_spec};

verus! {

broadcast use vstd::string::group_string_axioms;

/// `serde_json`'s error.
#[verifier::external_type_specification]
#[verifier::external_body]
pub struct ExJsonError(serde_json::Error);

/// What reading the text `body` as JSON and taking the text under its key
/// `key` gives: `None` where `body` is not JSON, `Some(None)` where it
/// holds no text under `key`.
pub uninterp spec fn json_str_field(body: Seq<char>, key: Seq<char>) -> Option<Option<Seq<char>>>;

/// `body` read as JSON (`serde_json::from_str` into a `Value`), and the
/// text under its key `key` (`Value::get`, `Value::as_str`). Claimed: an
/// error exactly where `json_str_field` names none, else the text it
/// names; nothing more is stated of it.
#[verifier::external_body]
fn read_str_field(body: &str, key: &str) -> (r: Result<Option<String>, serde_json::Error>)
    ensures
        r is Err <==> json_str_field(body@, key@) is None,
        r matches Ok(o) ==> json_str_field(body@, key@) == Some(
            match o {
                Some(s) => Some(s@),
                None => None,
            },
        ),
{
    match serde_json::from_str::<serde_json::Value>(body) {
        Ok(json) => match json.get(key).and_then(|v| v.as_str()) {
            Some(s) => Ok(Some(s.to_string())),
            None => Ok(None),
        },
        Err(e) => Err(e),
    }
}

/// What the answer `body` holds under `icon_url`.
pub open spec fn json_icon_url(body: Seq<char>) -> Option<Option<Seq<char>>> {
    json_str_field(body, "icon_url"@)
}

/// Why no icon came from the answer.
pub enum LutrisError {
    /// The answer is not JSON.
    BadAnswer,
    /// The answer names no icon.
    NoIcon,
    /// The game's path has no folder to save the icon in.
    NoFolder,
}

/// The address that answers about game `name`: spaces become dashes.
pub open spec fn lutris_url_spec(name: Seq<char>) -> Seq<char> {
    "https://lutris.net/api/games/"@ + replace_spec(name, " "@, "-"@)
}

/// The address that answers about game `name`.
pub fn lutris_url(name: &str) -> (url: String)
    ensures
        url@ == lutris_url_spec(name@),
{
    let mut url = String::from_str("https://lutris.net/api/games/");
    let dashed = replace(name, " ", "-");
    url.append(dashed.as_str());
    url
}

/// Where the icon goes for the game at `path`: `icon.png` next to it.
pub open spec fn icon_target_spec(path: Seq<char>) -> Option<Seq<char>> {
    match path_parent(path) {
        Some(folder) => Some(path_join(folder, "icon.png"@)),
        None => None,
    }
}

/// Given what the answer about the game at `path` holds under `icon_url`
/// (`None` where it is not JSON), the icon's address and the file to save
/// it to.
pub fn icon_download(answer: Option<Option<String>>, path: &str) -> (r: Result<(String, String), LutrisError>)
    ensures
        answer is None ==> r matches Err(LutrisError::BadAnswer),
        answer matches Some(None) ==> r matches Err(LutrisError::NoIcon),
        answer matches Some(Some(u)) ==> match icon_target_spec(path@) {
            Some(f) => r matches Ok((url, file)) && url@ == u@ && file@ == f,
            None => r matches Err(LutrisError::NoFolder),
        },
{
    match answer {
        None => Err(LutrisError::BadAnswer),
        Some(None) => Err(LutrisError::NoIcon),
        Some(Some(url)) => match parent(path) {
            Some(folder) => Ok((url, join(folder.as_str(), "icon.png"))),
            None => Err(LutrisError::NoFolder),
        },
    }
}

/// From the answer `body` about the game at `path`: the icon's address and
/// the file to save it to.
pub fn get_icon(body: &str, path: &str) -> (r: Result<(String, String), LutrisError>)
    ensures
        json_icon_url(body@) is None ==> r matches Err(LutrisError::BadAnswer),
        json_icon_url(body@) == Some(None::<Seq<char>>) ==> r matches Err(LutrisError::NoIcon),
        json_icon_url(body@) matches Some(Some(u)) ==> match icon_target_spec(path@) {
            Some(f) => r matches Ok((url, file)) && url@ == u && file@ == f,
            None => r matches Err(LutrisError::NoFolder),
        },
{
    let answer = match read_str_field(body, "icon_url") {
        Err(_) => None,
        Ok(found) => Some(found),
    };
    icon_download(answer, path)
}

} // verus!
