use vstd::prelude::*;

verus! {

#[verifier::external_type_specification]
#[verifier::external_body]
pub struct ExValue(serde_json::Value);

#[verifier::external_type_specification]
#[verifier::external_body]
pub struct ExJsonError(serde_json::Error);

/// Relies on serde_json::from_str: parses one JSON document, returning
/// serde_json's error on malformed input.
#[verifier::external_body]
fn json_from_str(s: &str) -> (r: Result<serde_json::Value, serde_json::Error>) {
    serde_json::from_str(s)
}

/// Relies on serde_json::Value::get: the member of an object under the
/// given key, absent when the value is no object or lacks the key.
#[verifier::external_body]
fn json_get<'a>(v: &'a serde_json::Value, key: &str) -> (r: Option<&'a serde_json::Value>) {
    v.get(key)
}

/// Relies on serde_json::Value::as_array: the elements when the value
/// is an array.
#[verifier::external_body]
fn json_as_array<'a>(v: &'a serde_json::Value) -> (r: Option<&'a Vec<serde_json::Value>>) {
    v.as_array()
}

/// Relies on serde_json::Value::as_str: the text when the value is a
/// string, copied out.
#[verifier::external_body]
fn json_as_string(v: &serde_json::Value) -> (r: Option<String>) {
    match v.as_str() {
        Some(s) => Some(s.to_string()),
        None => None,
    }
}

/// Why a media-folders response yielded no library names.
#[derive(Clone, Copy, Debug, PartialEq, Eq, Structural)]
pub enum LibrariesError {
    /// The body is not a JSON document.
    Malformed,
    /// The document carries no `Items` array.
    MissingItems,
    /// An entry under `Items` carries no string `Name`.
    MissingName,
}

/// The compute half of the library listing: picks the `Name` of every
/// entry under `Items` out of the media server's media-folders
/// response, one name per entry, in order. What comes back is decided
/// by serde_json's reading of the body; an entry without a name is an
/// error, not a panic.
pub fn parse_libraries(body: &str) -> (r: Result<Vec<String>, LibrariesError>) {
    let parsed = match json_from_str(body) {
        Ok(v) => v,
        Err(_) => {
            return Err(LibrariesError::Malformed);
        },
    };
    let items = match json_get(&parsed, "Items") {
        Option::Some(v) => v,
        Option::None => {
            return Err(LibrariesError::MissingItems);
        },
    };
    let entries = match json_as_array(items) {
        Option::Some(a) => a,
        Option::None => {
            return Err(LibrariesError::MissingItems);
        },
    };
    let mut names: Vec<String> = Vec::new();
    let mut i: usize = 0;
    while i < entries.len()
        invariant
            i <= entries@.len(),
        decreases entries@.len() - i,
    {
        let name = match json_get(&entries[i], "Name") {
            Option::Some(v) => match json_as_string(v) {
                Option::Some(s) => s,
                Option::None => {
                    return Err(LibrariesError::MissingName);
                },
            },
            Option::None => {
                return Err(LibrariesError::MissingName);
            },
        };
        names.push(name);
        i = i + 1;
    }
    Ok(names)
}

} // verus!
