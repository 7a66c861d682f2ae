use vstd::prelude::*;

verus! {

#[verifier::external_type_specification]
#[verifier::external_body]
pub struct ExJsonError(serde_json::Error);

/// The format version of scheme files written by this version.
pub const SCHEME_FILE_VERSION: u64 = 1;

/// Why a scheme file was refused.
#[derive(Debug, Clone, Copy, PartialEq, Eq, Structural)]
pub enum SchemeFileError {
    /// The text is not JSON.
    Malformed,
    /// The file's version is not supported; a missing or non-numeric
    /// version counts as 0.
    UnsupportedVersion(u64),
}

/// Whether `serde_json` accepts the text as a JSON document.
pub uninterp spec fn is_valid_json(text: Seq<char>) -> bool;

/// The unsigned integer under `key` in the JSON object written in `text`:
/// `None` when the document is not an object, has no such member, or the
/// member is not a non-negative integer that fits in 64 bits.
pub uninterp spec fn u64_member(text: Seq<char>, key: Seq<char>) -> Option<u64>;

/// Parses a JSON document and reads an unsigned integer member of it.
///
/// Calls `serde_json::from_str::<serde_json::Value>`, which succeeds exactly
/// for the texts it accepts as JSON, then `Value::get` and `Value::as_u64`
/// on the parsed value. Both outcomes depend on the text and the key alone;
/// the contract names them.
#[verifier::external_body]
fn parse_u64_member(text: &str, key: &str) -> (r: Result<Option<u64>, serde_json::Error>)
    ensures
        r is Ok <==> is_valid_json(text@),
        r matches Ok(v) ==> v == u64_member(text@, key@),
{
    match serde_json::from_str::<serde_json::Value>(text) {
        Ok(value) => Ok(value.get(key).and_then(serde_json::Value::as_u64)),
        Err(e) => Err(e),
    }
}

/// The verdict on a scheme file's version field: only version 1 is
/// supported, and a missing field counts as version 0.
pub open spec fn version_verdict(version: Option<u64>) -> Result<u64, SchemeFileError> {
    match version {
        Some(v) => if v == SCHEME_FILE_VERSION {
            Ok(v)
        } else {
            Err(SchemeFileError::UnsupportedVersion(v))
        },
        None => Err(SchemeFileError::UnsupportedVersion(0)),
    }
}

/// Checks a scheme file's version field.
pub fn check_scheme_version(version: Option<u64>) -> (r: Result<u64, SchemeFileError>)
    ensures
        r == version_verdict(version),
{
    let v = match version {
        Some(v) => v,
        None => 0,
    };
    if v != SCHEME_FILE_VERSION {
        return Err(SchemeFileError::UnsupportedVersion(v));
    }
    Ok(v)
}

/// Reads and checks the version of a scheme file's text: refused when it
/// is not JSON, or when its "version" member is not the supported version.
pub fn scheme_file_version(text: &str) -> (r: Result<u64, SchemeFileError>)
    ensures
        r == (if is_valid_json(text@) {
            version_verdict(u64_member(text@, "version"@))
        } else {
            Err(SchemeFileError::Malformed)
        }),
{
    // Validate version field
    match parse_u64_member(text, "version") {
        Ok(version) => check_scheme_version(version),
        Err(_) => Err(SchemeFileError::Malformed),
    }
}

} // verus!
