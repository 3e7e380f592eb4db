//! TOML documents, as the `toml` crate reads and writes them.

use vstd::prelude::*;
use vstd::utf8::encode_utf8;

verus! {

/// The error of the `toml` crate's reader, carried unread.
#[verifier::external_type_specification]
#[verifier::external_body]
pub struct ExDeError(toml::de::Error);

/// The error of the `toml` crate's writer, carried unread.
#[verifier::external_type_specification]
#[verifier::external_body]
pub struct ExSerError(toml::ser::Error);

/// Whether bytes are a TOML document, as `toml::from_slice` decides it when
/// the values of the document are left unread.
pub uninterp spec fn is_document(bytes: Seq<u8>) -> bool;

/// What a TOML document has under a key at its top, as
/// `toml::de::DeTable::parse` reads it: nothing, a boolean, or a value of
/// another type.
pub uninterp spec fn entry_of(bytes: Seq<u8>, key: Seq<char>) -> Option<Option<bool>>;

/// Whether a key needs no quotes in a document.
pub open spec fn bare_key(key: Seq<char>) -> bool {
    &&& key.len() > 0
    &&& forall|i: int|
        0 <= i < key.len() ==> {
            let c = #[trigger] key[i];
            'a' <= c <= 'z' || 'A' <= c <= 'Z' || '0' <= c <= '9' || c == '_' || c == '-'
        }
}

/// The document that sets a key, or the empty one that leaves it unset.
pub open spec fn assignment(key: Seq<char>, value: Option<bool>) -> Seq<char> {
    match value {
        None => seq![],
        Some(true) => key + " = true\n"@,
        Some(false) => key + " = false\n"@,
    }
}

/// What a document has under a key that was written with `value`.
pub open spec fn entry_with(value: Option<bool>) -> Option<Option<bool>> {
    match value {
        None => None,
        Some(b) => Some(Some(b)),
    }
}

/// Calls `toml::from_slice` for a map whose values are ignored. It succeeds on
/// the bytes that [`is_document`] names.
#[verifier::external_body]
fn check_document(bytes: &[u8]) -> (r: Result<(), toml::de::Error>)
    ensures
        r is Ok <==> is_document(bytes@),
{
    toml::from_slice::<std::collections::BTreeMap<String, serde::de::IgnoredAny>>(bytes).map(
        |_document| (),
    )
}

/// Whether `cause` is what the reader said of bytes that are no document.
pub closed spec fn refused_document(bytes: Seq<u8>, cause: toml::de::Error) -> bool {
    exists|b: &[u8]| b@ == bytes && #[trigger] call_ensures(check_document, (b,), Err(cause))
}

/// Checks that bytes are a document, and keeps what the reader says if they are
/// none.
pub(crate) fn checked_document(bytes: &[u8]) -> (r: Result<(), toml::de::Error>)
    ensures
        r is Ok <==> is_document(bytes@),
        r is Err ==> refused_document(bytes@, r->Err_0),
{
    let r = check_document(bytes);
    assert(r is Err ==> call_ensures(check_document, (bytes,), Err(r->Err_0)));
    r
}

/// Calls `toml::de::DeTable::parse` on a document and looks a key up in it. What
/// is there is named by [`entry_of`].
#[verifier::external_body]
pub(crate) fn document_entry(bytes: &[u8], key: &str) -> (r: Option<Option<bool>>)
    requires
        is_document(bytes@),
    ensures
        r == entry_of(bytes@, key@),
{
    let text = std::str::from_utf8(bytes).expect("a document is text");
    let table = toml::de::DeTable::parse(text).expect("a document parses");
    table.get_ref().get(key).map(|value| value.get_ref().as_bool())
}

/// Calls `toml::to_string` for a map of one optional boolean. Writing to memory
/// does not fail; the text is that of [`assignment`], and reading it as a
/// document gives the value back.
#[verifier::external_body]
pub(crate) fn write_document(key: &str, value: Option<bool>) -> (r: Result<
    String,
    toml::ser::Error,
>)
    requires
        bare_key(key@),
    ensures
        r is Ok,
        r->Ok_0@ == assignment(key@, value),
        is_document(encode_utf8(r->Ok_0@)),
        entry_of(encode_utf8(r->Ok_0@), key@) == entry_with(value),
{
    toml::to_string(&std::collections::BTreeMap::from([(key, value)]))
}

} // verus!
