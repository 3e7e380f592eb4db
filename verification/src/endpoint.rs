//! Endpoint identifiers, keys and relay addresses, as the `iroh-base` crate
//! reads them.

use vstd::prelude::*;
use vstd::string::StringSliceAdditionalSpecFns;

use crate::hex::{
    digit_value, hex32, in_lower_case, law_decoded_text_is_the_hex_of_its_bytes, law_hex_round_trip,
    lower_hex,
};

verus! {

/// The error of [`iroh_base::EndpointId`]'s parser and of
/// [`iroh_base::PublicKey::from_bytes`], carried unread.
#[verifier::external_type_specification]
#[verifier::external_body]
pub struct ExKeyParsingError(iroh_base::KeyParsingError);

/// The error of [`iroh_base::RelayUrl`]'s parser, carried unread.
#[verifier::external_type_specification]
#[verifier::external_body]
pub struct ExRelayUrlParseError(iroh_base::RelayUrlParseError);

/// The bytes of the endpoint identifier that a text stands for, in either of
/// the two notations that `iroh_base::EndpointId::from_str` reads: lower-case
/// hexadecimal or base32.
pub uninterp spec fn endpoint_id_of(text: Seq<char>) -> Option<Seq<u8>>;

/// Whether 32 bytes are an ed25519 public key, as `iroh_base::PublicKey::from_bytes`
/// decides it: whether they decompress to a point of the curve.
pub uninterp spec fn valid_public_key(bytes: Seq<u8>) -> bool;

/// The normalised text of the relay address that a text stands for, as
/// `iroh_base::RelayUrl::from_str` reads it.
pub uninterp spec fn relay_url_of(text: Seq<char>) -> Option<Seq<char>>;

/// Whether `s` is made of the hexadecimal digits in use for endpoint
/// identifiers: the lower-case ones.
pub open spec fn lower_case_hex(s: Seq<u8>) -> bool {
    forall|i: int|
        0 <= i < s.len() ==> digit_value(#[trigger] s[i]) is Some && !(0x41 <= s[i] <= 0x46)
}

/// The endpoint identifier that 64 bytes of lower-case hexadecimal stand for.
pub open spec fn endpoint_id_in_hex(s: Seq<u8>) -> Option<Seq<u8>> {
    if lower_case_hex(s) && valid_public_key(hex32(s)->0) {
        hex32(s)
    } else {
        None
    }
}

/// The bytes that a parser accepted, if it did.
pub open spec fn accepted(r: Result<[u8; 32], iroh_base::KeyParsingError>) -> Option<Seq<u8>> {
    match r {
        Ok(bytes) => Some(bytes@),
        Err(_) => None,
    }
}

/// Calls `iroh_base::EndpointId::from_str`. The bytes are named by
/// [`endpoint_id_of`]. A text of 64 bytes is read as lower-case hexadecimal,
/// and is an identifier where its 32 bytes are a public key. Any other is read as
/// base32, and has 52 bytes if it is an identifier.
#[verifier::external_body]
fn endpoint_id_from_str(text: &str) -> (r: Result<[u8; 32], iroh_base::KeyParsingError>)
    ensures
        accepted(r) == endpoint_id_of(text@),
        accepted(r) == endpoint_id_in_hex(text.spec_bytes()) || text.spec_bytes().len() != 64,
        accepted(r) is None || text.spec_bytes().len() == 64 || text.spec_bytes().len() == 52,
{
    text.parse::<iroh_base::EndpointId>().map(|id| *id.as_bytes())
}

/// Calls `iroh_base::PublicKey::from_bytes`, which accepts the bytes where
/// [`valid_public_key`] holds of them and keeps them as they are.
#[verifier::external_body]
fn public_key_from_bytes(bytes: &[u8; 32]) -> (r: Result<[u8; 32], iroh_base::KeyParsingError>)
    ensures
        r is Ok <==> valid_public_key(bytes@),
        r is Ok ==> (r->Ok_0)@ == bytes@,
{
    iroh_base::PublicKey::from_bytes(bytes).map(|key| *key.as_bytes())
}

/// Calls `iroh_base::RelayUrl::from_str` and renders the address. The text is
/// named by [`relay_url_of`].
#[verifier::external_body]
fn relay_url_from_str(text: &str) -> (r: Result<String, iroh_base::RelayUrlParseError>)
    ensures
        match r {
            Ok(url) => relay_url_of(text@) == Some(url@),
            Err(_) => relay_url_of(text@) is None,
        },
{
    text.parse::<iroh_base::RelayUrl>().map(|url| url.to_string())
}

/// Whether `cause` is what the parser of identifiers said of `text`.
pub closed spec fn refused_id(text: Seq<char>, cause: iroh_base::KeyParsingError) -> bool {
    exists|t: &str|
        t@ == text && #[trigger] call_ensures(endpoint_id_from_str, (t,), Err(cause))
}

/// Whether `cause` is what was said of `bytes` as a public key.
pub closed spec fn refused_key(bytes: Seq<u8>, cause: iroh_base::KeyParsingError) -> bool {
    exists|b: &[u8; 32]|
        b@ == bytes && #[trigger] call_ensures(public_key_from_bytes, (b,), Err(cause))
}

/// Whether `cause` is what the parser of relay addresses said of `text`.
pub closed spec fn refused_relay(text: Seq<char>, cause: iroh_base::RelayUrlParseError) -> bool {
    exists|t: &str| t@ == text && #[trigger] call_ensures(relay_url_from_str, (t,), Err(cause))
}

/// Reads an identifier, and keeps what the parser says of a text that is none.
pub(crate) fn parse_id(text: &str) -> (r: Result<[u8; 32], iroh_base::KeyParsingError>)
    ensures
        accepted(r) == endpoint_id_of(text@),
        text.spec_bytes().len() == 64 ==> endpoint_id_of(text@) == endpoint_id_in_hex(
            text.spec_bytes(),
        ),
        endpoint_id_of(text@) is Some ==> text.spec_bytes().len() == 64
            || text.spec_bytes().len() == 52,
        r is Err ==> refused_id(text@, r->Err_0),
{
    let r = endpoint_id_from_str(text);
    assert(r is Err ==> call_ensures(endpoint_id_from_str, (text,), Err(r->Err_0)));
    r
}

/// Looks at the bytes of a public key, and keeps what is said of bytes that are
/// none.
pub(crate) fn parse_key(bytes: &[u8; 32]) -> (r: Result<[u8; 32], iroh_base::KeyParsingError>)
    ensures
        r is Ok <==> valid_public_key(bytes@),
        r is Ok ==> (r->Ok_0)@ == bytes@,
        r is Err ==> refused_key(bytes@, r->Err_0),
{
    let r = public_key_from_bytes(bytes);
    assert(r is Err ==> call_ensures(public_key_from_bytes, (bytes,), Err(r->Err_0)));
    r
}

/// The identifier of an endpoint: its public key.
#[derive(Clone, Copy, Debug, PartialEq, Eq)]
pub struct EndpointId {
    pub bytes: [u8; 32],
}

impl View for EndpointId {
    type V = Seq<u8>;

    open spec fn view(&self) -> Seq<u8> {
        self.bytes@
    }
}

/// The bytes of a sequence of identifiers.
pub open spec fn ids(v: Seq<EndpointId>) -> Seq<Seq<u8>> {
    Seq::new(v.len(), |i: int| v[i]@)
}

/// A text that is no endpoint identifier.
#[derive(Debug)]
pub struct InvalidEndpointId {
    /// What the parser said of it.
    pub cause: iroh_base::KeyParsingError,
}

impl EndpointId {
    /// Reads an identifier in lower-case hexadecimal or in base32.
    pub fn from_str(text: &str) -> (r: Result<EndpointId, InvalidEndpointId>)
        ensures
            match r {
                Ok(id) => endpoint_id_of(text@) == Some(id@),
                Err(e) => endpoint_id_of(text@) is None && refused_id(text@, e.cause),
            },
            text.spec_bytes().len() == 64 ==> endpoint_id_of(text@) == endpoint_id_in_hex(
                text.spec_bytes(),
            ),
            r is Ok ==> text.spec_bytes().len() == 64 || text.spec_bytes().len() == 52,
    {
        match parse_id(text) {
            Ok(bytes) => Ok(EndpointId { bytes }),
            Err(cause) => Err(InvalidEndpointId { cause }),
        }
    }
}

/// The lower-case hexadecimal text of a public key is read as the identifier
/// that it was written from.
pub proof fn law_identifiers_in_hex_are_read_back(bytes: Seq<u8>)
    requires
        bytes.len() == 32,
        valid_public_key(bytes),
    ensures
        lower_hex(bytes).len() == 64,
        endpoint_id_in_hex(lower_hex(bytes)) == Some(bytes),
{
    law_hex_round_trip(bytes);
}

/// A relay address that cannot be used.
#[derive(Debug)]
pub struct InvalidRelayUrl {
    /// The address as it was given.
    pub url: String,
    /// What the parser said of it.
    pub cause: iroh_base::RelayUrlParseError,
}

/// Adds what the parser made of `url` to the relays in use, or names `url` in
/// the error.
pub fn add_relay_url(
    relays: &mut Vec<String>,
    url: &str,
    parsed: Result<String, iroh_base::RelayUrlParseError>,
) -> (r: Result<(), InvalidRelayUrl>)
    ensures
        match parsed {
            Ok(text) => r is Ok && final(relays)@ == old(relays)@.push(text),
            Err(cause) => final(relays)@ == old(relays)@ && r is Err && r->Err_0.url@ == url@
                && r->Err_0.cause == cause,
        },
{
    match parsed {
        Ok(text) => {
            relays.push(text);
            Ok(())
        },
        Err(cause) => Err(InvalidRelayUrl { url: url.to_owned(), cause }),
    }
}

/// Reads relay addresses in the order in which they were given. The first one
/// that cannot be read is the error.
pub fn parse_relay_urls(urls: &Vec<String>) -> (r: Result<Vec<String>, InvalidRelayUrl>)
    ensures
        match r {
            Ok(relays) => relays@.len() == urls@.len() && forall|i: int|
                0 <= i < urls@.len() ==> relay_url_of(#[trigger] urls@[i]@) == Some(relays@[i]@),
            Err(e) => exists|i: int|
                0 <= i < urls@.len() && e.url@ == #[trigger] urls@[i]@ && relay_url_of(
                    urls@[i]@,
                ) is None && refused_relay(urls@[i]@, e.cause) && forall|j: int| 0 <= j < i ==> relay_url_of(#[trigger] urls@[j]@) is Some,
        },
{
    let mut relays: Vec<String> = Vec::new();
    let mut i: usize = 0;
    while i < urls.len()
        invariant
            i <= urls@.len(),
            relays@.len() == i,
            forall|j: int|
                0 <= j < i ==> relay_url_of(#[trigger] urls@[j]@) == Some(relays@[j]@),
        decreases urls@.len() - i,
    {
        let url = urls[i].as_str();
        let parsed = relay_url_from_str(url);
        assert(parsed is Err ==> call_ensures(relay_url_from_str, (url,), Err(parsed->Err_0)));
        match add_relay_url(&mut relays, url, parsed) {
            Ok(()) => {},
            Err(e) => {
                return Err(e);
            },
        }
        i = i + 1;
    }
    Ok(relays)
}

/// A text of 64 bytes is an identifier exactly if it is the lower-case hexadecimal
/// text of a public key.
pub proof fn law_identifiers_are_lower_case(s: Seq<u8>)
    requires
        s.len() == 64,
    ensures
        endpoint_id_in_hex(s) matches Some(bytes) ==> s == lower_hex(bytes) && valid_public_key(
            bytes,
        ),
        endpoint_id_in_hex(s) is None ==> forall|bytes: Seq<u8>|
            bytes.len() == 32 && valid_public_key(bytes) ==> s != #[trigger] lower_hex(bytes),
{
    if endpoint_id_in_hex(s) is Some {
        assert(hex32(s) is Some);
        law_decoded_text_is_the_hex_of_its_bytes(s);
        assert(in_lower_case(s) =~= s);
    } else {
        assert forall|bytes: Seq<u8>| bytes.len() == 32 && valid_public_key(bytes) implies s
            != #[trigger] lower_hex(bytes) by {
            law_identifiers_in_hex_are_read_back(bytes);
        }
    }
}

/// The bytes of identifiers are as many as the identifiers, each those of its own.
pub proof fn law_identifiers_are_viewed_one_by_one(v: Seq<EndpointId>, i: int)
    ensures
        ids(v).len() == v.len(),
        0 <= i < v.len() ==> ids(v)[i] == v[i].bytes@,
{
}

} // verus!
