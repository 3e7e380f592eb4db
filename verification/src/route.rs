//! Routes: the host names under which SSH finds a remote roost.

use vstd::prelude::*;
use vstd::string::{StringExecFns, StringSliceAdditionalSpecFns};
use vstd::utf8::{
    decode_utf8, encode_utf8, encode_utf8_decode_utf8, encode_utf8_valid_utf8,
    is_ascii_chars, is_ascii_chars_encode_utf8, is_char_boundary,
    is_char_boundary_iff_not_is_continuation_byte, is_char_boundary_start_end_of_seq,
};

use crate::cli::AddArgs;
use crate::endpoint::{endpoint_id_of, refused_id, EndpointId, InvalidEndpointId};
use crate::text::{chars_of, is_white_space, trim, trimmed, white_space};

verus! {

/// A route to a remote roost.
#[derive(Debug, PartialEq, Eq)]
pub struct Route {
    /// The name that SSH knows it by.
    pub name: String,
    /// The identifier of the roost.
    pub endpoint_id: EndpointId,
}

/// Why a route cannot be added.
#[derive(Debug)]
pub enum AddError {
    /// The name is blank.
    EmptyName,
    /// There is white space within the name.
    WhiteSpaceInName(String),
    /// There are other characters in the name than letters, digits, hyphens,
    /// dots and underscores.
    InvalidCharacters(String),
    /// The identifier is none.
    InvalidId(InvalidEndpointId),
}

/// Whether a character may stand in a host name.
pub open spec fn host_char(c: char) -> bool {
    'a' <= c <= 'z' || 'A' <= c <= 'Z' || '0' <= c <= '9' || c == '-' || c == '.' || c == '_'
}

/// Whether a text is a host name.
pub open spec fn host_name(s: Seq<char>) -> bool {
    s.len() > 0 && forall|i: int| 0 <= i < s.len() ==> host_char(#[trigger] s[i])
}

/// Whether there is white space in a text.
pub open spec fn has_white_space(s: Seq<char>) -> bool {
    exists|i: int| 0 <= i < s.len() && white_space(#[trigger] s[i])
}

/// How many bytes of an identifier are used for the name of its route.
pub open spec fn short_len(id: Seq<char>) -> int {
    if encode_utf8(id).len() < 8 {
        encode_utf8(id).len() as int
    } else {
        8
    }
}

/// The name of a route that was given none.
pub open spec fn default_name_of(id: Seq<char>) -> Seq<char> {
    "pigeon-"@ + decode_utf8(encode_utf8(id).take(short_len(id)))
}

/// The name of a route to `id` that was given none: the first eight bytes of
/// the identifier, which have to end between characters.
pub fn default_name(id: &str) -> (r: String)
    requires
        is_char_boundary(encode_utf8(id@), short_len(id@)),
    ensures
        r@ == default_name_of(id@),
{
    let len: usize = id.as_bytes().len();
    let n: usize = if len < 8 {
        len
    } else {
        8
    };
    let (head, _tail) = id.split_at(n);
    proof {
        encode_utf8_decode_utf8(head@);
        assert(head.spec_bytes() == encode_utf8(id@).take(short_len(id@)));
    }
    let mut name = "pigeon-".to_owned();
    name.append(head);
    name
}

/// Whether `c` may stand in a host name.
fn is_host_char(c: char) -> (r: bool)
    ensures
        r == host_char(c),
{
    ('a' <= c && c <= 'z') || ('A' <= c && c <= 'Z') || ('0' <= c && c <= '9') || c == '-' || c
        == '.' || c == '_'
}

/// The host name in a given text, which may have white space around it.
pub fn check_host_name(given: &str) -> (r: Result<String, AddError>)
    ensures
        match r {
            Ok(name) => name@ == trimmed(given@) && host_name(name@),
            Err(AddError::EmptyName) => trimmed(given@).len() == 0,
            Err(AddError::WhiteSpaceInName(name)) => name@ == trimmed(given@) && has_white_space(
                name@,
            ),
            Err(AddError::InvalidCharacters(name)) => name@ == trimmed(given@) && name@.len() > 0
                && !has_white_space(name@) && !host_name(name@),
            Err(AddError::InvalidId(_)) => false,
        },
        r is Ok <==> trimmed(given@).len() > 0 && forall|i: int|
            0 <= i < trimmed(given@).len() ==> ({
                let c = #[trigger] trimmed(given@)[i];
                'a' <= c <= 'z' || 'A' <= c <= 'Z' || '0' <= c <= '9' || c == '-' || c == '.' || c
                    == '_'
            }),
        r matches Err(AddError::WhiteSpaceInName(_)) ==> exists|i: int|
            0 <= i < trimmed(given@).len() && white_space(#[trigger] trimmed(given@)[i]),
{
    let name = trim(given);
    if name.is_empty() {
        return Err(AddError::EmptyName);
    }
    let chars = chars_of(name);
    let mut i: usize = 0;
    while i < chars.len()
        invariant
            chars@ == name@,
            name@ == trimmed(given@),
            forall|j: int| 0 <= j < i ==> !white_space(#[trigger] name@[j]),
        decreases chars@.len() - i,
    {
        if is_white_space(chars[i]) {
            proof {
                assert(white_space(name@[i as int]));
            }
            return Err(AddError::WhiteSpaceInName(name.to_owned()));
        }
        i = i + 1;
    }
    let mut k: usize = 0;
    while k < chars.len()
        invariant
            chars@ == name@,
            name@.len() > 0,
            name@ == trimmed(given@),
            !has_white_space(name@),
            forall|j: int| 0 <= j < k ==> host_char(#[trigger] name@[j]),
        decreases chars@.len() - k,
    {
        if !is_host_char(chars[k]) {
            proof {
                assert(!host_char(name@[k as int]));
            }
            return Err(AddError::InvalidCharacters(name.to_owned()));
        }
        k = k + 1;
    }
    Ok(name.to_owned())
}

/// The name that the arguments of `add` ask for.
pub open spec fn asked_name(args: AddArgs) -> Seq<char> {
    match args.name {
        Some(name) => name@,
        None => default_name_of(args.id@),
    }
}

/// The route of a checked name and a parsed identifier. The name is looked at
/// first.
pub fn route_of(name: Result<String, AddError>, id: Result<EndpointId, InvalidEndpointId>) -> (r:
    Result<Route, AddError>)
    ensures
        match (name, id) {
            (Err(e), _) => r == Err::<Route, AddError>(e),
            (Ok(_), Err(e)) => r == Err::<Route, AddError>(AddError::InvalidId(e)),
            (Ok(name), Ok(endpoint_id)) => r == Ok::<Route, AddError>(
                (Route { name, endpoint_id }),
            ),
        },
{
    match name {
        Err(e) => Err(e),
        Ok(name) => match id {
            Err(e) => Err(AddError::InvalidId(e)),
            Ok(endpoint_id) => Ok(Route { name, endpoint_id }),
        },
    }
}

/// The route that the arguments of `add` ask for. The name is looked at before
/// the identifier.
pub fn add_route(args: &AddArgs) -> (r: Result<Route, AddError>)
    requires
        args.name is None ==> is_char_boundary(encode_utf8(args.id@), short_len(args.id@)),
    ensures
        ({
            let name = trimmed(asked_name(*args));
            match r {
                Ok(route) => host_name(name) && route.name@ == name && endpoint_id_of(args.id@)
                    == Some(route.endpoint_id@),
                Err(AddError::EmptyName) => name.len() == 0,
                Err(AddError::WhiteSpaceInName(given)) => given@ == name && has_white_space(name),
                Err(AddError::InvalidCharacters(given)) => given@ == name && name.len() > 0
                    && !has_white_space(name) && !host_name(name),
                Err(AddError::InvalidId(e)) => host_name(name) && endpoint_id_of(args.id@) is None
                    && refused_id(args.id@, e.cause),
            }
        }),
{
    let name = match &args.name {
        Some(name) => check_host_name(name.as_str()),
        None => check_host_name(default_name(args.id.as_str()).as_str()),
    };
    route_of(name, EndpointId::from_str(args.id.as_str()))
}

proof fn lemma_host_chars_are_no_white_space(c: char)
    requires
        host_char(c),
    ensures
        !white_space(c),
{
}

/// A host name is accepted as it is.
pub proof fn law_host_names_are_kept(s: Seq<char>)
    requires
        host_name(s),
    ensures
        trimmed(s) == s,
        !has_white_space(s),
{
    assert forall|i: int| 0 <= i < s.len() implies !white_space(#[trigger] s[i]) by {
        lemma_host_chars_are_no_white_space(s[i]);
    }
    assert(!white_space(s[0]) && !white_space(s[s.len() - 1]));
}

/// A route to an identifier in letters and digits can do without a name: it is
/// called after the first eight characters, and that is a host name.
pub proof fn law_default_names_are_host_names(id: Seq<char>)
    requires
        host_name(id),
    ensures
        is_char_boundary(encode_utf8(id), short_len(id)),
        default_name_of(id) == "pigeon-"@ + id.take(if id.len() < 8 { id.len() as int } else { 8 }),
        host_name(default_name_of(id)),
{
    let bytes = encode_utf8(id);
    let n = short_len(id);
    let head = id.take(n);
    assert(is_ascii_chars(id));
    is_ascii_chars_encode_utf8(id);
    encode_utf8_valid_utf8(id);
    if n < bytes.len() {
        is_char_boundary_iff_not_is_continuation_byte(bytes, n);
        assert(host_char(id[n]));
    } else {
        is_char_boundary_start_end_of_seq(bytes);
    }
    assert(is_ascii_chars(head));
    is_ascii_chars_encode_utf8(head);
    assert(encode_utf8(head) =~= bytes.take(n)) by {
        assert forall|i: int| 0 <= i < n implies encode_utf8(head)[i] == #[trigger] bytes[i] by {
            assert(head[i] == id[i]);
        }
    }
    encode_utf8_decode_utf8(head);
    reveal_strlit("pigeon-");
    let name = default_name_of(id);
    assert forall|i: int| 0 <= i < name.len() implies host_char(#[trigger] name[i]) by {
        if i >= 7 {
            assert(name[i] == id[i - 7]);
        }
    }
}

/// A text of any length is a host name if it is not empty and each of its
/// characters is an ASCII letter, an ASCII digit, a hyphen, a dot or an underscore;
/// and no other text is one.
pub proof fn law_host_names_are_any_such_texts(s: Seq<char>)
    ensures
        host_name(s) <==> s.len() > 0 && forall|i: int|
            0 <= i < s.len() ==> ({
                let c = #[trigger] s[i];
                'a' <= c <= 'z' || 'A' <= c <= 'Z' || '0' <= c <= '9' || c == '-' || c == '.' || c
                    == '_'
            }),
{
}

/// Two host names joined are one, and so is every part of one that is not empty:
/// nothing but its characters decides.
pub proof fn law_host_names_join_and_part(a: Seq<char>, b: Seq<char>)
    requires
        a.len() > 0,
        b.len() > 0,
    ensures
        host_name(a + b) <==> host_name(a) && host_name(b),
{
    if host_name(a + b) {
        assert forall|i: int| 0 <= i < a.len() implies host_char(#[trigger] a[i]) by {
            assert((a + b)[i] == a[i]);
        }
        assert forall|i: int| 0 <= i < b.len() implies host_char(#[trigger] b[i]) by {
            assert((a + b)[a.len() + i] == b[i]);
        }
    }
}

/// White space anywhere in a text is white space in it, and a text without has
/// none in any part.
pub proof fn law_white_space_is_found_anywhere(a: Seq<char>, c: char, b: Seq<char>)
    ensures
        !has_white_space(seq![]),
        white_space(c) ==> has_white_space(a + seq![c] + b),
        !white_space(c) && !has_white_space(a) && !has_white_space(b) ==> !has_white_space(
            a + seq![c] + b,
        ),
{
    let s = a + seq![c] + b;
    assert(s[a.len() as int] == c);
    if has_white_space(s) && !white_space(c) {
        let i = choose|i: int| 0 <= i < s.len() && white_space(#[trigger] s[i]);
        if i < a.len() {
            assert(white_space(a[i]));
        } else {
            assert(white_space(b[i - a.len() - 1]));
        }
    }
}

proof fn lemma_encode_parts(a: Seq<char>, b: Seq<char>)
    ensures
        encode_utf8(a + b) == encode_utf8(a) + encode_utf8(b),
    decreases a.len(),
{
    if a.len() == 0 {
        assert(a + b =~= b);
        assert(encode_utf8(a) + encode_utf8(b) =~= encode_utf8(b));
    } else {
        lemma_encode_parts(a.drop_first(), b);
        assert((a + b).drop_first() =~= a.drop_first() + b);
        assert((a + b)[0] == a[0]);
        assert(encode_utf8(a + b) =~= encode_utf8(a) + encode_utf8(b));
    }
}

/// A route that was given no name can be called after the characters that make up
/// the first eight bytes of its identifier, or after all of a shorter one, and it is.
pub proof fn law_default_names_are_eight_bytes(head: Seq<char>, tail: Seq<char>)
    ensures
        encode_utf8(head).len() == 8 ==> default_name_of(head + tail) == "pigeon-"@ + head,
        encode_utf8(head).len() == 8 ==> is_char_boundary(
            encode_utf8(head + tail),
            short_len(head + tail),
        ),
        encode_utf8(head).len() < 8 ==> default_name_of(head) == "pigeon-"@ + head,
        encode_utf8(head).len() < 8 ==> is_char_boundary(encode_utf8(head), short_len(head)),
{
    lemma_encode_parts(head, tail);
    encode_utf8_decode_utf8(head);
    encode_utf8_valid_utf8(head);
    encode_utf8_valid_utf8(tail);
    encode_utf8_valid_utf8(head + tail);
    is_char_boundary_start_end_of_seq(encode_utf8(head));
    is_char_boundary_start_end_of_seq(encode_utf8(tail));
    is_char_boundary_start_end_of_seq(encode_utf8(head + tail));
    if encode_utf8(head).len() == 8 {
        assert(encode_utf8(head + tail).take(8) =~= encode_utf8(head));
        if encode_utf8(tail).len() > 0 {
            is_char_boundary_iff_not_is_continuation_byte(encode_utf8(tail), 0);
            is_char_boundary_iff_not_is_continuation_byte(encode_utf8(head + tail), 8);
            assert(encode_utf8(head + tail)[8] == encode_utf8(tail)[0]);
        }
    }
    if encode_utf8(head).len() < 8 {
        assert(encode_utf8(head).take(encode_utf8(head).len() as int) =~= encode_utf8(head));
    }
}

/// A route is asked for under the name that was given, if one was.
pub proof fn law_given_names_are_asked_for(args: AddArgs)
    ensures
        args.name matches Some(name) ==> asked_name(args) == name@,
        args.name is None ==> asked_name(args) == default_name_of(args.id@),
{
}

} // verus!
