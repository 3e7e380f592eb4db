//! What the command prints.

use vstd::prelude::*;
use vstd::string::StringExecFns;

use crate::cli::Message;
use crate::endpoint::InvalidRelayUrl;
use crate::hex::HexError;
use crate::ota::{AllowlistError, VerifyingKeyError};
use crate::route::AddError;
use crate::text::{decimal, in_decimal, strings};

verus! {

/// A route as it is listed.
#[derive(Debug, PartialEq, Eq)]
pub struct RouteEntry {
    /// The name that SSH knows it by.
    pub name: String,
    /// The identifier of the roost, as it stands in the SSH config.
    pub endpoint_id: String,
}

/// As many spaces as asked for.
pub open spec fn spaces(n: nat) -> Seq<char> {
    Seq::new(n, |i: int| ' ')
}

/// `s` with as many spaces behind it as it takes to fill a column.
pub open spec fn padded(s: Seq<char>, width: nat) -> Seq<char> {
    if s.len() < width {
        s + spaces((width - s.len()) as nat)
    } else {
        s
    }
}

/// The line that lists a route.
pub open spec fn route_line(entry: RouteEntry) -> Seq<char> {
    "  "@ + padded(entry.name@, 20) + " "@ + entry.endpoint_id@
}

/// The lines that list the routes.
pub open spec fn list_lines(entries: Seq<RouteEntry>) -> Seq<Seq<char>> {
    if entries.len() == 0 {
        seq!["No pigeon routes configured."@]
    } else {
        seq!["Pigeon routes:"@, ""@] + Seq::new(entries.len(), |i: int| route_line(entries[i]))
    }
}

/// The lines that tell whether the service runs.
pub open spec fn status_lines(id: Option<&str>) -> Seq<Seq<char>> {
    match id {
        Some(id) => seq![
            "Service:       running"@,
            ""@,
            "  Roost ID: "@ + id@,
            ""@,
            "  Connect with:"@,
            "    pigeons fly "@ + id@,
            "    pigeons add --id "@ + id@ + " --name my-roost"@,
        ],
        None => seq!["Service:       not installed"@],
    }
}

/// Two texts, one behind the other.
fn join(a: &str, b: &str) -> (r: String)
    ensures
        r@ == a@ + b@,
{
    let mut s = a.to_owned();
    s.append(b);
    s
}

/// `s` with as many spaces behind it as it takes to fill a column.
fn pad(s: &str, width: usize) -> (r: String)
    ensures
        r@ == padded(s@, width as nat),
{
    let mut r = s.to_owned();
    let mut n: usize = s.unicode_len();
    proof {
        reveal_strlit(" ");
        assert(s@ + spaces(0) == s@);
    }
    while n < width
        invariant
            s@.len() <= n,
            n <= width || n == s@.len(),
            r@ == s@ + spaces((n - s@.len()) as nat),
            " "@ == seq![' '],
        decreases width - n,
    {
        r.append(" ");
        n = n + 1;
        proof {
            assert(r@ == s@ + spaces((n - s@.len()) as nat));
        }
    }
    proof {
        assert(s@ + spaces(0) == s@);
    }
    r
}

/// The lines that list the routes.
pub fn list_report(entries: &Vec<RouteEntry>) -> (r: Vec<String>)
    ensures
        strings(r@) == list_lines(entries@),
{
    let mut lines: Vec<String> = Vec::new();
    if entries.len() == 0 {
        lines.push("No pigeon routes configured.".to_owned());
        assert(strings(lines@) == list_lines(entries@));
        return lines;
    }
    lines.push("Pigeon routes:".to_owned());
    lines.push("".to_owned());
    let mut i: usize = 0;
    while i < entries.len()
        invariant
            i <= entries@.len(),
            lines@.len() == 2 + i,
            lines@[0]@ == "Pigeon routes:"@,
            lines@[1]@ == ""@,
            forall|j: int| 0 <= j < i ==> #[trigger] lines@[2 + j]@ == route_line(entries@[j]),
        decreases entries@.len() - i,
    {
        let entry = &entries[i];
        let name = pad(entry.name.as_str(), 20);
        let mut line = join("  ", name.as_str());
        line.append(" ");
        line.append(entry.endpoint_id.as_str());
        let ghost before = lines@;
        lines.push(line);
        proof {
            assert forall|j: int| 0 <= j < i + 1 implies #[trigger] lines@[2 + j]@ == route_line(
                entries@[j],
            ) by {
                if j < i {
                    assert(lines@[2 + j] == before[2 + j]);
                }
            }
        }
        i = i + 1;
    }
    proof {
        assert forall|k: int| 0 <= k < lines@.len() implies strings(lines@)[k] == list_lines(
            entries@,
        )[k] by {
            if k >= 2 {
                assert(lines@[2 + (k - 2)]@ == route_line(entries@[k - 2]));
            }
        }
        assert(strings(lines@) == list_lines(entries@));
    }
    lines
}

/// The lines that tell whether the service runs, from the identifier that it
/// published.
pub fn status_report(id: Option<&str>) -> (r: Vec<String>)
    ensures
        strings(r@) == status_lines(id),
{
    let mut lines: Vec<String> = Vec::new();
    match id {
        Some(id) => {
            lines.push("Service:       running".to_owned());
            lines.push("".to_owned());
            lines.push(join("  Roost ID: ", id));
            lines.push("".to_owned());
            lines.push("  Connect with:".to_owned());
            lines.push(join("    pigeons fly ", id));
            let mut add = join("    pigeons add --id ", id);
            add.append(" --name my-roost");
            lines.push(add);
        },
        None => {
            lines.push("Service:       not installed".to_owned());
        },
    }
    assert(strings(lines@) == status_lines(id));
    lines
}

/// The line that tells the version.
pub fn version_line(version: &str, git_hash: &str) -> (r: String)
    ensures
        r@ == "pigeons v"@ + version@ + " ("@ + git_hash@ + ")"@,
{
    let mut line = join("pigeons v", version);
    line.append(" (");
    line.append(git_hash);
    line.append(")");
    line
}

/// The lines of a message. Its subject is the identifier of a roost or the name
/// of a route; a message about the service has none.
pub open spec fn message_lines(message: Message, subject: Seq<char>) -> Seq<Seq<char>> {
    match message {
        Message::RoostRunning => seq!["roost is running! id: "@ + subject],
        Message::RouteAdded => seq![
            "Pigeon route '"@ + subject + "' added to ~/.ssh/config"@,
            ""@,
            "  Fly with: ssh <user>@"@ + subject,
        ],
        Message::RouteRemoved => seq!["Pigeon route '"@ + subject + "' removed."@],
        Message::ServiceInstalled => seq!["Pigeons service installed."@],
        Message::ServiceUninstalled => seq!["Pigeons service uninstalled."@],
        Message::ServiceRestarted => seq!["Pigeons service restarted."@],
    }
}

/// The lines of a message.
pub fn message_report(message: Message, subject: &str) -> (r: Vec<String>)
    ensures
        strings(r@) == message_lines(message, subject@),
{
    let mut lines: Vec<String> = Vec::new();
    match message {
        Message::RoostRunning => {
            lines.push(join("roost is running! id: ", subject));
        },
        Message::RouteAdded => {
            let mut first = join("Pigeon route '", subject);
            first.append("' added to ~/.ssh/config");
            lines.push(first);
            lines.push("".to_owned());
            lines.push(join("  Fly with: ssh <user>@", subject));
        },
        Message::RouteRemoved => {
            let mut line = join("Pigeon route '", subject);
            line.append("' removed.");
            lines.push(line);
        },
        Message::ServiceInstalled => {
            lines.push("Pigeons service installed.".to_owned());
        },
        Message::ServiceUninstalled => {
            lines.push("Pigeons service uninstalled.".to_owned());
        },
        Message::ServiceRestarted => {
            lines.push("Pigeons service restarted.".to_owned());
        },
    }
    assert(strings(lines@) == message_lines(message, subject@));
    lines
}

/// What the user is told of a host name that cannot be used; none of an
/// identifier, of which the parser's own words are told.
pub open spec fn add_error_text(e: AddError) -> Option<Seq<char>> {
    match e {
        AddError::EmptyName => Some("host name cannot be empty"@),
        AddError::WhiteSpaceInName(name) => Some(
            "host name '"@ + name@ + "' cannot contain whitespace"@,
        ),
        AddError::InvalidCharacters(name) => Some(
            "host name '"@ + name@
                + "' contains invalid characters (use letters, digits, hyphens, dots, or underscores)"@,
        ),
        AddError::InvalidId(_) => None,
    }
}

/// What the user is told of a host name that cannot be used; none of an
/// identifier, of which the parser's own words are told.
pub fn add_error_line(e: &AddError) -> (r: Option<String>)
    ensures
        match add_error_text(*e) {
            Some(text) => r is Some && r->0@ == text,
            None => r is None,
        },
{
    match e {
        AddError::EmptyName => Some("host name cannot be empty".to_owned()),
        AddError::WhiteSpaceInName(name) => {
            let mut line = join("host name '", name.as_str());
            line.append("' cannot contain whitespace");
            Some(line)
        },
        AddError::InvalidCharacters(name) => {
            let mut line = join("host name '", name.as_str());
            line.append(
                "' contains invalid characters (use letters, digits, hyphens, dots, or underscores)",
            );
            Some(line)
        },
        AddError::InvalidId(_) => None,
    }
}

/// What the user is told of a relay address that cannot be read, from the words
/// of the parser.
pub fn relay_error_line(e: &InvalidRelayUrl, cause: &str) -> (r: String)
    ensures
        r@ == "invalid relay URL '"@ + e.url@ + "': "@ + cause@,
{
    let mut line = join("invalid relay URL '", e.url.as_str());
    line.append("': ");
    line.append(cause);
    line
}

/// What the user is told of a line of the allowlist that names no endpoint, from
/// the path of the list and the line in quotes.
pub fn allowlist_error_line(path: &str, e: &AllowlistError, quoted: &str) -> (r: String)
    ensures
        r@ == path@ + ":"@ + in_decimal(e.line as nat) + ": not a valid endpoint id: "@ + quoted@,
{
    let number = decimal(e.line);
    let mut line = join(path, ":");
    line.append(number.as_str());
    line.append(": not a valid endpoint id: ");
    line.append(quoted);
    line
}

/// What the user is told of a text that is not 32 bytes in hexadecimal.
pub open spec fn hex_error_text(e: HexError, quoted: Seq<char>) -> Seq<char> {
    match e {
        HexError::WrongLength(len) => "expected 64 hex chars, got "@ + in_decimal(len as nat),
        HexError::NotADigit(_) => "not a hex digit: "@ + quoted,
    }
}

/// What the user is told of a text that is not 32 bytes in hexadecimal, from the
/// byte at fault in quotes, if one is.
pub fn hex_error_line(e: &HexError, quoted: &str) -> (r: String)
    ensures
        r@ == hex_error_text(*e, quoted@),
{
    match e {
        HexError::WrongLength(len) => {
            let number = decimal(*len);
            join("expected 64 hex chars, got ", number.as_str())
        },
        HexError::NotADigit(_) => join("not a hex digit: ", quoted),
    }
}

/// What the user is told of a verifying key that cannot be used.
pub open spec fn key_error_text(e: VerifyingKeyError, detail: Seq<char>) -> Seq<char> {
    match e {
        VerifyingKeyError::NotHex { .. } => "PIGEONS_OTA_PUBKEY must be 64 hex chars, got "@
            + detail,
        VerifyingKeyError::NotAKey(_) => "PIGEONS_OTA_PUBKEY is not a valid ed25519 key: "@
            + detail,
    }
}

/// What the user is told of a verifying key that cannot be used. The detail is
/// the configured text in quotes if it is not hexadecimal, else the words of the
/// parser.
pub fn key_error_line(e: &VerifyingKeyError, detail: &str) -> (r: String)
    ensures
        r@ == key_error_text(*e, detail@),
{
    match e {
        VerifyingKeyError::NotHex { .. } => join(
            "PIGEONS_OTA_PUBKEY must be 64 hex chars, got ",
            detail,
        ),
        VerifyingKeyError::NotAKey(_) => join(
            "PIGEONS_OTA_PUBKEY is not a valid ed25519 key: ",
            detail,
        ),
    }
}

/// A column keeps all of its text, and a text that fits fills it exactly, with
/// spaces.
pub proof fn law_columns_keep_their_text(s: Seq<char>, width: nat)
    ensures
        padded(s, width).take(s.len() as int) == s,
        s.len() <= width ==> padded(s, width).len() == width,
        s.len() > width ==> padded(s, width) == s,
        forall|i: int| s.len() <= i < padded(s, width).len() ==> padded(s, width)[i] == ' ',
{
    assert(padded(s, width).take(s.len() as int) =~= s);
}

/// The line of a route holds its name, behind two spaces, and ends in its
/// identifier; what stands between the two is spaces, at least one, and as many as
/// put the identifier in its column if the name leaves room.
pub proof fn law_route_lines_hold_name_and_identifier(entry: RouteEntry, i: int)
    ensures
        ({
            let line = route_line(entry);
            let (name, id) = (entry.name@, entry.endpoint_id@);
            let at = line.len() - id.len();
            &&& at == if name.len() <= 20 {
                23int
            } else {
                3int + name.len()
            }
            &&& line.subrange(2, 2int + name.len()) == name
            &&& line.skip(at) == id
            &&& 0 <= i < 2 || 2 + name.len() <= i < at ==> line[i] == ' '
        }),
{
    reveal_strlit("  ");
    reveal_strlit(" ");
    let line = route_line(entry);
    let (name, id) = (entry.name@, entry.endpoint_id@);
    assert(line.subrange(2, 2int + name.len()) =~= name);
    assert(line.skip(line.len() - id.len()) =~= id);
}

/// Every route is listed, whatever their number: below a heading there is exactly
/// one line for each, in order, with its name and its identifier. That there are
/// none is said exactly if there are none.
pub proof fn law_every_route_is_listed(entries: Seq<RouteEntry>, i: int)
    ensures
        list_lines(entries).contains("No pigeon routes configured."@) <==> entries.len() == 0,
        entries.len() == 0 ==> list_lines(entries).len() == 1,
        entries.len() > 0 ==> list_lines(entries).len() == 2 + entries.len()
            && list_lines(entries)[0] == "Pigeon routes:"@ && list_lines(entries)[1].len() == 0,
        0 <= i < entries.len() ==> ({
            let line = list_lines(entries)[2 + i];
            let (name, id) = (entries[i].name@, entries[i].endpoint_id@);
            &&& line.len() > 2 + name.len() + id.len()
            &&& line.subrange(2, 2int + name.len()) == name
            &&& line.skip(line.len() - id.len()) == id
        }),
{
    reveal_strlit("No pigeon routes configured.");
    reveal_strlit("Pigeon routes:");
    reveal_strlit("");
    let lines = list_lines(entries);
    if entries.len() == 0 {
        assert(lines[0] == "No pigeon routes configured."@);
    } else {
        let none = "No pigeon routes configured."@;
        assert(none.len() > 0 && none[0] == 'N');
        assert forall|k: int| 0 <= k < lines.len() implies #[trigger] lines[k] != none by {
            if k == 0 {
                assert(lines[k][0] == 'P');
            } else if k == 1 {
                assert(lines[k].len() == 0);
            } else {
                law_route_lines_hold_name_and_identifier(entries[k - 2], 0);
                assert(lines[k] == route_line(entries[k - 2]));
                assert(lines[k][0] == ' ');
            }
        }
    }
    if 0 <= i < entries.len() {
        law_route_lines_hold_name_and_identifier(entries[i], 0);
    }
}

/// Listing more routes adds their lines and changes none of those that were there.
pub proof fn law_lists_grow_at_their_end(entries: Seq<RouteEntry>, more: RouteEntry)
    requires
        entries.len() > 0,
    ensures
        list_lines(entries.push(more)).drop_last() == list_lines(entries),
        list_lines(entries.push(more)).last() == route_line(more),
{
    assert(list_lines(entries.push(more)).drop_last() =~= list_lines(entries));
}

/// A service that runs is told by its identifier, with the two commands that
/// reach it; one that has published none is told as not installed.
pub proof fn law_status_tells_the_identifier(id: Option<&str>, i: int)
    ensures
        id is None <==> status_lines(id).contains("Service:       not installed"@),
        id is None ==> status_lines(id).len() == 1,
        id is Some ==> status_lines(id).len() == 7 && status_lines(id)[0]
            == "Service:       running"@,
        id is Some ==> status_lines(id)[1].len() == 0 && status_lines(id)[3].len() == 0
            && status_lines(id)[4] == "  Connect with:"@,
        id is Some ==> status_lines(id)[2] == "  Roost ID: "@ + id->0@,
        id is Some ==> status_lines(id)[5] == "    pigeons fly "@ + id->0@,
        id is Some ==> status_lines(id)[6] == "    pigeons add --id "@ + id->0@
            + " --name my-roost"@,
{
    reveal_strlit("Service:       not installed");
    reveal_strlit("Service:       running");
    reveal_strlit("  Connect with:");
    reveal_strlit("  Roost ID: ");
    reveal_strlit("    pigeons fly ");
    reveal_strlit("    pigeons add --id ");
    reveal_strlit("");
    let lines = status_lines(id);
    let told = "Service:       not installed"@;
    if id is Some {
        assert(told[0] == 'S' && told[15] == 'n');
        assert(lines[0][15] == 'r');
        assert(lines[2][0] == ' ' && lines[4][0] == ' ' && lines[5][0] == ' ' && lines[6][0]
            == ' ');
        assert(lines[1].len() == 0 && lines[3].len() == 0);
    } else {
        assert(lines[0] == told);
    }
}

/// A message about a roost or a route names it, as a whole, in each line that
/// speaks of it; one about the service is the same whatever it is handed.
pub proof fn law_messages_name_their_subject(message: Message, subject: Seq<char>, other: Seq<char>)
    ensures
        match message {
            Message::RoostRunning => message_lines(message, subject).len() == 1 && message_lines(
                message,
                subject,
            )[0] == "roost is running! id: "@ + subject,
            Message::RouteAdded => message_lines(message, subject).len() == 3 && message_lines(
                message,
                subject,
            )[0] == "Pigeon route '"@ + subject + "' added to ~/.ssh/config"@ && message_lines(
                message,
                subject,
            )[1].len() == 0 && message_lines(message, subject)[2] == "  Fly with: ssh <user>@"@
                + subject,
            Message::RouteRemoved => message_lines(message, subject).len() == 1 && message_lines(
                message,
                subject,
            )[0] == "Pigeon route '"@ + subject + "' removed."@,
            _ => message_lines(message, subject).len() == 1 && message_lines(message, subject)
                == message_lines(message, other),
        },
{
    reveal_strlit("");
}

/// What is told of a name that cannot be used quotes it as it was judged, and
/// says what is wrong; of an identifier nothing is told here.
pub proof fn law_name_errors_quote_the_name(e: AddError)
    ensures
        add_error_text(e) is None <==> e is InvalidId,
        e is EmptyName ==> add_error_text(e)->0 == "host name cannot be empty"@,
        e matches AddError::WhiteSpaceInName(name) ==> add_error_text(e)->0 == "host name '"@
            + name@ + "' cannot contain whitespace"@,
        e matches AddError::InvalidCharacters(name) ==> add_error_text(e)->0 == "host name '"@
            + name@
            + "' contains invalid characters (use letters, digits, hyphens, dots, or underscores)"@,
{
}

/// What is told of a verifying key ends in its detail, and what is told of a text
/// that is no hexadecimal ends in its length or in the byte at fault.
pub proof fn law_key_errors_end_in_their_detail(
    hex: HexError,
    key: VerifyingKeyError,
    detail: Seq<char>,
)
    ensures
        hex matches HexError::WrongLength(len) ==> hex_error_text(hex, detail)
            == "expected 64 hex chars, got "@ + in_decimal(len as nat),
        hex is NotADigit ==> hex_error_text(hex, detail) == "not a hex digit: "@ + detail,
        key is NotHex ==> key_error_text(key, detail)
            == "PIGEONS_OTA_PUBKEY must be 64 hex chars, got "@ + detail,
        key is NotAKey ==> key_error_text(key, detail)
            == "PIGEONS_OTA_PUBKEY is not a valid ed25519 key: "@ + detail,
{
}

} // verus!
