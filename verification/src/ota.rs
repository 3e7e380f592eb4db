//! Over-the-air updates: the verifying key of the build, the allowlist of
//! pushers, and the ready file that the watchdog waits for.

use vstd::prelude::*;
use vstd::utf8::encode_utf8;

use crate::endpoint::{
    endpoint_id_of, ids, parse_id, parse_key, refused_id, refused_key, valid_public_key, EndpointId,
};
use crate::hex::{decode_hex32, hex32, hex_fault, HexError};
use crate::text::{
    before, before_char, find, law_texts_are_cut_at_the_first, law_trim_is_idempotent,
    law_trim_takes_white_space_alone, law_trim_undoes_padding, lemma_find, lemma_trim_white, lines,
    lines_of, texts, trim, trimmed, white_space,
};

verus! {

/// Filesystem root of the update layout.
pub const OTA_BASE: &'static str = "/opt/pigeons";

/// Filename of the binary inside each version's directory.
pub const OTA_BINARY_NAME: &'static str = "pigeons";

/// The unit that is restarted once a new version is in place.
pub const OTA_UNIT_NAME: &'static str = "pigeons.service";

/// The file that a roost touches once it has started up.
pub const READY_FILE: &'static str = "/opt/pigeons/ready";

/// The list of endpoints that may push an update.
pub const ALLOWLIST_FILE: &'static str = "/etc/pigeons/ota_allowed_pushers";

/// What the ready file holds.
pub const READY_CONTENTS: &'static str = "ok\n";

/// The argument that has a staged binary test itself.
pub const SELF_TEST_ARG: &'static str = "--self-test";

/// How many seconds a new version has to touch [`READY_FILE`].
pub const WATCHDOG_TIMEOUT_SECS: u64 = 30;

/// The key that updates must be signed with.
#[derive(Clone, Copy, Debug, PartialEq, Eq)]
pub struct VerifyingKey {
    pub bytes: [u8; 32],
}

impl View for VerifyingKey {
    type V = Seq<u8>;

    open spec fn view(&self) -> Seq<u8> {
        self.bytes@
    }
}

/// Why the configured verifying key cannot be used.
#[derive(Debug)]
pub enum VerifyingKeyError {
    /// The text is not 32 bytes in hexadecimal.
    NotHex { text: String, cause: HexError },
    /// The bytes are no public key.
    NotAKey(iroh_base::KeyParsingError),
}

/// The text of the configured key, where there is one.
pub open spec fn configured_text(embedded: Option<&str>) -> Option<Seq<char>> {
    match embedded {
        Some(text) if trimmed(text@).len() > 0 => Some(trimmed(text@)),
        _ => None,
    }
}

/// The outcome of [`embedded_verifying_key`] once the bytes of the key were
/// looked at.
pub fn verifying_key_of(
    parsed: Result<[u8; 32], iroh_base::KeyParsingError>,
) -> (r: Result<Option<VerifyingKey>, VerifyingKeyError>)
    ensures
        match parsed {
            Ok(bytes) => r == Ok::<Option<VerifyingKey>, VerifyingKeyError>(
                Some((VerifyingKey { bytes })),
            ),
            Err(cause) => r == Err::<Option<VerifyingKey>, VerifyingKeyError>(
                VerifyingKeyError::NotAKey(cause),
            ),
        },
{
    match parsed {
        Ok(bytes) => Ok(Some(VerifyingKey { bytes })),
        Err(cause) => Err(VerifyingKeyError::NotAKey(cause)),
    }
}

/// The verifying key that was configured for this build, from the text that
/// was embedded in it. Without a text, or with a blank one, updates are not
/// configured.
pub fn embedded_verifying_key(embedded: Option<&str>) -> (r: Result<
    Option<VerifyingKey>,
    VerifyingKeyError,
>)
    ensures
        match configured_text(embedded) {
            None => r is Ok && r->Ok_0 is None,
            Some(t) => match hex32(encode_utf8(t)) {
                None => r is Err && r->Err_0 is NotHex && r->Err_0->text@ == t && r->Err_0->cause
                    == hex_fault(encode_utf8(t)),
                Some(bytes) => if valid_public_key(bytes) {
                    r is Ok && r->Ok_0 is Some && r->Ok_0->0@ == bytes
                } else {
                    r is Err && r->Err_0 is NotAKey && refused_key(bytes, r->Err_0->NotAKey_0)
                },
            },
        },
{
    let hex = match embedded {
        Some(text) => trim(text),
        None => {
            return Ok(None);
        },
    };
    if hex.is_empty() {
        return Ok(None);
    }
    match decode_hex32(hex) {
        Ok(bytes) => verifying_key_of(parse_key(&bytes)),
        Err(cause) => Err(VerifyingKeyError::NotHex { text: hex.to_owned(), cause }),
    }
}

/// What a line of the allowlist says once its comment and the white space
/// around it are gone.
pub open spec fn entry_of_line(line: Seq<char>) -> Seq<char> {
    trimmed(before(line, '#'))
}

/// Whether a line of the allowlist can be read: it is blank or names an
/// endpoint.
pub open spec fn readable(line: Seq<char>) -> bool {
    entry_of_line(line).len() == 0 || endpoint_id_of(entry_of_line(line)) is Some
}

/// Whether every line of an allowlist can be read.
pub open spec fn all_readable(text: Seq<char>) -> bool {
    forall|i: int| 0 <= i < lines_of(text).len() ==> readable(#[trigger] lines_of(text)[i])
}

/// Whether an error is that of the first unreadable line of an allowlist, with
/// what the parser said of its entry.
pub open spec fn first_unreadable(text: Seq<char>, e: AllowlistError) -> bool {
    &&& 1 <= e.line <= lines_of(text).len()
    &&& e.raw@ == lines_of(text)[e.line - 1]
    &&& !readable(e.raw@)
    &&& refused_id(entry_of_line(e.raw@), e.cause)
    &&& forall|i: int| 0 <= i < e.line - 1 ==> readable(#[trigger] lines_of(text)[i])
}

/// The endpoints that readable lines name, in order.
pub open spec fn pushers_in(lines: Seq<Seq<char>>) -> Seq<Seq<u8>>
    decreases lines.len(),
{
    if lines.len() == 0 {
        seq![]
    } else if entry_of_line(lines.last()).len() == 0 {
        pushers_in(lines.drop_last())
    } else {
        pushers_in(lines.drop_last()).push(endpoint_id_of(entry_of_line(lines.last()))->0)
    }
}

/// A line of the allowlist that names no endpoint.
#[derive(Debug)]
pub struct AllowlistError {
    /// The number of the line, from 1.
    pub line: usize,
    /// The line as it stands in the file.
    pub raw: String,
    /// What the parser said of it.
    pub cause: iroh_base::KeyParsingError,
}

/// Adds what the parser made of an entry to the endpoints that may push, or
/// names the line in the error.
pub fn add_pusher(
    pushers: &mut Vec<EndpointId>,
    line: usize,
    raw: &str,
    parsed: Result<[u8; 32], iroh_base::KeyParsingError>,
) -> (r: Result<(), AllowlistError>)
    ensures
        match parsed {
            Ok(bytes) => r is Ok && final(pushers)@ == old(pushers)@.push((EndpointId { bytes })),
            Err(cause) => final(pushers)@ == old(pushers)@ && r is Err && r->Err_0.line == line
                && r->Err_0.raw@ == raw@ && r->Err_0.cause == cause,
        },
{
    match parsed {
        Ok(bytes) => {
            pushers.push(EndpointId { bytes });
            Ok(())
        },
        Err(cause) => Err(AllowlistError { line, raw: raw.to_owned(), cause }),
    }
}

/// The endpoints that an allowlist names, in order. Comments start at a `#`;
/// blank lines are skipped. The first line that names no endpoint is the error.
/// A missing list is an empty one.
pub fn load_allowlist(contents: Option<&str>) -> (r: Result<Vec<EndpointId>, AllowlistError>)
    ensures
        match contents {
            None => r is Ok && r->Ok_0@.len() == 0,
            Some(text) => match r {
                Ok(pushers) => all_readable(text@) && ids(pushers@) == pushers_in(lines_of(text@)),
                Err(e) => first_unreadable(text@, e),
            },
        },
{
    let text = match contents {
        Some(text) => text,
        None => {
            return Ok(Vec::new());
        },
    };
    let all = lines(text);
    let ghost spec_lines = lines_of(text@);
    let mut pushers: Vec<EndpointId> = Vec::new();
    let mut i: usize = 0;
    proof {
        assert(ids(pushers@) == pushers_in(spec_lines.take(0)));
    }
    while i < all.len()
        invariant
            i <= all@.len(),
            contents == Some(text),
            texts(all@) == spec_lines,
            spec_lines == lines_of(text@),
            ids(pushers@) == pushers_in(spec_lines.take(i as int)),
            forall|j: int| 0 <= j < i ==> readable(#[trigger] spec_lines[j]),
        decreases all@.len() - i,
    {
        let raw = all[i];
        let line = trim(before_char(raw, '#'));
        proof {
            assert(texts(all@)[i as int] == raw@);
            assert(spec_lines.take(i + 1).drop_last() == spec_lines.take(i as int));
            assert(spec_lines.take(i + 1).last() == raw@);
        }
        if !line.is_empty() {
            let ghost seen = pushers@;
            match add_pusher(&mut pushers, i + 1, raw, parse_id(line)) {
                Ok(()) => {},
                Err(e) => {
                    return Err(e);
                },
            }
            proof {
                assert(ids(pushers@) == ids(seen).push(endpoint_id_of(line@)->0));
            }
        }
        i = i + 1;
    }
    proof {
        assert(spec_lines.take(i as int) == spec_lines);
    }
    Ok(pushers)
}

/// What came of reading a text file.
#[derive(Debug, PartialEq, Eq)]
pub enum TextRead<E> {
    /// There is no such file.
    Missing,
    /// The file is there and could not be read.
    Unreadable(E),
    /// What the file holds.
    Contents(String),
}

/// What an update receiver is set up with.
#[derive(Debug, PartialEq, Eq)]
pub struct OtaReceiver {
    /// The key that updates must be signed with.
    pub verifying_key: VerifyingKey,
    /// The endpoints that may push; if there are none, all pushes are denied.
    pub allowed: Vec<EndpointId>,
    /// The root of the directories that versions are kept in.
    pub base: &'static str,
    /// The name of the binary in the directory of a version.
    pub binary_name: &'static str,
    /// The unit to restart after an update.
    pub unit_name: &'static str,
    /// The file by which a new version says that it is up.
    pub ready_file: &'static str,
    /// How many seconds it has for that.
    pub timeout_secs: u64,
    /// The argument that has a new version test itself.
    pub self_test_arg: &'static str,
}

impl OtaReceiver {
    /// Whether a receiver takes updates signed with `key` from the endpoints in
    /// `pushers`, and puts them in place where the service finds them.
    pub open spec fn receives(self, key: Seq<u8>, pushers: Seq<Seq<u8>>) -> bool {
        &&& self.verifying_key@ == key
        &&& ids(self.allowed@) == pushers
        &&& self.base@ == OTA_BASE@
        &&& self.binary_name@ == OTA_BINARY_NAME@
        &&& self.unit_name@ == OTA_UNIT_NAME@
        &&& self.ready_file@ == READY_FILE@
        &&& self.timeout_secs == WATCHDOG_TIMEOUT_SECS
        &&& self.self_test_arg@ == SELF_TEST_ARG@
    }
}

/// Why no update receiver can be set up though one is configured.
#[derive(Debug)]
pub enum HandlerError<E> {
    /// The verifying key cannot be used.
    Key(VerifyingKeyError),
    /// The allowlist could not be read.
    ReadAllowlist(E),
    /// The allowlist names something that is no endpoint.
    Allowlist(AllowlistError),
}

/// Sets up the update receiver of a roost: none if no verifying key was
/// configured for this build. The key is looked at before the allowlist.
pub fn build_handler<E>(embedded: Option<&str>, allowlist: TextRead<E>) -> (r: Result<
    Option<OtaReceiver>,
    HandlerError<E>,
>)
    ensures
        match configured_text(embedded) {
            None => r is Ok && r->Ok_0 is None,
            Some(t) => match hex32(encode_utf8(t)) {
                None => r is Err && r->Err_0 is Key && r->Err_0->Key_0 is NotHex
                    && r->Err_0->Key_0->text@ == t && r->Err_0->Key_0->cause == hex_fault(
                    encode_utf8(t),
                ),
                Some(key) => if !valid_public_key(key) {
                    r is Err && r->Err_0 is Key && r->Err_0->Key_0 is NotAKey && refused_key(
                        key,
                        r->Err_0->Key_0->NotAKey_0,
                    )
                } else {
                    match allowlist {
                        TextRead::Missing => r is Ok && r->Ok_0 is Some && r->Ok_0->0.receives(
                            key,
                            seq![],
                        ),
                        TextRead::Unreadable(e) => r == Err::<Option<OtaReceiver>, HandlerError<E>>(
                            HandlerError::ReadAllowlist(e),
                        ),
                        TextRead::Contents(text) => if all_readable(text@) {
                            r is Ok && r->Ok_0 is Some && r->Ok_0->0.receives(
                                key,
                                pushers_in(lines_of(text@)),
                            )
                        } else {
                            r is Err && r->Err_0 is Allowlist && first_unreadable(
                                text@,
                                r->Err_0->Allowlist_0,
                            )
                        },
                    }
                },
            },
        },
{
    let verifying_key = match embedded_verifying_key(embedded) {
        Ok(Some(key)) => key,
        Ok(None) => {
            return Ok(None);
        },
        Err(e) => {
            return Err(HandlerError::Key(e));
        },
    };
    let listed = match allowlist {
        TextRead::Missing => load_allowlist(None),
        TextRead::Contents(text) => load_allowlist(Some(text.as_str())),
        TextRead::Unreadable(e) => {
            return Err(HandlerError::ReadAllowlist(e));
        },
    };
    match listed {
        Ok(allowed) => {
            let receiver = OtaReceiver {
                verifying_key,
                allowed,
                base: OTA_BASE,
                binary_name: OTA_BINARY_NAME,
                unit_name: OTA_UNIT_NAME,
                ready_file: READY_FILE,
                timeout_secs: WATCHDOG_TIMEOUT_SECS,
                self_test_arg: SELF_TEST_ARG,
            };
            assert(allowed@.len() == 0 ==> ids(allowed@) == Seq::<Seq<u8>>::empty());
            Ok(Some(receiver))
        },
        Err(e) => Err(HandlerError::Allowlist(e)),
    }
}

/// One step of touching the ready file.
#[derive(Clone, Copy, Debug, PartialEq, Eq, Structural)]
pub enum ReadyStep {
    /// Create the directory of the file and those above it.
    CreateParents,
    /// Remove the file that an earlier process left.
    RemoveStale,
    /// Write [`READY_CONTENTS`].
    Write,
}

/// What follows a step of touching the ready file.
#[derive(Clone, Copy, Debug, PartialEq, Eq, Structural)]
pub enum ReadyNext {
    /// Take this step.
    Take(ReadyStep),
    /// The file is there.
    Done,
    /// The error of the last step is that of the whole.
    Fail,
}

/// What follows a step of touching the ready file, or what it starts with.
pub open spec fn ready_after(taken: Option<ReadyStep>, succeeded: bool) -> ReadyNext {
    match taken {
        None => ReadyNext::Take(ReadyStep::CreateParents),
        Some(ReadyStep::CreateParents) => ReadyNext::Take(ReadyStep::RemoveStale),
        Some(ReadyStep::RemoveStale) => ReadyNext::Take(ReadyStep::Write),
        Some(ReadyStep::Write) => if succeeded {
            ReadyNext::Done
        } else {
            ReadyNext::Fail
        },
    }
}

/// What follows a step of touching the ready file, or what it starts with. A
/// stale file is removed before the new one is written, so that only a roost
/// that has come up satisfies the watchdog. Only the write has to succeed.
pub fn write_ready_file(taken: Option<ReadyStep>, succeeded: bool) -> (r: ReadyNext)
    ensures
        r == ready_after(taken, succeeded),
{
    match taken {
        None => ReadyNext::Take(ReadyStep::CreateParents),
        Some(ReadyStep::CreateParents) => ReadyNext::Take(ReadyStep::RemoveStale),
        Some(ReadyStep::RemoveStale) => ReadyNext::Take(ReadyStep::Write),
        Some(ReadyStep::Write) => if succeeded {
            ReadyNext::Done
        } else {
            ReadyNext::Fail
        },
    }
}

/// The ready file is written only after a stale one was removed or found not to
/// be there, however the steps before the write went; and touching it succeeds
/// exactly if the write does.
pub proof fn law_ready_file_is_written_afresh(before: Option<ReadyStep>, succeeded: bool)
    ensures
        ready_after(before, succeeded) == ReadyNext::Take(ReadyStep::Write) <==> before == Some(
            ReadyStep::RemoveStale,
        ),
        ready_after(before, succeeded) == ReadyNext::Take(ReadyStep::RemoveStale) <==> before
            == Some(ReadyStep::CreateParents),
        ready_after(before, succeeded) is Done <==> before == Some(ReadyStep::Write) && succeeded,
        ready_after(before, succeeded) is Fail <==> before == Some(ReadyStep::Write) && !succeeded,
{
}

/// Whether a step can turn one state of the ready file into another. A state is
/// what the file holds, if it is there. A write that fails may leave anything.
pub open spec fn ready_file_after(
    before: Option<Seq<char>>,
    step: ReadyStep,
    succeeded: bool,
    after: Option<Seq<char>>,
) -> bool {
    match (step, succeeded) {
        (ReadyStep::CreateParents, _) => after == before,
        (ReadyStep::RemoveStale, true) => after is None,
        (ReadyStep::RemoveStale, false) => after == before,
        (ReadyStep::Write, true) => after == Some(READY_CONTENTS@),
        (ReadyStep::Write, false) => true,
    }
}

/// Whether these are the steps of touching the ready file once, to a good end,
/// which of them succeeded, and the states of the file before, between and after
/// them.
pub open spec fn touched(
    steps: Seq<ReadyStep>,
    succeeded: Seq<bool>,
    files: Seq<Option<Seq<char>>>,
) -> bool {
    &&& steps.len() > 0
    &&& succeeded.len() == steps.len()
    &&& files.len() == steps.len() + 1
    &&& ready_after(None, true) == ReadyNext::Take(steps[0])
    &&& forall|i: int|
        0 < i < steps.len() ==> ready_after(Some(steps[i - 1]), succeeded[i - 1])
            == ReadyNext::Take(#[trigger] steps[i])
    &&& forall|i: int|
        0 <= i < steps.len() ==> ready_file_after(
            files[i],
            #[trigger] steps[i],
            succeeded[i],
            files[i + 1],
        )
    &&& ready_after(Some(steps.last()), succeeded.last()) is Done
}

proof fn lemma_touched(steps: Seq<ReadyStep>, succeeded: Seq<bool>, files: Seq<Option<Seq<char>>>)
    requires
        touched(steps, succeeded, files),
    ensures
        steps == seq![ReadyStep::CreateParents, ReadyStep::RemoveStale, ReadyStep::Write],
        files.last() == Some(READY_CONTENTS@),
        succeeded[1] ==> files[2] is None,
{
    assert(steps[0] is CreateParents);
    if steps.len() > 1 {
        assert(steps[1] is RemoveStale);
    }
    if steps.len() > 2 {
        assert(steps[2] is Write);
    }
    if steps.len() > 3 {
        assert(ready_after(Some(steps[2]), succeeded[2]) == ReadyNext::Take(steps[3]));
    }
    assert(steps =~= seq![ReadyStep::CreateParents, ReadyStep::RemoveStale, ReadyStep::Write]);
    assert(ready_file_after(files[2], steps[2], succeeded[2], files[3]));
    assert(ready_file_after(files[1], steps[1], succeeded[1], files[2]));
}

/// Touching the ready file leaves it with its contents, whatever it held before,
/// and written anew where a stale one could be removed; and touching it twice
/// leaves what touching it once does.
pub proof fn law_touching_twice_is_touching_once(
    steps: Seq<ReadyStep>,
    succeeded: Seq<bool>,
    files: Seq<Option<Seq<char>>>,
    again: Seq<ReadyStep>,
    again_succeeded: Seq<bool>,
    again_files: Seq<Option<Seq<char>>>,
)
    requires
        touched(steps, succeeded, files),
        touched(again, again_succeeded, again_files),
        again_files[0] == files.last(),
    ensures
        files.last() == Some(READY_CONTENTS@),
        succeeded[1] ==> files[2] is None,
        again_files.last() == files.last(),
{
    lemma_touched(steps, succeeded, files);
    lemma_touched(again, again_succeeded, again_files);
}

/// The ready file is part of the layout below [`OTA_BASE`].
pub proof fn law_ready_file_is_in_the_layout()
    ensures
        READY_FILE@ == OTA_BASE@ + "/ready"@,
{
    reveal_strlit("/opt/pigeons/ready");
    reveal_strlit("/opt/pigeons");
    reveal_strlit("/ready");
    assert(READY_FILE@ =~= OTA_BASE@ + "/ready"@);
}

/// A line that holds only white space and a comment is blank.
pub proof fn law_comment_is_blank(white: Seq<char>, comment: Seq<char>)
    requires
        forall|i: int| 0 <= i < white.len() ==> white_space(#[trigger] white[i]),
    ensures
        entry_of_line(white + seq!['#'] + comment).len() == 0,
        entry_of_line(white).len() == 0,
{
    let line = white + seq!['#'] + comment;
    lemma_find(line, '#');
    lemma_find(white, '#');
    assert(find(line, '#') == white.len()) by {
        if find(line, '#') < white.len() {
            assert(white_space(white[find(line, '#') as int]));
        }
        if find(line, '#') > white.len() {
            assert(line[white.len() as int] == '#');
        }
    }
    assert(before(line, '#') =~= white);
    assert(before(white, '#') =~= white) by {
        if find(white, '#') < white.len() {
            assert(white_space(white[find(white, '#') as int]));
        }
    }
    lemma_trim_white(white);
}

/// A blank line anywhere in an allowlist changes nothing.
pub proof fn law_blank_lines_are_ignored(above: Seq<Seq<char>>, blank: Seq<char>, below: Seq<Seq<char>>)
    requires
        entry_of_line(blank).len() == 0,
    ensures
        readable(blank),
        pushers_in(above.push(blank) + below) == pushers_in(above + below),
    decreases below.len(),
{
    if below.len() == 0 {
        assert(above.push(blank) + below =~= above.push(blank));
        assert(above + below =~= above);
        assert(above.push(blank).drop_last() =~= above);
    } else {
        law_blank_lines_are_ignored(above, blank, below.drop_last());
        assert((above.push(blank) + below).drop_last() =~= above.push(blank) + below.drop_last());
        assert((above + below).drop_last() =~= above + below.drop_last());
    }
}

/// An empty allowlist names nobody, as a missing one does.
pub proof fn law_empty_allowlist()
    ensures
        all_readable(seq![]),
        pushers_in(lines_of(seq![])).len() == 0,
{
}

/// The endpoints that may push are those that stand in the lines of the
/// allowlist, and no others.
pub proof fn law_pushers_are_listed(lines: Seq<Seq<char>>, id: Seq<u8>)
    requires
        forall|i: int| 0 <= i < lines.len() ==> readable(#[trigger] lines[i]),
    ensures
        pushers_in(lines).contains(id) <==> exists|i: int|
            0 <= i < lines.len() && entry_of_line(#[trigger] lines[i]).len() > 0
                && endpoint_id_of(entry_of_line(lines[i])) == Some(id),
    decreases lines.len(),
{
    if lines.len() > 0 {
        let rest = lines.drop_last();
        let last = lines.last();
        assert(readable(lines[lines.len() - 1]));
        assert forall|i: int| 0 <= i < rest.len() implies readable(#[trigger] rest[i]) by {
            assert(rest[i] == lines[i]);
        }
        law_pushers_are_listed(rest, id);
        let named = |s: Seq<Seq<char>>, i: int|
            0 <= i < s.len() && entry_of_line(s[i]).len() > 0 && endpoint_id_of(entry_of_line(s[i]))
                == Some(id);
        if pushers_in(lines).contains(id) {
            let k = choose|k: int| 0 <= k < pushers_in(lines).len() && pushers_in(lines)[k] == id;
            if k < pushers_in(rest).len() {
                assert(pushers_in(rest)[k] == id);
                let i = choose|i: int|
                    0 <= i < rest.len() && entry_of_line(#[trigger] rest[i]).len() > 0
                        && endpoint_id_of(entry_of_line(rest[i])) == Some(id);
                assert(lines[i] == rest[i]);
            } else {
                assert(lines[lines.len() - 1] == last);
            }
        }
        if exists|i: int| #[trigger] named(lines, i) {
            let i = choose|i: int| #[trigger] named(lines, i);
            if i < rest.len() {
                assert(rest[i] == lines[i]);
                assert(pushers_in(rest).contains(id));
                let k = choose|k: int|
                    0 <= k < pushers_in(rest).len() && pushers_in(rest)[k] == id;
                assert(pushers_in(lines)[k] == id);
            } else {
                assert(pushers_in(lines)[pushers_in(lines).len() - 1] == id);
            }
        }
        assert forall|i: int|
            0 <= i < lines.len() && entry_of_line(#[trigger] lines[i]).len() > 0
                && endpoint_id_of(entry_of_line(lines[i])) == Some(id) implies pushers_in(
            lines,
        ).contains(id) by {
            assert(named(lines, i));
        }
    }
}

/// A key counts as configured exactly if something but white space stands where it
/// is configured; white space around it is no part of it.
pub proof fn law_blank_keys_are_none(text: &str)
    ensures
        configured_text(None) is None,
        configured_text(Some(text)) is None <==> forall|i: int|
            0 <= i < text@.len() ==> white_space(#[trigger] text@[i]),
        configured_text(Some(text)) matches Some(t) ==> t == trimmed(text@) && !white_space(t[0])
            && !white_space(t.last()),
{
    let s = text@;
    if forall|i: int| 0 <= i < s.len() ==> white_space(#[trigger] s[i]) {
        lemma_trim_white(s);
    } else {
        law_trim_takes_white_space_alone(s);
    }
    law_trim_is_idempotent(s);
}

/// The entry of a line is what stands before its comment, without the white space
/// around it, whatever the comment says and however long the line is.
pub proof fn law_entries_stand_before_comments(
    left: Seq<char>,
    entry: Seq<char>,
    right: Seq<char>,
    comment: Seq<char>,
)
    requires
        forall|i: int| 0 <= i < left.len() ==> white_space(#[trigger] left[i]),
        forall|i: int| 0 <= i < right.len() ==> white_space(#[trigger] right[i]),
        entry.len() > 0,
        !white_space(entry[0]),
        !white_space(entry.last()),
        !entry.contains('#'),
    ensures
        entry_of_line(left + entry + right) == entry,
        entry_of_line(left + entry + right + seq!['#'] + comment) == entry,
{
    let line = left + entry + right;
    assert(!line.contains('#')) by {
        if line.contains('#') {
            let k = choose|k: int| 0 <= k < line.len() && line[k] == '#';
            if k < left.len() {
                assert(white_space(left[k]));
            } else if k < left.len() + entry.len() {
                assert(entry[k - left.len()] == '#');
            } else {
                assert(white_space(right[k - left.len() - entry.len()]));
            }
        }
    }
    law_texts_are_cut_at_the_first(line, '#', comment);
    law_trim_undoes_padding(left, entry, right);
}

/// An allowlist names what its parts name, one after the other: nothing is left
/// out, doubled or reordered.
pub proof fn law_allowlists_are_read_part_by_part(above: Seq<Seq<char>>, below: Seq<Seq<char>>)
    ensures
        pushers_in(above + below) == pushers_in(above) + pushers_in(below),
    decreases below.len(),
{
    if below.len() == 0 {
        assert(above + below =~= above);
        assert(pushers_in(above) + pushers_in(below) =~= pushers_in(above));
    } else {
        law_allowlists_are_read_part_by_part(above, below.drop_last());
        assert((above + below).drop_last() =~= above + below.drop_last());
        assert((above + below).last() == below.last());
        assert(pushers_in(above + below) =~= pushers_in(above) + pushers_in(below));
    }
}

/// A line names one endpoint or none: the one that its entry stands for.
pub proof fn law_lines_name_their_entry(line: Seq<char>)
    ensures
        entry_of_line(line).len() == 0 ==> pushers_in(seq![line]).len() == 0,
        entry_of_line(line).len() > 0 && endpoint_id_of(entry_of_line(line)) is Some ==> pushers_in(
            seq![line],
        ) == seq![endpoint_id_of(entry_of_line(line))->0],
        readable(line) <==> entry_of_line(line).len() == 0 || endpoint_id_of(entry_of_line(line))
            is Some,
{
    let lines = seq![line];
    assert(lines.drop_last() =~= seq![]);
    assert(pushers_in(lines.drop_last()) =~= seq![]);
    if entry_of_line(line).len() > 0 && endpoint_id_of(entry_of_line(line)) is Some {
        assert(pushers_in(lines) =~= seq![endpoint_id_of(entry_of_line(line))->0]);
    }
}

/// An allowlist is read exactly if each of its lines is blank or names an endpoint;
/// otherwise the error has the number, from 1, and the text of the first that does
/// not.
pub proof fn law_first_bad_lines_are_reported(text: Seq<char>, e: AllowlistError)
    ensures
        all_readable(text) <==> forall|i: int|
            0 <= i < lines_of(text).len() ==> entry_of_line(#[trigger] lines_of(text)[i]).len() == 0
                || endpoint_id_of(entry_of_line(lines_of(text)[i])) is Some,
        first_unreadable(text, e) ==> ({
            let at = e.line - 1;
            let entry = entry_of_line(lines_of(text)[at]);
            &&& !all_readable(text)
            &&& 0 <= at < lines_of(text).len()
            &&& e.raw@ == lines_of(text)[at]
            &&& entry.len() > 0 && endpoint_id_of(entry) is None
            &&& forall|i: int|
                0 <= i < at ==> entry_of_line(#[trigger] lines_of(text)[i]).len() == 0
                    || endpoint_id_of(entry_of_line(lines_of(text)[i])) is Some
        }),
{
    let lines = lines_of(text);
    let good = |line: Seq<char>|
        entry_of_line(line).len() == 0 || endpoint_id_of(entry_of_line(line)) is Some;
    assert forall|i: int| 0 <= i < lines.len() implies readable(#[trigger] lines[i]) == good(
        lines[i],
    ) by {}
    if forall|i: int|
        0 <= i < lines.len() ==> entry_of_line(#[trigger] lines[i]).len() == 0 || endpoint_id_of(
            entry_of_line(lines[i]),
        ) is Some {
        assert forall|i: int| 0 <= i < lines.len() implies readable(#[trigger] lines[i]) by {
            assert(good(lines[i]));
        }
    }
    if all_readable(text) {
        assert forall|i: int| 0 <= i < lines.len() implies entry_of_line(
            #[trigger] lines[i],
        ).len() == 0 || endpoint_id_of(entry_of_line(lines[i])) is Some by {
            assert(readable(lines[i]));
        }
    }
    if first_unreadable(text, e) {
        assert(!readable(lines[e.line - 1]));
        assert forall|i: int| 0 <= i < e.line - 1 implies entry_of_line(
            #[trigger] lines[i],
        ).len() == 0 || endpoint_id_of(entry_of_line(lines[i])) is Some by {
            assert(readable(lines[i]));
        }
    }
}

/// A receiver has the key and the pushers that it is said to have, all of them and
/// in order, and the one layout.
pub proof fn law_receivers_have_what_they_receive_with(
    r: OtaReceiver,
    key: Seq<u8>,
    pushers: Seq<Seq<u8>>,
    i: int,
)
    requires
        r.receives(key, pushers),
    ensures
        r.verifying_key.bytes@ == key,
        r.allowed@.len() == pushers.len(),
        0 <= i < pushers.len() ==> r.allowed@[i].bytes@ == pushers[i],
        r.base@ == "/opt/pigeons"@,
        r.binary_name@ == "pigeons"@,
        r.unit_name@ == "pigeons.service"@,
        r.ready_file@ == "/opt/pigeons/ready"@,
        r.timeout_secs == 30,
        r.self_test_arg@ == "--self-test"@,
{
    assert(ids(r.allowed@).len() == pushers.len());
    if 0 <= i < pushers.len() {
        assert(ids(r.allowed@)[i] == pushers[i]);
    }
}

} // verus!
