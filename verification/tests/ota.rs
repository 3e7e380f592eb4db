use pigeons::endpoint::EndpointId;
use pigeons::hex::HexError;
use pigeons::ota::{
    add_pusher, build_handler, embedded_verifying_key, load_allowlist, verifying_key_of,
    write_ready_file, HandlerError, ReadyNext, ReadyStep, TextRead, VerifyingKey,
    VerifyingKeyError, ALLOWLIST_FILE, OTA_BASE, OTA_BINARY_NAME, OTA_UNIT_NAME, READY_CONTENTS,
    READY_FILE, SELF_TEST_ARG, WATCHDOG_TIMEOUT_SECS,
};

const FIRST: &str = "d75a980182b10ab7d54bfed3c964073a0ee172f3daa62325af021a68f707511a";
const SECOND: &str = "3d4017c3e843895a92b70aa74d1b7ebc9c982ccf2ec4968cc0cd55f12af4660c";

fn bytes(hex: &str) -> [u8; 32] {
    let mut out = [0u8; 32];
    for (i, b) in out.iter_mut().enumerate() {
        *b = u8::from_str_radix(&hex[2 * i..2 * i + 2], 16).unwrap();
    }
    out
}

fn id(hex: &str) -> EndpointId {
    EndpointId { bytes: bytes(hex) }
}

fn off_curve() -> String {
    let mut text = String::from("02");
    text.push_str(&"00".repeat(31));
    text
}

fn key_error() -> iroh_base::KeyParsingError {
    iroh_base::PublicKey::from_bytes(&bytes(&off_curve())).unwrap_err()
}

#[test]
fn without_a_key_updates_are_not_configured() {
    assert!(matches!(embedded_verifying_key(None), Ok(None)));
    assert!(matches!(embedded_verifying_key(Some("")), Ok(None)));
    assert!(matches!(embedded_verifying_key(Some(" \n\t")), Ok(None)));
}

#[test]
fn a_key_may_have_white_space_around_it() {
    let padded = format!("  {FIRST}\n");
    let key = embedded_verifying_key(Some(&padded)).unwrap().unwrap();
    assert_eq!(key, VerifyingKey { bytes: bytes(FIRST) });
}

#[test]
fn a_key_may_be_in_upper_case() {
    let key = embedded_verifying_key(Some(&FIRST.to_uppercase())).unwrap().unwrap();
    assert_eq!(key.bytes, bytes(FIRST));
}

#[test]
fn a_key_that_is_not_hex_is_an_error() {
    match embedded_verifying_key(Some(" abc ")) {
        Err(VerifyingKeyError::NotHex { text, cause }) => {
            assert_eq!(text, "abc");
            assert_eq!(cause, HexError::WrongLength(3));
        }
        other => panic!("{other:?}"),
    }
    match embedded_verifying_key(Some(&"z".repeat(64))) {
        Err(VerifyingKeyError::NotHex { cause, .. }) => {
            assert_eq!(cause, HexError::NotADigit(b'z'));
        }
        other => panic!("{other:?}"),
    }
}

#[test]
fn bytes_that_are_no_key_are_an_error() {
    assert!(matches!(
        embedded_verifying_key(Some(&off_curve())),
        Err(VerifyingKeyError::NotAKey(_))
    ));
}

#[test]
fn what_the_parser_says_of_a_key_is_kept() {
    assert_eq!(
        verifying_key_of(Ok([7u8; 32])).unwrap(),
        Some(VerifyingKey { bytes: [7u8; 32] })
    );
    assert!(matches!(verifying_key_of(Err(key_error())), Err(VerifyingKeyError::NotAKey(_))));
}

#[test]
fn a_missing_or_empty_allowlist_allows_nobody() {
    assert!(load_allowlist(None).unwrap().is_empty());
    assert!(load_allowlist(Some("")).unwrap().is_empty());
    assert!(load_allowlist(Some("\n \n# nobody yet\n")).unwrap().is_empty());
}

#[test]
fn pushers_are_read_in_order() {
    let text = format!("# pushers\r\n{SECOND}  # the second\r\n\r\n\t{FIRST}#the first");
    assert_eq!(load_allowlist(Some(&text)).unwrap(), vec![id(SECOND), id(FIRST)]);
}

#[test]
fn blank_lines_and_comments_change_nothing() {
    let plain = format!("{FIRST}\n{SECOND}\n");
    let spaced = format!("\n#x\n{FIRST}\n   \n \t# {SECOND}\n{SECOND}\n\n");
    assert_eq!(load_allowlist(Some(&spaced)).unwrap(), load_allowlist(Some(&plain)).unwrap());
}

#[test]
fn the_first_bad_line_is_reported_as_it_stands() {
    let text = format!("# list\n{FIRST}\n  pigeon # who?\nnor this\n");
    let e = load_allowlist(Some(&text)).unwrap_err();
    assert_eq!(e.line, 3);
    assert_eq!(e.raw, "  pigeon # who?");
}

#[test]
fn what_the_parser_says_of_a_pusher_is_kept() {
    let mut pushers = vec![id(FIRST)];
    assert!(add_pusher(&mut pushers, 2, SECOND, Ok(bytes(SECOND))).is_ok());
    assert_eq!(pushers, vec![id(FIRST), id(SECOND)]);
    let e = add_pusher(&mut pushers, 9, "raw", Err(key_error())).unwrap_err();
    assert_eq!((e.line, e.raw.as_str()), (9, "raw"));
    assert_eq!(pushers.len(), 2);
}

#[test]
fn a_receiver_has_the_key_the_pushers_and_the_layout() {
    let list: TextRead<&str> = TextRead::Contents(format!("{SECOND}\n"));
    let receiver = build_handler(Some(FIRST), list).unwrap().unwrap();
    assert_eq!(receiver.verifying_key.bytes, bytes(FIRST));
    assert_eq!(receiver.allowed, vec![id(SECOND)]);
    assert_eq!(receiver.base, "/opt/pigeons");
    assert_eq!(receiver.binary_name, "pigeons");
    assert_eq!(receiver.unit_name, "pigeons.service");
    assert_eq!(receiver.ready_file, "/opt/pigeons/ready");
    assert_eq!(receiver.timeout_secs, 30);
    assert_eq!(receiver.self_test_arg, "--self-test");
}

#[test]
fn a_receiver_without_an_allowlist_denies_all() {
    let receiver = build_handler::<&str>(Some(FIRST), TextRead::Missing).unwrap().unwrap();
    assert!(receiver.allowed.is_empty());
}

#[test]
fn without_a_key_the_allowlist_does_not_matter() {
    for list in [
        TextRead::Missing,
        TextRead::Unreadable("denied"),
        TextRead::Contents(String::from("no endpoint")),
    ] {
        assert!(matches!(build_handler(None, list), Ok(None)));
    }
}

#[test]
fn every_way_to_have_no_receiver_is_told_apart() {
    assert!(matches!(
        build_handler(Some("abc"), TextRead::Unreadable("denied")),
        Err(HandlerError::Key(VerifyingKeyError::NotHex { .. }))
    ));
    assert!(matches!(
        build_handler(Some(&off_curve()), TextRead::Unreadable("denied")),
        Err(HandlerError::Key(VerifyingKeyError::NotAKey(_)))
    ));
    assert!(matches!(
        build_handler(Some(FIRST), TextRead::Unreadable("denied")),
        Err(HandlerError::ReadAllowlist("denied"))
    ));
    match build_handler::<&str>(Some(FIRST), TextRead::Contents(String::from("\npigeon"))) {
        Err(HandlerError::Allowlist(e)) => assert_eq!((e.line, e.raw.as_str()), (2, "pigeon")),
        other => panic!("{other:?}"),
    }
}

#[test]
fn the_ready_file_is_removed_before_it_is_written() {
    for outcome in [true, false] {
        let first = write_ready_file(None, outcome);
        assert_eq!(first, ReadyNext::Take(ReadyStep::CreateParents));
        let second = write_ready_file(Some(ReadyStep::CreateParents), outcome);
        assert_eq!(second, ReadyNext::Take(ReadyStep::RemoveStale));
        let third = write_ready_file(Some(ReadyStep::RemoveStale), outcome);
        assert_eq!(third, ReadyNext::Take(ReadyStep::Write));
    }
    assert_eq!(write_ready_file(Some(ReadyStep::Write), true), ReadyNext::Done);
    assert_eq!(write_ready_file(Some(ReadyStep::Write), false), ReadyNext::Fail);
}

/// Touches a file that is held in memory, where removing it may be refused.
fn touch(file: &mut Option<String>, may_remove: bool) -> ReadyNext {
    let mut next = write_ready_file(None, true);
    while let ReadyNext::Take(step) = next {
        let succeeded = match step {
            ReadyStep::CreateParents => false,
            ReadyStep::RemoveStale => may_remove && file.take().is_some(),
            ReadyStep::Write => {
                *file = Some(String::from(READY_CONTENTS));
                true
            }
        };
        next = write_ready_file(Some(step), succeeded);
    }
    next
}

#[test]
fn touching_the_ready_file_twice_is_touching_it_once() {
    for before in [None, Some(String::from("stale"))] {
        for may_remove in [true, false] {
            let mut file = before.clone();
            assert_eq!(touch(&mut file, may_remove), ReadyNext::Done);
            assert_eq!(file.as_deref(), Some("ok\n"));
            assert_eq!(touch(&mut file, may_remove), ReadyNext::Done);
            assert_eq!(file.as_deref(), Some("ok\n"));
        }
    }
}

#[test]
fn the_layout_is_fixed() {
    assert_eq!(OTA_BASE, "/opt/pigeons");
    assert_eq!(READY_FILE, format!("{OTA_BASE}/ready"));
    assert_eq!(READY_CONTENTS, "ok\n");
    assert_eq!(ALLOWLIST_FILE, "/etc/pigeons/ota_allowed_pushers");
    assert_eq!(OTA_BINARY_NAME, "pigeons");
    assert_eq!(OTA_UNIT_NAME, "pigeons.service");
    assert_eq!(SELF_TEST_ARG, "--self-test");
    assert_eq!(WATCHDOG_TIMEOUT_SECS, 30);
}
