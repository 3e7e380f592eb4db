use pigeons::cli::AddArgs;
use pigeons::endpoint::EndpointId;
use pigeons::route::{add_route, check_host_name, default_name, route_of, AddError, Route};

const ID: &str = "d75a980182b10ab7d54bfed3c964073a0ee172f3daa62325af021a68f707511a";

fn args(id: &str, name: Option<&str>) -> AddArgs {
    AddArgs { id: String::from(id), name: name.map(String::from) }
}

#[test]
fn a_route_is_named_after_its_identifier() {
    assert_eq!(default_name(ID), "pigeon-d75a9801");
    assert_eq!(default_name("12345678"), "pigeon-12345678");
    assert_eq!(default_name("abc"), "pigeon-abc");
    assert_eq!(default_name(""), "pigeon-");
    // Eight bytes, whatever the characters.
    assert_eq!(default_name("éééééé"), "pigeon-éééé");
}

#[test]
fn default_names_of_identifiers_are_host_names() {
    for seed in 0..20u8 {
        let id = iroh_base::SecretKey::from_bytes(&[seed; 32]).public().to_string();
        let name = default_name(&id);
        assert_eq!(name, format!("pigeon-{}", &id[..8]));
        assert_eq!(check_host_name(&name).unwrap(), name);
    }
}

#[test]
fn host_names_are_kept_and_trimmed() {
    for name in ["nest", "a-b.c_d", "0", "Nest-2.local"] {
        assert_eq!(check_host_name(name).unwrap(), name);
        assert_eq!(check_host_name(&format!(" \t{name}\u{3000}\n")).unwrap(), name);
    }
}

#[test]
fn blank_names_are_refused() {
    for name in ["", " ", "\t\n\u{a0}"] {
        assert!(matches!(check_host_name(name), Err(AddError::EmptyName)));
    }
}

#[test]
fn white_space_in_a_name_is_refused() {
    match check_host_name("  my nest! ") {
        Err(AddError::WhiteSpaceInName(name)) => assert_eq!(name, "my nest!"),
        other => panic!("{other:?}"),
    }
    assert!(matches!(check_host_name("a\u{2003}b"), Err(AddError::WhiteSpaceInName(_))));
}

#[test]
fn other_characters_in_a_name_are_refused() {
    match check_host_name(" nest! ") {
        Err(AddError::InvalidCharacters(name)) => assert_eq!(name, "nest!"),
        other => panic!("{other:?}"),
    }
    for name in ["é", "a/b", "a*", "a:b", "~", "名"] {
        assert!(matches!(check_host_name(name), Err(AddError::InvalidCharacters(_))));
    }
}

#[test]
fn every_character_is_judged_as_ascii_says() {
    for u in 0x21..0x250u32 {
        let c = char::from_u32(u).unwrap();
        if c.is_whitespace() {
            continue;
        }
        let expected = c.is_ascii_alphanumeric() || matches!(c, '-' | '.' | '_');
        assert_eq!(check_host_name(&format!("a{c}b")).is_ok(), expected, "{c:?}");
    }
}

#[test]
fn a_route_has_its_name_and_identifier() {
    let route = add_route(&args(ID, Some(" nest "))).unwrap();
    assert_eq!(route.name, "nest");
    assert_eq!(route.endpoint_id, EndpointId::from_str(ID).unwrap());
    assert_eq!(add_route(&args(ID, None)).unwrap().name, "pigeon-d75a9801");
}

#[test]
fn the_name_is_looked_at_before_the_identifier() {
    assert!(matches!(add_route(&args("bad", Some(" "))), Err(AddError::EmptyName)));
    assert!(matches!(add_route(&args("bad", Some("a b"))), Err(AddError::WhiteSpaceInName(_))));
    assert!(matches!(add_route(&args("bad", Some("a!"))), Err(AddError::InvalidCharacters(_))));
    assert!(matches!(add_route(&args("bad", Some("nest"))), Err(AddError::InvalidId(_))));
    assert!(matches!(add_route(&args("b d", None)), Err(AddError::WhiteSpaceInName(_))));
    assert!(matches!(add_route(&args("bad", None)), Err(AddError::InvalidId(_))));
}

#[test]
fn a_checked_name_and_a_parsed_identifier_make_a_route() {
    let id = || EndpointId { bytes: [3u8; 32] };
    assert_eq!(
        route_of(Ok(String::from("nest")), Ok(id())).unwrap(),
        Route { name: String::from("nest"), endpoint_id: id() }
    );
    assert!(matches!(
        route_of(Err(AddError::EmptyName), EndpointId::from_str("bad")),
        Err(AddError::EmptyName)
    ));
    assert!(matches!(
        route_of(Ok(String::from("nest")), EndpointId::from_str("bad")),
        Err(AddError::InvalidId(_))
    ));
}
