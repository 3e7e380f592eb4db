use pigeons::endpoint::{add_relay_url, parse_relay_urls, EndpointId};

const HEX: &str = "d75a980182b10ab7d54bfed3c964073a0ee172f3daa62325af021a68f707511a";
const BASE32: &str = "25njqamcweflpvkl73j4szahhihoc4xt3ktcgjnpaingr5yhkena";

fn bytes() -> [u8; 32] {
    let mut out = [0u8; 32];
    for (i, b) in out.iter_mut().enumerate() {
        *b = u8::from_str_radix(&HEX[2 * i..2 * i + 2], 16).unwrap();
    }
    out
}

#[test]
fn reads_hexadecimal_and_base32() {
    assert_eq!(EndpointId::from_str(HEX).unwrap(), EndpointId { bytes: bytes() });
    assert_eq!(EndpointId::from_str(BASE32).unwrap(), EndpointId { bytes: bytes() });
    assert_eq!(
        EndpointId::from_str(&BASE32.to_uppercase()).unwrap(),
        EndpointId { bytes: bytes() }
    );
}

#[test]
fn upper_case_hexadecimal_is_no_identifier() {
    assert!(EndpointId::from_str(&HEX.to_uppercase()).is_err());
}

#[test]
fn other_texts_are_no_identifiers() {
    assert!(EndpointId::from_str("").is_err());
    assert!(EndpointId::from_str("pigeon").is_err());
    assert!(EndpointId::from_str(&HEX[1..]).is_err());
    for len in 0..80 {
        if len != 52 && len != 64 {
            assert!(EndpointId::from_str(&"a".repeat(len)).is_err());
        }
    }
    // Two is the height of no point of the curve.
    let mut off_curve = String::from("02");
    off_curve.push_str(&"00".repeat(31));
    assert!(EndpointId::from_str(&off_curve).is_err());
}

#[test]
fn a_refused_text_keeps_what_the_parser_said_of_it() {
    for text in ["", "pigeon", &HEX.to_uppercase(), &"!".repeat(52)] {
        let said = text.parse::<iroh_base::EndpointId>().unwrap_err();
        let kept = EndpointId::from_str(text).unwrap_err().cause;
        assert_eq!(kept.to_string(), said.to_string());
    }
    let said = "not a url".parse::<iroh_base::RelayUrl>().unwrap_err();
    let kept = parse_relay_urls(&vec![String::from("not a url")]).unwrap_err().cause;
    assert_eq!(kept.to_string(), said.to_string());
}

#[test]
fn written_identifiers_are_read_back() {
    for seed in 0..20u8 {
        let key = iroh_base::SecretKey::from_bytes(&[seed; 32]).public();
        let id = EndpointId::from_str(&key.to_string()).unwrap();
        assert_eq!(&id.bytes, key.as_bytes());
    }
}

#[test]
fn relays_are_kept_in_order_and_normalised() {
    let given = vec![
        String::from("https://b.example.org"),
        String::from("HTTPS://a.example.org/x"),
    ];
    assert_eq!(
        parse_relay_urls(&given).unwrap(),
        vec![
            String::from("https://b.example.org/"),
            String::from("https://a.example.org/x"),
        ]
    );
    assert!(parse_relay_urls(&Vec::new()).unwrap().is_empty());
}

#[test]
fn read_relays_are_read_again_as_they_are() {
    let once = parse_relay_urls(&vec![String::from("https://Relay.Example.org:443")]).unwrap();
    assert_eq!(parse_relay_urls(&once).unwrap(), once);
}

#[test]
fn first_bad_relay_is_the_error() {
    let given = vec![
        String::from("https://a.example.org"),
        String::from("not a url"),
        String::from("nor this"),
    ];
    assert_eq!(parse_relay_urls(&given).unwrap_err().url, "not a url");
}

#[test]
fn a_parsed_relay_is_added_and_a_bad_one_is_not() {
    let mut relays = vec![String::from("https://a.example.org/")];
    assert!(add_relay_url(&mut relays, "x", Ok(String::from("https://b.example.org/"))).is_ok());
    assert_eq!(relays.len(), 2);
    assert_eq!(relays[1], "https://b.example.org/");
    let cause = "no url".parse::<iroh_base::RelayUrl>().unwrap_err();
    assert_eq!(add_relay_url(&mut relays, "no url", Err(cause)).unwrap_err().url, "no url");
    assert_eq!(relays.len(), 2);
}
