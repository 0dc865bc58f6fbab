use sha2::Digest;
use tunnelto_protocol::domain::{domain_label, prefixed, random_label, to_lowercase};
use tunnelto_protocol::text::{is_lower_alphanumeric_char, to_ascii_lowercase};
use tunnelto_protocol::{ClientId, SecretKey, ServerHello};

fn is_label(s: &str) -> bool {
    s.chars().count() == 8 && s.chars().all(|c| c.is_ascii_digit() || c.is_ascii_lowercase())
}

#[test]
fn client_domain_example() {
    let id = ClientId::new("client1".to_string());
    assert_eq!(ServerHello::prefixed_client_domain("tun", &id, "acct1"), "tun-a2uhdc0v");
}

#[test]
fn client_domain_of_derived_id() {
    let id = SecretKey("abc".to_string()).client_id();
    assert_eq!(ServerHello::prefixed_client_domain("tun", &id, "acct1"), "tun-sstfrzii");
}

#[test]
fn client_domain_of_empty_inputs() {
    let id = ClientId::new(String::new());
    assert_eq!(ServerHello::prefixed_client_domain("", &id, ""), "-vl0kd1nd");
}

#[test]
fn client_domain_is_deterministic() {
    let id = ClientId::new("client1".to_string());
    let a = ServerHello::prefixed_client_domain("tun", &id, "acct1");
    let b = ServerHello::prefixed_client_domain("tun", &id, "acct1");
    assert_eq!(a, b);
}

#[test]
fn client_domain_differs_by_account() {
    let id = ClientId::new("client1".to_string());
    let a = ServerHello::prefixed_client_domain("tun", &id, "acct1");
    let b = ServerHello::prefixed_client_domain("tun", &id, "acct2");
    assert_eq!(b, "tun-kbwqxrel");
    assert_ne!(a, b);
}

#[test]
fn client_domain_prefix_is_literal() {
    let id = ClientId::new("client1".to_string());
    let a = ServerHello::prefixed_client_domain("tun", &id, "acct1");
    let b = ServerHello::prefixed_client_domain("other-prefix", &id, "acct1");
    assert_eq!(&a[3..], &b["other-prefix".len()..]);
    assert!(b.starts_with("other-prefix-"));
}

#[test]
fn client_domain_has_eight_lowercase_alphanumerics() {
    for i in 0..200 {
        let id = ClientId::new(format!("client{}", i));
        let domain = ServerHello::prefixed_client_domain("tun", &id, "acct1");
        assert!(domain.starts_with("tun-"));
        assert!(is_label(&domain[4..]), "{}", domain);
    }
}

#[test]
fn client_domain_skips_what_is_no_letter_or_digit() {
    // The encoded digest of this pair starts with an underscore.
    let id = ClientId::new("client2".to_string());
    let hash = sha2::Sha256::digest(b"client2||acct1");
    let encoded = base64::encode_config(hash, base64::URL_SAFE_NO_PAD);
    assert_eq!(encoded, "_P9bpqXCmkTv3-Pp0izITO0qLvaMC3Kitnz4efydJe4");
    assert_eq!(ServerHello::prefixed_client_domain("tun", &id, "acct1"), "tun-p9bpqxcm");
}

#[test]
fn label_takes_first_eight_letters_and_digits() {
    assert_eq!(domain_label("ABCDEFGHIJKL"), "abcdefgh");
    assert_eq!(domain_label("A2UHDC0VNhyO3EDN"), "a2uhdc0v");
    assert_eq!(domain_label("OozFlR_E1yjFjDWn"), "oozflre1");
    assert_eq!(domain_label("-_-_ab-_cd_-ef--gh__ij"), "abcdefgh");
}

#[test]
fn label_may_be_short() {
    assert_eq!(domain_label(""), "");
    assert_eq!(domain_label("-_-_"), "");
    assert_eq!(domain_label("a-B_3"), "ab3");
    assert_eq!(domain_label("-_-_-_-_-_-_-_-_-_-_-_-_-_-_-_-_-_-_-_-_-_8"), "8");
    assert_eq!(domain_label("1234567"), "1234567");
    assert_eq!(domain_label("12345678"), "12345678");
    assert_eq!(domain_label("123456789"), "12345678");
}

#[test]
fn label_drops_characters_outside_ascii() {
    assert_eq!(domain_label("é1ß2Ω3"), "123");
    assert_eq!(domain_label("a=b+c/d"), "abcd");
}

#[test]
fn prefixed_joins_with_a_hyphen() {
    assert_eq!(prefixed("tun", "abcdefgh"), "tun-abcdefgh");
    assert_eq!(prefixed("", ""), "-");
    assert_eq!(prefixed("a-b", "c"), "a-b-c");
}

#[test]
fn to_lowercase_folds_ascii_capitals() {
    assert_eq!(to_lowercase("Hello World 123_-"), "hello world 123_-");
    assert_eq!(to_lowercase(""), "");
    assert_eq!(to_lowercase("AZaz09@[`{"), "azaz09@[`{");
}

#[test]
fn ascii_lowercase_of_single_characters() {
    assert_eq!(to_ascii_lowercase('A'), 'a');
    assert_eq!(to_ascii_lowercase('Z'), 'z');
    assert_eq!(to_ascii_lowercase('m'), 'm');
    assert_eq!(to_ascii_lowercase('5'), '5');
    assert_eq!(to_ascii_lowercase('@'), '@');
    assert_eq!(to_ascii_lowercase('['), '[');
    assert_eq!(to_ascii_lowercase('É'), 'É');
}

#[test]
fn lower_alphanumeric_class() {
    for c in ['a', 'z', 'k', '0', '9', '5'] {
        assert!(is_lower_alphanumeric_char(c));
    }
    for c in ['A', 'Z', '-', '_', '/', ':', '`', '{', ' ', 'é'] {
        assert!(!is_lower_alphanumeric_char(c));
    }
}

#[test]
fn random_domain_is_a_label() {
    for _ in 0..200 {
        let d = ServerHello::random_domain();
        assert!(is_label(&d), "{}", d);
    }
}

#[test]
fn random_label_is_a_label() {
    for _ in 0..50 {
        assert!(is_label(&random_label()));
    }
}

#[test]
fn random_domains_differ() {
    let a = ServerHello::random_domain();
    let b = ServerHello::random_domain();
    let c = ServerHello::random_domain();
    assert!(a != b || b != c);
}

#[test]
fn prefixed_random_domain_has_prefix_and_label() {
    for _ in 0..50 {
        let d = ServerHello::prefixed_random_domain("demo");
        assert!(d.starts_with("demo-"));
        assert!(is_label(&d[5..]), "{}", d);
    }
    let bare = ServerHello::prefixed_random_domain("");
    assert!(bare.starts_with('-'));
    assert_eq!(bare.len(), 9);
}
