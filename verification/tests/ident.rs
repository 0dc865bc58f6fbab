use sha2::Digest;
use tunnelto_protocol::{ClientId, SecretKey, StreamId};

#[test]
fn client_id_of_abc() {
    let id = SecretKey("abc".to_string()).client_id();
    assert_eq!(id.to_string(), "ungWv48Bz+pBQUDeXa4iI7ADYaOWF3qctBD/YfIAFa0=");
}

#[test]
fn client_id_of_empty_key() {
    let id = SecretKey(String::new()).client_id();
    assert_eq!(id.as_str(), "47DEQpj8HBSa+/TImW+5JCeuQeRkm5NMpJWZG3hSuFU=");
}

#[test]
fn client_id_is_deterministic() {
    let a = SecretKey("abc".to_string()).client_id();
    let b = SecretKey("abc".to_string()).client_id();
    assert_eq!(a, b);
    assert_eq!(a.to_string(), b.to_string());
}

#[test]
fn client_ids_of_different_keys_differ() {
    let keys = ["abc", "abd", "", "a", "ABC", "abc ", "secret", "another secret"];
    for (i, x) in keys.iter().enumerate() {
        for y in keys.iter().skip(i + 1) {
            let a = SecretKey(x.to_string()).client_id();
            let b = SecretKey(y.to_string()).client_id();
            assert_ne!(a, b, "{:?} and {:?}", x, y);
        }
    }
}

#[test]
fn client_id_matches_the_digest() {
    let key = "correct horse battery staple";
    let expected = base64::encode(sha2::Sha256::digest(key.as_bytes()));
    assert_eq!(SecretKey(key.to_string()).client_id().to_string(), expected);
}

#[test]
fn sha256_hex_of_abc() {
    assert_eq!(
        SecretKey("abc".to_string()).sha256_hex(),
        "ba7816bf8f01cfea414140de5dae2223b00361a396177a9cb410ff61f20015ad"
    );
}

#[test]
fn sha256_hex_of_empty_key() {
    assert_eq!(
        SecretKey(String::new()).sha256_hex(),
        "e3b0c44298fc1c149afbf4c8996fb92427ae41e4649b934ca495991b7852b855"
    );
}

#[test]
fn safe_id_rehashes() {
    let id = SecretKey("abc".to_string()).client_id();
    let safe = id.clone().safe_id();
    assert_eq!(safe.to_string(), "uKNbBFw1AhSvyOA9Xj8YJNmARlZBU9xaPHBGrf7YRaU=");
    assert_ne!(safe, id);
    assert_eq!(id.clone().safe_id(), id.safe_id());
}

#[test]
fn safe_id_of_received_id() {
    let id = ClientId::new("abc".to_string());
    assert_eq!(id.safe_id().to_string(), "ungWv48Bz+pBQUDeXa4iI7ADYaOWF3qctBD/YfIAFa0=");
}

#[test]
fn client_id_from_seed() {
    assert_eq!(ClientId::from_seed(&[0u8; 32]).to_string(), "A".repeat(43));
    let mut seed = [0u8; 32];
    for (i, b) in seed.iter_mut().enumerate() {
        *b = i as u8;
    }
    assert_eq!(
        ClientId::from_seed(&seed).to_string(),
        "AAECAwQFBgcICQoLDA0ODxAREhMUFRYXGBkaGxwdHh8"
    );
}

#[test]
fn generated_client_id_encodes_32_bytes() {
    let id = ClientId::generate();
    let text = id.to_string();
    assert_eq!(text.len(), 43);
    let seed = base64::decode_config(&text, base64::URL_SAFE_NO_PAD).unwrap();
    assert_eq!(seed.len(), 32);
    let mut array = [0u8; 32];
    array.copy_from_slice(&seed);
    assert_eq!(ClientId::from_seed(&array), id);
}

#[test]
fn generated_client_ids_differ() {
    assert_ne!(ClientId::generate(), ClientId::generate());
}

#[test]
fn client_id_equality_is_by_text() {
    assert_eq!(ClientId::new("x".to_string()), ClientId::new("x".to_string()));
    assert_ne!(ClientId::new("x".to_string()), ClientId::new("y".to_string()));
    assert_eq!(ClientId::new("plain".to_string()).to_string(), "plain");
}

#[test]
fn stream_id_to_string() {
    assert_eq!(StreamId::new([1, 2, 3, 4, 5, 6, 7, 8]).to_string(), "stream_AQIDBAUGBwg");
    assert_eq!(StreamId::new([0x0F, 0, 0, 0, 0, 0, 0, 0]).to_string(), "stream_DwAAAAAAAAA");
    assert_eq!(StreamId::new([0xFF; 8]).to_string(), "stream___________8");
}

#[test]
fn stream_id_bytes_and_equality() {
    let id = StreamId::new([1, 2, 3, 4, 5, 6, 7, 8]);
    assert_eq!(id.bytes(), [1, 2, 3, 4, 5, 6, 7, 8]);
    assert_eq!(id.as_slice(), &[1, 2, 3, 4, 5, 6, 7, 8]);
    assert_eq!(id, StreamId::new([1, 2, 3, 4, 5, 6, 7, 8]));
    assert_ne!(id, StreamId::new([1, 2, 3, 4, 5, 6, 7, 9]));
    assert_ne!(id, StreamId::new([0, 2, 3, 4, 5, 6, 7, 8]));
}

#[test]
fn generated_stream_ids_differ() {
    let a = StreamId::generate();
    let b = StreamId::generate();
    let c = StreamId::generate();
    assert!(a != b || b != c);
    assert_eq!(a.bytes().len(), 8);
}
