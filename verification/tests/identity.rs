use punch::identity::{reduced_node_id, NodeIdentity};

const SAMPLE: &str = "ae58ff8833241ac82d6ff7611046ed67b5072d142c588d0063e942d9a75502b6";

fn sample_bytes() -> [u8; 32] {
    [
        0xae, 0x58, 0xff, 0x88, 0x33, 0x24, 0x1a, 0xc8, 0x2d, 0x6f, 0xf7, 0x61, 0x10, 0x46, 0xed,
        0x67, 0xb5, 0x07, 0x2d, 0x14, 0x2c, 0x58, 0x8d, 0x00, 0x63, 0xe9, 0x42, 0xd9, 0xa7, 0x55,
        0x02, 0xb6,
    ]
}

#[test]
fn identity_text_is_lowercase_hex() {
    let id = NodeIdentity::new(sample_bytes());
    assert_eq!(id.to_string(), SAMPLE);
    assert_eq!(NodeIdentity::new([0u8; 32]).to_string(), "0".repeat(64));
    assert_eq!(NodeIdentity::new([0xff; 32]).to_string(), "f".repeat(64));
    assert_eq!(NodeIdentity::new([0x0a; 32]).to_string(), "0a".repeat(32));
}

#[test]
fn identity_text_agrees_with_the_key_type() {
    for seed in [1u8, 7, 42, 200] {
        let key = iroh_base::SecretKey::from_bytes(&[seed; 32]).public();
        let id = NodeIdentity::new(*key.as_bytes());
        assert_eq!(id.to_string(), key.to_string());
    }
}

#[test]
fn identity_short_text() {
    let id = NodeIdentity::new(sample_bytes());
    assert_eq!(id.to_short_string(), "ae58ff...5502b6");
    assert_eq!(reduced_node_id(&id), "ae58ff...5502b6");
    assert_eq!(id.to_short_string().len(), 15);
}

#[test]
fn identity_parses_hex() {
    let id = NodeIdentity::parse(SAMPLE);
    assert_eq!(id, Some(NodeIdentity::new(sample_bytes())));
}

#[test]
fn identity_parse_round_trip() {
    for seed in [3u8, 9, 77] {
        let key = iroh_base::SecretKey::from_bytes(&[seed; 32]).public();
        let id = NodeIdentity::new(*key.as_bytes());
        assert_eq!(NodeIdentity::parse(&id.to_string()), Some(id));
    }
}

#[test]
fn identity_parse_rejects_what_is_no_key() {
    assert_eq!(NodeIdentity::parse(""), None);
    assert_eq!(NodeIdentity::parse("laptop"), None);
    assert_eq!(NodeIdentity::parse(&"zz".repeat(32)), None);
    assert_eq!(NodeIdentity::parse(&SAMPLE[..62]), None);
}

#[test]
fn identity_parse_is_not_the_identity_on_text() {
    let id = NodeIdentity::parse(SAMPLE).unwrap();
    assert_eq!(id.bytes[0], 0xae);
    assert_eq!(id.bytes[31], 0xb6);
    assert_ne!(&id.bytes[..], SAMPLE.as_bytes());
}

#[test]
fn identity_same_compares_all_bytes() {
    let a = NodeIdentity::new([5u8; 32]);
    let b = NodeIdentity::new([5u8; 32]);
    let mut other = [5u8; 32];
    other[31] = 6;
    let c = NodeIdentity::new(other);
    let mut first = [5u8; 32];
    first[0] = 4;
    let d = NodeIdentity::new(first);
    assert!(a.same(&b));
    assert!(!a.same(&c));
    assert!(!a.same(&d));
    assert!(a.same(&a));
}
