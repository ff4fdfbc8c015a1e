use sha2::Digest;
use tetherion::block::Block;

fn expected_hash(text: &str) -> String {
    hex::encode(sha2::Sha256::digest(text.as_bytes()))
}

#[test]
fn is_valid() {
    const VALID_DIFFICULTY: usize = 2;
    const INVALID_DIFFICULTY: usize = 3;

    let block = Block::<String>::new(
        0,
        "some_previous_hash",
        String::from("data"),
        VALID_DIFFICULTY,
    );

    assert!(block.is_valid(VALID_DIFFICULTY));
    assert!(!block.is_valid(INVALID_DIFFICULTY));
}

#[test]
fn hash_covers_fields_in_order() {
    let block = Block::<String>::new_at(7, "abc", String::from("payload"), 1700000000, 0);
    assert_eq!(block.nonce(), 0);
    assert_eq!(block.timestamp(), 1700000000);
    assert_eq!(block.hash, expected_hash("7abc17000000000payload"));
    assert_eq!(block.hash.len(), 64);
    assert_eq!(block.previous_hash, "abc");
    assert_eq!(block.data(), "payload");
}

#[test]
fn hash_renders_negative_timestamp() {
    let block = Block::<String>::new_at(1, "p", String::from("d"), -42, 0);
    assert_eq!(block.hash, expected_hash("1p-420d"));
}

#[test]
fn mining_stops_at_first_good_nonce() {
    let block = Block::<String>::new_at(3, "prev", String::from("x"), 1234, 1);
    assert!(block.is_valid(1));
    assert!(block.hash.starts_with("00"));
    let nonce = block.nonce();
    assert_eq!(block.hash, expected_hash(&format!("3prev1234{}x", nonce)));
    for n in 0..nonce {
        let earlier = expected_hash(&format!("3prev1234{}x", n));
        assert!(!earlier.starts_with("00"));
    }
}

#[test]
fn difficulty_zero_accepts_any_hash() {
    let block = Block::<String>::from_parts(1, String::new(), String::from("x"), 0, 0, String::new());
    assert!(block.is_valid(0));
    assert!(!block.is_valid(1));
}

#[test]
fn is_valid_checks_leading_zero_pairs() {
    let make = |hash: &str| {
        Block::<String>::from_parts(1, String::from(hash), String::from("x"), 0, 0, String::new())
    };
    assert!(make("00ab").is_valid(1));
    assert!(!make("0ab0").is_valid(1));
    assert!(make("0000").is_valid(2));
    assert!(!make("000").is_valid(2));
    assert!(!make("0001").is_valid(2));
}

#[test]
fn genesis_block_shape() {
    let block = Block::<String>::genesis(String::from("g"), 1);
    assert_eq!(block.id, 0);
    assert_eq!(block.previous_hash, "genesis");
    assert!(block.is_valid(1));
    assert_eq!(block.data(), "g");
}

#[test]
fn duplicate_keeps_every_field() {
    let block = Block::<String>::new_at(2, "q", String::from("z"), 9, 0);
    assert_eq!(block.duplicate(), block);
}
