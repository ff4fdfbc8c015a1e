use tetherion::block::Block;
use tetherion::tetherion::{InvalidBlockError, Tetherion};

fn next_block(chain: &Tetherion<String>, data: &str) -> Block<String> {
    let last = chain.blocks().last().unwrap();
    Block::new(last.id + 1, &last.hash, String::from(data), chain.difficulty())
}

#[test]
fn creation() {
    const DIFFICULTY: usize = 2;
    const GENESIS_DATA: &str = "genesis_data";

    let tetherion = Tetherion::<String>::new(String::from(GENESIS_DATA), DIFFICULTY);

    assert_eq!(
        tetherion.blocks().len(),
        1,
        "Only genesis block should be present in the blockchain on its creation"
    );
    assert_eq!(tetherion.blocks().last().unwrap().data(), GENESIS_DATA);
}

#[test]
fn appended_chain_validates() {
    let mut chain = Tetherion::<String>::new(String::from("g"), 1);
    for i in 0..4 {
        let block = next_block(&chain, &format!("b{}", i));
        assert_eq!(chain.add_block(block), Ok(()));
    }
    assert_eq!(chain.blocks().len(), 5);
    assert_eq!(chain.is_valid(), Ok(()));
    for (i, b) in chain.blocks().iter().enumerate() {
        assert_eq!(b.id, i as u64);
    }
}

#[test]
fn skipped_id_is_rejected() {
    let mut chain = Tetherion::<String>::new(String::from("g"), 1);
    let last = chain.blocks()[0].hash.clone();
    let block = Block::new(2, &last, String::from("x"), 1);
    assert_eq!(
        chain.add_block(block),
        Err(InvalidBlockError::InvalidBlockId { id: 2, previous_id: 0 })
    );
    assert_eq!(chain.blocks().len(), 1);
}

#[test]
fn id_error_comes_before_link_error() {
    let mut chain = Tetherion::<String>::new(String::from("g"), 1);
    let block = Block::new(5, "not the hash", String::from("x"), 1);
    assert_eq!(
        chain.add_block(block),
        Err(InvalidBlockError::InvalidBlockId { id: 5, previous_id: 0 })
    );
    assert_eq!(chain.blocks().len(), 1);
}

#[test]
fn tampered_link_is_rejected() {
    let mut chain = Tetherion::<String>::new(String::from("g"), 1);
    let block = Block::new(1, "tampered", String::from("x"), 1);
    assert_eq!(chain.add_block(block), Err(InvalidBlockError::InvalidPreviousHash { id: 1 }));
    assert_eq!(chain.blocks().len(), 1);
}

#[test]
fn weak_hash_is_rejected() {
    let mut chain = Tetherion::<String>::new(String::from("g"), 1);
    let previous = chain.blocks()[0].hash.clone();
    let block = Block::from_parts(1, String::from("ab12"), previous, 0, 0, String::from("x"));
    assert_eq!(
        chain.add_block(block),
        Err(InvalidBlockError::InvalidDifficulty { id: 1, difficulty: 1 })
    );
    assert_eq!(chain.blocks().len(), 1);
}

#[test]
fn validation_reports_first_broken_link() {
    let genesis = Block::<String>::new_at(0, "genesis", String::from("g"), 0, 0);
    let one = Block::<String>::new_at(1, &genesis.hash, String::from("a"), 0, 0);
    let two = Block::<String>::new_at(3, "wrong", String::from("b"), 0, 0);
    let three = Block::<String>::new_at(3, "wrong", String::from("c"), 0, 0);
    let chain = Tetherion::from_parts(vec![genesis, one, two, three], 0).unwrap();
    assert_eq!(
        chain.is_valid(),
        Err(InvalidBlockError::InvalidBlockId { id: 3, previous_id: 1 })
    );
}

#[test]
fn genesis_only_chain_is_valid() {
    let genesis = Block::<String>::from_parts(0, String::from("zz"), String::from("genesis"), 0, 0, String::new());
    let chain = Tetherion::from_parts(vec![genesis], 3).unwrap();
    assert_eq!(chain.is_valid(), Ok(()));
}

#[test]
fn empty_parts_make_no_chain() {
    assert!(Tetherion::<String>::from_parts(vec![], 1).is_none());
}

#[test]
fn validating_twice_changes_nothing() {
    let mut chain = Tetherion::<String>::new(String::from("g"), 1);
    let block = next_block(&chain, "x");
    chain.add_block(block).unwrap();
    let before: Vec<String> = chain.blocks().iter().map(|b| b.hash.clone()).collect();
    assert_eq!(chain.is_valid(), Ok(()));
    assert_eq!(chain.is_valid(), Ok(()));
    assert_eq!(chain.is_valid(), Ok(()));
    let after: Vec<String> = chain.blocks().iter().map(|b| b.hash.clone()).collect();
    assert_eq!(before, after);
}

#[test]
fn creation_timestamp_is_genesis_time() {
    let genesis = Block::<String>::new_at(0, "genesis", String::from("g"), 555, 0);
    let chain = Tetherion::from_parts(vec![genesis], 0).unwrap();
    assert_eq!(chain.creation_timestamp(), 555);
    assert_eq!(chain.difficulty(), 0);
}

#[test]
fn error_messages() {
    assert_eq!(
        InvalidBlockError::InvalidBlockId { id: 4, previous_id: 2 }.message(),
        "Block with ID 4 does not follow up previous block's ID 2"
    );
    assert_eq!(
        InvalidBlockError::InvalidPreviousHash { id: 12 }.message(),
        "Block with ID 12 has the wrong previous hash"
    );
    assert_eq!(
        InvalidBlockError::InvalidDifficulty { id: 3, difficulty: 2 }.message(),
        "Block with ID 3 does not satisfy difficulty of 2"
    );
}
