use tetherion::block::Block;
use tetherion::fork_choice::{choose_chain, is_better_than};
use tetherion::tetherion::Tetherion;

/// A valid chain of `len` blocks at difficulty zero, started at `created`.
fn chain_of(len: u64, created: i64, tag: &str) -> Tetherion<String> {
    let genesis = Block::<String>::new_at(0, "genesis", String::from(tag), created, 0);
    let mut chain = Tetherion::from_parts(vec![genesis], 0).unwrap();
    for i in 1..len {
        let last = chain.blocks().last().unwrap().hash.clone();
        let block = Block::new_at(i, &last, format!("{}{}", tag, i), created + i as i64, 0);
        chain.add_block(block).unwrap();
    }
    chain
}

fn broken_chain(created: i64) -> Tetherion<String> {
    let genesis = Block::<String>::new_at(0, "genesis", String::from("bad"), created, 0);
    let stray = Block::<String>::new_at(7, "nowhere", String::from("bad"), created, 0);
    Tetherion::from_parts(vec![genesis, stray], 0).unwrap()
}

#[test]
fn longer_chain_wins_either_way() {
    let chosen = choose_chain(chain_of(3, 10, "a"), chain_of(5, 20, "b"));
    assert_eq!(chosen.blocks().len(), 5);
    assert_eq!(chosen.blocks()[0].data(), "b");
    let chosen = choose_chain(chain_of(5, 20, "b"), chain_of(3, 10, "a"));
    assert_eq!(chosen.blocks().len(), 5);
    assert_eq!(chosen.blocks()[0].data(), "b");
}

#[test]
fn older_chain_wins_on_equal_length() {
    let chosen = choose_chain(chain_of(4, 100, "young"), chain_of(4, 50, "old"));
    assert_eq!(chosen.creation_timestamp(), 50);
    let chosen = choose_chain(chain_of(4, 50, "old"), chain_of(4, 100, "young"));
    assert_eq!(chosen.creation_timestamp(), 50);
}

#[test]
fn local_kept_on_full_tie() {
    let chosen = choose_chain(chain_of(2, 7, "local"), chain_of(2, 7, "remote"));
    assert_eq!(chosen.blocks()[0].data(), "local");
    assert!(is_better_than(&chain_of(2, 7, "l"), &chain_of(2, 7, "r")));
    assert!(!is_better_than(&chain_of(2, 7, "l"), &chain_of(3, 9, "r")));
    assert!(!is_better_than(&broken_chain(1), &chain_of(1, 9, "r")));
}

#[test]
fn valid_chain_beats_invalid_one() {
    let chosen = choose_chain(broken_chain(1), chain_of(1, 9, "ok"));
    assert_eq!(chosen.blocks()[0].data(), "ok");
    let chosen = choose_chain(chain_of(1, 9, "ok"), broken_chain(1));
    assert_eq!(chosen.blocks()[0].data(), "ok");
}
