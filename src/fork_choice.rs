//! The fork-choice rule: which of two chains a node keeps.

use vstd::prelude::*;

use crate::block::Payload;
use crate::tetherion::{lemma_validity_ok_iff_valid, Tetherion};

verus! {

/// Whether the local chain is to be kept over the remote one: by validity
/// first, then by length, and between chains of equal length by the older
/// creation time (the local chain on a tie).
pub open spec fn local_preferred<T: Payload>(local: Tetherion<T>, remote: Tetherion<T>) -> bool {
    if local.valid() && remote.valid() {
        if local.spec_blocks().len() == remote.spec_blocks().len() {
            local.spec_creation_timestamp() <= remote.spec_creation_timestamp()
        } else {
            local.spec_blocks().len() >= remote.spec_blocks().len()
        }
    } else {
        local.valid()
    }
}

/// The chain that the fork-choice rule selects.
pub open spec fn fork_choice<T: Payload>(local: Tetherion<T>, remote: Tetherion<T>) -> Tetherion<T> {
    if local_preferred(local, remote) {
        local
    } else {
        remote
    }
}

/// Whether `local` is at least as good as `remote`. Two invalid chains are a
/// broken state that callers must not reach: at least one must validate.
pub fn is_better_than<T: Payload>(local: &Tetherion<T>, remote: &Tetherion<T>) -> (r: bool)
    requires
        local.wf(),
        remote.wf(),
        local.valid() || remote.valid(),
    ensures
        r == local_preferred(*local, *remote),
{
    proof {
        lemma_validity_ok_iff_valid(local.spec_blocks(), local.spec_difficulty());
        lemma_validity_ok_iff_valid(remote.spec_blocks(), remote.spec_difficulty());
    }
    match (local.is_valid(), remote.is_valid()) {
        (Ok(()), Ok(())) => {
            let local_len = local.blocks().len();
            let remote_len = remote.blocks().len();
            if local_len == remote_len {
                local.creation_timestamp() <= remote.creation_timestamp()
            } else {
                local_len >= remote_len
            }
        },
        (Ok(()), Err(_)) => true,
        (Err(_), _) => false,
    }
}

/// Selects the canonical chain of the two. Two invalid chains are a broken
/// state that callers must not reach: at least one must validate.
pub fn choose_chain<T: Payload>(local: Tetherion<T>, remote: Tetherion<T>) -> (r: Tetherion<T>)
    requires
        local.wf(),
        remote.wf(),
        local.valid() || remote.valid(),
    ensures
        r == fork_choice(local, remote),
{
    if is_better_than(&local, &remote) {
        local
    } else {
        remote
    }
}

/// Of two valid chains of different lengths the longer one is selected,
/// whichever is passed as the local one.
pub proof fn lemma_longer_valid_chain_wins<T: Payload>(a: Tetherion<T>, b: Tetherion<T>)
    requires
        a.valid(),
        b.valid(),
        a.spec_blocks().len() > b.spec_blocks().len(),
    ensures
        fork_choice(a, b) == a,
        fork_choice(b, a) == a,
{
}

/// Of two valid chains of equal length with different creation times the
/// older one is selected, whichever is passed as the local one.
pub proof fn lemma_older_valid_chain_wins<T: Payload>(a: Tetherion<T>, b: Tetherion<T>)
    requires
        a.valid(),
        b.valid(),
        a.spec_blocks().len() == b.spec_blocks().len(),
        a.spec_creation_timestamp() < b.spec_creation_timestamp(),
    ensures
        fork_choice(a, b) == a,
        fork_choice(b, a) == a,
{
}

/// A valid chain is selected over an invalid one, whichever is passed as the
/// local one.
pub proof fn lemma_valid_chain_beats_invalid<T: Payload>(a: Tetherion<T>, b: Tetherion<T>)
    requires
        a.valid(),
        !b.valid(),
    ensures
        fork_choice(a, b) == a,
        fork_choice(b, a) == a,
{
}

} // verus!
