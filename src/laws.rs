//! Properties of the registry that relate several operations.
use vstd::prelude::*;
use crate::actor::{registered, payload_record};
use crate::keys::{account_key, lemma_account_key_injective, ActorID};
use crate::state::{vote_outcome, voted_in, round_at};
use crate::types::{round_is_stale, NodeInfoPayload, NodeRecord, VotesRecord};

verus! {

/// After account `a` registers a payload, `a` has a record, and its creator
/// is `a`.
pub proof fn lemma_registered_is_present(m: Map<Seq<u8>, NodeRecord>, a: ActorID, p: NodeInfoPayload)
    ensures
        registered(m, a, p).contains_key(account_key(a)),
        registered(m, a, p)[account_key(a)].creator == a,
        registered(m, a, p)[account_key(a)] == payload_record(a, p),
{
}

/// What account `b` registers or removes never touches the record of
/// another account `a`: the two accounts' keys differ.
pub proof fn lemma_no_cross_account_effect(m: Map<Seq<u8>, NodeRecord>, a: ActorID, b: ActorID, p: NodeInfoPayload)
    requires
        a != b,
    ensures
        account_key(a) != account_key(b),
        registered(m, b, p).contains_key(account_key(a)) == m.contains_key(account_key(a)),
        m.contains_key(account_key(a)) ==> registered(m, b, p)[account_key(a)] == m[account_key(a)],
        m.remove(account_key(b)).contains_key(account_key(a)) == m.contains_key(account_key(a)),
        m.contains_key(account_key(a)) ==> m.remove(account_key(b))[account_key(a)] == m[account_key(a)],
{
    lemma_account_key_injective(a, b);
}

/// Registering the same payload twice from the same account leaves what the
/// first registration left.
pub proof fn lemma_register_idempotent(m: Map<Seq<u8>, NodeRecord>, a: ActorID, p: NodeInfoPayload)
    ensures
        registered(registered(m, a, p), a, p) == registered(m, a, p),
{
    assert(registered(registered(m, a, p), a, p) =~= registered(m, a, p));
}

/// A vote on a stale round discards the round's votes: a fresh round holds
/// the new vote alone, and the count to report is 0.
pub proof fn lemma_stale_round_resets(round: VotesRecord, voter: ActorID, now: int, window: int)
    requires
        round_is_stale(round.last_vote, now, window),
    ensures
        vote_outcome(Some(round), voter, now, window) == Some((0nat, VotesRecord { last_vote: now, votes: seq![voter] })),
{
}

/// A voter who already voted in a live round cannot vote again in it.
pub proof fn lemma_repeat_vote_rejected(m: Map<Seq<u8>, VotesRecord>, k: Seq<u8>, voter: ActorID, now: int, window: int)
    requires
        voted_in(m, k, voter),
        !round_is_stale(m[k].last_vote, now, window),
    ensures
        vote_outcome(round_at(m, k), voter, now, window) is None,
{
}

/// Within a live round each accepted vote adds one to the count; the first
/// vote against a checker counts one.
pub proof fn lemma_live_round_counts(m: Map<Seq<u8>, VotesRecord>, k: Seq<u8>, voter: ActorID, now: int, window: int)
    requires
        !voted_in(m, k, voter),
        m.contains_key(k) ==> !round_is_stale(m[k].last_vote, now, window),
    ensures
        vote_outcome(round_at(m, k), voter, now, window) is Some,
        vote_outcome(round_at(m, k), voter, now, window)->Some_0.0
            == if m.contains_key(k) { m[k].votes.len() + 1 } else { 1 },
        vote_outcome(round_at(m, k), voter, now, window)->Some_0.1.votes
            == if m.contains_key(k) { m[k].votes.push(voter) } else { seq![voter] },
{
}

} // verus!
