//! The registry's aggregate state: members, checkers and offline report
//! rounds, each in a persistent map keyed by the owning account's decimal
//! identity, and the algorithms that change them.
use vstd::prelude::*;
use cid::Cid;
use crate::error::Error;
use crate::keys::{account_key, account_key_bytes, ActorID};
use crate::store::{NodeMap, VotesMap};
use crate::types::{round_is_stale, ChainEpoch, NodeInfo, NodeRecord, Votes, VotesRecord};

verus! {

/// The voting window, in epochs, when none is given at construction.
pub const DEFAULT_VOTING_DURATION: ChainEpoch = 200;

/// The bit width of the HAMTs that hold the maps.
pub const HAMT_BIT_WIDTH: u32 = 5;

/// Every entry of `m` sits under the key of its own creator.
pub open spec fn keyed_by_creator(m: Map<Seq<u8>, NodeRecord>) -> bool {
    forall|k: Seq<u8>| #[trigger] m.contains_key(k) ==> k == account_key(m[k].creator)
}

/// No voter appears twice in a round.
pub open spec fn rounds_without_repeats(m: Map<Seq<u8>, VotesRecord>) -> bool {
    forall|k: Seq<u8>| #[trigger] m.contains_key(k) ==> m[k].votes.no_duplicates()
}

/// The round stored under `k`, if any.
pub open spec fn round_at(m: Map<Seq<u8>, VotesRecord>, k: Seq<u8>) -> Option<VotesRecord> {
    if m.contains_key(k) {
        Some(m[k])
    } else {
        None
    }
}

/// What a vote by `voter` at `now` does to the round `prev`, for a window of
/// `window` epochs: `None` when the vote is a repeat within a live round,
/// otherwise the count to report and the round that replaces `prev`.
pub open spec fn vote_outcome(prev: Option<VotesRecord>, voter: ActorID, now: int, window: int) -> Option<(nat, VotesRecord)> {
    match prev {
        None => Some((1, VotesRecord { last_vote: now, votes: seq![voter] })),
        Some(round) => if round_is_stale(round.last_vote, now, window) {
            Some((0, VotesRecord { last_vote: now, votes: seq![voter] }))
        } else if round.votes.contains(voter) {
            None
        } else {
            Some(((round.votes.len() + 1) as nat, VotesRecord { last_vote: now, votes: round.votes.push(voter) }))
        },
    }
}

/// Whether `voter` appears in the round stored under `k`.
pub open spec fn voted_in(m: Map<Seq<u8>, VotesRecord>, k: Seq<u8>, voter: ActorID) -> bool {
    m.contains_key(k) && m[k].votes.contains(voter)
}

/// The checkers map built from `nodes`, inserted in order, so that a later
/// node replaces an earlier one of the same creator.
pub open spec fn checkers_from(nodes: Seq<NodeRecord>) -> Map<Seq<u8>, NodeRecord>
    decreases nodes.len(),
{
    if nodes.len() == 0 {
        Map::empty()
    } else {
        checkers_from(nodes.drop_last()).insert(account_key(nodes.last().creator), nodes.last())
    }
}

/// The owner that an upsert of `node` into `m` is checked against: the
/// creator of the record already stored under the node's key, or else the
/// node's own creator.
pub open spec fn upsert_owner(m: Map<Seq<u8>, NodeRecord>, node: NodeRecord) -> ActorID {
    let k = account_key(node.creator);
    if m.contains_key(k) {
        m[k].creator
    } else {
        node.creator
    }
}

pub proof fn lemma_checkers_from_keyed(nodes: Seq<NodeRecord>)
    ensures
        keyed_by_creator(checkers_from(nodes)),
    decreases nodes.len(),
{
    if nodes.len() > 0 {
        lemma_checkers_from_keyed(nodes.drop_last());
    }
}

pub proof fn lemma_keyed_insert(m: Map<Seq<u8>, NodeRecord>, node: NodeRecord)
    requires
        keyed_by_creator(m),
    ensures
        keyed_by_creator(m.insert(account_key(node.creator), node)),
{
    let m2 = m.insert(account_key(node.creator), node);
    assert forall|k: Seq<u8>| #[trigger] m2.contains_key(k) implies k == account_key(m2[k].creator) by {
        if k != account_key(node.creator) {
            assert(m.contains_key(k));
        }
    }
}

pub proof fn lemma_keyed_remove(m: Map<Seq<u8>, NodeRecord>, key: Seq<u8>)
    requires
        keyed_by_creator(m),
    ensures
        keyed_by_creator(m.remove(key)),
{
    let m2 = m.remove(key);
    assert forall|k: Seq<u8>| #[trigger] m2.contains_key(k) implies k == account_key(m2[k].creator) by {
        assert(m.contains_key(k));
    }
}

/// The aggregate state of the registry.
pub struct HamtState {
    /// The member nodes, by the key of their creator.
    members: NodeMap,
    /// The checker nodes, by the key of their creator.
    checkers: NodeMap,
    /// The open offline report rounds, by the key of the reported checker.
    offline_checkers: VotesMap,
    /// The root identifiers of the three maps as last flushed.
    members_root: Cid,
    checkers_root: Cid,
    offline_checkers_root: Cid,
    /// The number of checkers at construction.
    total_checkers: usize,
    /// The voting window, in epochs.
    voting_duration: ChainEpoch,
}

fn hamt_error<T>(r: Result<T, fvm_ipld_hamt::Error>) -> (e: Error)
    requires
        r is Err,
    ensures
        e is FVMIpldHamt,
{
    match r {
        Ok(_) => Error::NotExists,
        Err(e) => Error::FVMIpldHamt(e),
    }
}

fn ensure_owner(caller: ActorID, n: &NodeInfo) -> (r: Result<(), Error>)
    ensures
        r == if n@.creator == caller {
            Ok::<(), Error>(())
        } else {
            Err::<(), Error>(Error::NotOwner)
        },
{
    if caller != *n.creator() {
        Err(Error::NotOwner)
    } else {
        Ok(())
    }
}

fn upsert(map: &mut NodeMap, caller: ActorID, node: NodeInfo) -> (r: Result<Cid, Error>)
    ensures
        (match r {
            Ok(_) => upsert_owner(old(map).entries(), node@) == caller
                && final(map).entries() == old(map).entries().insert(account_key(node@.creator), node@),
            Err(Error::NotOwner) => upsert_owner(old(map).entries(), node@) != caller
                && *final(map) == *old(map),
            Err(Error::FVMIpldHamt(_)) => true,
            Err(_) => false,
        }),
{
    let key = account_key_bytes(*node.creator());
    let found = map.get(&key);
    if found.is_err() {
        return Err(hamt_error(found));
    }
    let owner_check = match found {
        Ok(Some(existing)) => ensure_owner(caller, &existing),
        _ => ensure_owner(caller, &node),
    };
    if owner_check.is_err() {
        return Err(Error::NotOwner);
    }
    let set = map.set(key, &node);
    if set.is_err() {
        return Err(hamt_error(set));
    }
    let flushed = map.flush();
    match flushed {
        Ok(root) => Ok(root),
        Err(e) => Err(Error::FVMIpldHamt(e)),
    }
}

fn remove(map: &mut NodeMap, caller: ActorID, id: ActorID) -> (r: Result<Cid, Error>)
    ensures
        (match r {
            Ok(_) => old(map).entries().contains_key(account_key(id))
                && old(map).entries()[account_key(id)].creator == caller
                && final(map).entries() == old(map).entries().remove(account_key(id)),
            Err(Error::NotExists) => !old(map).entries().contains_key(account_key(id))
                && *final(map) == *old(map),
            Err(Error::NotOwner) => old(map).entries().contains_key(account_key(id))
                && old(map).entries()[account_key(id)].creator != caller
                && *final(map) == *old(map),
            Err(Error::FVMIpldHamt(_)) => true,
            Err(_) => false,
        }),
{
    let key = account_key_bytes(id);
    let found = map.get(&key);
    let existing = match found {
        Ok(Some(n)) => n,
        Ok(None) => return Err(Error::NotExists),
        Err(e) => return Err(Error::FVMIpldHamt(e)),
    };
    if ensure_owner(caller, &existing).is_err() {
        return Err(Error::NotOwner);
    }
    let deleted = map.delete(&key);
    if deleted.is_err() {
        return Err(hamt_error(deleted));
    }
    let flushed = map.flush();
    match flushed {
        Ok(root) => Ok(root),
        Err(e) => Err(Error::FVMIpldHamt(e)),
    }
}

impl HamtState {
    pub closed spec fn members(&self) -> Map<Seq<u8>, NodeRecord> {
        self.members.entries()
    }

    pub closed spec fn checkers(&self) -> Map<Seq<u8>, NodeRecord> {
        self.checkers.entries()
    }

    pub closed spec fn offline_rounds(&self) -> Map<Seq<u8>, VotesRecord> {
        self.offline_checkers.entries()
    }

    pub closed spec fn spec_roots(&self) -> (Cid, Cid, Cid) {
        (self.members_root, self.checkers_root, self.offline_checkers_root)
    }

    pub closed spec fn spec_total_checkers(&self) -> nat {
        self.total_checkers as nat
    }

    pub closed spec fn spec_voting_duration(&self) -> int {
        self.voting_duration as int
    }

    /// The state's invariant: every record sits under its creator's key and
    /// no round counts a voter twice.
    pub open spec fn wf(&self) -> bool {
        keyed_by_creator(self.members()) && keyed_by_creator(self.checkers())
            && rounds_without_repeats(self.offline_rounds())
    }

    /// `self` and `other` agree on everything but the members.
    pub open spec fn same_except_members(&self, other: &HamtState) -> bool {
        self.checkers() == other.checkers() && self.offline_rounds() == other.offline_rounds()
            && self.spec_total_checkers() == other.spec_total_checkers()
            && self.spec_voting_duration() == other.spec_voting_duration()
    }

    /// `self` and `other` agree on everything but the checkers.
    pub open spec fn same_except_checkers(&self, other: &HamtState) -> bool {
        self.members() == other.members() && self.offline_rounds() == other.offline_rounds()
            && self.spec_total_checkers() == other.spec_total_checkers()
            && self.spec_voting_duration() == other.spec_voting_duration()
    }

    /// `self` and `other` agree on everything but the offline rounds.
    pub open spec fn same_except_rounds(&self, other: &HamtState) -> bool {
        self.members() == other.members() && self.checkers() == other.checkers()
            && self.spec_total_checkers() == other.spec_total_checkers()
            && self.spec_voting_duration() == other.spec_voting_duration()
    }

    /// A registry whose checkers are `nodes`, with no member and no open
    /// round; the voting window is `voting_duration`, or 200 epochs.
    pub fn new(nodes: Vec<NodeInfo>, voting_duration: Option<ChainEpoch>) -> (r: Result<Self, Error>)
        ensures
            (match r {
                Ok(s) => s.wf()
                    && s.members() == Map::<Seq<u8>, NodeRecord>::empty()
                    && s.checkers() == checkers_from(nodes@.map_values(|n: NodeInfo| n@))
                    && s.offline_rounds() == Map::<Seq<u8>, VotesRecord>::empty()
                    && s.spec_total_checkers() == nodes.len()
                    && s.spec_voting_duration() == match voting_duration {
                        Some(d) => d as int,
                        None => DEFAULT_VOTING_DURATION as int,
                    },
                Err(e) => e is FVMIpldHamt,
            }),
    {
        let total_checkers = nodes.len();
        let mut checker_map = NodeMap::new(HAMT_BIT_WIDTH);
        let ghost records = nodes@.map_values(|n: NodeInfo| n@);
        assert(checker_map.entries() =~= checkers_from(records.take(0)));
        let mut i: usize = 0;
        while i < nodes.len()
            invariant
                0 <= i <= nodes.len(),
                records == nodes@.map_values(|n: NodeInfo| n@),
                checker_map.entries() == checkers_from(records.take(i as int)),
            decreases nodes.len() - i,
        {
            let n = &nodes[i];
            let set = checker_map.set(account_key_bytes(*n.creator()), n);
            if set.is_err() {
                return Err(hamt_error(set));
            }
            assert(records.take(i + 1).drop_last() =~= records.take(i as int));
            i = i + 1;
        }
        assert(records.take(i as int) =~= records);
        proof {
            lemma_checkers_from_keyed(records);
        }
        let mut member_map = NodeMap::new(HAMT_BIT_WIDTH);
        let mut round_map = VotesMap::new(HAMT_BIT_WIDTH);
        let members_root = match member_map.flush() {
            Ok(c) => c,
            Err(e) => return Err(Error::FVMIpldHamt(e)),
        };
        let checkers_root = match checker_map.flush() {
            Ok(c) => c,
            Err(e) => return Err(Error::FVMIpldHamt(e)),
        };
        let offline_checkers_root = match round_map.flush() {
            Ok(c) => c,
            Err(e) => return Err(Error::FVMIpldHamt(e)),
        };
        assert(member_map.entries() =~= Map::<Seq<u8>, NodeRecord>::empty());
        assert(round_map.entries() =~= Map::<Seq<u8>, VotesRecord>::empty());
        let duration = match voting_duration {
            Some(d) => d,
            None => DEFAULT_VOTING_DURATION,
        };
        Ok(HamtState {
            members: member_map,
            checkers: checker_map,
            offline_checkers: round_map,
            members_root,
            checkers_root,
            offline_checkers_root,
            total_checkers,
            voting_duration: duration,
        })
    }

    /// Registers or replaces the member record of `node`'s creator, when the
    /// record already stored under that key, or else `node` itself, belongs
    /// to `caller`.
    pub fn upsert_node(&mut self, caller: ActorID, node: NodeInfo) -> (r: Result<(), Error>)
        requires
            old(self).wf(),
        ensures
            (match r {
                Ok(_) => upsert_owner(old(self).members(), node@) == caller
                    && final(self).members() == old(self).members().insert(account_key(node@.creator), node@)
                    && final(self).same_except_members(old(self))
                    && final(self).wf(),
                Err(Error::NotOwner) => upsert_owner(old(self).members(), node@) != caller
                    && *final(self) == *old(self),
                Err(Error::FVMIpldHamt(_)) => true,
                Err(_) => false,
            }),
    {
        let ghost node_view = node@;
        let root = upsert(&mut self.members, caller, node);
        match root {
            Ok(c) => {
                proof {
                    lemma_keyed_insert(old(self).members(), node_view);
                }
                self.members_root = c;
                Ok(())
            },
            Err(e) => Err(e),
        }
    }

    /// Removes the member record of account `id`, which must exist and
    /// belong to `caller`.
    pub fn remove_node(&mut self, caller: ActorID, id: &ActorID) -> (r: Result<(), Error>)
        requires
            old(self).wf(),
        ensures
            (match r {
                Ok(_) => old(self).members().contains_key(account_key(*id))
                    && old(self).members()[account_key(*id)].creator == caller
                    && final(self).members() == old(self).members().remove(account_key(*id))
                    && final(self).same_except_members(old(self))
                    && final(self).wf(),
                Err(Error::NotExists) => !old(self).members().contains_key(account_key(*id))
                    && *final(self) == *old(self),
                Err(Error::NotOwner) => old(self).members().contains_key(account_key(*id))
                    && old(self).members()[account_key(*id)].creator != caller
                    && *final(self) == *old(self),
                Err(Error::FVMIpldHamt(_)) => true,
                Err(_) => false,
            }),
    {
        let root = remove(&mut self.members, caller, *id);
        match root {
            Ok(c) => {
                proof {
                    lemma_keyed_remove(old(self).members(), account_key(*id));
                }
                self.members_root = c;
                Ok(())
            },
            Err(e) => Err(e),
        }
    }

    /// Registers or replaces the checker record of `node`'s creator, when the
    /// record already stored under that key, or else `node` itself, belongs
    /// to `caller`.
    pub fn upsert_checker(&mut self, caller: ActorID, node: NodeInfo) -> (r: Result<(), Error>)
        requires
            old(self).wf(),
        ensures
            (match r {
                Ok(_) => upsert_owner(old(self).checkers(), node@) == caller
                    && final(self).checkers() == old(self).checkers().insert(account_key(node@.creator), node@)
                    && final(self).same_except_checkers(old(self))
                    && final(self).wf(),
                Err(Error::NotOwner) => upsert_owner(old(self).checkers(), node@) != caller
                    && *final(self) == *old(self),
                Err(Error::FVMIpldHamt(_)) => true,
                Err(_) => false,
            }),
    {
        let ghost node_view = node@;
        let root = upsert(&mut self.checkers, caller, node);
        match root {
            Ok(c) => {
                proof {
                    lemma_keyed_insert(old(self).checkers(), node_view);
                }
                self.checkers_root = c;
                Ok(())
            },
            Err(e) => Err(e),
        }
    }

    /// Removes the checker record of account `id`, which must exist and
    /// belong to `caller`.
    pub fn remove_checker(&mut self, caller: ActorID, id: &ActorID) -> (r: Result<(), Error>)
        requires
            old(self).wf(),
        ensures
            (match r {
                Ok(_) => old(self).checkers().contains_key(account_key(*id))
                    && old(self).checkers()[account_key(*id)].creator == caller
                    && final(self).checkers() == old(self).checkers().remove(account_key(*id))
                    && final(self).same_except_checkers(old(self))
                    && final(self).wf(),
                Err(Error::NotExists) => !old(self).checkers().contains_key(account_key(*id))
                    && *final(self) == *old(self),
                Err(Error::NotOwner) => old(self).checkers().contains_key(account_key(*id))
                    && old(self).checkers()[account_key(*id)].creator != caller
                    && *final(self) == *old(self),
                Err(Error::FVMIpldHamt(_)) => true,
                Err(_) => false,
            }),
    {
        let root = remove(&mut self.checkers, caller, *id);
        match root {
            Ok(c) => {
                proof {
                    lemma_keyed_remove(old(self).checkers(), account_key(*id));
                }
                self.checkers_root = c;
                Ok(())
            },
            Err(e) => Err(e),
        }
    }

    /// Removes the checker record of account `checker`, if there is one,
    /// whoever owns it. This is the eviction path of the offline vote.
    pub fn remove_checker_unchecked(&mut self, checker: &ActorID) -> (r: Result<(), Error>)
        requires
            old(self).wf(),
        ensures
            (match r {
                Ok(_) => final(self).checkers() == old(self).checkers().remove(account_key(*checker))
                    && final(self).same_except_checkers(old(self))
                    && final(self).wf(),
                Err(e) => e is FVMIpldHamt,
            }),
    {
        let key = account_key_bytes(*checker);
        let deleted = self.checkers.delete(&key);
        if deleted.is_err() {
            return Err(hamt_error(deleted));
        }
        match self.checkers.flush() {
            Ok(c) => {
                proof {
                    lemma_keyed_remove(old(self).checkers(), account_key(*checker));
                }
                self.checkers_root = c;
                Ok(())
            },
            Err(e) => Err(Error::FVMIpldHamt(e)),
        }
    }

    /// Whether account `id` has a member record.
    pub fn is_member(&self, id: &ActorID) -> (r: Result<bool, Error>)
        ensures
            (match r {
                Ok(b) => b == self.members().contains_key(account_key(*id)),
                Err(e) => e is FVMIpldHamt,
            }),
    {
        match self.members.contains_key(&account_key_bytes(*id)) {
            Ok(b) => Ok(b),
            Err(e) => Err(Error::FVMIpldHamt(e)),
        }
    }

    /// Whether account `checker` has a checker record.
    pub fn is_checker(&self, checker: &ActorID) -> (r: Result<bool, Error>)
        ensures
            (match r {
                Ok(b) => b == self.checkers().contains_key(account_key(*checker)),
                Err(e) => e is FVMIpldHamt,
            }),
    {
        match self.checkers.contains_key(&account_key_bytes(*checker)) {
            Ok(b) => Ok(b),
            Err(e) => Err(Error::FVMIpldHamt(e)),
        }
    }

    /// The member record of account `id`, if any.
    pub fn member(&self, id: &ActorID) -> (r: Result<Option<NodeInfo>, Error>)
        ensures
            (match r {
                Ok(Some(n)) => self.members().contains_key(account_key(*id))
                    && n@ == self.members()[account_key(*id)],
                Ok(None) => !self.members().contains_key(account_key(*id)),
                Err(e) => e is FVMIpldHamt,
            }),
    {
        match self.members.get(&account_key_bytes(*id)) {
            Ok(found) => Ok(found),
            Err(e) => Err(Error::FVMIpldHamt(e)),
        }
    }

    /// The checker record of account `id`, if any.
    pub fn checker(&self, id: &ActorID) -> (r: Result<Option<NodeInfo>, Error>)
        ensures
            (match r {
                Ok(Some(n)) => self.checkers().contains_key(account_key(*id))
                    && n@ == self.checkers()[account_key(*id)],
                Ok(None) => !self.checkers().contains_key(account_key(*id)),
                Err(e) => e is FVMIpldHamt,
            }),
    {
        match self.checkers.get(&account_key_bytes(*id)) {
            Ok(found) => Ok(found),
            Err(e) => Err(Error::FVMIpldHamt(e)),
        }
    }

    pub fn total_checkers(&self) -> (r: usize)
        ensures
            r == self.spec_total_checkers(),
    {
        self.total_checkers
    }

    pub fn vote_duration_threshold(&self) -> (r: ChainEpoch)
        ensures
            r == self.spec_voting_duration(),
    {
        self.voting_duration
    }

    /// The root identifiers of the members, checkers and offline rounds
    /// maps, as last flushed.
    pub fn roots(&self) -> (r: (Cid, Cid, Cid))
        ensures
            r == self.spec_roots(),
    {
        (self.members_root, self.checkers_root, self.offline_checkers_root)
    }

    /// Whether `voter` appears in the round stored against `reported`,
    /// whether or not that round is still live.
    pub fn has_voted(&self, reported: &ActorID, voter: &ActorID) -> (r: Result<bool, Error>)
        ensures
            (match r {
                Ok(b) => b == voted_in(self.offline_rounds(), account_key(*reported), *voter),
                Err(e) => e is FVMIpldHamt,
            }),
    {
        match self.offline_checkers.get(&account_key_bytes(*reported)) {
            Ok(Some(votes)) => Ok(votes.has_voted(voter)),
            Ok(None) => Ok(false),
            Err(e) => Err(Error::FVMIpldHamt(e)),
        }
    }

    /// Records the vote of `voter` against `reported` at epoch `now` and
    /// returns the count to report: a first round counts 1; a stale round is
    /// replaced by a fresh one and counts 0; a live round takes the vote,
    /// unless it holds it already, and counts its voters.
    pub fn record_voted(&mut self, reported: &ActorID, voter: &ActorID, now: ChainEpoch) -> (r: Result<usize, Error>)
        requires
            old(self).wf(),
        ensures
            (match r {
                Ok(n) => {
                    let expected = vote_outcome(
                        round_at(old(self).offline_rounds(), account_key(*reported)),
                        *voter,
                        now as int,
                        old(self).spec_voting_duration(),
                    );
                    &&& expected is Some
                    &&& n == expected->Some_0.0
                    &&& final(self).offline_rounds() == old(self).offline_rounds().insert(account_key(*reported), expected->Some_0.1)
                    &&& final(self).same_except_rounds(old(self))
                    &&& final(self).wf()
                },
                Err(Error::AlreadyVoted(v)) => v == *voter
                    && vote_outcome(
                        round_at(old(self).offline_rounds(), account_key(*reported)),
                        *voter,
                        now as int,
                        old(self).spec_voting_duration(),
                    ) is None
                    && *final(self) == *old(self),
                Err(Error::FVMIpldHamt(_)) => true,
                Err(_) => false,
            }),
    {
        let key = account_key_bytes(*reported);
        let found = match self.offline_checkers.get(&key) {
            Ok(f) => f,
            Err(e) => return Err(Error::FVMIpldHamt(e)),
        };
        let (votes, count) = match found {
            None => {
                let mut fresh = Votes::new(now);
                fresh.vote(voter);
                (fresh, 1usize)
            },
            Some(round) => {
                if round.within_threshold(now, self.voting_duration) {
                    // the round has gone stale: start it again
                    let mut fresh = Votes::new(now);
                    fresh.vote(voter);
                    (fresh, 0usize)
                } else if round.has_voted(voter) {
                    return Err(Error::AlreadyVoted(*voter));
                } else {
                    let mut live = round;
                    live.vote(voter);
                    live.last_vote = now;
                    let total = live.total_votes();
                    (live, total)
                }
            },
        };
        let ghost round_view = votes@;
        assert(round_view.votes.no_duplicates()) by {
            if round_view.votes.len() == 1 {
                assert(round_view.votes =~= seq![*voter]);
            }
        }
        let set = self.offline_checkers.set(key, votes);
        if set.is_err() {
            return Err(hamt_error(set));
        }
        match self.offline_checkers.flush() {
            Ok(c) => {
                self.offline_checkers_root = c;
                assert(rounds_without_repeats(self.offline_rounds())) by {
                    let m = self.offline_rounds();
                    assert forall|k: Seq<u8>| #[trigger] m.contains_key(k) implies m[k].votes.no_duplicates() by {
                        if k != account_key(*reported) {
                            assert(old(self).offline_rounds().contains_key(k));
                        }
                    }
                }
                Ok(count)
            },
            Err(e) => Err(Error::FVMIpldHamt(e)),
        }
    }
}

} // verus!
