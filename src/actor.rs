//! The registry's operations, as transitions of an explicit state: each takes
//! the authenticated caller (and, for reports, the current epoch) from the
//! host, and either applies its change in full or reports an error.
use vstd::prelude::*;
use crate::error::Error;
use crate::keys::{account_key, lemma_account_key_injective, ActorID};
use crate::state::{
    checkers_from, round_at, upsert_owner, vote_outcome, voted_in, HamtState,
};
use crate::types::{ChainEpoch, InitParams, NodeInfo, NodeInfoPayload, NodeRecord, ReportPayload};

verus! {

const THRESHOLD_NUMERATOR: u128 = 20000;

const THRESHOLD_DENOMINATOR: u128 = 30000;

/// The number of votes that a report round must exceed to evict a checker,
/// out of `total` checkers: about two thirds, rounded down.
pub open spec fn voting_threshold(total: nat) -> nat {
    total * 20000 / 30000
}

/// Whether `count` votes evict a checker, out of `total` checkers.
pub open spec fn evicts(total: nat, count: nat) -> bool {
    voting_threshold(total) < count
}

/// The record that `caller` registers with the payload `p`.
pub open spec fn payload_record(caller: ActorID, p: NodeInfoPayload) -> NodeRecord {
    NodeRecord { id: p.spec_id(), creator: caller, addresses: p.spec_addresses() }
}

/// The map `m` after `caller` registers the payload `p`: the record sits
/// under the caller's key, in place of any earlier one of the caller.
pub open spec fn registered(m: Map<Seq<u8>, NodeRecord>, caller: ActorID, p: NodeInfoPayload) -> Map<Seq<u8>, NodeRecord> {
    m.insert(account_key(caller), payload_record(caller, p))
}

/// The initial checker records that `params` describes.
pub open spec fn init_records(params: InitParams) -> Seq<NodeRecord> {
    Seq::new(
        params.ids.len() as nat,
        |i: int|
            NodeRecord {
                id: params.ids@[i]@,
                creator: params.creators@[i],
                addresses: params.addresses@[i].deep_view(),
            },
    )
}

/// The registry's operations.
pub struct Actor;

/// Under the state's invariant, the record stored under the key of `caller`
/// belongs to `caller`, so an upsert of the caller's own record passes the
/// owner check.
pub proof fn lemma_own_key_owned(m: Map<Seq<u8>, NodeRecord>, caller: ActorID, node: NodeRecord)
    requires
        crate::state::keyed_by_creator(m),
        node.creator == caller,
    ensures
        upsert_owner(m, node) == caller,
        m.contains_key(account_key(caller)) ==> m[account_key(caller)].creator == caller,
{
    if m.contains_key(account_key(caller)) {
        lemma_account_key_injective(m[account_key(caller)].creator, caller);
    }
}

impl Actor {
    pub fn calculate_voting_threshold(total: usize) -> (r: usize)
        ensures
            r == voting_threshold(total as nat),
    {
        let t = (total as u128) * THRESHOLD_NUMERATOR / THRESHOLD_DENOMINATOR;
        assert(t <= total) by (nonlinear_arith)
            requires
                t == (total as u128) * 20000 / 30000,
        ;
        t as usize
    }

    /// Builds the registry with the checkers that the three parallel lists of
    /// `params` describe, pairwise.
    pub fn init(params: InitParams) -> (r: Result<HamtState, Error>)
        requires
            params.creators.len() == params.ids.len(),
            params.addresses.len() == params.ids.len(),
        ensures
            (match r {
                Ok(s) => s.wf()
                    && s.members() == Map::<Seq<u8>, NodeRecord>::empty()
                    && s.checkers() == checkers_from(init_records(params))
                    && s.offline_rounds() == Map::<Seq<u8>, crate::types::VotesRecord>::empty()
                    && s.spec_total_checkers() == params.ids.len()
                    && s.spec_voting_duration() == match params.voting_duration {
                        Some(d) => d as int,
                        None => crate::state::DEFAULT_VOTING_DURATION as int,
                    },
                Err(e) => e is FVMIpldHamt,
            }),
    {
        let len = params.ids.len();
        let mut nodes: Vec<NodeInfo> = Vec::new();
        let mut i: usize = 0;
        while i < len
            invariant
                len == params.ids.len(),
                params.creators.len() == len,
                params.addresses.len() == len,
                0 <= i <= len,
                nodes.len() == i,
                forall|j: int| 0 <= j < i ==> (#[trigger] nodes@[j])@ == init_records(params)[j],
            decreases len - i,
        {
            let addresses = params.addresses[i].clone();
            assert(addresses.deep_view() =~= params.addresses@[i as int].deep_view()) by {
                assert forall|j: int| 0 <= j < addresses.len() implies addresses@[j]@ == params.addresses@[i as int]@[j]@ by {
                    assert(vstd::pervasive::cloned(params.addresses@[i as int]@[j], addresses@[j]));
                }
            }
            nodes.push(NodeInfo::new(params.ids[i].clone(), params.creators[i], addresses));
            i = i + 1;
        }
        assert(nodes@.map_values(|n: NodeInfo| n@) =~= init_records(params));
        HamtState::new(nodes, params.voting_duration)
    }

    /// Registers the caller's checker record, replacing any earlier one of the caller.
    pub fn new_checker(s: &mut HamtState, caller: ActorID, p: NodeInfoPayload) -> (r: Result<(), Error>)
        requires
            old(s).wf(),
        ensures
            (match r {
                Ok(_) => final(s).checkers() == registered(old(s).checkers(), caller, p)
                    && final(s).same_except_checkers(old(s))
                    && final(s).wf(),
                Err(e) => e is FVMIpldHamt,
            }),
    {
        let node = NodeInfo::from_payload(p, caller);
        proof {
            lemma_own_key_owned(old(s).checkers(), caller, node@);
        }
        s.upsert_checker(caller, node)
    }

    /// Registers the caller's member record, replacing any earlier one of the caller.
    pub fn new_member(s: &mut HamtState, caller: ActorID, p: NodeInfoPayload) -> (r: Result<(), Error>)
        requires
            old(s).wf(),
        ensures
            (match r {
                Ok(_) => final(s).members() == registered(old(s).members(), caller, p)
                    && final(s).same_except_members(old(s))
                    && final(s).wf(),
                Err(e) => e is FVMIpldHamt,
            }),
    {
        let node = NodeInfo::from_payload(p, caller);
        proof {
            lemma_own_key_owned(old(s).members(), caller, node@);
        }
        s.upsert_node(caller, node)
    }

    /// Replaces the caller's checker record, or registers it if there is none.
    pub fn edit_checker(s: &mut HamtState, caller: ActorID, p: NodeInfoPayload) -> (r: Result<(), Error>)
        requires
            old(s).wf(),
        ensures
            (match r {
                Ok(_) => final(s).checkers() == registered(old(s).checkers(), caller, p)
                    && final(s).same_except_checkers(old(s))
                    && final(s).wf(),
                Err(e) => e is FVMIpldHamt,
            }),
    {
        let node = NodeInfo::from_payload(p, caller);
        proof {
            lemma_own_key_owned(old(s).checkers(), caller, node@);
        }
        s.upsert_checker(caller, node)
    }

    /// Replaces the caller's member record, or registers it if there is none.
    pub fn edit_member(s: &mut HamtState, caller: ActorID, p: NodeInfoPayload) -> (r: Result<(), Error>)
        requires
            old(s).wf(),
        ensures
            (match r {
                Ok(_) => final(s).members() == registered(old(s).members(), caller, p)
                    && final(s).same_except_members(old(s))
                    && final(s).wf(),
                Err(e) => e is FVMIpldHamt,
            }),
    {
        let node = NodeInfo::from_payload(p, caller);
        proof {
            lemma_own_key_owned(old(s).members(), caller, node@);
        }
        s.upsert_node(caller, node)
    }

    /// Removes the caller's own checker record.
    pub fn rm_checker(s: &mut HamtState, caller: ActorID) -> (r: Result<(), Error>)
        requires
            old(s).wf(),
        ensures
            (match r {
                Ok(_) => old(s).checkers().contains_key(account_key(caller))
                    && final(s).checkers() == old(s).checkers().remove(account_key(caller))
                    && final(s).same_except_checkers(old(s))
                    && final(s).wf(),
                Err(Error::NotExists) => !old(s).checkers().contains_key(account_key(caller))
                    && *final(s) == *old(s),
                Err(Error::FVMIpldHamt(_)) => true,
                Err(_) => false,
            }),
    {
        proof {
            if old(s).checkers().contains_key(account_key(caller)) {
                lemma_account_key_injective(old(s).checkers()[account_key(caller)].creator, caller);
            }
        }
        s.remove_checker(caller, &caller)
    }

    /// Removes the caller's own member record.
    pub fn rm_member(s: &mut HamtState, caller: ActorID) -> (r: Result<(), Error>)
        requires
            old(s).wf(),
        ensures
            (match r {
                Ok(_) => old(s).members().contains_key(account_key(caller))
                    && final(s).members() == old(s).members().remove(account_key(caller))
                    && final(s).same_except_members(old(s))
                    && final(s).wf(),
                Err(Error::NotExists) => !old(s).members().contains_key(account_key(caller))
                    && *final(s) == *old(s),
                Err(Error::FVMIpldHamt(_)) => true,
                Err(_) => false,
            }),
    {
        proof {
            if old(s).members().contains_key(account_key(caller)) {
                lemma_account_key_injective(old(s).members()[account_key(caller)].creator, caller);
            }
        }
        s.remove_node(caller, &caller)
    }

    /// The caller, a checker, reports `p.checker` as offline at epoch `now`.
    /// When the round's count exceeds the threshold computed from the number
    /// of checkers at construction, the reported checker is evicted, whoever
    /// owns its record.
    pub fn report_checker(s: &mut HamtState, caller: ActorID, now: ChainEpoch, p: ReportPayload) -> (r: Result<(), Error>)
        requires
            old(s).wf(),
        ensures
            (match r {
                Ok(_) => {
                    let k = account_key(p.checker);
                    let outcome = vote_outcome(round_at(old(s).offline_rounds(), k), caller, now as int, old(s).spec_voting_duration());
                    &&& old(s).checkers().contains_key(account_key(caller))
                    &&& !voted_in(old(s).offline_rounds(), k, caller)
                    &&& outcome is Some
                    &&& final(s).offline_rounds() == old(s).offline_rounds().insert(k, outcome->Some_0.1)
                    &&& final(s).checkers() == if evicts(old(s).spec_total_checkers(), outcome->Some_0.0) {
                        old(s).checkers().remove(k)
                    } else {
                        old(s).checkers()
                    }
                    &&& final(s).members() == old(s).members()
                    &&& final(s).spec_total_checkers() == old(s).spec_total_checkers()
                    &&& final(s).spec_voting_duration() == old(s).spec_voting_duration()
                    &&& final(s).wf()
                },
                Err(Error::NotCaller) => !old(s).checkers().contains_key(account_key(caller))
                    && *final(s) == *old(s),
                Err(Error::AlreadyVoted(v)) => v == caller
                    && old(s).checkers().contains_key(account_key(caller))
                    && voted_in(old(s).offline_rounds(), account_key(p.checker), caller)
                    && *final(s) == *old(s),
                Err(Error::FVMIpldHamt(_)) => true,
                Err(_) => false,
            }),
    {
        let is_checker = s.is_checker(&caller);
        match is_checker {
            Ok(true) => {},
            Ok(false) => return Err(Error::NotCaller),
            Err(e) => return Err(e),
        }
        let voted = s.has_voted(&p.checker, &caller);
        match voted {
            Ok(false) => {},
            Ok(true) => return Err(Error::AlreadyVoted(caller)),
            Err(e) => return Err(e),
        }
        let votes = match s.record_voted(&p.checker, &caller, now) {
            Ok(n) => n,
            Err(e) => return Err(e),
        };
        let total_checkers = s.total_checkers();
        if Self::calculate_voting_threshold(total_checkers) < votes {
            s.remove_checker_unchecked(&p.checker)
        } else {
            Ok(())
        }
    }
}

} // verus!
