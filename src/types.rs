//! Records kept by the registry and the shapes of requests.
use vstd::prelude::*;
use crate::keys::ActorID;

verus! {

/// A point in time on the host chain, in epochs.
pub type ChainEpoch = i64;

/// The libp2p peer id representation.
pub type PeerID = String;

/// The libp2p multiaddress representation.
pub type MultiAddr = String;

/// A request to report a checker as offline.
pub struct ReportPayload {
    pub checker: ActorID,
}

/// What a caller submits to register or edit a node; the owner is not part
/// of it, it is always the caller.
pub struct NodeInfoPayload {
    id: PeerID,
    addresses: Vec<MultiAddr>,
}

/// The mathematical content of a node record.
pub struct NodeRecord {
    pub id: Seq<char>,
    pub creator: ActorID,
    pub addresses: Seq<Seq<char>>,
}

/// A member or checker node.
pub struct NodeInfo {
    /// PeerID of the node.
    pub(crate) id: PeerID,
    /// The account that registered the node; only it may modify or remove it.
    pub(crate) creator: ActorID,
    /// Multiaddresses exposed by the node, with the health-check endpoints
    /// they support.
    pub(crate) addresses: Vec<MultiAddr>,
}

/// The mathematical content of an offline report round.
pub struct VotesRecord {
    pub last_vote: int,
    pub votes: Seq<ActorID>,
}

/// An offline report round against one checker.
pub struct Votes {
    /// Epoch of the last vote received in this round.
    pub last_vote: ChainEpoch,
    /// The accounts that voted in this round.
    pub votes: Vec<ActorID>,
}

/// Parameters of the registry's construction: three parallel lists that
/// describe the initial checkers, and an optional voting window.
pub struct InitParams {
    pub ids: Vec<String>,
    pub creators: Vec<ActorID>,
    pub addresses: Vec<Vec<String>>,
    pub voting_duration: Option<ChainEpoch>,
}

impl NodeInfoPayload {
    pub closed spec fn spec_id(&self) -> Seq<char> {
        self.id@
    }

    pub closed spec fn spec_addresses(&self) -> Seq<Seq<char>> {
        self.addresses.deep_view()
    }

    pub fn new(id: PeerID, addresses: Vec<MultiAddr>) -> (r: Self)
        ensures
            r.spec_id() == id@,
            r.spec_addresses() == addresses.deep_view(),
    {
        NodeInfoPayload { id, addresses }
    }

    pub fn id(&self) -> (r: &PeerID)
        ensures
            r@ == self.spec_id(),
    {
        &self.id
    }

    pub fn addresses(&self) -> (r: &Vec<MultiAddr>)
        ensures
            r.deep_view() == self.spec_addresses(),
    {
        &self.addresses
    }
}

impl View for NodeInfo {
    type V = NodeRecord;

    closed spec fn view(&self) -> NodeRecord {
        NodeRecord { id: self.id@, creator: self.creator, addresses: self.addresses.deep_view() }
    }
}

impl NodeInfo {
    pub fn new(id: PeerID, creator: ActorID, addresses: Vec<MultiAddr>) -> (r: Self)
        ensures
            r@ == (NodeRecord { id: id@, creator, addresses: addresses.deep_view() }),
    {
        NodeInfo { id, creator, addresses }
    }

    /// The record that `caller` submits as `p`: its owner is the caller,
    /// whatever the payload holds.
    pub fn from_payload(p: NodeInfoPayload, caller: ActorID) -> (r: Self)
        ensures
            r@ == (NodeRecord { id: p.spec_id(), creator: caller, addresses: p.spec_addresses() }),
    {
        NodeInfo { creator: caller, id: p.id, addresses: p.addresses }
    }

    pub fn creator(&self) -> (r: &ActorID)
        ensures
            *r == self@.creator,
    {
        &self.creator
    }

    pub fn id(&self) -> (r: &PeerID)
        ensures
            r@ == self@.id,
    {
        &self.id
    }

    pub fn addresses(&self) -> (r: &Vec<MultiAddr>)
        ensures
            r.deep_view() == self@.addresses,
    {
        &self.addresses
    }
}

impl View for Votes {
    type V = VotesRecord;

    open spec fn view(&self) -> VotesRecord {
        VotesRecord { last_vote: self.last_vote as int, votes: self.votes@ }
    }
}

/// Whether a round whose last vote came at `last_vote` has gone stale at
/// `now`, for a voting window of `window` epochs.
pub open spec fn round_is_stale(last_vote: int, now: int, window: int) -> bool {
    last_vote + window < now
}

impl Votes {
    /// An empty round opened at `epoch`.
    pub fn new(epoch: ChainEpoch) -> (r: Self)
        ensures
            r@ == (VotesRecord { last_vote: epoch as int, votes: Seq::empty() }),
    {
        Votes { last_vote: epoch, votes: Vec::new() }
    }

    pub fn has_voted(&self, p: &ActorID) -> (r: bool)
        ensures
            r == self@.votes.contains(*p),
    {
        let mut i: usize = 0;
        while i < self.votes.len()
            invariant
                0 <= i <= self.votes.len(),
                forall|j: int| 0 <= j < i ==> self.votes@[j] != *p,
            decreases self.votes.len() - i,
        {
            if self.votes[i] == *p {
                return true;
            }
            i = i + 1;
        }
        false
    }

    /// Whether `epoch` lies beyond the window of `threshold` epochs that
    /// follows the last vote, that is whether the round has gone stale.
    pub fn within_threshold(&self, epoch: ChainEpoch, threshold: ChainEpoch) -> (r: bool)
        ensures
            r == round_is_stale(self@.last_vote, epoch as int, threshold as int),
    {
        (self.last_vote as i128) + (threshold as i128) < (epoch as i128)
    }

    pub fn vote(&mut self, p: &ActorID)
        ensures
            final(self)@ == (VotesRecord { last_vote: old(self)@.last_vote, votes: old(self)@.votes.push(*p) }),
    {
        self.votes.push(*p)
    }

    pub fn total_votes(&self) -> (r: usize)
        ensures
            r == self@.votes.len(),
    {
        self.votes.len()
    }
}

} // verus!
