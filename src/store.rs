//! Persistent maps keyed by bytes, backed by a HAMT over a content-addressed
//! block store. Each map stands for a finite map of plain values; flushing
//! writes the pending nodes and yields the content identifier of the root.
use vstd::prelude::*;
use cid::Cid;
use fvm_ipld_blockstore::MemoryBlockstore;
use fvm_ipld_hamt::{BytesKey, Hamt};
use fvm_ipld_hamt::Error as HamtError;
use crate::types::{NodeInfo, NodeRecord, Votes, VotesRecord};

verus! {

#[verifier::external_type_specification]
#[verifier::external_body]
pub struct ExCidGeneric<const S: usize>(cid::CidGeneric<S>);

/// A persistent map from account keys to node records.
#[verifier::external_body]
pub struct NodeMap {
    hamt: Hamt<MemoryBlockstore, (String, u64, Vec<String>)>,
}

/// What a node map holds.
pub uninterp spec fn node_entries(m: NodeMap) -> Map<Seq<u8>, NodeRecord>;

/// A persistent map from account keys to offline report rounds.
#[verifier::external_body]
pub struct VotesMap {
    hamt: Hamt<MemoryBlockstore, (i64, Vec<u64>)>,
}

/// What a votes map holds.
pub uninterp spec fn vote_entries(m: VotesMap) -> Map<Seq<u8>, VotesRecord>;

impl NodeMap {
    pub open spec fn entries(&self) -> Map<Seq<u8>, NodeRecord> {
        node_entries(*self)
    }

    /// Relies on `Hamt::new_with_bit_width`: a new HAMT holds no entry. Its
    /// lookups take `bit_width` bits of the key's hash per level, at most 8.
    #[verifier::external_body]
    pub(crate) fn new(bit_width: u32) -> (r: Self)
        requires
            1 <= bit_width <= 8,
        ensures
            forall|k: Seq<u8>| !node_entries(r).contains_key(k),
    {
        NodeMap { hamt: Hamt::new_with_bit_width(MemoryBlockstore::new(), bit_width) }
    }

    /// Relies on `Hamt::get`: on success, the value stored under the key, if
    /// any.
    #[verifier::external_body]
    pub(crate) fn get(&self, key: &Vec<u8>) -> (r: Result<Option<NodeInfo>, HamtError>)
        ensures
            (match r {
                Ok(Some(n)) => node_entries(*self).contains_key(key@) && node_entries(*self)[key@] == n@,
                Ok(None) => !node_entries(*self).contains_key(key@),
                Err(_) => true,
            }),
    {
        match self.hamt.get(&BytesKey(key.clone())) {
            Ok(Some(v)) => Ok(Some(NodeInfo::new(v.0.clone(), v.1, v.2.clone()))),
            Ok(None) => Ok(None),
            Err(e) => Err(e),
        }
    }

    /// Relies on `Hamt::contains_key`: on success, whether the key is present.
    #[verifier::external_body]
    pub(crate) fn contains_key(&self, key: &Vec<u8>) -> (r: Result<bool, HamtError>)
        ensures
            (match r {
                Ok(b) => b == node_entries(*self).contains_key(key@),
                Err(_) => true,
            }),
    {
        self.hamt.contains_key(&BytesKey(key.clone()))
    }

    /// Relies on `Hamt::set`: on success, the key maps to the value and every
    /// other entry stays.
    #[verifier::external_body]
    pub(crate) fn set(&mut self, key: Vec<u8>, node: &NodeInfo) -> (r: Result<(), HamtError>)
        ensures
            r is Ok ==> node_entries(*final(self)) == node_entries(*old(self)).insert(key@, node@),
    {
        let value = (node.id().clone(), *node.creator(), node.addresses().clone());
        match self.hamt.set(BytesKey(key), value) {
            Ok(_) => Ok(()),
            Err(e) => Err(e),
        }
    }

    /// Relies on `Hamt::delete`: on success, the key is absent and every other
    /// entry stays.
    #[verifier::external_body]
    pub(crate) fn delete(&mut self, key: &Vec<u8>) -> (r: Result<(), HamtError>)
        ensures
            r is Ok ==> node_entries(*final(self)) == node_entries(*old(self)).remove(key@),
    {
        match self.hamt.delete(&BytesKey(key.clone())) {
            Ok(_) => Ok(()),
            Err(e) => Err(e),
        }
    }

    /// Relies on `Hamt::flush`: it writes the pending nodes to the block store
    /// and returns the root's identifier; the entries stay as they are.
    #[verifier::external_body]
    pub(crate) fn flush(&mut self) -> (r: Result<Cid, HamtError>)
        ensures
            r is Ok ==> node_entries(*final(self)) == node_entries(*old(self)),
    {
        self.hamt.flush()
    }
}

impl VotesMap {
    pub open spec fn entries(&self) -> Map<Seq<u8>, VotesRecord> {
        vote_entries(*self)
    }

    /// Relies on `Hamt::new_with_bit_width`: a new HAMT holds no entry. Its
    /// lookups take `bit_width` bits of the key's hash per level, at most 8.
    #[verifier::external_body]
    pub(crate) fn new(bit_width: u32) -> (r: Self)
        requires
            1 <= bit_width <= 8,
        ensures
            forall|k: Seq<u8>| !vote_entries(r).contains_key(k),
    {
        VotesMap { hamt: Hamt::new_with_bit_width(MemoryBlockstore::new(), bit_width) }
    }

    /// Relies on `Hamt::get`: on success, the round stored under the key, if
    /// any.
    #[verifier::external_body]
    pub(crate) fn get(&self, key: &Vec<u8>) -> (r: Result<Option<Votes>, HamtError>)
        ensures
            (match r {
                Ok(Some(v)) => vote_entries(*self).contains_key(key@) && vote_entries(*self)[key@] == v@,
                Ok(None) => !vote_entries(*self).contains_key(key@),
                Err(_) => true,
            }),
    {
        match self.hamt.get(&BytesKey(key.clone())) {
            Ok(Some(v)) => Ok(Some(Votes { last_vote: v.0, votes: v.1.clone() })),
            Ok(None) => Ok(None),
            Err(e) => Err(e),
        }
    }

    /// Relies on `Hamt::set`: on success, the key maps to the round and every
    /// other entry stays.
    #[verifier::external_body]
    pub(crate) fn set(&mut self, key: Vec<u8>, votes: Votes) -> (r: Result<(), HamtError>)
        ensures
            r is Ok ==> vote_entries(*final(self)) == vote_entries(*old(self)).insert(key@, votes@),
    {
        match self.hamt.set(BytesKey(key), (votes.last_vote, votes.votes)) {
            Ok(_) => Ok(()),
            Err(e) => Err(e),
        }
    }

    /// Relies on `Hamt::flush`: it writes the pending nodes to the block store
    /// and returns the root's identifier; the entries stay as they are.
    #[verifier::external_body]
    pub(crate) fn flush(&mut self) -> (r: Result<Cid, HamtError>)
        ensures
            r is Ok ==> vote_entries(*final(self)) == vote_entries(*old(self)),
    {
        self.hamt.flush()
    }
}

} // verus!
