//! The closed set of failures, with their stable numeric codes.
use vstd::prelude::*;
use crate::keys::{decimal, ActorID};
use fvm_ipld_hamt::Error as HamtError;

verus! {

#[verifier::external_type_specification]
#[verifier::external_body]
pub struct ExHamtError(HamtError);

/// All the failures of the registry.
pub enum Error {
    /// The voter already voted in the current round against that checker.
    AlreadyVoted(ActorID),
    /// A request payload could not be decoded.
    CannotDeserialize,
    /// The persistent map or its block store failed.
    FVMIpldHamt(HamtError),
    /// The caller does not own the record.
    NotOwner,
    /// The record to remove does not exist.
    NotExists,
    /// The caller is not a checker.
    NotCaller,
}

/// The stable numeric code of each kind of failure.
pub open spec fn error_code(e: Error) -> u32 {
    match e {
        Error::AlreadyVoted(_) => 10002,
        Error::CannotDeserialize => 10003,
        Error::FVMIpldHamt(_) => 10004,
        Error::NotOwner => 10009,
        Error::NotExists => 10010,
        Error::NotCaller => 10011,
    }
}

/// The message that reports a repeated vote by `a`.
pub open spec fn already_voted_message(a: ActorID) -> Seq<char> {
    "actor "@ + decimal(a as nat).map_values(|b: u8| b as char) + " already voted"@
}

/// Relies on the `Debug` format of `u64`, which writes the number in decimal
/// digits.
#[verifier::external_body]
fn already_voted_text(a: ActorID) -> (r: String)
    ensures
        r@ == already_voted_message(a),
{
    format!("actor {:?} already voted", a)
}

impl Error {
    pub fn code(&self) -> (r: u32)
        ensures
            r == error_code(*self),
    {
        match self {
            Error::AlreadyVoted(_) => 10002,
            Error::CannotDeserialize => 10003,
            Error::FVMIpldHamt(_) => 10004,
            Error::NotOwner => 10009,
            Error::NotExists => 10010,
            Error::NotCaller => 10011,
        }
    }

    /// A human-readable message; empty for the kinds that carry none.
    pub fn msg(&self) -> (r: String)
        ensures
            (match *self {
                Error::AlreadyVoted(a) => r@ == already_voted_message(a),
                _ => r@ == Seq::<char>::empty(),
            }),
    {
        match self {
            Error::AlreadyVoted(a) => already_voted_text(*a),
            _ => String::new(),
        }
    }
}

} // verus!
