//! The transaction submitter's decision logic: interpret the outcome of
//! one push round trip against the remote transaction pool.
//!
//! The network round trip itself happens outside this crate; it hands back
//! a `PushStatus` holding plain values, and `submit_outcome` turns that
//! into the pipeline's typed result.  No local state exists to roll back:
//! every failure leaves the signed envelope exactly as it was.

use vstd::prelude::*;
use crate::error::ActorError;

verus! {

/// The canonical byte form of a textual content identifier; `None` exactly
/// for text that is not a valid identifier.
pub uninterp spec fn cid_of_text(s: Seq<char>) -> Option<Seq<u8>>;

/// Relies on cid::Cid::try_from(&str) and Cid::to_bytes: parsing the
/// text form of a content identifier into its canonical bytes, a function
/// of the text alone; parsing fails exactly on invalid text.
#[verifier::external_body]
fn parse_cid_text(s: &str) -> (r: Option<Vec<u8>>)
    ensures
        r is Some <==> cid_of_text(s@) is Some,
        r matches Some(b) ==> b@ == cid_of_text(s@)->Some_0,
{
    match cid::Cid::try_from(s) {
        Ok(c) => Some(c.to_bytes()),
        Err(_) => None,
    }
}

/// Byte-for-byte equality of two buffers.
pub fn bytes_eq(a: &Vec<u8>, b: &Vec<u8>) -> (r: bool)
    ensures
        r == (a@ == b@),
{
    if a.len() != b.len() {
        return false;
    }
    let mut i: usize = 0;
    while i < a.len()
        invariant
            i <= a@.len(),
            a@.len() == b@.len(),
            forall|j: int| 0 <= j < i ==> a@[j] == b@[j],
        decreases a@.len() - i,
    {
        if a[i] != b[i] {
            return false;
        }
        i += 1;
    }
    proof {
        assert(a@ =~= b@);
    }
    true
}

/// What one push round trip against the pool came back with.
pub enum PushStatus {
    /// The node answered and assigned this identifier, in text form.
    Assigned(String),
    /// The node answered but refused the message (bad nonce, low funds,
    /// malformed content, duplicate).
    Refused,
    /// The transport failed before any response arrived.
    Unreachable,
}

/// Interpret one push round trip.  Success is owed exactly when the node
/// assigned an identifier whose bytes are the locally computed ones — the
/// round trip confirms content integrity.  An unreadable assignment is an
/// encoding failure, a readable but different assignment or an outright
/// refusal is a remote failure, and a transport fault keeps its own
/// (retryable) category.  Nothing is retried here.
pub fn submit_outcome(local_cid: &Vec<u8>, status: &PushStatus) -> (r: Result<Vec<u8>, ActorError>)
    ensures
        match *status {
            PushStatus::Assigned(s) => {
                &&& (r is Ok <==> cid_of_text(s@) == Some(local_cid@))
                &&& (r matches Ok(c) ==> c@ == local_cid@)
                &&& (cid_of_text(s@) is None ==> r == Err::<Vec<u8>, ActorError>(
                    ActorError::EncodingError,
                ))
                &&& (cid_of_text(s@) is Some && cid_of_text(s@) != Some(local_cid@) ==> r == Err::<
                    Vec<u8>,
                    ActorError,
                >(ActorError::RemoteError))
            },
            PushStatus::Refused => r == Err::<Vec<u8>, ActorError>(ActorError::RemoteError),
            PushStatus::Unreachable => r == Err::<Vec<u8>, ActorError>(ActorError::TransportError),
        },
{
    match status {
        PushStatus::Assigned(s) => {
            match parse_cid_text(s.as_str()) {
                None => Err(ActorError::EncodingError),
                Some(assigned) => {
                    if bytes_eq(&assigned, local_cid) {
                        Ok(assigned)
                    } else {
                        Err(ActorError::RemoteError)
                    }
                },
            }
        },
        PushStatus::Refused => Err(ActorError::RemoteError),
        PushStatus::Unreachable => Err(ActorError::TransportError),
    }
}

} // verus!
