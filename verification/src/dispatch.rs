//! Decision logic of the root-gated dispatch surface.
//!
//! The runtime glue that receives extrinsics performs the outside work
//! (looking up the sudo key, executing the contract call) and consults
//! these pure functions for every decision: whether the caller is
//! authorized, whether a replacement schedule is acceptable, and how the
//! post-dispatch information of a forwarded call is normalized before it
//! is returned to the caller.

use crate::schedule::Schedule;
use crate::Weight;
use vstd::prelude::*;

verus! {

/// An account identifier, reduced to the number the comparisons need.
pub type AccountId = u64;

/// Where an extrinsic came from.
#[derive(Clone, Copy, PartialEq, Eq, Structural, Debug)]
pub enum Origin {
    /// The root origin of the chain.
    Root,
    /// A transaction signed by the given account.
    Signed(AccountId),
    /// Any other provenance, such as an unsigned inherent.
    Other,
}

/// Why a dispatch was refused.
#[derive(Clone, Copy, PartialEq, Eq, Structural, Debug)]
pub enum DispatchError {
    /// The origin is neither root nor the sudo key.
    BadOrigin,
    /// The replacement schedule's version is below the stored one.
    InvalidScheduleVersion,
}

/// The errors this dispatch surface reports to its callers.
#[derive(Clone, Copy, PartialEq, Eq, Structural, Debug)]
pub enum Error {
    /// The origin is not the root origin.
    NotRootOrigin,
}

/// Whether the submitter of an extrinsic is charged a fee for it.
#[derive(Clone, Copy, PartialEq, Eq, Structural, Debug)]
pub enum Pays {
    /// The submitter pays.
    Yes,
    /// The submitter is not charged.
    No,
}

/// What a dispatched extrinsic reports back about its actual cost.
#[derive(Clone, Copy, PartialEq, Eq, Debug)]
pub struct PostDispatchInfo {
    /// The weight actually consumed, if known; `None` charges the worst
    /// case announced up front.
    pub actual_weight: Option<Weight>,
    /// Whether a fee is charged at all.
    pub pays_fee: Pays,
}

/// A refused dispatch together with the post-dispatch information that
/// still applies to it.
#[derive(Clone, Copy, PartialEq, Eq, Debug)]
pub struct ErrorWithPostInfo {
    /// Why the dispatch was refused.
    pub error: DispatchError,
    /// The cost information accompanying the refusal.
    pub post_info: PostDispatchInfo,
}

/// The post-dispatch information of a fee-waived call: no actual weight
/// reported, no fee charged.
pub open spec fn spec_waived() -> PostDispatchInfo {
    PostDispatchInfo { actual_weight: None, pays_fee: Pays::No }
}

/// How a forwarded call's outcome is reported back: success or failure is
/// passed through unchanged, but either way the fee is waived and no
/// actual weight is reported.
pub open spec fn spec_normalized_outcome(
    outcome: Result<PostDispatchInfo, ErrorWithPostInfo>,
) -> Result<PostDispatchInfo, ErrorWithPostInfo> {
    match outcome {
        Ok(_) => Ok(spec_waived()),
        Err(e) => Err(ErrorWithPostInfo { error: e.error, post_info: spec_waived() }),
    }
}

/// Accept the origin exactly when it is the root origin or a transaction
/// signed by the sudo key; everything else is a bad origin.
pub fn is_root(origin: &Origin, sudo_key: AccountId) -> (r: Result<(), DispatchError>)
    ensures
        r is Ok <==> (origin is Root || origin == Origin::Signed(sudo_key)),
        r is Err ==> r == Result::<(), DispatchError>::Err(DispatchError::BadOrigin),
{
    match *origin {
        Origin::Signed(account_id) => {
            let mut result: Result<(), DispatchError> = Ok(());
            if sudo_key != account_id {
                result = Err(DispatchError::BadOrigin);
            }
            result
        },
        Origin::Root => Ok(()),
        _ => Err(DispatchError::BadOrigin),
    }
}

/// Normalize the outcome of a forwarded contract call or instantiation:
/// whatever the contracts engine reported, the submitter pays no fee and
/// no actual weight is claimed, while success or the error itself is
/// passed through unchanged.
pub fn normalize_outcome(outcome: Result<PostDispatchInfo, ErrorWithPostInfo>) -> (r: Result<
    PostDispatchInfo,
    ErrorWithPostInfo,
>)
    ensures
        r == spec_normalized_outcome(outcome),
        r is Ok <==> outcome is Ok,
{
    match outcome {
        Ok(mut post_info) => {
            post_info.actual_weight = None;
            post_info.pays_fee = Pays::No;
            Ok(post_info)
        },
        Err(mut e) => {
            e.post_info.actual_weight = None;
            e.post_info.pays_fee = Pays::No;
            Err(e)
        },
    }
}

/// Decide a schedule replacement: the origin must be root or the sudo
/// key, and the candidate's version must not be below the stored one.
/// Exactly the accepted candidate becomes the new stored schedule; a
/// version regression is reported to the submitter, never silently
/// dropped or applied.
pub fn update_schedule(
    origin: &Origin,
    sudo_key: AccountId,
    stored: &Schedule,
    candidate: Schedule,
) -> (r: Result<Schedule, DispatchError>)
    ensures
        r is Ok <==> ((origin is Root || origin == Origin::Signed(sudo_key))
            && candidate.version >= stored.version),
        r is Ok ==> r == Result::<Schedule, DispatchError>::Ok(candidate),
        !(origin is Root || origin == Origin::Signed(sudo_key)) ==> r == Result::<
            Schedule,
            DispatchError,
        >::Err(DispatchError::BadOrigin),
        (origin is Root || origin == Origin::Signed(sudo_key)) && candidate.version
            < stored.version ==> r == Result::<Schedule, DispatchError>::Err(
            DispatchError::InvalidScheduleVersion,
        ),
{
    match is_root(origin, sudo_key) {
        Ok(_) => {},
        Err(e) => {
            return Err(e);
        },
    }
    match stored.validate_update(&candidate) {
        Ok(_) => Ok(candidate),
        Err(_) => Err(DispatchError::InvalidScheduleVersion),
    }
}

} // verus!
