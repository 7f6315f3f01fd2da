use vstd::prelude::*;

use crate::error::Error;
use crate::fetch::GithubInfo;
use crate::ledger::{Call, CallKind};
use crate::runtime::Trait;

verus! {

/// How many blocks an admitted unsigned submission stays valid.
pub const UNSIGNED_LONGEVITY: u64 = 3;

/// What the pool attaches to an admitted unsigned submission.
#[derive(Clone, Copy, Debug, PartialEq, Eq)]
pub struct ValidTransaction {
    pub priority: u64,
    /// The tag that the submission provides; the pool keeps one pending
    /// submission per tag.
    pub provides: CallKind,
    /// How many blocks the submission stays valid.
    pub longevity: u64,
    /// Whether the submission is passed on to peers.
    pub propagate: bool,
}

/// Why the pool refuses an unsigned submission.
#[derive(Clone, Copy, Debug, PartialEq, Eq)]
pub enum InvalidTransaction {
    /// The call is not one that may come unsigned.
    Call,
}

/// Admission policy for unsigned submissions: only `SubmitNumberUnsigned` is
/// admitted, with the runtime's priority, a tag of its call kind, a
/// longevity of `UNSIGNED_LONGEVITY` blocks, and propagation to peers; any
/// other call is refused.
pub fn validate_unsigned<T: Trait>(call: &Call) -> (r: Result<ValidTransaction, InvalidTransaction>)
    ensures
        r is Ok <==> call is SubmitNumberUnsigned,
        r is Err ==> r == Err::<ValidTransaction, InvalidTransaction>(InvalidTransaction::Call),
        r is Ok ==> r == Ok::<ValidTransaction, InvalidTransaction>(
            ValidTransaction {
                priority: T::spec_unsigned_priority(),
                provides: CallKind::SubmitNumberUnsigned,
                longevity: UNSIGNED_LONGEVITY,
                propagate: true,
            },
        ),
{
    match call {
        Call::SubmitNumberUnsigned(_) => Ok(
            ValidTransaction {
                priority: T::unsigned_priority(),
                provides: call.kind(),
                longevity: UNSIGNED_LONGEVITY,
                propagate: true,
            },
        ),
        _ => Err(InvalidTransaction::Call),
    }
}

/// The call that submits the cached agent: `SignedSubmitNumberError` where
/// no local account can sign, nothing where no result is cached, and
/// otherwise `SubmitAgentSigned` with the cached login.
pub fn agent_submission(can_sign: bool, cached: &Option<GithubInfo>) -> (r: Result<Option<Call>, Error>)
    ensures
        !can_sign ==> r == Err::<Option<Call>, Error>(Error::SignedSubmitNumberError),
        can_sign && cached is None ==> r == Ok::<Option<Call>, Error>(None),
        can_sign && cached is Some ==> (r matches Ok(Some(Call::SubmitAgentSigned(agent))) && agent@
            == cached->Some_0.login@),
{
    if !can_sign {
        return Err(Error::SignedSubmitNumberError);
    }
    match cached {
        Some(info) => Ok(Some(Call::SubmitAgentSigned(info.login.clone()))),
        None => Ok(None),
    }
}

/// The call that submits `block_number` as a signed number;
/// `SignedSubmitNumberError` where no local account can sign.
pub fn number_submission_signed(can_sign: bool, block_number: u64) -> (r: Result<Call, Error>)
    ensures
        !can_sign ==> r == Err::<Call, Error>(Error::SignedSubmitNumberError),
        can_sign ==> r == Ok::<Call, Error>(Call::SubmitNumberSigned(block_number)),
{
    if !can_sign {
        return Err(Error::SignedSubmitNumberError);
    }
    Ok(Call::SubmitNumberSigned(block_number))
}

/// The outcome of a signed submission sent from every local account, given
/// whether the pool took each one: `SignedSubmitNumberError` as soon as one
/// was refused.
pub fn signed_results(accepted: &Vec<bool>) -> (r: Result<(), Error>)
    ensures
        r is Ok <==> forall|i: int| 0 <= i < accepted@.len() ==> accepted@[i],
        r is Err ==> r == Err::<(), Error>(Error::SignedSubmitNumberError),
{
    let mut i: usize = 0;
    while i < accepted.len()
        invariant
            i <= accepted@.len(),
            forall|j: int| 0 <= j < i ==> accepted@[j],
        decreases accepted@.len() - i,
    {
        if !accepted[i] {
            return Err(Error::SignedSubmitNumberError);
        }
        i = i + 1;
    }
    Ok(())
}

/// The outcome of an unsigned submission, given whether the pool took it.
pub fn unsigned_result(accepted: bool) -> (r: Result<(), Error>)
    ensures
        accepted ==> r is Ok,
        !accepted ==> r == Err::<(), Error>(Error::UnsignedSubmitNumberError),
{
    if accepted {
        Ok(())
    } else {
        Err(Error::UnsignedSubmitNumberError)
    }
}

} // verus!
