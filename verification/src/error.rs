//! The one way an operation of the driver fails.

use vstd::prelude::*;

verus! {

/// Why an operation of the driver failed.
#[derive(Debug)]
pub enum Error<CommE> {
    /// The transport reported a failure; its own error is inside, as it came.
    Comm(CommE),
}

/// What the driver returns for a write that the transport ended with
/// `outcome`: success stays success, and a failure is wrapped in
/// [`Error::Comm`] without being looked at.
pub open spec fn spec_comm_result<CommE>(outcome: Result<(), CommE>) -> Result<(), Error<CommE>> {
    match outcome {
        Ok(()) => Ok(()),
        Err(e) => Err(Error::Comm(e)),
    }
}

/// How the transport ended the write behind a result of the driver: the
/// inverse of [`spec_comm_result`].
pub open spec fn transport_outcome<CommE>(result: Result<(), Error<CommE>>) -> Result<(), CommE> {
    match result {
        Ok(()) => Ok(()),
        Err(Error::Comm(e)) => Err(e),
    }
}

/// Turns the transport's answer to a write into the driver's result.
#[verifier::when_used_as_spec(spec_comm_result)]
pub fn comm_result<CommE>(outcome: Result<(), CommE>) -> (result: Result<(), Error<CommE>>)
    ensures
        result == spec_comm_result(outcome),
{
    match outcome {
        Ok(()) => Ok(()),
        Err(e) => Err(Error::Comm(e)),
    }
}

/// A failure of the transport reaches the caller unchanged: the driver's
/// result and the transport's outcome determine each other, success goes
/// with success, and the error inside `Comm` is the transport's own.
pub proof fn lemma_failure_is_passed_on<CommE>(outcome: Result<(), CommE>)
    ensures
        transport_outcome(spec_comm_result(outcome)) == outcome,
        spec_comm_result(outcome) is Ok <==> outcome is Ok,
        outcome matches Err(e) ==> spec_comm_result(outcome) == Err::<(), Error<CommE>>(
            Error::Comm(e),
        ),
{
    match outcome {
        Ok(unit) => {
            assert(unit == ());
        },
        Err(_) => {},
    }
}

/// Every result of the driver stands for exactly one outcome of the
/// transport.
pub proof fn lemma_result_names_its_outcome<CommE>(result: Result<(), Error<CommE>>)
    ensures
        spec_comm_result(transport_outcome(result)) == result,
{
    match result {
        Ok(unit) => {
            assert(unit == ());
        },
        Err(Error::Comm(_)) => {},
    }
}

} // verus!
