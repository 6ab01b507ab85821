use vstd::prelude::*;

verus! {

/// The error taxonomy of the wrapper.
///
/// `Start` reports a failed launch; it is fatal for the instance and no
/// session is ever stored. `DaemonStopped` reports a command issued against
/// an instance that has reached its terminal stopped state. `Unexpected`
/// carries any other failure: a shutdown error, a collaborator-reported
/// failure, or the recovery from a guard whose previous holder terminated
/// abnormally.
#[derive(Debug, Clone, PartialEq, Eq)]
pub enum DaemonError {
    Start(String),
    DaemonStopped,
    Unexpected(String),
}

impl DaemonError {
    /// The failure detail carried by the error, if any.
    pub fn detail(&self) -> (r: Option<&String>)
        ensures
            match self {
                DaemonError::Start(d) => r == Some(d),
                DaemonError::DaemonStopped => r is None,
                DaemonError::Unexpected(d) => r == Some(d),
            },
    {
        match self {
            DaemonError::Start(d) => Some(d),
            DaemonError::DaemonStopped => None,
            DaemonError::Unexpected(d) => Some(d),
        }
    }
}

/// The translation applied to a collaborator outcome: success is passed
/// through unmodified, a failure detail is wrapped as `Unexpected`.
pub open spec fn map_collaborator_spec<T>(res: Result<T, String>) -> Result<T, DaemonError> {
    match res {
        Ok(v) => Ok(v),
        Err(m) => Err(DaemonError::Unexpected(m)),
    }
}

/// Passes a collaborator outcome through unmodified, wrapping a failure
/// detail as `Unexpected`: the only translation the dispatcher applies.
pub fn map_collaborator<T>(res: Result<T, String>) -> (r: Result<T, DaemonError>)
    ensures
        r == map_collaborator_spec(res),
{
    match res {
        Ok(v) => Ok(v),
        Err(m) => Err(DaemonError::Unexpected(m)),
    }
}

} // verus!
