//! The outcome vocabulary shared by handler invocation, the delivery
//! lifecycle, and dead-lettering: success, or a tagged failure.

use vstd::prelude::*;

use crate::util::spec_dec;
use crate::util::u64_to_dec;

verus! {

/// Why consuming one message failed.
#[derive(Debug, Clone, PartialEq, Eq)]
pub enum ConsumerHandlerError {
    /// An extractor failed; carries the failing argument's type name and the
    /// cause.
    Extractor(String, String),
    /// The handler did not finish within the timeout; carries the timeout in
    /// milliseconds.
    Timeout(u64),
    /// The handler itself returned a failure.
    Other(String),
}

/// The outcome of one handler invocation.
pub type ConsumerHandlerResult = Result<(), ConsumerHandlerError>;

/// The human-readable message for a [`ConsumerHandlerError`].
pub open spec fn spec_error_message(e: ConsumerHandlerError) -> Seq<char> {
    match e {
        ConsumerHandlerError::Extractor(name, cause) => name@ + " extractor failed: "@ + cause@,
        ConsumerHandlerError::Timeout(ms) => "timeout of "@ + spec_dec(ms as nat) + "ms reached"@,
        ConsumerHandlerError::Other(cause) => cause@,
    }
}

impl ConsumerHandlerError {
    /// A value-equal copy: a failure can be reported to several places.
    pub fn dup(&self) -> (r: ConsumerHandlerError)
        ensures
            r == *self,
    {
        match self {
            ConsumerHandlerError::Extractor(name, cause) => ConsumerHandlerError::Extractor(
                name.clone(),
                cause.clone(),
            ),
            ConsumerHandlerError::Timeout(ms) => ConsumerHandlerError::Timeout(*ms),
            ConsumerHandlerError::Other(cause) => ConsumerHandlerError::Other(cause.clone()),
        }
    }

    /// Renders the failure as a message string.
    pub fn message(&self) -> (s: String)
        ensures
            s@ == spec_error_message(*self),
    {
        match self {
            ConsumerHandlerError::Extractor(name, cause) => {
                let mut s = name.clone();
                s.append(" extractor failed: ");
                s.append(cause.as_str());
                s
            },
            ConsumerHandlerError::Timeout(ms) => {
                let mut s = String::from_str("timeout of ");
                let dec = u64_to_dec(*ms);
                s.append(dec.as_str());
                s.append("ms reached");
                s
            },
            ConsumerHandlerError::Other(cause) => cause.clone(),
        }
    }
}

/// Normalizes a handler that returns nothing into a
/// [`ConsumerHandlerResult`].
pub fn into_consumer_handler_result() -> (r: ConsumerHandlerResult)
    ensures
        r is Ok,
{
    Ok(())
}

/// Normalizes a fallible handler return value into a
/// [`ConsumerHandlerResult`]: a failure message becomes
/// [`ConsumerHandlerError::Other`].
pub fn result_into_consumer_handler_result(res: Result<(), String>) -> (r: ConsumerHandlerResult)
    ensures
        match res {
            Ok(()) => r is Ok,
            Err(msg) => r == Result::<(), ConsumerHandlerError>::Err(
                ConsumerHandlerError::Other(msg),
            ),
        },
{
    match res {
        Ok(()) => Ok(()),
        Err(msg) => Err(ConsumerHandlerError::Other(msg)),
    }
}

} // verus!
