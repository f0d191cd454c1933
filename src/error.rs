use vstd::prelude::*;

verus! {

/// Why a rate could not be resolved.
#[derive(Debug, PartialEq, Eq)]
pub enum ExchangeRateError {
    /// The transport or HTTP layer failed, or the response could not be decoded.
    RequestFailed(String),
    /// The snapshot could not be written, read or parsed.
    IoFailed(String),
    /// A well-formed table lacked the target code: `(from, to)`.
    RateNotFound(String, String),
    /// Every network attempt was used up without an answer.
    NetworkExhausted(String),
}

/// The human-readable text of an error.
pub open spec fn message_of(e: ExchangeRateError) -> Seq<char> {
    match e {
        ExchangeRateError::RequestFailed(d) => "Request error: "@ + d@,
        ExchangeRateError::IoFailed(d) => "IO error: "@ + d@,
        ExchangeRateError::RateNotFound(from, to) => "Exchange rate from "@ + from@ + " to "@ + to@
            + " not found."@,
        ExchangeRateError::NetworkExhausted(d) => "Network error: "@ + d@,
    }
}

impl ExchangeRateError {
    /// Renders the error for a person to read.
    pub fn message(&self) -> (r: String)
        ensures
            r@ == message_of(*self),
    {
        match self {
            ExchangeRateError::RequestFailed(d) => {
                let mut s = "Request error: ".to_string();
                s.append(d.as_str());
                s
            },
            ExchangeRateError::IoFailed(d) => {
                let mut s = "IO error: ".to_string();
                s.append(d.as_str());
                s
            },
            ExchangeRateError::RateNotFound(from, to) => {
                let mut s = "Exchange rate from ".to_string();
                s.append(from.as_str());
                s.append(" to ");
                s.append(to.as_str());
                s.append(" not found.");
                s
            },
            ExchangeRateError::NetworkExhausted(d) => {
                let mut s = "Network error: ".to_string();
                s.append(d.as_str());
                s
            },
        }
    }
}

} // verus!
