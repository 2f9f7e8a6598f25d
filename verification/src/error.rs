use vstd::prelude::*;
use vstd::string::StringExecFns;

verus! {

/// The errors that the service answers with: a request that fails
/// validation, a malformed request, or a failure on the service's side. Each
/// carries the message shown to the client.
#[derive(Clone, Debug)]
pub enum BruteResponeErrorOf<S> {
    ValidationError(S),
    BadRequest(S),
    InternalError(S),
}

pub type BruteResponeError = BruteResponeErrorOf<String>;

pub type BruteResponeErrorView = BruteResponeErrorOf<Seq<char>>;

impl View for BruteResponeErrorOf<String> {
    type V = BruteResponeErrorView;

    open spec fn view(&self) -> BruteResponeErrorView {
        match self {
            BruteResponeErrorOf::ValidationError(m) => BruteResponeErrorOf::ValidationError(m@),
            BruteResponeErrorOf::BadRequest(m) => BruteResponeErrorOf::BadRequest(m@),
            BruteResponeErrorOf::InternalError(m) => BruteResponeErrorOf::InternalError(m@),
        }
    }
}

impl BruteResponeErrorOf<String> {
    /// The message carried by the error.
    pub fn message(&self) -> (m: &String)
        ensures
            m@ == match self@ {
                BruteResponeErrorOf::ValidationError(s) => s,
                BruteResponeErrorOf::BadRequest(s) => s,
                BruteResponeErrorOf::InternalError(s) => s,
            },
    {
        match self {
            BruteResponeErrorOf::ValidationError(m) => m,
            BruteResponeErrorOf::BadRequest(m) => m,
            BruteResponeErrorOf::InternalError(m) => m,
        }
    }
}

/// The message of a failure on the service's side.
pub open spec fn internal_failure_text() -> Seq<char> {
    "something definitely broke on our side"@
}

/// The error answered when the service itself failed.
pub fn internal_failure() -> (e: BruteResponeError)
    ensures
        e@ == BruteResponeErrorOf::InternalError(internal_failure_text()),
{
    BruteResponeErrorOf::InternalError(String::from_str("something definitely broke on our side"))
}

} // verus!
