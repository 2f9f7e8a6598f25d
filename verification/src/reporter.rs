use vstd::prelude::*;

verus! {

/// A system that attempts are reported to.
pub trait Brute {
}

/// Something that reports attempts.
pub trait Reporter {
}

/// A request for the top `limit` rows of the table that `table` belongs to;
/// `max_limit` is the most the caller may ask for.
pub struct RequestWithLimit<T> {
    pub table: T,
    pub limit: usize,
    pub max_limit: usize,
}

/// Reports attempts to the system it holds.
#[derive(Clone)]
pub struct BruteReporter<T: Brute> {
    brute: T,
}

impl<T: Brute> BruteReporter<T> {
    pub fn new(brute: T) -> (r: BruteReporter<T>)
        ensures
            r.brute_spec() == brute,
    {
        BruteReporter { brute }
    }

    /// The system reported to.
    pub closed spec fn brute_spec(&self) -> T {
        self.brute
    }

    /// The system reported to.
    pub fn brute(&self) -> (b: &T)
        ensures
            *b == self.brute_spec(),
    {
        &self.brute
    }
}

impl<T: Brute> Reporter for BruteReporter<T> {
}

} // verus!
