//! The trivial history fetcher used when two literal endpoints are given
//! instead of a pull-request URL: one page holding exactly those two.
use vstd::prelude::*;

use crate::error::CustomError;
use crate::pr::{Page, PageDirection, Pagination};

verus! {

/// Fetcher over two fixed revision expressions.
#[derive(Debug)]
pub struct NoFetcher {
    pub from: String,
    pub to: String,
}

impl NoFetcher {
    /// Remember the two endpoints of the comparison.
    pub fn new(from: &str, to: &str) -> (r: Self)
        ensures
            r.from@ == from@,
            r.to@ == to@,
    {
        Self { from: from.to_owned(), to: to.to_owned() }
    }

    /// The whole history in one backward page: the two endpoints, oldest
    /// first, with nothing further to fetch, whatever token is offered.
    /// Never fails.
    pub fn fetch_history(&self, _pagination: Option<&Pagination>) -> (r: Result<
        Page<String>,
        CustomError,
    >)
        ensures
            r matches Ok(p) && p.items@.len() == 2 && p.items@[0]@ == self.from@ && p.items@[1]@
                == self.to@ && p.direction == PageDirection::Backward && p.next is None,
    {
        let mut items: Vec<String> = Vec::new();
        items.push(self.from.clone());
        items.push(self.to.clone());
        Ok(Page { items, direction: PageDirection::Backward, next: None })
    }
}

} // verus!
