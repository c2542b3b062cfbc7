//! A small deployment to try the library out with: accounts are numbers.
use vstd::prelude::*;
use crate::access::Config;

verus! {

/// A deployment whose accounts are identified by a `u64`.
#[derive(Clone, Copy, Debug, Default, PartialEq, Eq)]
pub struct Test;

impl Config for Test {
    type AccountId = u64;
}

} // verus!
