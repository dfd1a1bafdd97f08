//! A limit that may be lifted altogether.

use crate::text::{decimal, decimal_string};
use vstd::prelude::*;
use vstd::string::*;

verus! {

/// A bound on a resource: a number, or no bound at all.
///
/// The kernel writes "no bound" as the word `max`, never as a large number.
#[derive(Clone, Copy, Debug, PartialEq, Eq, Structural)]
pub enum Limit {
    /// No bound.
    Max,
    /// At most this much.
    Value(u64),
}

impl Limit {
    /// The text that a control file takes for this limit.
    pub open spec fn encoding(self) -> Seq<char> {
        match self {
            Limit::Max => "max"@,
            Limit::Value(v) => decimal(v as nat),
        }
    }

    /// The limit that a signed number stands for where a negative number
    /// means "no bound".
    pub open spec fn of_signed(v: int) -> Limit {
        if v < 0 {
            Limit::Max
        } else {
            Limit::Value(v as u64)
        }
    }

    /// Reads a signed number in which a negative value means "no bound".
    pub fn from_signed(v: i64) -> (limit: Limit)
        ensures
            limit == Limit::of_signed(v as int),
    {
        if v < 0 {
            Limit::Max
        } else {
            Limit::Value(v as u64)
        }
    }

    /// The text that a control file takes for this limit.
    pub fn encode(&self) -> (text: String)
        ensures
            text@ == self.encoding(),
    {
        match self {
            Limit::Max => String::from_str("max"),
            Limit::Value(v) => decimal_string(*v),
        }
    }
}

} // verus!
