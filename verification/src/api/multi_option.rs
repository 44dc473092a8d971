//! An option that can hold no value, one value, or many values.

use vstd::prelude::*;

verus! {

/// An option holding no, one, or many values of some type.
#[derive(Debug, Clone, PartialEq, Eq, PartialOrd, Ord)]
pub enum MultiOption<T> {
    /// No values.
    Empty,
    /// Exactly one value.
    One(T),
    /// Many values.
    Many(Vec<T>),
}

impl<T> MultiOption<T> {
    /// Whether the option holds no value.
    pub fn is_none(&self) -> (r: bool)
        ensures
            r == (self matches MultiOption::Empty),
    {
        match self {
            MultiOption::Empty => true,
            _ => false,
        }
    }

    /// Whether the option holds exactly one value.
    pub fn is_one(&self) -> (r: bool)
        ensures
            r == (self matches MultiOption::One(_)),
    {
        match self {
            MultiOption::One(_) => true,
            _ => false,
        }
    }

    /// Whether the option holds many values.
    pub fn is_many(&self) -> (r: bool)
        ensures
            r == (self matches MultiOption::Many(_)),
    {
        match self {
            MultiOption::Many(_) => true,
            _ => false,
        }
    }
}

} // verus!
