//! The country registry entry: a dialing prefix and the number of
//! subscriber digits that follow it. Entries are immutable leaf data,
//! constructed by the embedding application or by tests.

use vstd::prelude::*;

use crate::digits::is_digit_char;

verus! {

/// One entry of the country registry, e.g. Ghana: prefix "233" with nine
/// further subscriber digits.
#[derive(Debug, PartialEq, Eq)]
pub struct Country {
    pub code: String,
    pub prefix: String,
    pub non_prefix_digits: usize,
}

impl Country {
    /// A well-formed entry: a three-digit dialing prefix and at least one
    /// subscriber digit, so a canonical number is `prefix` plus
    /// `non_prefix_digits` further digits.
    pub open spec fn wf(&self) -> bool {
        &&& self.prefix@.len() == 3
        &&& forall|i: int| 0 <= i < self.prefix@.len() ==> is_digit_char(#[trigger] self.prefix@[i])
        &&& self.non_prefix_digits >= 1
    }
}

impl Clone for Country {
    fn clone(&self) -> (r: Self)
        ensures
            r == *self,
    {
        Country {
            code: self.code.clone(),
            prefix: self.prefix.clone(),
            non_prefix_digits: self.non_prefix_digits,
        }
    }
}

} // verus!
