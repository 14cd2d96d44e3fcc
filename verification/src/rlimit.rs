//! Resource-limit descriptors handed to the guest environment.

use vstd::prelude::*;

use crate::token::spec_decimal;
use crate::token::decimal_string;

verus! {

/// One OS resource limit: a string tag naming the limit category and a
/// soft/hard pair of values. A well-formed descriptor has `soft <= hard`.
#[derive(Debug, Clone)]
pub struct LinuxRlimit {
    pub kind: String,
    pub hard: u64,
    pub soft: u64,
}

impl LinuxRlimit {
    /// A descriptor is well formed when its soft value does not exceed
    /// its hard value.
    pub open spec fn wf(self) -> bool {
        self.soft <= self.hard
    }

    /// Builds a descriptor from its three fields.
    pub fn new(kind: String, hard: u64, soft: u64) -> (r: Self)
        requires
            soft <= hard,
        ensures
            r.kind@ == kind@,
            r.hard == hard,
            r.soft == soft,
            r.wf(),
    {
        Self { kind, hard, soft }
    }

    /// A readable rendering of the descriptor.
    pub fn describe(&self) -> (r: String)
        ensures
            r@ == describe_chars(self.kind@, self.hard, self.soft),
    {
        let mut s = String::from_str("Type: ");
        s.append(self.kind.as_str());
        s.append(", Hard: ");
        let hard_dec = decimal_string(self.hard);
        s.append(hard_dec.as_str());
        s.append(", Soft: ");
        let soft_dec = decimal_string(self.soft);
        s.append(soft_dec.as_str());
        proof {
            assert(s@ =~= describe_chars(self.kind@, self.hard, self.soft));
        }
        s
    }
}

/// The characters of `describe` on the given fields.
pub open spec fn describe_chars(kind: Seq<char>, hard: u64, soft: u64) -> Seq<char> {
    "Type: "@ + kind + ", Hard: "@ + spec_decimal(hard as nat) + ", Soft: "@ + spec_decimal(
        soft as nat,
    )
}

} // verus!
