//! The kinds of time window over a tick stream.

use vstd::prelude::*;
use vstd::std_specs::cmp::PartialEqSpec;
use crate::text::str_eq;

verus! {

/// How a window over the stream advances. `UNDEFINED` stands for any name
/// that is not one of the three known kinds.
#[derive(Copy, Clone, Debug)]
pub enum WindowType {
    UNDEFINED,
    TUMBLING,
    HOPPING,
    ROLLING,
}

impl WindowType {
    /// The position of the variant in the declaration.
    pub open spec fn spec_index(self) -> int {
        match self {
            WindowType::UNDEFINED => 0,
            WindowType::TUMBLING => 1,
            WindowType::HOPPING => 2,
            WindowType::ROLLING => 3,
        }
    }

    /// The name under which the variant is written.
    pub open spec fn name(self) -> Seq<char> {
        match self {
            WindowType::UNDEFINED => "UNDEFINED"@,
            WindowType::TUMBLING => "TUMBLING"@,
            WindowType::HOPPING => "HOPPING"@,
            WindowType::ROLLING => "ROLLING"@,
        }
    }

    /// The variant that a name denotes: the three known names denote their
    /// kinds, every other text denotes `UNDEFINED`.
    pub open spec fn named(s: Seq<char>) -> WindowType {
        if s == "TUMBLING"@ {
            WindowType::TUMBLING
        } else if s == "HOPPING"@ {
            WindowType::HOPPING
        } else if s == "ROLLING"@ {
            WindowType::ROLLING
        } else {
            WindowType::UNDEFINED
        }
    }

    /// The position of the variant in the declaration, as a byte.
    pub fn index(self) -> (i: u8)
        ensures
            i == self.spec_index(),
    {
        match self {
            WindowType::UNDEFINED => 0,
            WindowType::TUMBLING => 1,
            WindowType::HOPPING => 2,
            WindowType::ROLLING => 3,
        }
    }

    /// Reads a window kind from its name. The match is exact and case
    /// sensitive; anything else gives `UNDEFINED`.
    pub fn from_str(s: &str) -> (w: WindowType)
        ensures
            w == WindowType::named(s@),
    {
        if str_eq(s, "TUMBLING") {
            WindowType::TUMBLING
        } else if str_eq(s, "HOPPING") {
            WindowType::HOPPING
        } else if str_eq(s, "ROLLING") {
            WindowType::ROLLING
        } else {
            WindowType::UNDEFINED
        }
    }

    /// Writes a window kind as its name.
    pub fn to_str(t: WindowType) -> (s: String)
        ensures
            s@ == t.name(),
    {
        match t {
            WindowType::TUMBLING => "TUMBLING".to_owned(),
            WindowType::HOPPING => "HOPPING".to_owned(),
            WindowType::ROLLING => "ROLLING".to_owned(),
            WindowType::UNDEFINED => "UNDEFINED".to_owned(),
        }
    }
}

impl PartialEq for WindowType {
    fn eq(&self, other: &Self) -> (same: bool) {
        self.index() == other.index()
    }
}

impl vstd::std_specs::cmp::PartialEqSpecImpl for WindowType {
    open spec fn obeys_eq_spec() -> bool {
        true
    }

    open spec fn eq_spec(&self, other: &Self) -> bool {
        self.spec_index() == other.spec_index()
    }
}

/// Two window kinds at the same position are the same kind, so `==` on
/// `WindowType` is equality of values.
pub proof fn lemma_eq_is_identity(a: WindowType, b: WindowType)
    ensures
        a.eq_spec(&b) <==> a == b,
{
}

/// Two window kinds have the same name only if they are the same kind.
pub proof fn lemma_names_differ(a: WindowType, b: WindowType)
    ensures
        a.name() == b.name() <==> a == b,
{
    reveal_strlit("UNDEFINED");
    reveal_strlit("TUMBLING");
    reveal_strlit("HOPPING");
    reveal_strlit("ROLLING");
    if a != b && a.name().len() == b.name().len() {
        assert(a.name()[0] != b.name()[0]);
    }
}

/// Reading back the name of a window kind gives that kind.
pub proof fn lemma_name_round_trip(t: WindowType)
    ensures
        WindowType::named(t.name()) == t,
{
    lemma_names_differ(t, WindowType::TUMBLING);
    lemma_names_differ(t, WindowType::HOPPING);
    lemma_names_differ(t, WindowType::ROLLING);
    lemma_names_differ(t, WindowType::UNDEFINED);
}

} // verus!
