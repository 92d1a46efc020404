//! The cabins for which a cheapest-first search is defined.

use crate::row::{CabinColumns, FlightRow};
use crate::text::same_text;
use vstd::prelude::*;

verus! {

/// A cabin class that can be searched cheapest first. First class has award
/// offers, but no such search.
#[derive(Clone, Copy, Debug, PartialEq, Eq, Structural)]
pub enum CabinType {
    Economy,
    PremiumEconomy,
    Business,
}

/// The cabin that a name stands for: `ECONOMY`, `PREMIUM_ECONOMY` or
/// `BUSINESS`, in exactly this spelling.
pub open spec fn cabin_named(name: Seq<char>) -> Option<CabinType> {
    if name == "ECONOMY"@ {
        Some(CabinType::Economy)
    } else if name == "PREMIUM_ECONOMY"@ {
        Some(CabinType::PremiumEconomy)
    } else if name == "BUSINESS"@ {
        Some(CabinType::Business)
    } else {
        None
    }
}

impl CabinType {
    /// The name under which requests and statements know the cabin.
    pub open spec fn name(self) -> Seq<char> {
        match self {
            CabinType::Economy => "ECONOMY"@,
            CabinType::PremiumEconomy => "PREMIUM_ECONOMY"@,
            CabinType::Business => "BUSINESS"@,
        }
    }

    /// The columns that this cabin's award table adds to a joined row.
    pub open spec fn columns(self, row: FlightRow) -> CabinColumns {
        match self {
            CabinType::Economy => row.economy,
            CabinType::PremiumEconomy => row.premium_economy,
            CabinType::Business => row.business,
        }
    }

    /// Reads a cabin's name.
    pub fn parse(name: &str) -> (cabin: Option<CabinType>)
        ensures
            cabin == cabin_named(name@),
    {
        if same_text(name, "ECONOMY") {
            Some(CabinType::Economy)
        } else if same_text(name, "PREMIUM_ECONOMY") {
            Some(CabinType::PremiumEconomy)
        } else if same_text(name, "BUSINESS") {
            Some(CabinType::Business)
        } else {
            None
        }
    }

    /// Writes the cabin's name.
    pub fn as_str(&self) -> (name: &'static str)
        ensures
            name@ == self.name(),
    {
        match self {
            CabinType::Economy => "ECONOMY",
            CabinType::PremiumEconomy => "PREMIUM_ECONOMY",
            CabinType::Business => "BUSINESS",
        }
    }

    /// This cabin's columns of a row.
    pub fn columns_of<'a>(&self, row: &'a FlightRow) -> (columns: &'a CabinColumns)
        ensures
            *columns == self.columns(*row),
    {
        match self {
            CabinType::Economy => &row.economy,
            CabinType::PremiumEconomy => &row.premium_economy,
            CabinType::Business => &row.business,
        }
    }
}

/// A cabin is read back from the name that is written for it, and only the
/// three names are read.
pub proof fn lemma_cabin_names(cabin: CabinType, name: Seq<char>)
    ensures
        cabin_named(cabin.name()) == Some(cabin),
        cabin_named(name) == Some(cabin) <==> name == cabin.name(),
{
    reveal_strlit("ECONOMY");
    reveal_strlit("PREMIUM_ECONOMY");
    reveal_strlit("BUSINESS");
    assert("ECONOMY"@.len() == 7);
    assert("PREMIUM_ECONOMY"@.len() == 15);
    assert("BUSINESS"@.len() == 8);
}

} // verus!
