//! Per-format play eligibility: the `Legality` enum with its wire-token
//! mapping, and the `Legalities` record holding one value per play format.

use vstd::prelude::*;
use vstd::string::StringExecFns;
use crate::text::token_is;

verus! {

/// Play eligibility of a card in one format.
#[derive(Debug, Clone, Copy, PartialEq, Eq, Hash)]
pub enum Legality {
    NotLegal,
    Legal,
    Banned,
    Restricted,
}

impl Legality {
    /// The wire token of this value in the API's JSON vocabulary.
    pub open spec fn spec_wire(self) -> Seq<char> {
        match self {
            Legality::NotLegal => "not_legal"@,
            Legality::Legal => "legal"@,
            Legality::Banned => "banned"@,
            Legality::Restricted => "restricted"@,
        }
    }

    /// The value a wire token decodes to; unrecognized tokens decode to nothing.
    pub open spec fn spec_from_wire(s: Seq<char>) -> Option<Legality> {
        if s == "not_legal"@ {
            Some(Legality::NotLegal)
        } else if s == "legal"@ {
            Some(Legality::Legal)
        } else if s == "banned"@ {
            Some(Legality::Banned)
        } else if s == "restricted"@ {
            Some(Legality::Restricted)
        } else {
            None
        }
    }

    /// Encodes this value to its wire token.
    pub fn wire_token(&self) -> (r: &'static str)
        ensures
            r@ == self.spec_wire(),
    {
        match self {
            Legality::NotLegal => "not_legal",
            Legality::Legal => "legal",
            Legality::Banned => "banned",
            Legality::Restricted => "restricted",
        }
    }

    /// Decodes a wire token; returns nothing on an unrecognized token.
    pub fn from_wire(s: &str) -> (r: Option<Legality>)
        ensures
            r == Legality::spec_from_wire(s@),
    {
        if token_is(s, "not_legal") {
            Some(Legality::NotLegal)
        } else if token_is(s, "legal") {
            Some(Legality::Legal)
        } else if token_is(s, "banned") {
            Some(Legality::Banned)
        } else if token_is(s, "restricted") {
            Some(Legality::Restricted)
        } else {
            None
        }
    }

    /// The human-readable form of this value.
    pub open spec fn spec_display(self) -> Seq<char> {
        match self {
            Legality::NotLegal => "Not Legal"@,
            Legality::Legal => "Legal"@,
            Legality::Banned => "Banned"@,
            Legality::Restricted => "Restricted"@,
        }
    }

    /// Renders this value for display.
    pub fn display_text(&self) -> (r: String)
        ensures
            r@ == self.spec_display(),
    {
        match self {
            Legality::NotLegal => String::from_str("Not Legal"),
            Legality::Legal => String::from_str("Legal"),
            Legality::Banned => String::from_str("Banned"),
            Legality::Restricted => String::from_str("Restricted"),
        }
    }
}

/// Encoding a legality to its wire token and decoding the token back
/// yields the original value.
pub proof fn lemma_legality_wire_round_trip(l: Legality)
    ensures
        Legality::spec_from_wire(l.spec_wire()) == Some(l),
{
    reveal_strlit("not_legal");
    reveal_strlit("legal");
    reveal_strlit("banned");
    reveal_strlit("restricted");
    assert("not_legal"@.len() == 9);
    assert("legal"@.len() == 5);
    assert("banned"@.len() == 6);
    assert("restricted"@.len() == 10);
}

/// One legality value for each named play format.
#[derive(Debug, Clone, Copy, PartialEq, Eq, Hash)]
pub struct Legalities {
    pub standard: Legality,
    pub future: Legality,
    pub historic: Legality,
    pub timeless: Legality,
    pub gladiator: Legality,
    pub pioneer: Legality,
    pub explorer: Legality,
    pub modern: Legality,
    pub legacy: Legality,
    pub pauper: Legality,
    pub vintage: Legality,
    pub penny: Legality,
    pub commander: Legality,
    pub oathbreaker: Legality,
    pub standardbrawl: Legality,
    pub brawl: Legality,
    pub alchemy: Legality,
    pub paupercommander: Legality,
    pub duel: Legality,
    pub oldschool: Legality,
    pub premodern: Legality,
    pub predh: Legality,
}

impl Legalities {
    /// The same legality in every format.
    pub fn uniform(l: Legality) -> (r: Legalities)
        ensures
            r == (Legalities {
                standard: l,
                future: l,
                historic: l,
                timeless: l,
                gladiator: l,
                pioneer: l,
                explorer: l,
                modern: l,
                legacy: l,
                pauper: l,
                vintage: l,
                penny: l,
                commander: l,
                oathbreaker: l,
                standardbrawl: l,
                brawl: l,
                alchemy: l,
                paupercommander: l,
                duel: l,
                oldschool: l,
                premodern: l,
                predh: l,
            }),
    {
        Legalities {
            standard: l,
            future: l,
            historic: l,
            timeless: l,
            gladiator: l,
            pioneer: l,
            explorer: l,
            modern: l,
            legacy: l,
            pauper: l,
            vintage: l,
            penny: l,
            commander: l,
            oathbreaker: l,
            standardbrawl: l,
            brawl: l,
            alchemy: l,
            paupercommander: l,
            duel: l,
            oldschool: l,
            premodern: l,
            predh: l,
        }
    }

    /// The rendered form: the widely played formats with their legalities.
    pub open spec fn spec_display(self) -> Seq<char> {
        "Standard: "@ + self.standard.spec_display() + ", Modern: "@ + self.modern.spec_display()
            + ", Legacy: "@ + self.legacy.spec_display() + ", Vintage: "@
            + self.vintage.spec_display() + ", Pauper: "@ + self.pauper.spec_display()
            + ", Commander: "@ + self.commander.spec_display() + ", Brawl: "@
            + self.brawl.spec_display() + ", Duel: "@ + self.duel.spec_display()
    }

    /// Renders the widely played formats for display.
    pub fn display_text(&self) -> (r: String)
        ensures
            r@ == self.spec_display(),
    {
        let mut out = String::from_str("Standard: ");
        out.append(self.standard.display_text().as_str());
        out.append(", Modern: ");
        out.append(self.modern.display_text().as_str());
        out.append(", Legacy: ");
        out.append(self.legacy.display_text().as_str());
        out.append(", Vintage: ");
        out.append(self.vintage.display_text().as_str());
        out.append(", Pauper: ");
        out.append(self.pauper.display_text().as_str());
        out.append(", Commander: ");
        out.append(self.commander.display_text().as_str());
        out.append(", Brawl: ");
        out.append(self.brawl.display_text().as_str());
        out.append(", Duel: ");
        out.append(self.duel.display_text().as_str());
        out
    }
}

} // verus!
