//! The catalog of events as text: the pieces of a listing.

use vstd::prelude::*;
use vstd::multiset::Multiset;
use vstd::string::*;
use crate::assets::{count_kind, holdings};
use crate::types::{Asset, ASSET_KINDS, Event};

verus! {

/// The character of a decimal digit.
pub open spec fn digit(d: nat) -> char {
    if d == 0 {
        '0'
    } else if d == 1 {
        '1'
    } else if d == 2 {
        '2'
    } else if d == 3 {
        '3'
    } else if d == 4 {
        '4'
    } else if d == 5 {
        '5'
    } else if d == 6 {
        '6'
    } else if d == 7 {
        '7'
    } else if d == 8 {
        '8'
    } else {
        '9'
    }
}

/// A number in decimal, without leading zeros.
pub open spec fn decimal(n: nat) -> Seq<char>
    decreases n,
{
    if n < 10 {
        seq![digit(n)]
    } else {
        decimal(n / 10).push(digit(n % 10))
    }
}

/// The name of a kind of asset.
pub open spec fn asset_name(kind: Asset) -> Seq<char> {
    match kind {
        Asset::Gladiator => "Gladiator"@,
        Asset::Comedian => "Comedian"@,
        Asset::Musician => "Musician"@,
        Asset::Horse => "Horse"@,
        Asset::Torch => "Torch"@,
        Asset::Priest => "Priest"@,
        Asset::Ship => "Ship"@,
        Asset::Lion => "Lion"@,
        Asset::Scenery => "Scenery"@,
        Asset::Decoration => "Decoration"@,
        Asset::Chariot => "Chariot"@,
        Asset::Cage => "Cage"@,
        Asset::Joker => "Joker"@,
        Asset::Emperor => "Emperor"@,
        Asset::SpecialEvent => "SpecialEvent"@,
    }
}

/// The kinds in the alphabetical order of their names.
pub open spec fn alphabetical(i: nat) -> Asset {
    if i == 0 {
        Asset::Cage
    } else if i == 1 {
        Asset::Chariot
    } else if i == 2 {
        Asset::Comedian
    } else if i == 3 {
        Asset::Decoration
    } else if i == 4 {
        Asset::Emperor
    } else if i == 5 {
        Asset::Gladiator
    } else if i == 6 {
        Asset::Horse
    } else if i == 7 {
        Asset::Joker
    } else if i == 8 {
        Asset::Lion
    } else if i == 9 {
        Asset::Musician
    } else if i == 10 {
        Asset::Priest
    } else if i == 11 {
        Asset::Scenery
    } else if i == 12 {
        Asset::Ship
    } else if i == 13 {
        Asset::SpecialEvent
    } else {
        Asset::Torch
    }
}

/// The glyph of a size class.
pub open spec fn size_glyph(size: u8) -> Seq<char> {
    if size == 0 {
        "[]"@
    } else if size == 1 {
        "[=]"@
    } else if size == 2 {
        "[==]"@
    } else {
        "[???]"@
    }
}

/// Numbers in decimal, separated by a comma and a space.
pub open spec fn penalties_text(penalties: Seq<u8>) -> Seq<char>
    decreases penalties.len(),
{
    if penalties.len() == 0 {
        Seq::empty()
    } else if penalties.len() == 1 {
        decimal(penalties[0] as nat)
    } else {
        penalties_text(penalties.drop_last()) + ", "@ + decimal(penalties.last() as nat)
    }
}

/// The required kinds among the first `upto` of the alphabet, each as its
/// name, a colon and the number required, separated by a comma and a space.
pub open spec fn requirements_text_upto(need: Multiset<Asset>, upto: nat) -> Seq<char>
    decreases upto,
{
    if upto == 0 {
        Seq::empty()
    } else {
        let before = requirements_text_upto(need, (upto - 1) as nat);
        let kind = alphabetical((upto - 1) as nat);
        let item = asset_name(kind) + ": "@ + decimal(need.count(kind));
        if need.count(kind) == 0 {
            before
        } else if before.len() == 0 {
            item
        } else {
            before + ", "@ + item
        }
    }
}

/// The requirements as text: every required kind once, in the alphabetical
/// order of the names, with the number required.
pub open spec fn requirements_text(need: Multiset<Asset>) -> Seq<char> {
    requirements_text_upto(need, ASSET_KINDS as nat)
}

fn digit_text(d: u64) -> (t: &'static str)
    requires
        d < 10,
    ensures
        t@ == seq![digit(d as nat)],
{
    proof {
        reveal_strlit("0");
        reveal_strlit("1");
        reveal_strlit("2");
        reveal_strlit("3");
        reveal_strlit("4");
        reveal_strlit("5");
        reveal_strlit("6");
        reveal_strlit("7");
        reveal_strlit("8");
        reveal_strlit("9");
    }
    let t = if d == 0 {
        "0"
    } else if d == 1 {
        "1"
    } else if d == 2 {
        "2"
    } else if d == 3 {
        "3"
    } else if d == 4 {
        "4"
    } else if d == 5 {
        "5"
    } else if d == 6 {
        "6"
    } else if d == 7 {
        "7"
    } else if d == 8 {
        "8"
    } else {
        "9"
    };
    proof {
        assert(t@ =~= seq![digit(d as nat)]);
    }
    t
}

/// Writes a number in decimal.
pub fn decimal_text(n: u64) -> (s: String)
    ensures
        s@ == decimal(n as nat),
    decreases n,
{
    if n < 10 {
        digit_text(n).to_owned()
    } else {
        let mut s = decimal_text(n / 10);
        s.append(digit_text(n % 10));
        proof {
            assert(s@ =~= decimal(n as nat));
        }
        s
    }
}

impl Asset {
    /// The name of the kind.
    pub fn name(self) -> (text: &'static str)
        ensures
            text@ == asset_name(self),
    {
        match self {
            Asset::Gladiator => "Gladiator",
            Asset::Comedian => "Comedian",
            Asset::Musician => "Musician",
            Asset::Horse => "Horse",
            Asset::Torch => "Torch",
            Asset::Priest => "Priest",
            Asset::Ship => "Ship",
            Asset::Lion => "Lion",
            Asset::Scenery => "Scenery",
            Asset::Decoration => "Decoration",
            Asset::Chariot => "Chariot",
            Asset::Cage => "Cage",
            Asset::Joker => "Joker",
            Asset::Emperor => "Emperor",
            Asset::SpecialEvent => "SpecialEvent",
        }
    }

    /// The kind of this name, if it is the name of one.
    pub fn from_name(name: &String) -> (r: Option<Asset>)
        ensures
            match r {
                Some(kind) => asset_name(kind) == name@,
                None => !is_asset_name(name@),
            },
    {
        let mut i: usize = 0;
        while i < ASSET_KINDS
            invariant
                i <= ASSET_KINDS,
                forall|k: Asset| k.spec_index() < i ==> #[trigger] asset_name(k) != name@,
            decreases ASSET_KINDS - i,
        {
            let kind = Asset::from_index(i);
            if *name == kind.name().to_owned() {
                return Some(kind);
            }
            proof {
                assert forall|k: Asset| k.spec_index() < i + 1 implies #[trigger] asset_name(k)
                    != name@ by {
                    k.lemma_index_round_trip();
                }
            }
            i = i + 1;
        }
        proof {
            assert forall|k: Asset| #[trigger] asset_name(k) != name@ by {
                k.lemma_index_round_trip();
            }
        }
        None
    }

    /// The kind at a position of the alphabetical order of the names.
    pub fn in_alphabet(i: usize) -> (kind: Asset)
        requires
            i < ASSET_KINDS,
        ensures
            kind == alphabetical(i as nat),
    {
        if i == 0 {
            Asset::Cage
        } else if i == 1 {
            Asset::Chariot
        } else if i == 2 {
            Asset::Comedian
        } else if i == 3 {
            Asset::Decoration
        } else if i == 4 {
            Asset::Emperor
        } else if i == 5 {
            Asset::Gladiator
        } else if i == 6 {
            Asset::Horse
        } else if i == 7 {
            Asset::Joker
        } else if i == 8 {
            Asset::Lion
        } else if i == 9 {
            Asset::Musician
        } else if i == 10 {
            Asset::Priest
        } else if i == 11 {
            Asset::Scenery
        } else if i == 12 {
            Asset::Ship
        } else if i == 13 {
            Asset::SpecialEvent
        } else {
            Asset::Torch
        }
    }
}

/// The length and the first letter of a kind's name.
pub open spec fn name_shape(kind: Asset) -> (nat, char) {
    match kind {
        Asset::Gladiator => (9, 'G'),
        Asset::Comedian => (8, 'C'),
        Asset::Musician => (8, 'M'),
        Asset::Horse => (5, 'H'),
        Asset::Torch => (5, 'T'),
        Asset::Priest => (6, 'P'),
        Asset::Ship => (4, 'S'),
        Asset::Lion => (4, 'L'),
        Asset::Scenery => (7, 'S'),
        Asset::Decoration => (10, 'D'),
        Asset::Chariot => (7, 'C'),
        Asset::Cage => (4, 'C'),
        Asset::Joker => (5, 'J'),
        Asset::Emperor => (7, 'E'),
        Asset::SpecialEvent => (12, 'S'),
    }
}

/// Every name has the length and the first letter that `name_shape` gives.
pub proof fn lemma_name_shape(kind: Asset)
    ensures
        asset_name(kind).len() == name_shape(kind).0,
        asset_name(kind)[0] == name_shape(kind).1,
{
    reveal_strlit("Gladiator");
    reveal_strlit("Comedian");
    reveal_strlit("Musician");
    reveal_strlit("Horse");
    reveal_strlit("Torch");
    reveal_strlit("Priest");
    reveal_strlit("Ship");
    reveal_strlit("Lion");
    reveal_strlit("Scenery");
    reveal_strlit("Decoration");
    reveal_strlit("Chariot");
    reveal_strlit("Cage");
    reveal_strlit("Joker");
    reveal_strlit("Emperor");
    reveal_strlit("SpecialEvent");
}

/// No two kinds have the same name.
pub proof fn lemma_names_distinct(a: Asset, b: Asset)
    requires
        asset_name(a) == asset_name(b),
    ensures
        a == b,
{
    lemma_name_shape(a);
    lemma_name_shape(b);
}

/// Why a catalog could not be loaded.
#[derive(Clone, Copy, Debug, PartialEq, Eq, Structural)]
pub enum CatalogLoadError {
    /// The requirement at this position names no kind of asset.
    UnknownAsset { position: usize },
}

/// Whether the text is the name of a kind of asset.
pub open spec fn is_asset_name(text: Seq<char>) -> bool {
    exists|kind: Asset| asset_name(kind) == text
}

/// A number in decimal has at least one digit.
pub proof fn lemma_decimal_not_empty(n: nat)
    ensures
        decimal(n).len() > 0,
    decreases n,
{
    if n >= 10 {
        lemma_decimal_not_empty(n / 10);
    }
}

/// Reads a list of requirements from the names of the kinds. It fails at
/// the first name that is not the name of a kind.
pub fn parse_requirements(names: &Vec<String>) -> (r: Result<Vec<Asset>, CatalogLoadError>)
    ensures
        match r {
            Ok(kinds) => kinds@.len() == names@.len() && forall|i: int|
                0 <= i < names@.len() ==> asset_name(#[trigger] kinds@[i]) == names@[i]@,
            Err(CatalogLoadError::UnknownAsset { position }) => position < names@.len()
                && !is_asset_name(names@[position as int]@) && forall|i: int|
                0 <= i < position ==> is_asset_name(#[trigger] names@[i]@),
        },
{
    let mut kinds: Vec<Asset> = Vec::new();
    let mut i: usize = 0;
    while i < names.len()
        invariant
            i <= names@.len(),
            kinds@.len() == i,
            forall|j: int| 0 <= j < i ==> asset_name(#[trigger] kinds@[j]) == names@[j]@,
        decreases names@.len() - i,
    {
        match Asset::from_name(&names[i]) {
            Some(kind) => {
                kinds.push(kind);
            },
            None => {
                proof {
                    assert forall|j: int| 0 <= j < i implies is_asset_name(
                        #[trigger] names@[j]@,
                    ) by {
                        assert(asset_name(kinds@[j]) == names@[j]@);
                    }
                }
                return Err(CatalogLoadError::UnknownAsset { position: i });
            },
        }
        i = i + 1;
    }
    Ok(kinds)
}

impl Event {
    /// The glyph of the event's size class: brackets that hold one `=` for
    /// each step of size, or `???` for a class that is not known.
    pub fn format_size(&self) -> (glyph: &'static str)
        ensures
            glyph@ == size_glyph(self.size),
    {
        if self.size == 0 {
            "[]"
        } else if self.size == 1 {
            "[=]"
        } else if self.size == 2 {
            "[==]"
        } else {
            "[???]"
        }
    }

    /// The requirements: every required kind once, in the alphabetical order
    /// of the names, with the number required.
    pub fn format_requirements(&self) -> (text: String)
        ensures
            text@ == requirements_text(holdings(self.requirements@)),
    {
        let ghost need = holdings(self.requirements@);
        let mut text = String::new();
        let mut any = false;
        let mut i: usize = 0;
        while i < ASSET_KINDS
            invariant
                i <= ASSET_KINDS,
                need == holdings(self.requirements@),
                text@ == requirements_text_upto(need, i as nat),
                any == (text@.len() > 0),
            decreases ASSET_KINDS - i,
        {
            let kind = Asset::in_alphabet(i);
            let n = count_kind(&self.requirements, kind);
            if n > 0 {
                proof {
                    lemma_decimal_not_empty(n as nat);
                }
                let ghost before = text@;
                if any {
                    text.append(", ");
                }
                text.append(kind.name());
                text.append(": ");
                text.append(decimal_text(n as u64).as_str());
                any = true;
                proof {
                    let item = asset_name(kind) + ": "@ + decimal(n as nat);
                    if before.len() == 0 {
                        assert(text@ =~= item);
                    } else {
                        assert(text@ =~= before + ", "@ + item);
                    }
                }
            }
            i = i + 1;
        }
        text
    }

    /// The penalties in decimal, separated by a comma and a space.
    pub fn format_penalties(&self) -> (text: String)
        ensures
            text@ == penalties_text(self.penalty_scores@),
    {
        let mut text = String::new();
        let mut i: usize = 0;
        while i < self.penalty_scores.len()
            invariant
                i <= self.penalty_scores@.len(),
                text@ == penalties_text(self.penalty_scores@.take(i as int)),
            decreases self.penalty_scores@.len() - i,
        {
            let ghost before = self.penalty_scores@.take(i as int);
            proof {
                assert(self.penalty_scores@.take(i + 1).drop_last() =~= before);
            }
            if i > 0 {
                text.append(", ");
            }
            text.append(decimal_text(self.penalty_scores[i] as u64).as_str());
            proof {
                if i > 0 {
                    assert(text@ =~= penalties_text(before) + ", "@ + decimal(
                        self.penalty_scores@[i as int] as nat,
                    ));
                } else {
                    assert(text@ =~= decimal(self.penalty_scores@[0] as nat));
                }
            }
            i = i + 1;
        }
        proof {
            assert(self.penalty_scores@.take(i as int) =~= self.penalty_scores@);
        }
        text
    }
}

} // verus!
