//! The two families of days and their stable integer codes.

use vstd::prelude::*;

verus! {

/// One of the four astronomical quarter days.
#[derive(Debug, Copy, Clone, PartialEq, Eq, Hash, Structural)]
pub enum SolarEventKind {
    MarchEquinox,
    JuneSolstice,
    SeptemberEquinox,
    DecemberSolstice,
}

/// One of the four traditional cross-quarter days.
#[derive(Debug, Copy, Clone, PartialEq, Eq, Hash, Structural)]
pub enum CrossQuarterDays {
    Imbolc,
    Beltane,
    Lammas,
    Samhain,
}

/// The first slot of the cross-quarter days among the custom names; the
/// quarter days take the slots before it.
pub const CROSS_QUARTER_SLOT_OFFSET: usize = 4;

impl SolarEventKind {
    /// The code of this kind: 0 to 3, in calendar order.
    pub open spec fn spec_index(self) -> nat {
        match self {
            SolarEventKind::MarchEquinox => 0,
            SolarEventKind::JuneSolstice => 1,
            SolarEventKind::SeptemberEquinox => 2,
            SolarEventKind::DecemberSolstice => 3,
        }
    }

    /// The kind with the given code, if there is one.
    pub open spec fn spec_from_index(index: nat) -> Option<SolarEventKind> {
        if index == 0 {
            Some(SolarEventKind::MarchEquinox)
        } else if index == 1 {
            Some(SolarEventKind::JuneSolstice)
        } else if index == 2 {
            Some(SolarEventKind::SeptemberEquinox)
        } else if index == 3 {
            Some(SolarEventKind::DecemberSolstice)
        } else {
            None
        }
    }

    /// The slot of this kind among the custom names: its code.
    pub open spec fn spec_slot(self) -> nat {
        self.spec_index()
    }

    /// The code of this kind. The kind is found again from it.
    pub fn index(self) -> (code: usize)
        ensures
            code == self.spec_index(),
            code < 4,
            Self::spec_from_index(code as nat) == Some(self),
    {
        match self {
            SolarEventKind::MarchEquinox => 0,
            SolarEventKind::JuneSolstice => 1,
            SolarEventKind::SeptemberEquinox => 2,
            SolarEventKind::DecemberSolstice => 3,
        }
    }

    /// The kind with the given code, or `None` for a code that names none
    /// (any code from 4 on).
    pub fn from_index(index: usize) -> (kind: Option<SolarEventKind>)
        ensures
            kind == Self::spec_from_index(index as nat),
            kind is Some <==> index < 4,
            kind matches Some(k) ==> k.spec_index() == index,
    {
        match index {
            0 => Some(SolarEventKind::MarchEquinox),
            1 => Some(SolarEventKind::JuneSolstice),
            2 => Some(SolarEventKind::SeptemberEquinox),
            3 => Some(SolarEventKind::DecemberSolstice),
            _ => None,
        }
    }
}

impl CrossQuarterDays {
    /// The code of this kind: 0 to 3, in calendar order.
    pub open spec fn spec_index(self) -> nat {
        match self {
            CrossQuarterDays::Imbolc => 0,
            CrossQuarterDays::Beltane => 1,
            CrossQuarterDays::Lammas => 2,
            CrossQuarterDays::Samhain => 3,
        }
    }

    /// The kind with the given code, if there is one.
    pub open spec fn spec_from_index(index: nat) -> Option<CrossQuarterDays> {
        if index == 0 {
            Some(CrossQuarterDays::Imbolc)
        } else if index == 1 {
            Some(CrossQuarterDays::Beltane)
        } else if index == 2 {
            Some(CrossQuarterDays::Lammas)
        } else if index == 3 {
            Some(CrossQuarterDays::Samhain)
        } else {
            None
        }
    }

    /// The slot of this kind among the custom names: its code, after the four
    /// slots of the quarter days.
    pub open spec fn spec_slot(self) -> nat {
        4 + self.spec_index()
    }

    /// The built-in name of the day.
    pub open spec fn spec_name(self) -> Seq<char> {
        match self {
            CrossQuarterDays::Imbolc => "Imbolc"@,
            CrossQuarterDays::Beltane => "Beltane"@,
            CrossQuarterDays::Lammas => "Lammas"@,
            CrossQuarterDays::Samhain => "Samhain"@,
        }
    }

    /// The month on whose first day the cross-quarter day is placed.
    pub open spec fn spec_month(self) -> nat {
        match self {
            CrossQuarterDays::Imbolc => 2,
            CrossQuarterDays::Beltane => 5,
            CrossQuarterDays::Lammas => 8,
            CrossQuarterDays::Samhain => 11,
        }
    }

    /// The built-in name of the day.
    pub fn name(self) -> (text: &'static str)
        ensures
            text@ == self.spec_name(),
    {
        match self {
            CrossQuarterDays::Imbolc => "Imbolc",
            CrossQuarterDays::Beltane => "Beltane",
            CrossQuarterDays::Lammas => "Lammas",
            CrossQuarterDays::Samhain => "Samhain",
        }
    }

    /// The month on whose first day the cross-quarter day is placed: February,
    /// May, August or November.
    pub fn month(self) -> (month: u32)
        ensures
            month == self.spec_month(),
            1 <= month <= 12,
    {
        match self {
            CrossQuarterDays::Imbolc => 2,
            CrossQuarterDays::Beltane => 5,
            CrossQuarterDays::Lammas => 8,
            CrossQuarterDays::Samhain => 11,
        }
    }

    /// The code of this kind. The kind is found again from it.
    pub fn index(self) -> (code: usize)
        ensures
            code == self.spec_index(),
            code < 4,
            Self::spec_from_index(code as nat) == Some(self),
    {
        match self {
            CrossQuarterDays::Imbolc => 0,
            CrossQuarterDays::Beltane => 1,
            CrossQuarterDays::Lammas => 2,
            CrossQuarterDays::Samhain => 3,
        }
    }

    /// The kind with the given code, or `None` for a code that names none
    /// (any code from 4 on).
    pub fn from_index(index: usize) -> (kind: Option<CrossQuarterDays>)
        ensures
            kind == Self::spec_from_index(index as nat),
            kind is Some <==> index < 4,
            kind matches Some(k) ==> k.spec_index() == index,
    {
        match index {
            0 => Some(CrossQuarterDays::Imbolc),
            1 => Some(CrossQuarterDays::Beltane),
            2 => Some(CrossQuarterDays::Lammas),
            3 => Some(CrossQuarterDays::Samhain),
            _ => None,
        }
    }
}

/// Every quarter day is found again from its code, every code below four names
/// a quarter day with that code, and no other code names one.
pub proof fn lemma_solar_code_round_trip(kind: SolarEventKind, code: nat)
    ensures
        SolarEventKind::spec_from_index(kind.spec_index()) == Some(kind),
        code < 4 ==> SolarEventKind::spec_from_index(code) is Some
            && SolarEventKind::spec_from_index(code).unwrap().spec_index() == code,
        code >= 4 ==> SolarEventKind::spec_from_index(code) is None,
{
}

/// Every cross-quarter day is found again from its code, every code below four
/// names a cross-quarter day with that code, and no other code names one.
pub proof fn lemma_cross_quarter_code_round_trip(kind: CrossQuarterDays, code: nat)
    ensures
        CrossQuarterDays::spec_from_index(kind.spec_index()) == Some(kind),
        code < 4 ==> CrossQuarterDays::spec_from_index(code) is Some
            && CrossQuarterDays::spec_from_index(code).unwrap().spec_index() == code,
        code >= 4 ==> CrossQuarterDays::spec_from_index(code) is None,
{
}

/// The eight slots of the custom names are shared without overlap: the quarter
/// days take slots 0 to 3 and the cross-quarter days slots 4 to 7.
pub proof fn lemma_slots_disjoint(solar: SolarEventKind, cross: CrossQuarterDays)
    ensures
        solar.spec_slot() < 4,
        4 <= cross.spec_slot() < 8,
        solar.spec_slot() != cross.spec_slot(),
{
}

} // verus!
