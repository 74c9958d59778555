//! The configuration of a calendar.

use crate::kinds::{CrossQuarterDays, SolarEventKind};
use vstd::prelude::*;
use vstd::string::*;

verus! {

/// What a calendar shows: its title, the span of years, which days in which
/// order, how they are named.
#[derive(Debug, Clone, PartialEq, Eq)]
pub struct CalendarOptions {
    /// The calendar's title.
    pub name: String,
    pub description: Option<String>,
    /// First year, inclusive.
    pub year_start: i16,
    /// Last year, inclusive. Where it lies before `year_start` the span is empty.
    pub year_end: i16,
    /// The quarter days to show, in this order; a day may stand twice.
    pub quarter_days: Vec<SolarEventKind>,
    /// Template of a quarter day's summary, with `{name}` and `{pagan_name}`.
    pub quarter_days_fmt: String,
    /// The cross-quarter days to show, in this order; a day may stand twice.
    pub cross_quarter_days: Vec<CrossQuarterDays>,
    /// Template of a cross-quarter day's summary, with `{pagan_name}`.
    pub cross_quarter_days_fmt: String,
    /// Names that replace the traditional ones: slots 0 to 3 for the quarter
    /// days by code, slots 4 to 7 for the cross-quarter days by code. A slot
    /// that is `None` or missing leaves the built-in name.
    pub custom_names: Vec<Option<String>>,
}

/// The quarter days shown by default: all four, in calendar order.
pub open spec fn default_quarter_days() -> Seq<SolarEventKind> {
    seq![
        SolarEventKind::MarchEquinox,
        SolarEventKind::JuneSolstice,
        SolarEventKind::SeptemberEquinox,
        SolarEventKind::DecemberSolstice,
    ]
}

/// The cross-quarter days shown by default: all four, Beltane first.
pub open spec fn default_cross_quarter_days() -> Seq<CrossQuarterDays> {
    seq![
        CrossQuarterDays::Beltane,
        CrossQuarterDays::Imbolc,
        CrossQuarterDays::Lammas,
        CrossQuarterDays::Samhain,
    ]
}

/// The default template of a quarter day's summary.
pub open spec fn default_quarter_days_fmt() -> Seq<char> {
    "{pagan_name} ({name})"@
}

/// The default template of a cross-quarter day's summary.
pub open spec fn default_cross_quarter_days_fmt() -> Seq<char> {
    "{pagan_name}"@
}

/// The quarter days that a list of codes selects: each code below four gives
/// its kind, in the order of the list, and every other code is left out.
pub open spec fn decode_quarter_days(codes: Seq<u8>) -> Seq<SolarEventKind>
    decreases codes.len(),
{
    if codes.len() == 0 {
        Seq::empty()
    } else {
        let before = decode_quarter_days(codes.drop_last());
        match SolarEventKind::spec_from_index(codes.last() as nat) {
            Some(kind) => before.push(kind),
            None => before,
        }
    }
}

/// The cross-quarter days that a list of codes selects: each code below four
/// gives its kind, in the order of the list, and every other code is left out.
pub open spec fn decode_cross_quarter_days(codes: Seq<u8>) -> Seq<CrossQuarterDays>
    decreases codes.len(),
{
    if codes.len() == 0 {
        Seq::empty()
    } else {
        let before = decode_cross_quarter_days(codes.drop_last());
        match CrossQuarterDays::spec_from_index(codes.last() as nat) {
            Some(kind) => before.push(kind),
            None => before,
        }
    }
}

impl CalendarOptions {
    /// The custom name in a slot, if the slot exists and holds one.
    pub open spec fn spec_custom_name(&self, slot: nat) -> Option<Seq<char>> {
        if slot < self.custom_names@.len() {
            match self.custom_names@[slot as int] {
                Some(text) => Some(text@),
                None => None,
            }
        } else {
            None
        }
    }

    /// The options with which a calendar starts: all eight days, the default
    /// templates, no description and no custom name.
    pub fn new(name: &str, start: i16, end: i16) -> (opts: CalendarOptions)
        ensures
            opts.name@ == name@,
            opts.description is None,
            opts.year_start == start,
            opts.year_end == end,
            opts.quarter_days@ == default_quarter_days(),
            opts.quarter_days_fmt@ == default_quarter_days_fmt(),
            opts.cross_quarter_days@ == default_cross_quarter_days(),
            opts.cross_quarter_days_fmt@ == default_cross_quarter_days_fmt(),
            opts.custom_names@.len() == 8,
            forall|slot: nat| opts.spec_custom_name(slot) is None,
    {
        let mut quarter_days: Vec<SolarEventKind> = Vec::new();
        quarter_days.push(SolarEventKind::MarchEquinox);
        quarter_days.push(SolarEventKind::JuneSolstice);
        quarter_days.push(SolarEventKind::SeptemberEquinox);
        quarter_days.push(SolarEventKind::DecemberSolstice);
        let mut cross_quarter_days: Vec<CrossQuarterDays> = Vec::new();
        cross_quarter_days.push(CrossQuarterDays::Beltane);
        cross_quarter_days.push(CrossQuarterDays::Imbolc);
        cross_quarter_days.push(CrossQuarterDays::Lammas);
        cross_quarter_days.push(CrossQuarterDays::Samhain);
        let mut custom_names: Vec<Option<String>> = Vec::new();
        let mut slot: usize = 0;
        while slot < 8
            invariant
                slot <= 8,
                custom_names@.len() == slot,
                forall|i: int| 0 <= i < slot ==> custom_names@[i] is None,
            decreases 8 - slot,
        {
            custom_names.push(None);
            slot += 1;
        }
        proof {
            assert(quarter_days@ =~= default_quarter_days());
            assert(cross_quarter_days@ =~= default_cross_quarter_days());
        }
        CalendarOptions {
            name: String::from_str(name),
            description: None,
            year_start: start,
            year_end: end,
            quarter_days,
            quarter_days_fmt: String::from_str("{pagan_name} ({name})"),
            cross_quarter_days,
            cross_quarter_days_fmt: String::from_str("{pagan_name}"),
            custom_names,
        }
    }

    /// The calendar's title.
    pub fn name(&self) -> (name: String)
        ensures
            name@ == self.name@,
    {
        self.name.clone()
    }

    /// Replaces the title and nothing else.
    pub fn set_name(&mut self, name: String)
        ensures
            *final(self) == (CalendarOptions { name, ..*old(self) }),
    {
        self.name = name;
    }

    /// The calendar's description, if it has one.
    pub fn description(&self) -> (description: Option<String>)
        ensures
            description == self.description,
    {
        match &self.description {
            Some(text) => Some(text.clone()),
            None => None,
        }
    }

    /// Replaces the description and nothing else.
    pub fn set_description(&mut self, description: Option<String>)
        ensures
            *final(self) == (CalendarOptions { description, ..*old(self) }),
    {
        self.description = description;
    }

    /// The codes of the quarter days, in their order.
    pub fn quarter_days(&self) -> (codes: Vec<u8>)
        ensures
            codes@.len() == self.quarter_days@.len(),
            forall|i: int|
                0 <= i < codes@.len() ==> codes@[i] == self.quarter_days@[i].spec_index(),
            decode_quarter_days(codes@) == self.quarter_days@,
    {
        let mut codes: Vec<u8> = Vec::new();
        let mut i: usize = 0;
        while i < self.quarter_days.len()
            invariant
                i <= self.quarter_days@.len(),
                codes@.len() == i,
                forall|j: int| 0 <= j < i ==> codes@[j] == self.quarter_days@[j].spec_index(),
                decode_quarter_days(codes@) == self.quarter_days@.take(i as int),
            decreases self.quarter_days@.len() - i,
        {
            let ghost before = codes@;
            let code: usize = self.quarter_days[i].index();
            codes.push(code as u8);
            proof {
                assert(codes@.drop_last() =~= before);
                assert(self.quarter_days@.take(i + 1) =~= self.quarter_days@.take(i as int).push(
                    self.quarter_days@[i as int],
                ));
            }
            i += 1;
        }
        proof {
            assert(self.quarter_days@.take(i as int) =~= self.quarter_days@);
        }
        codes
    }

    /// Selects the quarter days by their codes; a code that names none is left
    /// out.
    pub fn set_quarter_days(&mut self, quarter_days: Vec<u8>)
        ensures
            final(self).quarter_days@ == decode_quarter_days(quarter_days@),
            *final(self) == (CalendarOptions {
                quarter_days: final(self).quarter_days,
                ..*old(self)
            }),
    {
        let mut kinds: Vec<SolarEventKind> = Vec::new();
        let mut i: usize = 0;
        while i < quarter_days.len()
            invariant
                i <= quarter_days@.len(),
                kinds@ == decode_quarter_days(quarter_days@.take(i as int)),
            decreases quarter_days@.len() - i,
        {
            proof {
                assert(quarter_days@.take(i + 1).drop_last() =~= quarter_days@.take(i as int));
            }
            match SolarEventKind::from_index(quarter_days[i] as usize) {
                Some(kind) => {
                    kinds.push(kind);
                },
                None => {},
            }
            i += 1;
        }
        proof {
            assert(quarter_days@.take(i as int) =~= quarter_days@);
        }
        self.quarter_days = kinds;
    }

    /// The template of a quarter day's summary.
    pub fn quarter_days_fmt(&self) -> (template: String)
        ensures
            template@ == self.quarter_days_fmt@,
    {
        self.quarter_days_fmt.clone()
    }

    /// Replaces the template of the quarter days and nothing else.
    pub fn set_quarter_days_fmt(&mut self, quarter_days_fmt: String)
        ensures
            *final(self) == (CalendarOptions { quarter_days_fmt, ..*old(self) }),
    {
        self.quarter_days_fmt = quarter_days_fmt;
    }

    /// The codes of the cross-quarter days, in their order.
    pub fn cross_quarter_days(&self) -> (codes: Vec<u8>)
        ensures
            codes@.len() == self.cross_quarter_days@.len(),
            forall|i: int|
                0 <= i < codes@.len() ==> codes@[i] == self.cross_quarter_days@[i].spec_index(),
            decode_cross_quarter_days(codes@) == self.cross_quarter_days@,
    {
        let mut codes: Vec<u8> = Vec::new();
        let mut i: usize = 0;
        while i < self.cross_quarter_days.len()
            invariant
                i <= self.cross_quarter_days@.len(),
                codes@.len() == i,
                forall|j: int|
                    0 <= j < i ==> codes@[j] == self.cross_quarter_days@[j].spec_index(),
                decode_cross_quarter_days(codes@) == self.cross_quarter_days@.take(i as int),
            decreases self.cross_quarter_days@.len() - i,
        {
            let ghost before = codes@;
            let code: usize = self.cross_quarter_days[i].index();
            codes.push(code as u8);
            proof {
                assert(codes@.drop_last() =~= before);
                assert(self.cross_quarter_days@.take(i + 1)
                    =~= self.cross_quarter_days@.take(i as int).push(
                    self.cross_quarter_days@[i as int],
                ));
            }
            i += 1;
        }
        proof {
            assert(self.cross_quarter_days@.take(i as int) =~= self.cross_quarter_days@);
        }
        codes
    }

    /// Selects the cross-quarter days by their codes; a code that names none is
    /// left out.
    pub fn set_cross_quarter_days(&mut self, cross_quarter_days: Vec<u8>)
        ensures
            final(self).cross_quarter_days@ == decode_cross_quarter_days(cross_quarter_days@),
            *final(self) == (CalendarOptions {
                cross_quarter_days: final(self).cross_quarter_days,
                ..*old(self)
            }),
    {
        let mut kinds: Vec<CrossQuarterDays> = Vec::new();
        let mut i: usize = 0;
        while i < cross_quarter_days.len()
            invariant
                i <= cross_quarter_days@.len(),
                kinds@ == decode_cross_quarter_days(cross_quarter_days@.take(i as int)),
            decreases cross_quarter_days@.len() - i,
        {
            proof {
                assert(cross_quarter_days@.take(i + 1).drop_last() =~= cross_quarter_days@.take(
                    i as int,
                ));
            }
            match CrossQuarterDays::from_index(cross_quarter_days[i] as usize) {
                Some(kind) => {
                    kinds.push(kind);
                },
                None => {},
            }
            i += 1;
        }
        proof {
            assert(cross_quarter_days@.take(i as int) =~= cross_quarter_days@);
        }
        self.cross_quarter_days = kinds;
    }

    /// The template of a cross-quarter day's summary.
    pub fn cross_quarter_days_fmt(&self) -> (template: String)
        ensures
            template@ == self.cross_quarter_days_fmt@,
    {
        self.cross_quarter_days_fmt.clone()
    }

    /// Replaces the template of the cross-quarter days and nothing else.
    pub fn set_cross_quarter_days_fmt(&mut self, cross_quarter_days_fmt: String)
        ensures
            *final(self) == (CalendarOptions { cross_quarter_days_fmt, ..*old(self) }),
    {
        self.cross_quarter_days_fmt = cross_quarter_days_fmt;
    }

    /// Tells whether a quarter day is among those to show.
    pub fn shows_quarter_day(&self, kind: SolarEventKind) -> (shown: bool)
        ensures
            shown == self.quarter_days@.contains(kind),
    {
        let mut i: usize = 0;
        while i < self.quarter_days.len()
            invariant
                i <= self.quarter_days@.len(),
                forall|j: int| 0 <= j < i ==> self.quarter_days@[j] != kind,
            decreases self.quarter_days@.len() - i,
        {
            if self.quarter_days[i] == kind {
                return true;
            }
            i += 1;
        }
        false
    }

    /// The custom names, slot by slot.
    pub fn custom_names(&self) -> (names: Vec<Option<String>>)
        ensures
            names@ == self.custom_names@,
    {
        let mut names: Vec<Option<String>> = Vec::new();
        let mut i: usize = 0;
        while i < self.custom_names.len()
            invariant
                i <= self.custom_names@.len(),
                names@ == self.custom_names@.take(i as int),
            decreases self.custom_names@.len() - i,
        {
            let copy: Option<String> = match &self.custom_names[i] {
                Some(text) => Some(text.clone()),
                None => None,
            };
            names.push(copy);
            proof {
                assert(self.custom_names@.take(i + 1) =~= self.custom_names@.take(i as int).push(
                    self.custom_names@[i as int],
                ));
            }
            i += 1;
        }
        proof {
            assert(self.custom_names@.take(i as int) =~= self.custom_names@);
        }
        names
    }

    /// Replaces the custom names. The list may be shorter or longer than eight
    /// slots: a missing slot holds no name, and a slot from 8 on names no day.
    pub fn set_custom_names(&mut self, custom_names: Vec<Option<String>>)
        ensures
            *final(self) == (CalendarOptions { custom_names, ..*old(self) }),
    {
        self.custom_names = custom_names;
    }
}

} // verus!
