//! What is known of the quarter days before a calendar is made: how each is
//! called, and the instants at which they fall, year by year.
//!
//! The instants come from an astronomical source; this module only stores and
//! finds them.

use crate::kinds::SolarEventKind;
use chrono::NaiveDateTime;
use vstd::prelude::*;

verus! {

/// `chrono::NaiveDateTime`, an instant read as UTC. Nothing is known of its
/// parts here: the library stores such values and hands them on.
#[verifier::external_type_specification]
#[verifier::external_body]
pub struct ExNaiveDateTime(chrono::NaiveDateTime);

/// The two names of a quarter day.
#[derive(Debug, Clone, PartialEq, Eq)]
pub struct SolarNames {
    /// The canonical display name.
    pub name: String,
    /// The traditional name.
    pub pagan_name: String,
}

/// The quarter days of one year: for each kind the instant at which it falls,
/// or `None` where the source knows none.
#[derive(Debug, Clone, Copy, PartialEq, Eq)]
pub struct SolarYear {
    pub march_equinox: Option<NaiveDateTime>,
    pub june_solstice: Option<NaiveDateTime>,
    pub september_equinox: Option<NaiveDateTime>,
    pub december_solstice: Option<NaiveDateTime>,
}

/// The names of the four quarter days and their instants over a run of years.
#[derive(Debug, Clone, PartialEq, Eq)]
pub struct SolarAlmanac {
    pub march_equinox: SolarNames,
    pub june_solstice: SolarNames,
    pub september_equinox: SolarNames,
    pub december_solstice: SolarNames,
    /// The year of the first entry of `years`.
    pub first_year: i16,
    /// One entry for each year from `first_year` on, without gaps.
    pub years: Vec<SolarYear>,
}

impl SolarYear {
    /// The instant of a kind in this year.
    pub open spec fn spec_at(&self, kind: SolarEventKind) -> Option<NaiveDateTime> {
        match kind {
            SolarEventKind::MarchEquinox => self.march_equinox,
            SolarEventKind::JuneSolstice => self.june_solstice,
            SolarEventKind::SeptemberEquinox => self.september_equinox,
            SolarEventKind::DecemberSolstice => self.december_solstice,
        }
    }

    /// The instant of a kind in this year.
    pub fn at(&self, kind: SolarEventKind) -> (at: Option<NaiveDateTime>)
        ensures
            at == self.spec_at(kind),
    {
        match kind {
            SolarEventKind::MarchEquinox => self.march_equinox,
            SolarEventKind::JuneSolstice => self.june_solstice,
            SolarEventKind::SeptemberEquinox => self.september_equinox,
            SolarEventKind::DecemberSolstice => self.december_solstice,
        }
    }
}

impl SolarAlmanac {
    /// The names of a kind.
    pub open spec fn spec_names(&self, kind: SolarEventKind) -> SolarNames {
        match kind {
            SolarEventKind::MarchEquinox => self.march_equinox,
            SolarEventKind::JuneSolstice => self.june_solstice,
            SolarEventKind::SeptemberEquinox => self.september_equinox,
            SolarEventKind::DecemberSolstice => self.december_solstice,
        }
    }

    /// The canonical name of a kind.
    pub open spec fn spec_name(&self, kind: SolarEventKind) -> Seq<char> {
        self.spec_names(kind).name@
    }

    /// The traditional name of a kind.
    pub open spec fn spec_pagan_name(&self, kind: SolarEventKind) -> Seq<char> {
        self.spec_names(kind).pagan_name@
    }

    /// The instant of a kind in a year: that of the year's entry, and `None`
    /// for a year without an entry.
    pub open spec fn spec_datetime(&self, kind: SolarEventKind, year: int) -> Option<
        NaiveDateTime,
    > {
        if self.first_year <= year < self.first_year + self.years@.len() {
            self.years@[year - self.first_year].spec_at(kind)
        } else {
            None
        }
    }

    /// The year for which the next entry will stand.
    pub open spec fn spec_next_year(&self) -> int {
        self.first_year + self.years@.len()
    }

    /// An almanac with the given names and no year yet; the first year that is
    /// pushed will be `first_year`.
    pub fn new(
        march_equinox: SolarNames,
        june_solstice: SolarNames,
        september_equinox: SolarNames,
        december_solstice: SolarNames,
        first_year: i16,
    ) -> (almanac: SolarAlmanac)
        ensures
            almanac.march_equinox == march_equinox,
            almanac.june_solstice == june_solstice,
            almanac.september_equinox == september_equinox,
            almanac.december_solstice == december_solstice,
            almanac.first_year == first_year,
            almanac.years@.len() == 0,
    {
        SolarAlmanac {
            march_equinox,
            june_solstice,
            september_equinox,
            december_solstice,
            first_year,
            years: Vec::new(),
        }
    }

    /// Adds the entry of the year that follows those that are there.
    pub fn push_year(&mut self, year: SolarYear)
        ensures
            final(self).years@ == old(self).years@.push(year),
            *final(self) == (SolarAlmanac { years: final(self).years, ..*old(self) }),
    {
        self.years.push(year);
    }

    /// The year whose entry is to be pushed next for the almanac to reach the
    /// year `last`, or `None` where its entries reach that year already.
    pub fn next_year(&self, last: i16) -> (year: Option<i16>)
        ensures
            self.spec_next_year() <= last ==> year == Some(self.spec_next_year() as i16),
            self.spec_next_year() > last ==> year is None,
    {
        let count: usize = self.years.len();
        if count > 65535 {
            return None;
        }
        let next: i32 = self.first_year as i32 + count as i32;
        if next <= last as i32 {
            Some(next as i16)
        } else {
            None
        }
    }

    /// The canonical name of a kind.
    pub fn name(&self, kind: SolarEventKind) -> (text: &str)
        ensures
            text@ == self.spec_name(kind),
    {
        match kind {
            SolarEventKind::MarchEquinox => self.march_equinox.name.as_str(),
            SolarEventKind::JuneSolstice => self.june_solstice.name.as_str(),
            SolarEventKind::SeptemberEquinox => self.september_equinox.name.as_str(),
            SolarEventKind::DecemberSolstice => self.december_solstice.name.as_str(),
        }
    }

    /// The traditional name of a kind.
    pub fn pagan_name(&self, kind: SolarEventKind) -> (text: &str)
        ensures
            text@ == self.spec_pagan_name(kind),
    {
        match kind {
            SolarEventKind::MarchEquinox => self.march_equinox.pagan_name.as_str(),
            SolarEventKind::JuneSolstice => self.june_solstice.pagan_name.as_str(),
            SolarEventKind::SeptemberEquinox => self.september_equinox.pagan_name.as_str(),
            SolarEventKind::DecemberSolstice => self.december_solstice.pagan_name.as_str(),
        }
    }

    /// The instant of a kind in a year, or `None` where none is known.
    pub fn datetime(&self, kind: SolarEventKind, year: i16) -> (at: Option<NaiveDateTime>)
        ensures
            at == self.spec_datetime(kind, year as int),
    {
        if year < self.first_year {
            return None;
        }
        let offset: i32 = year as i32 - self.first_year as i32;
        let index: usize = offset as usize;
        if index < self.years.len() {
            self.years[index].at(kind)
        } else {
            None
        }
    }
}

/// Pushing a year changes nothing of the years that were there, and the
/// pushed entry is found under the year after them.
pub proof fn lemma_pushed_year_found(
    before: SolarAlmanac,
    after: SolarAlmanac,
    pushed: SolarYear,
    kind: SolarEventKind,
    year: int,
)
    requires
        after == (SolarAlmanac { years: after.years, ..before }),
        after.years@ == before.years@.push(pushed),
    ensures
        year != before.first_year + before.years@.len() ==> after.spec_datetime(kind, year)
            == before.spec_datetime(kind, year),
        year == before.first_year + before.years@.len() ==> after.spec_datetime(kind, year)
            == pushed.spec_at(kind),
{
}

/// An almanac that starts with the year `first` and needs no further year to
/// reach the year `last` holds an entry for every year from `first` to `last`:
/// what it answers for such a year is what that year's entry holds.
pub proof fn lemma_filled_almanac_covers(
    almanac: SolarAlmanac,
    first: int,
    last: int,
    kind: SolarEventKind,
    year: int,
)
    requires
        almanac.first_year == first,
        almanac.spec_next_year() > last,
        first <= year <= last,
    ensures
        0 <= year - first < almanac.years@.len(),
        almanac.spec_datetime(kind, year) == almanac.years@[year - first].spec_at(kind),
{
}

} // verus!
