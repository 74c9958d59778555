//! Calendars of the quarter days (equinoxes and solstices) and of the
//! cross-quarter days (Imbolc, Beltane, Lammas, Samhain) over a span of years.
//!
//! The selection of days, their order, the name templates and the per-day name
//! overrides live in [`CalendarOptions`]; [`make_events`] turns them into the
//! ordered list of events, [`make_calendar`] makes the iCalendar document of
//! them, and [`make_ics`] returns that document as text.

pub mod almanac;
pub mod events;
pub mod ical;
pub mod kinds;
pub mod laws;
pub mod options;
pub mod template;

pub use almanac::{SolarAlmanac, SolarNames, SolarYear};
pub use events::{make_events, CalendarEvent, EventClass, EventTime};
pub use ical::{make_calendar, make_ics};
pub use kinds::{CrossQuarterDays, SolarEventKind};
pub use options::CalendarOptions;
