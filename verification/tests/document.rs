use chrono::{NaiveDate, NaiveDateTime};
use icalendar::{Calendar, Component};
use quarter_days::{
    make_calendar, CalendarOptions, SolarAlmanac, SolarEventKind, SolarNames, SolarYear,
};

fn solar_names(name: &str, pagan_name: &str) -> SolarNames {
    SolarNames { name: name.to_string(), pagan_name: pagan_name.to_string() }
}

fn moment(year: i32, month: u32, day: u32, hour: u32, minute: u32) -> NaiveDateTime {
    NaiveDate::from_ymd_opt(year, month, day).unwrap().and_hms_opt(hour, minute, 7).unwrap()
}

fn filled_almanac(opts: &CalendarOptions) -> SolarAlmanac {
    let mut almanac = SolarAlmanac::new(
        solar_names("MarchEquinox", "Ostara"),
        solar_names("JuneSolstice", "Litha"),
        solar_names("SeptemberEquinox", "Mabon"),
        solar_names("DecemberSolstice", "Yule"),
        opts.year_start,
    );
    while let Some(year) = almanac.next_year(opts.year_end) {
        let y = i32::from(year);
        almanac.push_year(SolarYear {
            march_equinox: Some(moment(y, 3, 20, 3, 6)),
            june_solstice: Some(moment(y, 6, 20, 20, 51)),
            september_equinox: Some(moment(y, 9, 22, 12, 44)),
            december_solstice: Some(moment(y, 12, 21, 9, 21)),
        });
    }
    almanac
}

fn document(opts: &CalendarOptions) -> Calendar {
    make_calendar(opts, &filled_almanac(opts))
}

fn properties(calendar: &Calendar) -> Vec<(String, String)> {
    calendar
        .properties
        .iter()
        .map(|property| (property.key().to_string(), property.value().to_string()))
        .collect()
}

fn pair(key: &str, value: &str) -> (String, String) {
    (key.to_string(), value.to_string())
}

/// Summary, class, start and end of each entry, in the document's order.
fn entries(calendar: &Calendar) -> Vec<[String; 4]> {
    calendar
        .components
        .iter()
        .map(|component| {
            let event = component.as_event().unwrap();
            assert_eq!(event.properties().len(), 4);
            ["SUMMARY", "CLASS", "DTSTART", "DTEND"]
                .map(|key| event.property_value(key).unwrap().to_string())
        })
        .collect()
}

fn all_day(summary: &str, day: &str) -> [String; 4] {
    [summary.to_string(), "PUBLIC".to_string(), day.to_string(), day.to_string()]
}

fn only_cross_quarter_days(start: i16, end: i16, codes: Vec<u8>) -> CalendarOptions {
    let mut opts = CalendarOptions::new("T", start, end);
    opts.set_quarter_days(vec![]);
    opts.set_cross_quarter_days(codes);
    opts
}

#[test]
fn document_bears_title_and_description() {
    let mut opts = CalendarOptions::new("T", 2024, 2024);
    let untitled = vec![
        pair("VERSION", "2.0"),
        pair("PRODID", "ICALENDAR-RS"),
        pair("CALSCALE", "GREGORIAN"),
    ];
    let mut titled = untitled.clone();
    titled.push(pair("NAME", "T"));
    titled.push(pair("X-WR-CALNAME", "T"));
    assert_eq!(properties(&document(&opts)), titled);
    opts.set_description(Some("Eight days".to_string()));
    titled.push(pair("DESCRIPTION", "Eight days"));
    titled.push(pair("X-WR-CALDESC", "Eight days"));
    assert_eq!(properties(&document(&opts)), titled);
}

#[test]
fn document_of_an_inverted_span_has_no_entry() {
    let opts = CalendarOptions::new("T", 2025, 2024);
    let calendar = document(&opts);
    assert_eq!(calendar.components.len(), 0);
    assert_eq!(properties(&calendar)[3], pair("NAME", "T"));
    assert_eq!(properties(&calendar).len(), 5);
}

#[test]
fn document_of_the_default_cross_quarter_days() {
    let mut opts = CalendarOptions::new("T", 2024, 2024);
    opts.set_quarter_days(vec![]);
    assert_eq!(
        entries(&document(&opts)),
        vec![
            all_day("Beltane", "20240501"),
            all_day("Imbolc", "20240201"),
            all_day("Lammas", "20240801"),
            all_day("Samhain", "20241101"),
        ]
    );
}

#[test]
fn document_of_a_timed_event_starts_and_ends_at_the_instant() {
    let mut opts = CalendarOptions::new("T", 2024, 2024);
    opts.set_quarter_days(vec![0]);
    opts.set_cross_quarter_days(vec![]);
    assert_eq!(
        entries(&document(&opts)),
        vec![[
            "Ostara (MarchEquinox)".to_string(),
            "PUBLIC".to_string(),
            "20240320T030607Z".to_string(),
            "20240320T030607Z".to_string(),
        ]]
    );
}

#[test]
fn document_keeps_name_placeholder_of_cross_quarter_days() {
    let mut opts = only_cross_quarter_days(2024, 2024, vec![0]);
    opts.set_cross_quarter_days_fmt("{name} day".to_string());
    assert_eq!(entries(&document(&opts)), vec![all_day("{name} day", "20240201")]);
}

#[test]
fn document_shows_a_day_twice() {
    let opts = only_cross_quarter_days(2024, 2024, vec![1, 1]);
    assert_eq!(
        entries(&document(&opts)),
        vec![all_day("Beltane", "20240501"), all_day("Beltane", "20240501")]
    );
}

#[test]
fn document_is_year_major() {
    let opts = only_cross_quarter_days(2023, 2024, vec![3, 0]);
    assert_eq!(
        entries(&document(&opts)),
        vec![
            all_day("Samhain", "20231101"),
            all_day("Imbolc", "20230201"),
            all_day("Samhain", "20241101"),
            all_day("Imbolc", "20240201"),
        ]
    );
}

#[test]
fn document_counts_follow_the_span() {
    let mut opts = CalendarOptions::new("T", 2020, 2024);
    assert_eq!(document(&opts).components.len(), 5 * 8);
    opts.set_quarter_days(vec![0, 0, 2]);
    opts.set_cross_quarter_days(vec![1, 3]);
    assert_eq!(document(&opts).components.len(), 5 * 5);
    let mut almanac = filled_almanac(&opts);
    almanac.years[1].march_equinox = None;
    almanac.years[4].september_equinox = None;
    let count = make_calendar(&opts, &almanac).components.len();
    assert_eq!(count, 5 * 5 - 3);
    assert!(5 * 2 <= count && count <= 5 * 5);
}

#[test]
fn document_without_custom_names_uses_built_in_names() {
    let mut opts = only_cross_quarter_days(2024, 2024, vec![2]);
    opts.set_custom_names(vec![]);
    assert_eq!(entries(&document(&opts)), vec![all_day("Lammas", "20240801")]);
}

#[test]
fn document_fills_every_placeholder_once() {
    let mut opts = only_cross_quarter_days(2024, 2024, vec![0]);
    opts.set_cross_quarter_days_fmt("{pagan_name}+{pagan_name}".to_string());
    let mut custom = vec![None; 8];
    custom[4] = Some("<{pagan_name}>".to_string());
    opts.set_custom_names(custom);
    assert_eq!(
        entries(&document(&opts)),
        vec![all_day("<{pagan_name}>+<{pagan_name}>", "20240201")]
    );
}

#[test]
fn document_keeps_placeholder_of_a_custom_name() {
    let mut opts = CalendarOptions::new("T", 2024, 2024);
    opts.set_quarter_days(vec![0]);
    opts.set_cross_quarter_days(vec![]);
    opts.set_custom_names(vec![Some("{name}".to_string())]);
    let found = entries(&document(&opts));
    assert_eq!(found.len(), 1);
    assert_eq!(found[0][0], "{name} (MarchEquinox)");
}

#[test]
fn two_documents_of_equal_options_are_equal() {
    let mut opts = CalendarOptions::new("T", 2023, 2024);
    opts.set_description(Some("d".to_string()));
    let before = opts.clone();
    let first = document(&opts);
    let second = document(&opts);
    assert_eq!(opts, before);
    assert_eq!(properties(&first), properties(&second));
    assert_eq!(entries(&first), entries(&second));
    assert_eq!(first, second);
}

#[test]
fn almanac_asks_for_the_years_of_the_span() {
    let opts = CalendarOptions::new("T", -2, 1);
    let mut almanac = filled_almanac(&CalendarOptions::new("T", -2, -3));
    let mut asked = Vec::new();
    while let Some(year) = almanac.next_year(opts.year_end) {
        asked.push(year);
        almanac.push_year(SolarYear {
            march_equinox: None,
            june_solstice: None,
            september_equinox: None,
            december_solstice: None,
        });
    }
    assert_eq!(asked, vec![-2, -1, 0, 1]);
    assert_eq!(almanac.next_year(1), None);
    assert_eq!(almanac.next_year(2), Some(2));
    assert_eq!(almanac.next_year(i16::MIN), None);
    let full = filled_almanac(&CalendarOptions::new("T", i16::MIN, i16::MAX));
    assert_eq!(full.years.len(), 65536);
    assert_eq!(full.next_year(i16::MAX), None);
}

#[test]
fn options_tell_which_quarter_days_they_show() {
    let mut opts = CalendarOptions::new("T", 2024, 2024);
    assert!(opts.shows_quarter_day(SolarEventKind::DecemberSolstice));
    opts.set_quarter_days(vec![1, 1, 2]);
    assert!(opts.shows_quarter_day(SolarEventKind::JuneSolstice));
    assert!(opts.shows_quarter_day(SolarEventKind::SeptemberEquinox));
    assert!(!opts.shows_quarter_day(SolarEventKind::MarchEquinox));
    assert!(!opts.shows_quarter_day(SolarEventKind::DecemberSolstice));
    opts.set_quarter_days(vec![]);
    assert!(!opts.shows_quarter_day(SolarEventKind::JuneSolstice));
}
