use quarter_days::template::render_template;

#[test]
fn both_placeholders_are_filled() {
    assert_eq!(
        render_template("{pagan_name} ({name})", Some("MarchEquinox"), "Ostara"),
        "Ostara (MarchEquinox)"
    );
}

#[test]
fn every_occurrence_is_filled() {
    assert_eq!(
        render_template("{name}{name}-{pagan_name}/{pagan_name}", Some("N"), "P"),
        "NN-P/P"
    );
}

#[test]
fn template_without_placeholder_is_unchanged() {
    assert_eq!(render_template("Quarter day", Some("N"), "P"), "Quarter day");
    assert_eq!(render_template("", Some("N"), "P"), "");
}

#[test]
fn malformed_braces_are_literal() {
    assert_eq!(render_template("{name", Some("N"), "P"), "{name");
    assert_eq!(render_template("name}", Some("N"), "P"), "name}");
    assert_eq!(render_template("{pagan_name", Some("N"), "P"), "{pagan_name");
    assert_eq!(render_template("{other} {{name}}", Some("N"), "P"), "{other} {N}");
    assert_eq!(render_template("{Name} {pagan name}", Some("N"), "P"), "{Name} {pagan name}");
}

#[test]
fn inserted_names_are_not_scanned_again() {
    assert_eq!(
        render_template("{name} / {pagan_name}", Some("{pagan_name}"), "{name}"),
        "{pagan_name} / {name}"
    );
    assert_eq!(render_template("{pagan_name}", Some("N"), "{pagan_name}"), "{pagan_name}");
}

#[test]
fn name_is_literal_where_none_is_given() {
    assert_eq!(render_template("{pagan_name} ({name})", None, "Beltane"), "Beltane ({name})");
}

#[test]
fn names_may_be_empty_or_beyond_ascii() {
    assert_eq!(render_template("[{pagan_name}]", Some("N"), ""), "[]");
    assert_eq!(render_template("é{name}ü", Some("Ñandú"), "P"), "éÑandúü");
}
