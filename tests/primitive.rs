use beamline::decimal::{keep_digits, parse_dimension};
use beamline::elements::{Dimensons, Elements, Measurement, Primitive, Project};
use beamline::state::ProjectPrimitive;

fn form(width: &str, unit: &str) -> ProjectPrimitive {
    let mut p = ProjectPrimitive::new_blank_for_project_creator();
    p.name = String::from("X");
    p.venue = String::from("Y");
    p.path = String::from("/tmp/x.beamline");
    p.width_text = String::from(width);
    p.unit_text = String::from(unit);
    p
}

#[test]
fn blank_form_defaults() {
    let p = ProjectPrimitive::new_blank_for_project_creator();
    assert_eq!(p.name, "");
    assert_eq!(p.venue, "");
    assert_eq!(p.path, "");
    assert_eq!(p.width_text, "20");
    assert_eq!(p.height_text, "20");
    assert_eq!(p.unit_text, "ft");
}

#[test]
fn sanitize_keeps_digit_text() {
    let mut p = form("0123456789", "ft");
    p.sanitize_width();
    assert_eq!(p.width_text, "0123456789");
}

#[test]
fn sanitize_drops_inserted_non_digit() {
    for c in ['a', ' ', '-', '+', 'é', '٣'] {
        let mut p = form("45", "ft");
        p.width_text.insert(1, c);
        p.sanitize_width();
        assert_eq!(p.width_text, "45");
    }
}

#[test]
fn sanitize_is_idempotent() {
    let mut p = form("a1b2-3 ", "ft");
    p.sanitize_width();
    assert_eq!(p.width_text, "123");
    p.sanitize_width();
    assert_eq!(p.width_text, "123");
}

#[test]
fn sanitize_height_leaves_width() {
    let mut p = form("w9", "ft");
    p.height_text = String::from("1x2");
    p.sanitize_height();
    assert_eq!(p.height_text, "12");
    assert_eq!(p.width_text, "w9");
}

#[test]
fn unit_mapping() {
    let feet = form("1", "ft").try_build(None).unwrap();
    assert_eq!(feet.dimensions.measurement, Measurement::Imperial);
    let meters = form("1", "m").try_build(None).unwrap();
    assert_eq!(meters.dimensions.measurement, Measurement::Metric);
    let other = form("1", "yards").try_build(None).unwrap();
    assert_eq!(other.dimensions.measurement, Measurement::Metric);
    let empty = form("1", "").try_build(None).unwrap();
    assert_eq!(empty.dimensions.measurement, Measurement::Metric);
}

#[test]
fn try_build_copies_fields_and_document() {
    let p = form("30", "ft").try_build(Some(String::from("[header]"))).unwrap();
    assert_eq!(p.name, "X");
    assert_eq!(p.venue, "Y");
    assert_eq!(p.path, "/tmp/x.beamline");
    assert_eq!(p.dimensions, Dimensons { width: 30, height: 20, measurement: Measurement::Imperial });
    assert_eq!(p.raw_document, "[header]");
    let q = form("30", "ft").try_build(None).unwrap();
    assert_eq!(q.raw_document, "");
}

#[test]
fn dimension_reading() {
    assert_eq!(parse_dimension("0"), 0);
    assert_eq!(parse_dimension("7"), 7);
    assert_eq!(parse_dimension("007"), 7);
    assert_eq!(parse_dimension("255"), 255);
    assert_eq!(parse_dimension("256"), 0);
    assert_eq!(parse_dimension("99999999999"), 0);
    assert_eq!(parse_dimension("+5"), 5);
    assert_eq!(parse_dimension("+"), 0);
    assert_eq!(parse_dimension(""), 0);
    assert_eq!(parse_dimension("-1"), 0);
    assert_eq!(parse_dimension("1 "), 0);
    assert_eq!(parse_dimension("1a"), 0);
}

#[test]
fn keep_digits_filters() {
    assert_eq!(keep_digits("abc30def"), "30");
    assert_eq!(keep_digits(""), "");
    assert_eq!(keep_digits("xyz"), "");
    assert_eq!(keep_digits("1é2"), "12");
}

#[test]
fn measurement_default_is_imperial() {
    assert_eq!(Measurement::default(), Measurement::Imperial);
    assert_eq!(Measurement::from_unit_text("ft"), Measurement::Imperial);
    assert_eq!(Measurement::from_unit_text("FT"), Measurement::Metric);
}

#[test]
fn stage_project_from_primitive() {
    let pr = Primitive {
        name: String::from("Stage"),
        venue: String::from("Hall"),
        path: String::from("/s"),
        height: String::from("12"),
        width: String::from("x"),
        measurement: String::from("m"),
    };
    let p = Project::from(pr);
    assert_eq!(p.name, "Stage");
    assert_eq!(p.venue, "Hall");
    assert_eq!(p.path, "/s");
    assert_eq!(p.dimensions, Dimensons { width: 0, height: 12, measurement: Measurement::Metric });
    assert_eq!(p.elements, Elements {});
    assert!(!p.dimensions.is_usable());
}
