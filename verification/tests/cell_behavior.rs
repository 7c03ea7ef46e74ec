use table_cell::cell::HTMLTableCellElement;
use table_cell::layout::HTMLTableCellElementLayoutHelpers;
use table_cell::values::{LengthOrPercentageOrAuto, RGBA};

fn new_cell() -> HTMLTableCellElement {
    HTMLTableCellElement::new_inherited(String::from("td"), None)
}

fn rgb(red: u8, green: u8, blue: u8) -> RGBA {
    RGBA { red, green, blue, alpha: 255 }
}

#[test]
fn fresh_cell_defaults() {
    let cell = new_cell();
    assert_eq!(cell.get_colspan(), 1);
    assert_eq!(cell.get_background_color(), None);
    let snapshot = cell.layout_snapshot();
    assert_eq!(snapshot.get_width(), LengthOrPercentageOrAuto::Auto);
    assert_eq!(snapshot.get_colspan(), None);
    assert_eq!(snapshot.get_background_color(), None);
}

#[test]
fn width_mutation_scenario() {
    let mut cell = new_cell();
    cell.set_attribute("width", String::from("50%"));
    assert_eq!(cell.layout_snapshot().get_width(), LengthOrPercentageOrAuto::Percentage(50));
    cell.remove_attribute("width");
    assert_eq!(cell.layout_snapshot().get_width(), LengthOrPercentageOrAuto::Auto);
    cell.set_attribute("width", String::from("10px"));
    assert_eq!(cell.layout_snapshot().get_width(), LengthOrPercentageOrAuto::Length(10));
}

#[test]
fn width_mutations_ending_in_removal_reset_cache() {
    let mut cell = new_cell();
    cell.set_attribute("width", String::from("120"));
    cell.set_attribute("width", String::from("75%"));
    cell.set_attribute("width", String::from("bogus"));
    cell.set_attribute("width", String::from("33"));
    cell.remove_attribute("width");
    assert_eq!(cell.layout_snapshot().get_width(), LengthOrPercentageOrAuto::Auto);
}

#[test]
fn invalid_width_parses_to_auto() {
    let mut cell = new_cell();
    cell.set_attribute("width", String::from("wide"));
    assert_eq!(cell.layout_snapshot().get_width(), LengthOrPercentageOrAuto::Auto);
}

#[test]
fn bgcolor_scenario() {
    let mut cell = new_cell();
    cell.set_attribute("bgcolor", String::from("#ff0000"));
    assert_eq!(cell.get_background_color(), Some(rgb(255, 0, 0)));
    cell.set_attribute("bgcolor", String::from("notacolor"));
    assert_eq!(cell.get_background_color(), None);
}

#[test]
fn bgcolor_removal_leaves_no_stale_color() {
    let mut cell = new_cell();
    cell.set_background_color(String::from("lime"));
    assert_eq!(cell.get_background_color(), Some(rgb(0, 255, 0)));
    let first_read = cell.layout_snapshot().get_background_color();
    assert_eq!(first_read, Some(rgb(0, 255, 0)));
    cell.remove_attribute("bgcolor");
    assert_eq!(cell.get_background_color(), None);
    assert_eq!(cell.layout_snapshot().get_background_color(), None);
}

#[test]
fn colspan_defaults_on_invalid_text() {
    let mut cell = new_cell();
    cell.set_attribute("colspan", String::from("three"));
    assert_eq!(cell.get_colspan(), 1);
    cell.set_attribute("colspan", String::from("-2"));
    assert_eq!(cell.get_colspan(), 1);
    cell.set_attribute("colspan", String::from(""));
    assert_eq!(cell.get_colspan(), 1);
}

#[test]
fn colspan_round_trip() {
    let mut cell = new_cell();
    cell.set_colspan(4);
    assert_eq!(cell.get_colspan(), 4);
    assert_eq!(cell.layout_snapshot().get_colspan(), Some(4));
    cell.set_attribute("colspan", String::from(" 12 trailing"));
    assert_eq!(cell.get_colspan(), 12);
}

#[test]
fn colspan_set_twice_is_idempotent() {
    let mut cell = new_cell();
    cell.set_colspan(9);
    let read = cell.get_colspan();
    cell.set_colspan(read);
    cell.set_colspan(read);
    assert_eq!(cell.get_colspan(), read);
}

#[test]
fn colspan_canonical_text() {
    let mut cell = new_cell();
    cell.set_colspan(37);
    let stored = cell.htmlelement().get_attribute("colspan").unwrap();
    assert_eq!(stored.as_text(), "37");
    assert_eq!(stored.as_uint(), Some(37));
}

#[test]
fn other_attributes_leave_width_cache_alone() {
    let mut cell = new_cell();
    cell.set_attribute("width", String::from("64"));
    cell.set_attribute("title", String::from("a caption"));
    cell.set_colspan(2);
    cell.set_background_color(String::from("#123456"));
    assert_eq!(cell.layout_snapshot().get_width(), LengthOrPercentageOrAuto::Length(64));
    let title = cell.htmlelement().get_attribute("title").unwrap();
    assert_eq!(title.as_text(), "a caption");
    assert_eq!(title.as_uint(), None);
    assert_eq!(title.as_color(), None);
}

#[test]
fn removal_of_absent_attribute_is_harmless() {
    let mut cell = new_cell();
    cell.remove_attribute("bgcolor");
    assert_eq!(cell.get_background_color(), None);
    assert_eq!(cell.get_colspan(), 1);
}
