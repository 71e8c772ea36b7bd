use rust_basics::rectangle::{area, Field, FieldReply, Rectangle, RectangleBuilder};

fn lines(items: &[&str]) -> Vec<String> {
    items.iter().map(|s| s.to_string()).collect()
}

#[test]
fn new_keeps_sides() {
    let r = Rectangle::new(30, 50);
    assert_eq!(r.width, 30);
    assert_eq!(r.height, 50);
}

#[test]
fn area_is_product() {
    let r = Rectangle::new(30, 50);
    assert_eq!(r.area(), 1500);
    assert_eq!(area(&r), 1500);
    assert_eq!(Rectangle::new(0, 7).area(), 0);
}

#[test]
fn area_at_the_u32_boundary() {
    let r = Rectangle::new(65535, 65537);
    assert_eq!(r.area(), u32::MAX);
    assert_eq!(area(&r), u32::MAX);
    assert_eq!(r.checked_area(), Some(u32::MAX));
}

#[test]
fn checked_area_reports_overflow() {
    assert_eq!(Rectangle::new(65536, 65536).checked_area(), None);
    assert_eq!(Rectangle::new(u32::MAX, 2).checked_area(), None);
    assert_eq!(Rectangle::new(6, 7).checked_area(), Some(42));
}

#[test]
fn builder_retries_once_then_accepts() {
    let mut b = RectangleBuilder::start();
    assert_eq!(b.next_field(), Some(Field::Width));
    assert_eq!(b.feed("abc\n"), FieldReply::Retry);
    assert_eq!(b.next_field(), Some(Field::Width));
    assert_eq!(b.feed("5\n"), FieldReply::Accepted(5));
    assert_eq!(b.width, Some(5));
    assert_eq!(b.next_field(), Some(Field::Height));
}

#[test]
fn builder_fills_width_then_height() {
    let mut b = RectangleBuilder::start();
    assert_eq!(b.finish(), None);
    assert_eq!(b.feed("3\n"), FieldReply::Accepted(3));
    assert_eq!(b.finish(), None);
    assert_eq!(b.feed("x\n"), FieldReply::Retry);
    assert_eq!(b.feed("4\n"), FieldReply::Accepted(4));
    assert_eq!(b.next_field(), None);
    assert_eq!(b.finish(), Some(Rectangle::new(3, 4)));
}

#[test]
fn build_skips_lines_that_are_not_numbers() {
    let r = Rectangle::build(&lines(&["abc\n", "5\n", "-2\n", "7\n", "9\n"]));
    assert_eq!(r, Some(Rectangle::new(5, 7)));
}

#[test]
fn build_needs_two_numbers() {
    assert_eq!(Rectangle::build(&lines(&[])), None);
    assert_eq!(Rectangle::build(&lines(&["abc\n", "5\n"])), None);
}
