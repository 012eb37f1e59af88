use donldr::track::superscript;
use donldr::track::Status;

#[test]
fn empty_plan_is_immediately_complete() {
    let s = Status::new(0);
    assert!(s.check());
    assert!(s.check_len());
}

#[test]
fn completion_requires_every_index() {
    let mut s = Status::new(3);
    assert!(!s.check());
    s.push(0);
    s.push(2);
    assert!(!s.check());
    s.push(1);
    assert!(s.check());
}

#[test]
fn duplicate_marks_do_not_double_count() {
    let mut s = Status::new(2);
    s.push(0);
    s.push(0);
    assert!(!s.check_len());
    assert!(!s.check());
    s.push(1);
    assert!(s.check());
}

#[test]
fn contains_reports_marked_indices() {
    let mut s = Status::new(4);
    s.push(2);
    assert!(s.contains(2));
    assert!(!s.contains(0));
    assert!(!s.contains(3));
}

#[test]
fn render_shows_marks_in_index_order() {
    let mut s = Status::new(3);
    assert_eq!(s.render(), "[x⁰|x¹|x²]");
    s.push(0);
    s.push(2);
    assert_eq!(s.render(), "[✓⁰|x¹|✓²]");
    s.push(1);
    assert_eq!(s.render(), "[✓⁰|✓¹|✓²]");
    assert_eq!(Status::new(0).render(), "[]");
    let mut eleven = Status::new(11);
    eleven.push(10);
    assert!(eleven.render().ends_with("✓¹⁰]"));
}

#[test]
fn superscript_of_zero() {
    assert_eq!(superscript(0), "⁰");
}

#[test]
fn superscript_of_larger_numbers() {
    assert_eq!(superscript(9), "⁹");
    assert_eq!(superscript(10), "¹⁰");
    assert_eq!(superscript(123), "¹²³");
    assert_eq!(superscript(305), "³⁰⁵");
    assert_eq!(superscript(48657), "⁴⁸⁶⁵⁷");
}
