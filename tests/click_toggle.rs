use theclicker::ClickToggle;

#[test]
fn can_toggle_left() {
    let mut subject = ClickToggle::default();
    assert_eq!(ClickToggle::Neither, subject, "starts false");
    subject = subject.toggle_left();
    assert_eq!(ClickToggle::Left, subject, "toggles fore");
    subject = subject.toggle_left();
    assert_eq!(ClickToggle::Neither, subject, "and back");
}

#[test]
fn can_toggle_right() {
    let mut subject = ClickToggle::default();
    assert_eq!(ClickToggle::Neither, subject, "starts false");
    subject = subject.toggle_right();
    assert_eq!(ClickToggle::Right, subject, "toggles fore");
    subject = subject.toggle_right();
    assert_eq!(ClickToggle::Neither, subject, "starts false");
}

#[test]
fn can_toggle_correctly_both() {
    assert_eq!(ClickToggle::Both, ClickToggle::Right.toggle_left(),);
    assert_eq!(ClickToggle::Both, ClickToggle::Left.toggle_right(),);
    assert_eq!(ClickToggle::Right, ClickToggle::Both.toggle_left(),);
    assert_eq!(ClickToggle::Left, ClickToggle::Both.toggle_right(),);
}

#[test]
fn both_is_left() {
    assert!(!ClickToggle::Both.not_left());
}

#[test]
fn both_is_right() {
    assert!(!ClickToggle::Both.not_right());
}

#[test]
fn neither_is_not_left() {
    assert!(ClickToggle::Neither.not_left());
}

#[test]
fn neither_is_not_right() {
    assert!(ClickToggle::Neither.not_right());
}

#[test]
fn right_is_not_left() {
    assert!(ClickToggle::Right.not_left());
}

#[test]
fn left_is_not_right() {
    assert!(ClickToggle::Left.not_right());
}

#[test]
fn set_lefts_will_change() {
    assert_eq!(ClickToggle::Left, ClickToggle::Neither.set_left(true));
    assert_eq!(ClickToggle::Both, ClickToggle::Right.set_left(true));
    assert_eq!(ClickToggle::Neither, ClickToggle::Left.set_left(false));
    assert_eq!(ClickToggle::Right, ClickToggle::Both.set_left(false));
}

#[test]
fn set_lefts_will_remain() {
    assert_eq!(ClickToggle::Neither, ClickToggle::Neither.set_left(false));
    assert_eq!(ClickToggle::Right, ClickToggle::Right.set_left(false));
    assert_eq!(ClickToggle::Both, ClickToggle::Both.set_left(true));
    assert_eq!(ClickToggle::Left, ClickToggle::Left.set_left(true));
}

#[test]
fn set_rights_will_change() {
    assert_eq!(ClickToggle::Right, ClickToggle::Neither.set_right(true));
    assert_eq!(ClickToggle::Both, ClickToggle::Left.set_right(true));
    assert_eq!(ClickToggle::Neither, ClickToggle::Right.set_right(false));
    assert_eq!(ClickToggle::Left, ClickToggle::Both.set_right(false));
}

#[test]
fn set_rights_will_remain() {
    assert_eq!(ClickToggle::Neither, ClickToggle::Neither.set_right(false));
    assert_eq!(ClickToggle::Left, ClickToggle::Left.set_right(false));
    assert_eq!(ClickToggle::Both, ClickToggle::Both.set_right(true));
    assert_eq!(ClickToggle::Right, ClickToggle::Right.set_right(true));
}

#[test]
fn left_is_left() {
    let toggle: ClickToggle = ClickToggle::Left;
    assert_eq!("left", &toggle.render());
}

#[test]
fn right_is_right() {
    let toggle: ClickToggle = ClickToggle::Right;
    assert_eq!("right", &toggle.render());
}

#[test]
fn both_are_comma_separated() {
    let toggle: ClickToggle = ClickToggle::Both;
    assert_eq!("left, right", &toggle.render());
}

#[test]
fn none_is_blank() {
    let toggle: ClickToggle = ClickToggle::Neither;
    assert_eq!("", &toggle.render());
}

const ALL: [ClickToggle; 4] = [
    ClickToggle::Left,
    ClickToggle::Right,
    ClickToggle::Both,
    ClickToggle::Neither,
];

#[test]
fn toggling_twice_is_identity() {
    for s in ALL {
        assert_eq!(s, s.toggle_left().toggle_left());
        assert_eq!(s, s.toggle_right().toggle_right());
    }
}

#[test]
fn released_iff_bit_clear() {
    for s in ALL {
        let left_set = s == ClickToggle::Left || s == ClickToggle::Both;
        let right_set = s == ClickToggle::Right || s == ClickToggle::Both;
        assert_eq!(!left_set, s.not_left());
        assert_eq!(!right_set, s.not_right());
    }
}

#[test]
fn set_left_true_twice_is_once() {
    for s in ALL {
        assert_eq!(s.set_left(true), s.set_left(true).set_left(true));
        assert_eq!(s.set_right(false), s.set_right(false).set_right(false));
    }
}

#[test]
fn set_examples() {
    assert_eq!(ClickToggle::Both, ClickToggle::Right.set_left(true));
    assert_eq!(ClickToggle::Neither, ClickToggle::Left.set_left(false));
    assert_eq!(ClickToggle::Left, ClickToggle::Both.set_right(false));
}
