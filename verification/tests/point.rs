use ruty::basics::collision::{Contact, Response};
use ruty::objects::point::Point;

const FREE: Point = Point { fixed: false, massive: true };
const FIXED: Point = Point { fixed: true, massive: true };
const MASSLESS: Point = Point { fixed: false, massive: false };
const NOTHING: Response = Response { impulse_first: false, impulse_second: false, shift_first: false, shift_second: false };

#[test]
fn new_point_is_not_fixed() {
    assert_eq!(Point::new(true), Point { fixed: false, massive: true });
    assert_eq!(Point::new(false), Point { fixed: false, massive: false });
}

#[test]
fn only_a_free_point_with_mass_can_move() {
    assert!(FREE.is_movable());
    assert!(!FIXED.is_movable());
    assert!(!MASSLESS.is_movable());
    assert!(!Point { fixed: true, massive: false }.is_movable());
}

#[test]
fn update_integrates_what_can_move() {
    assert!(FREE.update());
    assert!(!FIXED.update());
    assert!(!MASSLESS.update());
}

#[test]
fn closing_contact_gives_impulse_and_shift_to_both() {
    assert_eq!(
        FREE.resolve_collision(&FREE, Contact::Closing),
        Response { impulse_first: true, impulse_second: true, shift_first: true, shift_second: true }
    );
}

#[test]
fn receding_contact_only_pushes_apart() {
    assert_eq!(
        FREE.resolve_collision(&FREE, Contact::Receding),
        Response { impulse_first: false, impulse_second: false, shift_first: true, shift_second: true }
    );
}

#[test]
fn clear_and_coincident_bodies_are_left_alone() {
    assert_eq!(FREE.resolve_collision(&FREE, Contact::Clear), NOTHING);
    assert_eq!(FREE.resolve_collision(&FREE, Contact::Coincident), NOTHING);
}

#[test]
fn fixed_point_is_spared_on_either_side() {
    for contact in [Contact::Clear, Contact::Coincident, Contact::Receding, Contact::Closing] {
        let left = FIXED.resolve_collision(&FREE, contact);
        assert!(!left.impulse_first && !left.shift_first);
        let right = FREE.resolve_collision(&FIXED, contact);
        assert!(!right.impulse_second && !right.shift_second);
    }
    assert_eq!(
        FIXED.resolve_collision(&FREE, Contact::Closing),
        Response { impulse_first: false, impulse_second: true, shift_first: false, shift_second: true }
    );
}

#[test]
fn two_fixed_points_change_nothing() {
    for contact in [Contact::Clear, Contact::Coincident, Contact::Receding, Contact::Closing] {
        assert_eq!(FIXED.resolve_collision(&FIXED, contact), NOTHING);
    }
}

#[test]
fn massless_point_is_held_like_a_fixed_one() {
    assert_eq!(
        MASSLESS.resolve_collision(&FREE, Contact::Closing),
        Response { impulse_first: false, impulse_second: true, shift_first: false, shift_second: true }
    );
}
