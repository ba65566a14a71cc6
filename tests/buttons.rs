use pscontroller::baton::BatonButtons;
use pscontroller::classic::GamepadButtons;
use pscontroller::guitarhero::GuitarButtons;
use pscontroller::guncon::GunconButtons;
use pscontroller::mouse::MouseButtons;
use pscontroller::negcon::NegconButtons;
use pscontroller::classic::Classic;
use pscontroller::HasStandardButtons;

#[test]
fn gamepad_buttons_are_active_low() {
    let none = GamepadButtons::from_bits(0xffff);
    let all = GamepadButtons::from_bits(0x0000);
    let checks: [(fn(&GamepadButtons) -> bool, u16); 16] = [
        (GamepadButtons::select, 0x0001),
        (GamepadButtons::l3, 0x0002),
        (GamepadButtons::r3, 0x0004),
        (GamepadButtons::start, 0x0008),
        (GamepadButtons::up, 0x0010),
        (GamepadButtons::right, 0x0020),
        (GamepadButtons::down, 0x0040),
        (GamepadButtons::left, 0x0080),
        (GamepadButtons::l2, 0x0100),
        (GamepadButtons::r2, 0x0200),
        (GamepadButtons::l1, 0x0400),
        (GamepadButtons::r1, 0x0800),
        (GamepadButtons::triangle, 0x1000),
        (GamepadButtons::circle, 0x2000),
        (GamepadButtons::cross, 0x4000),
        (GamepadButtons::square, 0x8000),
    ];
    for (pressed, mask) in checks {
        assert!(!pressed(&none));
        assert!(pressed(&all));
        let only = GamepadButtons::from_bits(!mask);
        assert!(pressed(&only));
        for (other, other_mask) in checks {
            if other_mask != mask {
                assert!(!other(&only));
            }
        }
    }
    assert_eq!(none.bits(), 0xffff);
}

#[test]
fn standard_buttons_trait_copies_buttons() {
    let c = Classic { buttons: GamepadButtons::from_bits(0xfffe) };
    assert_eq!(c.buttons().bits(), 0xfffe);
    assert!(c.buttons().select());
}

#[test]
fn negcon_buttons_are_active_low() {
    let checks: [(fn(&NegconButtons) -> bool, u16); 9] = [
        (NegconButtons::select, 0x0001),
        (NegconButtons::start, 0x0008),
        (NegconButtons::up, 0x0010),
        (NegconButtons::right, 0x0020),
        (NegconButtons::down, 0x0040),
        (NegconButtons::left, 0x0080),
        (NegconButtons::r, 0x0800),
        (NegconButtons::b, 0x1000),
        (NegconButtons::a, 0x2000),
    ];
    for (pressed, mask) in checks {
        assert!(!pressed(&NegconButtons::from_bits(0xffff)));
        assert!(pressed(&NegconButtons::from_bits(!mask)));
        assert!(!pressed(&NegconButtons::from_bits(mask)));
    }
    assert_eq!(NegconButtons::from_bits(0x1234).bits(), 0x1234);
}

#[test]
fn guitar_buttons_are_active_low() {
    let checks: [(fn(&GuitarButtons) -> bool, u16); 10] = [
        (GuitarButtons::select, 0x0001),
        (GuitarButtons::start, 0x0008),
        (GuitarButtons::strum_up, 0x0010),
        (GuitarButtons::strum_down, 0x0040),
        (GuitarButtons::fret_green, 0x0200),
        (GuitarButtons::fret_red, 0x2000),
        (GuitarButtons::fret_yellow, 0x1000),
        (GuitarButtons::fret_blue, 0x4000),
        (GuitarButtons::fret_orange, 0x8000),
        (GuitarButtons::star_power, 0x0100),
    ];
    for (pressed, mask) in checks {
        assert!(!pressed(&GuitarButtons::from_bits(0xffff)));
        assert!(pressed(&GuitarButtons::from_bits(!mask)));
        assert!(!pressed(&GuitarButtons::from_bits(mask)));
    }
}

#[test]
fn small_button_sets_are_active_low() {
    assert!(MouseButtons::from_bits(!0x0800).left());
    assert!(!MouseButtons::from_bits(!0x0800).right());
    assert!(MouseButtons::from_bits(!0x0400).right());
    assert!(!MouseButtons::from_bits(!0x0400).left());

    assert!(GunconButtons::from_bits(!0x0008).a());
    assert!(GunconButtons::from_bits(!0x4000).b());
    assert!(GunconButtons::from_bits(!0x2000).trigger());
    assert!(!GunconButtons::from_bits(0xffff).trigger());

    assert!(BatonButtons::from_bits(!0x0008).a());
    assert!(!BatonButtons::from_bits(!0x0008).b());
    assert!(BatonButtons::from_bits(!0x2000).b());
}
