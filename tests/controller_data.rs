use pscontroller::{ControllerData, MESSAGE_MAX_LENGTH};

#[test]
fn union_test() {
    // Buttons are active low, hence 'fe' and '7f'
    let mut data = [0u8; MESSAGE_MAX_LENGTH];
    data[0] = 0xfe;
    data[1] = 0x7f;
    data[2] = 0x00;
    data[3] = 0x00;
    data[4] = 0x00;
    data[5] = 0xff;
    let controller = ControllerData { data };

    assert!(controller.ds().buttons.select() == true);
    assert!(controller.ds().buttons.square() == true);
    assert!(controller.ds().lx == 0);
    assert!(controller.ds().ly == 255);
}

#[test]
fn fixture_standard_buttons_family() {
    let mut data = [0u8; MESSAGE_MAX_LENGTH];
    data[..6].copy_from_slice(&[0xfe, 0x7f, 0x00, 0x00, 0x00, 0xff]);
    let controller = ControllerData { data };
    let ds = controller.ds();
    assert!(ds.buttons.select());
    assert!(ds.buttons.square());
    assert!(!ds.buttons.start());
    assert!(!ds.buttons.cross());
    assert_eq!(ds.buttons.bits(), 0x7ffe);
    assert_eq!(ds.rx, 0);
    assert_eq!(ds.ry, 0);
    assert_eq!(ds.lx, 0);
    assert_eq!(ds.ly, 255);
    let classic = controller.classic();
    assert!(classic.buttons.select());
    assert!(classic.buttons.square());
}

#[test]
fn every_family_reads_its_layout() {
    let mut data = [0u8; MESSAGE_MAX_LENGTH];
    let bytes = [
        0xf7, 0xdf, 0x10, 0x20, 0x30, 0x40, 1, 2, 3, 4, 5, 6, 7, 8,
    ];
    data[..14].copy_from_slice(&bytes);
    let c = ControllerData { data };

    let ds2 = c.ds2();
    assert_eq!(ds2.buttons.bits(), 0xdff7);
    assert_eq!((ds2.rx, ds2.ry, ds2.lx, ds2.ly), (0x10, 0x20, 0x30, 0x40));
    assert_eq!(ds2.pressures, [1, 2, 3, 4, 5, 6, 7, 8]);

    let nc = c.nc();
    assert_eq!(nc.buttons.bits(), 0xdff7);
    assert!(nc.buttons.start());
    assert!(nc.buttons.a());
    assert!(!nc.buttons.b());
    assert_eq!(
        (nc.twist, nc.switchi, nc.switchii, nc.switchl),
        (0x10, 0x20, 0x30, 0x40)
    );

    let b = c.b();
    assert!(b.buttons.a());
    assert!(b.buttons.b());
    assert_eq!((b.z, b.x, b.y, b.a), (0x10, 0x20, 0x30, 0x40));

    let gh = c.gh();
    assert_eq!(gh.whammy, 0x40);
    assert!(gh.buttons().start());
    assert!(gh.buttons().fret_red());
    assert!(!gh.buttons().fret_green());

    let gc = c.gc();
    assert!(gc.buttons.a());
    assert!(gc.buttons.trigger());
    assert!(!gc.buttons.b());
    assert_eq!(gc.x(), 0x2010);
    assert_eq!(gc.y(), 0x4030);

    let jc = c.jc();
    assert!(jc.buttons.start());
    assert_eq!(jc.jog_position(), 0x2010);
    assert_eq!(jc.jog_state, 0x30);
}

#[test]
fn mouse_movement_is_signed() {
    let mut data = [0u8; MESSAGE_MAX_LENGTH];
    data[..4].copy_from_slice(&[0xff, 0xf3, 0xfe, 0x05]);
    let m = ControllerData { data }.pm();
    assert!(m.buttons.left());
    assert!(m.buttons.right());
    assert_eq!(m.y, -2);
    assert_eq!(m.x, 5);

    data[..4].copy_from_slice(&[0xff, 0xff, 0x80, 0x7f]);
    let m = ControllerData { data }.pm();
    assert!(!m.buttons.left());
    assert!(!m.buttons.right());
    assert_eq!(m.y, -128);
    assert_eq!(m.x, 127);
}

#[test]
fn wheel_position_is_signed_little_endian() {
    let mut data = [0u8; MESSAGE_MAX_LENGTH];
    data[..5].copy_from_slice(&[0xff, 0xff, 0xff, 0xff, 0x01]);
    assert_eq!(ControllerData { data }.jc().jog_position(), -1);
    data[..5].copy_from_slice(&[0xff, 0xff, 0x00, 0x80, 0x01]);
    assert_eq!(ControllerData { data }.jc().jog_position(), -32768);
    data[..5].copy_from_slice(&[0xff, 0xff, 0x34, 0x12, 0x01]);
    assert_eq!(ControllerData { data }.jc().jog_position(), 0x1234);
}

#[test]
fn gun_coordinates_are_little_endian() {
    let mut data = [0u8; MESSAGE_MAX_LENGTH];
    data[..6].copy_from_slice(&[0xff, 0xff, 0x34, 0x12, 0xcd, 0xab]);
    let gc = ControllerData { data }.gc();
    assert_eq!(gc.x(), 0x1234);
    assert_eq!(gc.y(), 0xabcd);
    assert!(!gc.buttons.a());
    assert!(!gc.buttons.b());
    assert!(!gc.buttons.trigger());
}
