use pscontroller::codec::flip;
use pscontroller::dualshock::ControlDS;
use pscontroller::jogcon::{ControlJC, JogControl};
use pscontroller::{classify_and_decode, Device, MultitapPort, PlayStationPort, PollCommand};

/// A bus that hands back whatever it was given.
fn echo(wire: &mut [u8; 32]) {
    let _ = wire;
}

/// A bus that answers every exchange with `fixture`, given in wire order.
fn answer(wire: &mut [u8; 32], fixture: &[u8; 32]) {
    wire.copy_from_slice(fixture);
}

fn host_order(wire: &[u8; 32]) -> [u8; 32] {
    let mut frame = *wire;
    flip(&mut frame);
    frame
}

#[test]
fn codec_reverses_each_byte() {
    let mut buf = [0xa0u8, 0x01, 0x80, 0xff, 0x00, 0x42];
    flip(&mut buf);
    assert_eq!(buf, [0x05, 0x80, 0x01, 0xff, 0x00, 0x42]);
    let mut empty: [u8; 0] = [];
    flip(&mut empty);
    assert_eq!(empty, []);
}

#[test]
fn codec_twice_gives_the_buffer_back() {
    let before: Vec<u8> = (0..=255u8).collect();
    let mut buf = before.clone();
    flip(&mut buf);
    assert_ne!(buf, before);
    flip(&mut buf);
    assert_eq!(buf, before);
}

#[test]
fn echoed_frame_reads_back_addressed() {
    let mut port = PlayStationPort::new();
    port.set_multitap_port(MultitapPort::B);
    let command = [0x00, 0x43, 0x00, 0x01, 0x00];
    let mut wire = port.send_command(&command);
    assert_eq!(wire[0], 0x40);
    assert_eq!(wire[1], 0xc2);
    echo(&mut wire);
    let frame = host_order(&wire);
    let mut expected = [0u8; 32];
    expected[..5].copy_from_slice(&command);
    expected[0] = 0x02;
    assert_eq!(frame, expected);
}

#[test]
fn fixture_response_is_bit_reversed_and_decoded() {
    let port = PlayStationPort::new();
    let mut response = [0u8; 32];
    response[..9].copy_from_slice(&[0xff, 0x73, 0x5a, 0xfe, 0x7f, 0x00, 0x00, 0x00, 0xff]);
    let mut fixture = response;
    flip(&mut fixture);

    let mut wire = port.read_port::<ControlDS>(None);
    answer(&mut wire, &fixture);
    assert_eq!(host_order(&wire), response);
    let raw = PlayStationPort::read_raw(&wire);
    assert_eq!(&raw.data[..6], &[0xfe, 0x7f, 0x00, 0x00, 0x00, 0xff]);
    assert_eq!(&raw.data[29..], &[0, 0, 0]);
    match PlayStationPort::read_input(&wire) {
        Device::DualShock(ds) => {
            assert!(ds.buttons.select());
            assert!(ds.buttons.square());
            assert_eq!(ds.rx, 0);
            assert_eq!(ds.ly, 255);
        }
        other => panic!("expected a DualShock, got {:?}", other),
    }
}

#[test]
fn each_port_addresses_every_frame() {
    let ports = [
        (MultitapPort::A, 0x01u8),
        (MultitapPort::B, 0x02),
        (MultitapPort::C, 0x03),
        (MultitapPort::D, 0x04),
    ];
    for (p, address) in ports {
        let mut port = PlayStationPort::new();
        port.set_multitap_port(p);
        assert_eq!(port.address(), address);
        assert_eq!(port.multitap_port(), p);
        let frames = [
            port.send_command(&[0x00, 0x42, 0x00]),
            port.send_command(&[]),
            port.read_port::<ControlDS>(None),
            port.read_port(Some(&ControlDS::new(true, 0x80))),
        ];
        for wire in frames.iter() {
            assert_eq!(host_order(wire)[0], address);
        }
        for mut sequence in [port.enable_pressure(), port.enable_jogcon(), port.read_config()] {
            while let Some(wire) = sequence.next_frame() {
                assert_eq!(host_order(&wire)[0], address);
                sequence.record::<()>(Ok(wire)).unwrap();
            }
        }
    }
    assert_eq!(MultitapPort::M.address(), 0x61);
    assert_eq!(MultitapPort::X.address(), 0xff);
}

#[test]
fn new_port_addresses_port_a() {
    let port = PlayStationPort::new();
    assert_eq!(port.multitap_port(), MultitapPort::A);
    assert_eq!(host_order(&port.send_command(&[0x00, 0x42, 0x00]))[0], 0x01);
}

#[test]
fn command_frames_are_zero_padded() {
    let port = PlayStationPort::new();
    let frame = host_order(&port.send_command(&[0x00, 0x4d, 0x00, 0x00, 0x01, 0xff, 0xff, 0xff, 0xff]));
    assert_eq!(&frame[..9], &[0x01, 0x4d, 0x00, 0x00, 0x01, 0xff, 0xff, 0xff, 0xff]);
    assert!(frame[9..].iter().all(|b| *b == 0));
}

#[test]
fn poll_carries_motor_settings() {
    let port = PlayStationPort::new();
    let plain = host_order(&port.read_port::<ControlDS>(None));
    assert_eq!(&plain[..5], &[0x01, 0x42, 0x00, 0x00, 0x00]);

    let rumble = ControlDS::new(true, 0x80);
    assert!(rumble.little);
    assert_eq!(rumble.big, 0x80);
    let frame = host_order(&port.read_port(Some(&rumble)));
    assert_eq!(&frame[..6], &[0x01, 0x42, 0x00, 0xff, 0x80, 0x00]);

    let quiet = host_order(&port.read_port(Some(&ControlDS::new(false, 0x10))));
    assert_eq!(&quiet[..6], &[0x01, 0x42, 0x00, 0x00, 0x10, 0x00]);
}

#[test]
fn poll_carries_wheel_settings() {
    let port = PlayStationPort::new();
    let modes = [
        (JogControl::Stop, 0x00u8),
        (JogControl::Hold, 0x30),
        (JogControl::Left, 0x20),
        (JogControl::Right, 0x10),
        (JogControl::DropRevolutions, 0x80),
        (JogControl::DropAndHold, 0xb0),
        (JogControl::NewHold, 0xc0),
    ];
    for (mode, code) in modes {
        assert_eq!(mode.code(), code);
        let control = ControlJC::new(mode, 0xf7);
        assert_eq!(control.strength, 0xf7);
        let frame = host_order(&port.read_port(Some(&control)));
        assert_eq!(&frame[..5], &[0x01, 0x42, 0x00, code | 0x07, 0x00]);
    }
}

#[test]
fn set_command_leaves_the_rest() {
    let mut area = [0xaau8; 4];
    ControlJC::new(JogControl::Left, 0x05).set_command(&mut area);
    assert_eq!(area, [0x25, 0xaa, 0xaa, 0xaa]);
    ControlDS::new(false, 0x33).set_command(&mut area);
    assert_eq!(area, [0x00, 0x33, 0xaa, 0xaa]);
}

#[test]
fn classification_covers_every_id() {
    let known: [(u8, &str); 11] = [
        (0xff, "NotPresent"),
        (0xf3, "ConfigurationMode"),
        (0x12, "Mouse"),
        (0xc1, "Classic"),
        (0x41, "Classic"),
        (0x53, "AnalogJoystick"),
        (0x73, "DualShock"),
        (0x79, "DualShock2"),
        (0xe3, "JogCon"),
        (0x23, "NegCon"),
        (0x63, "GunCon"),
    ];
    for id in 0..=255u8 {
        let mut frame = [0u8; 32];
        frame[1] = id;
        let device = classify_and_decode(&frame);
        let name = format!("{:?}", device);
        let variant = name.split('(').next().unwrap().to_string();
        match known.iter().find(|(k, _)| *k == id) {
            Some((_, expected)) => assert_eq!(variant, *expected),
            None => assert_eq!(variant, "Unknown"),
        }
    }
}

#[test]
fn decoding_twice_gives_the_same_record() {
    let mut frame = [0u8; 32];
    frame[..10].copy_from_slice(&[0x01, 0x79, 0x5a, 0x12, 0x34, 0x56, 0x78, 0x9a, 0xbc, 0xde]);
    let copy = frame;
    let first = classify_and_decode(&frame);
    let second = classify_and_decode(&frame);
    assert_eq!(format!("{:?}", first), format!("{:?}", second));
    assert_eq!(frame, copy);
    match first {
        Device::DualShock2(ds2) => {
            assert_eq!(ds2.buttons.bits(), 0x3412);
            assert_eq!(ds2.rx, 0x56);
            assert_eq!(ds2.ly, 0xbc);
            assert_eq!(ds2.pressures[0], 0xde);
        }
        other => panic!("expected a DualShock 2, got {:?}", other),
    }
}

#[test]
fn payload_drops_the_header_and_pads() {
    let mut frame = [0u8; 32];
    for (i, b) in frame.iter_mut().enumerate() {
        *b = i as u8 + 1;
    }
    frame[1] = 0xc1;
    let mut wire = frame;
    flip(&mut wire);
    let raw = PlayStationPort::read_raw(&wire);
    for i in 0..29 {
        assert_eq!(raw.data[i], i as u8 + 4);
    }
    assert_eq!(&raw.data[29..], &[0, 0, 0]);
    match PlayStationPort::read_input(&wire) {
        Device::Classic(c) => assert_eq!(c.buttons.bits(), 0x0504),
        other => panic!("expected a classic controller, got {:?}", other),
    }
}

#[test]
fn missing_controller_is_not_present() {
    let fixture = [0xffu8; 32];
    assert!(matches!(PlayStationPort::read_input(&fixture), Device::NotPresent));
}
