use ojd_server::descriptor::Descriptor;
use ojd_server::gamepad::{Gamepad, RefreshError, MAX_CONTROLS};
use ojd_server::report::{Button, GAMEPAD_INDEX, SCALE, TIMESTAMP};

fn descriptor(axes: u8, buttons: u8, name: &str) -> Descriptor {
    Descriptor { axes, buttons, name: name.to_string() }
}

fn records(values: &[i16]) -> Vec<u8> {
    let mut stream = Vec::new();
    for (number, value) in values.iter().enumerate() {
        stream.extend_from_slice(&(1000 + number as u32).to_le_bytes());
        stream.extend_from_slice(&value.to_le_bytes());
        stream.push(0x81);
        stream.push(number as u8);
    }
    stream
}

#[test]
fn new_gamepad_is_empty_and_disconnected() {
    let gamepad = Gamepad::new();
    assert_eq!(gamepad.name(), "");
    assert!(gamepad.axes().is_empty());
    assert!(gamepad.buttons().is_empty());
    assert!(!gamepad.is_connected());
    assert_eq!(gamepad.records_needed(), 0);
}

#[test]
fn connect_takes_name_and_shape() {
    let mut gamepad = Gamepad::new();
    gamepad.connect(descriptor(2, 4, "Test Pad"));
    assert!(gamepad.is_connected());
    assert_eq!(gamepad.name(), "Test Pad");
    assert_eq!(gamepad.axes(), &vec![0i16; 2]);
    assert_eq!(gamepad.buttons(), &vec![0i16; 4]);
    assert_eq!(gamepad.records_needed(), 6);
}

#[test]
fn connect_takes_the_largest_device() {
    let mut gamepad = Gamepad::new();
    gamepad.connect(descriptor(255, 255, "big"));
    assert_eq!(gamepad.axes().len(), MAX_CONTROLS);
    assert_eq!(gamepad.buttons().len(), MAX_CONTROLS);
    assert_eq!(gamepad.records_needed(), 510);
}

#[test]
fn reconnect_resets_the_shape() {
    let mut gamepad = Gamepad::new();
    gamepad.connect(descriptor(2, 4, "first"));
    assert_eq!(gamepad.update_state(Some(&records(&[1, 2, 3, 4, 5, 6]))), Ok(()));
    gamepad.disconnect();
    assert!(!gamepad.is_connected());
    gamepad.connect(descriptor(6, 1, "second"));
    assert!(gamepad.is_connected());
    assert_eq!(gamepad.name(), "second");
    assert_eq!(gamepad.axes().len(), 6);
    assert_eq!(gamepad.buttons().len(), 1);
    assert_eq!(gamepad.axes(), &vec![5, 6, 0, 0, 0, 0]);
    assert_eq!(gamepad.buttons(), &vec![1]);
    gamepad.connect(descriptor(0, 0, "third"));
    assert!(gamepad.axes().is_empty());
    assert!(gamepad.buttons().is_empty());
}

#[test]
fn refresh_gives_buttons_the_first_records() {
    let mut gamepad = Gamepad::new();
    gamepad.connect(descriptor(2, 4, "Test Pad"));
    let stream = records(&[0, 32767, -32768, 0, 16383, -16384]);
    assert_eq!(gamepad.update_state(Some(&stream)), Ok(()));
    assert_eq!(gamepad.buttons(), &vec![0, 32767, -32768, 0]);
    assert_eq!(gamepad.axes(), &vec![16383, -16384]);
    assert!(gamepad.is_connected());
    assert_eq!(gamepad.name(), "Test Pad");
}

#[test]
fn refresh_without_buttons() {
    let mut gamepad = Gamepad::new();
    gamepad.connect(descriptor(3, 0, "stick"));
    assert_eq!(gamepad.update_state(Some(&records(&[7, -8, 9]))), Ok(()));
    assert!(gamepad.buttons().is_empty());
    assert_eq!(gamepad.axes(), &vec![7, -8, 9]);
}

#[test]
fn refresh_without_axes() {
    let mut gamepad = Gamepad::new();
    gamepad.connect(descriptor(0, 3, "buttons"));
    assert_eq!(gamepad.update_state(Some(&records(&[1, 0, 1]))), Ok(()));
    assert_eq!(gamepad.buttons(), &vec![1, 0, 1]);
    assert!(gamepad.axes().is_empty());
}

#[test]
fn refresh_without_controls_reads_nothing() {
    let mut gamepad = Gamepad::new();
    gamepad.connect(descriptor(0, 0, "bare"));
    assert_eq!(gamepad.update_state(Some(&[])), Ok(()));
    assert!(gamepad.is_connected());
}

#[test]
fn refresh_takes_no_more_than_it_needs() {
    let mut gamepad = Gamepad::new();
    gamepad.connect(descriptor(1, 1, "pad"));
    assert_eq!(gamepad.update_state(Some(&records(&[10, 20, 30, 40]))), Ok(()));
    assert_eq!(gamepad.buttons(), &vec![10]);
    assert_eq!(gamepad.axes(), &vec![20]);
}

#[test]
fn refresh_overwrites_the_last_reading() {
    let mut gamepad = Gamepad::new();
    gamepad.connect(descriptor(1, 2, "pad"));
    assert_eq!(gamepad.update_state(Some(&records(&[1, 2, 3]))), Ok(()));
    assert_eq!(gamepad.update_state(Some(&records(&[-4, -5, -6]))), Ok(()));
    assert_eq!(gamepad.buttons(), &vec![-4, -5]);
    assert_eq!(gamepad.axes(), &vec![-6]);
}

#[test]
fn failed_read_disconnects_and_keeps_readings() {
    let all = [11i16, 22, 33, 44, 55, 66];
    for k in 0..6 {
        let mut gamepad = Gamepad::new();
        gamepad.connect(descriptor(2, 4, "Test Pad"));
        assert_eq!(gamepad.update_state(Some(&records(&all))), Ok(()));
        let partial = records(&[-1, -2, -3, -4, -5, -6][..k]);
        assert_eq!(
            gamepad.update_state(Some(&partial)),
            Err(RefreshError::Lost { record: k })
        );
        assert!(!gamepad.is_connected());
        assert_eq!(gamepad.buttons(), &vec![11, 22, 33, 44]);
        assert_eq!(gamepad.axes(), &vec![55, 66]);
        assert_eq!(gamepad.name(), "Test Pad");
    }
}

#[test]
fn a_record_cut_short_counts_as_missing() {
    let mut gamepad = Gamepad::new();
    gamepad.connect(descriptor(1, 1, "pad"));
    let mut stream = records(&[5, 6]);
    stream.pop();
    assert_eq!(gamepad.update_state(Some(&stream)), Err(RefreshError::Lost { record: 1 }));
    assert!(!gamepad.is_connected());
    assert_eq!(gamepad.buttons(), &vec![0]);
    assert_eq!(gamepad.axes(), &vec![0]);
}

#[test]
fn a_device_that_cannot_be_opened_disconnects() {
    let mut gamepad = Gamepad::new();
    gamepad.connect(descriptor(1, 1, "pad"));
    assert_eq!(gamepad.update_state(Some(&records(&[5, 6]))), Ok(()));
    assert_eq!(gamepad.update_state(None), Err(RefreshError::Unavailable));
    assert!(!gamepad.is_connected());
    assert_eq!(gamepad.buttons(), &vec![5]);
    assert_eq!(gamepad.axes(), &vec![6]);
    let mut bare = Gamepad::new();
    assert_eq!(bare.update_state(None), Err(RefreshError::Unavailable));
    assert!(!bare.is_connected());
}

#[test]
fn refresh_does_not_connect() {
    let mut gamepad = Gamepad::new();
    assert_eq!(gamepad.update_state(Some(&[])), Ok(()));
    assert!(!gamepad.is_connected());
    gamepad.connect(descriptor(1, 0, "pad"));
    gamepad.disconnect();
    assert_eq!(gamepad.update_state(Some(&records(&[9]))), Ok(()));
    assert!(!gamepad.is_connected());
    assert_eq!(gamepad.axes(), &vec![9]);
}

#[test]
fn disconnect_keeps_name_and_readings() {
    let mut gamepad = Gamepad::new();
    gamepad.connect(descriptor(1, 1, "pad"));
    assert_eq!(gamepad.update_state(Some(&records(&[3, 4]))), Ok(()));
    gamepad.disconnect();
    assert!(!gamepad.is_connected());
    assert_eq!(gamepad.name(), "pad");
    assert_eq!(gamepad.buttons(), &vec![3]);
    assert_eq!(gamepad.axes(), &vec![4]);
}

#[test]
fn report_of_a_new_gamepad() {
    let report = Gamepad::new().report();
    assert!(report.axes.is_empty());
    assert!(report.buttons.is_empty());
    assert!(!report.connected);
    assert_eq!(report.id, "");
    assert_eq!(report.index, 0);
    assert_eq!(report.mapping, "");
    assert_eq!(report.timestamp, 0);
}

#[test]
fn report_carries_the_state() {
    let mut gamepad = Gamepad::new();
    gamepad.connect(descriptor(2, 4, "Test Pad"));
    let stream = records(&[0, 32767, -32768, 1, 16383, -16384]);
    assert_eq!(gamepad.update_state(Some(&stream)), Ok(()));
    let report = gamepad.report();
    assert_eq!(report.axes, vec![16383, -16384]);
    assert_eq!(
        report.buttons,
        vec![
            Button { pressed: false, value: 0 },
            Button { pressed: true, value: 32767 },
            Button { pressed: true, value: -32768 },
            Button { pressed: true, value: 1 },
        ]
    );
    assert!(report.connected);
    assert_eq!(report.id, "Test Pad");
    assert_eq!(report.index, GAMEPAD_INDEX);
    assert_eq!(report.mapping, "");
    assert_eq!(report.timestamp, TIMESTAMP);
}

#[test]
fn report_is_the_same_each_time() {
    let mut gamepad = Gamepad::new();
    gamepad.connect(descriptor(1, 2, "pad"));
    assert_eq!(gamepad.update_state(Some(&records(&[0, -7, 300]))), Ok(()));
    let first = gamepad.report();
    let second = gamepad.report();
    assert_eq!(first.axes, second.axes);
    assert_eq!(first.buttons, second.buttons);
    assert_eq!(first.connected, second.connected);
    assert_eq!(first.id, second.id);
}

#[test]
fn button_is_pressed_when_its_value_is_not_zero() {
    assert_eq!(Button::from_value(0), Button { pressed: false, value: 0 });
    assert_eq!(Button::from_value(1), Button { pressed: true, value: 1 });
    assert_eq!(Button::from_value(-1), Button { pressed: true, value: -1 });
    assert_eq!(Button::from_value(i16::MAX), Button { pressed: true, value: i16::MAX });
    assert_eq!(Button::from_value(i16::MIN), Button { pressed: true, value: i16::MIN });
}

#[test]
fn scale_is_the_largest_raw_value() {
    assert_eq!(SCALE, i16::MAX);
    assert_eq!(SCALE, 32767);
}
