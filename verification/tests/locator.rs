use inotify::EventMask;
use ojd_server::locator::{
    any_device_created, is_device_created, Locator, Signal, Task, WatchEvent, DEVICE_DIR,
    DEVICE_PATH, IN_CREATE,
};

fn notice(name: &str, mask: u32) -> WatchEvent {
    WatchEvent { name: Some(name.as_bytes().to_vec()), mask }
}

#[test]
fn device_path_lies_in_the_device_directory() {
    assert_eq!(DEVICE_DIR, "/dev/input");
    assert_eq!(DEVICE_PATH, "/dev/input/js0");
    assert_eq!(format!("{}/{}", DEVICE_DIR, "js0"), DEVICE_PATH);
}

#[test]
fn creation_mask_is_that_of_inotify() {
    assert_eq!(IN_CREATE, EventMask::CREATE.bits());
    assert_eq!(IN_CREATE, 0x100);
}

#[test]
fn creation_of_the_device_node_is_recognised() {
    assert!(is_device_created(&notice("js0", EventMask::CREATE.bits())));
}

#[test]
fn other_files_are_not_the_device() {
    let create = EventMask::CREATE.bits();
    assert!(!is_device_created(&notice("js1", create)));
    assert!(!is_device_created(&notice("js", create)));
    assert!(!is_device_created(&notice("js00", create)));
    assert!(!is_device_created(&notice("JS0", create)));
    assert!(!is_device_created(&notice("event0", create)));
    assert!(!is_device_created(&notice("", create)));
    assert!(!is_device_created(&WatchEvent { name: None, mask: create }));
}

#[test]
fn other_masks_are_not_a_creation() {
    assert!(!is_device_created(&notice("js0", 0)));
    assert!(!is_device_created(&notice("js0", EventMask::DELETE.bits())));
    assert!(!is_device_created(&notice("js0", EventMask::ATTRIB.bits())));
    assert!(!is_device_created(&notice("js0", (EventMask::CREATE | EventMask::ISDIR).bits())));
    assert!(!is_device_created(&notice("js0", u32::MAX)));
}

#[test]
fn a_batch_is_searched_to_its_end() {
    let create = EventMask::CREATE.bits();
    assert!(!any_device_created(&vec![]));
    assert!(!any_device_created(&vec![notice("event5", create), notice("js0", 0)]));
    assert!(any_device_created(&vec![notice("js0", create)]));
    assert!(any_device_created(&vec![
        notice("event5", create),
        notice("mouse0", create),
        notice("js0", create),
    ]));
    assert!(any_device_created(&vec![notice("js0", create), notice("event5", create)]));
}

#[test]
fn a_device_that_is_there_needs_no_wait() {
    let mut locator = Locator::new();
    assert_eq!(locator.pending(), Task::Probe);
    assert_eq!(locator.step(Signal::Probed { present: true }), Task::Finish);
    assert_eq!(locator, Locator::Found);
}

#[test]
fn an_absent_device_is_waited_for() {
    let create = EventMask::CREATE.bits();
    let mut locator = Locator::new();
    assert_eq!(locator.step(Signal::Probed { present: false }), Task::Subscribe);
    assert_eq!(locator.step(Signal::Subscribed { ok: true }), Task::Read);
    assert_eq!(locator.step(Signal::Notified { events: vec![] }), Task::Read);
    assert_eq!(
        locator.step(Signal::Notified { events: vec![notice("event7", create)] }),
        Task::Read
    );
    assert_eq!(locator, Locator::Watching);
    assert_eq!(
        locator.step(Signal::Notified {
            events: vec![notice("event8", create), notice("js0", create)]
        }),
        Task::Finish
    );
    assert_eq!(locator, Locator::Found);
}

#[test]
fn a_failed_subscription_ends_the_attempt() {
    let mut locator = Locator::new();
    locator.step(Signal::Probed { present: false });
    assert_eq!(locator.step(Signal::Subscribed { ok: false }), Task::GiveUp);
    assert_eq!(locator, Locator::Failed);
}

#[test]
fn a_failed_read_ends_the_attempt() {
    let mut locator = Locator::new();
    locator.step(Signal::Probed { present: false });
    locator.step(Signal::Subscribed { ok: true });
    assert_eq!(locator.step(Signal::ReadFailed), Task::GiveUp);
    assert_eq!(locator, Locator::Failed);
}

#[test]
fn stray_signals_change_nothing() {
    let create = EventMask::CREATE.bits();
    let mut locator = Locator::new();
    assert_eq!(locator.step(Signal::Subscribed { ok: true }), Task::Probe);
    assert_eq!(locator.step(Signal::Notified { events: vec![notice("js0", create)] }), Task::Probe);
    assert_eq!(locator.step(Signal::ReadFailed), Task::Probe);
    assert_eq!(locator, Locator::Probing);
    locator.step(Signal::Probed { present: true });
    assert_eq!(locator.step(Signal::Probed { present: false }), Task::Finish);
    assert_eq!(locator.step(Signal::ReadFailed), Task::Finish);
    assert_eq!(locator, Locator::Found);
}
