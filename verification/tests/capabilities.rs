use device_bringup::capability::{Capability, Registry};
use device_bringup::error::ErrorKind;

#[test]
fn fresh_registry_has_everything() {
    let registry = Registry::new();
    assert!(!registry.radio_taken());
    assert!(!registry.storage_taken());
    assert!(!registry.event_loop_taken());
    assert!(!registry.pin_taken(8));
    assert!(!registry.is_taken(Capability::Pin(0)));
}

#[test]
fn second_radio_is_refused_while_the_first_is_out() {
    let mut registry = Registry::new();
    let first = registry.take_radio().expect("the radio is free");
    assert!(registry.radio_taken());
    assert_eq!(registry.take_radio().unwrap_err(), ErrorKind::ResourceUnavailable);
    assert_eq!(registry.take_radio().unwrap_err(), ErrorKind::ResourceUnavailable);
    assert!(registry.radio_taken());
    registry.release_radio(first);
    assert!(!registry.radio_taken());
    assert!(registry.take_radio().is_ok());
}

#[test]
fn second_storage_partition_is_refused_while_the_first_is_out() {
    let mut registry = Registry::new();
    let first = registry.take_storage().expect("the partition is free");
    assert_eq!(registry.take_storage().unwrap_err(), ErrorKind::ResourceUnavailable);
    assert!(registry.is_taken(Capability::Storage));
    assert!(!registry.is_taken(Capability::Radio));
    registry.release_storage(first);
    assert!(registry.take_storage().is_ok());
}

#[test]
fn second_event_loop_is_refused_while_the_first_is_out() {
    let mut registry = Registry::new();
    let first = registry.take_event_loop().expect("the event loop is free");
    assert_eq!(registry.take_event_loop().unwrap_err(), ErrorKind::ResourceUnavailable);
    assert!(registry.is_taken(Capability::EventLoop));
    registry.release_event_loop(first);
    assert!(!registry.event_loop_taken());
    assert!(registry.take_event_loop().is_ok());
}

#[test]
fn lines_are_taken_one_by_one() {
    let mut registry = Registry::new();
    let eight = registry.take_pin(8).expect("line 8 is free");
    assert_eq!(eight.pin(), 8);
    assert!(registry.pin_taken(8));
    assert!(!registry.pin_taken(9));
    assert_eq!(registry.take_pin(8).unwrap_err(), ErrorKind::ResourceUnavailable);
    let nine = registry.take_pin(9).expect("line 9 is free");
    let zero = registry.take_pin(0).expect("line 0 is free");
    assert_eq!(nine.pin(), 9);
    assert!(registry.is_taken(Capability::Pin(0)));
    registry.release_pin(eight);
    assert!(!registry.pin_taken(8));
    assert!(registry.pin_taken(9));
    assert!(registry.pin_taken(0));
    assert_eq!(registry.take_pin(8).unwrap().pin(), 8);
    registry.release_pin(zero);
    registry.release_pin(nine);
    assert!(!registry.pin_taken(0));
    assert!(!registry.pin_taken(9));
    assert!(registry.pin_taken(8));
}

#[test]
fn radio_and_line_can_be_claimed_in_either_order() {
    let mut radio_first = Registry::new();
    let _radio = radio_first.take_radio().unwrap();
    let _line = radio_first.take_pin(8).unwrap();
    let mut line_first = Registry::new();
    let _line2 = line_first.take_pin(8).unwrap();
    let _radio2 = line_first.take_radio().unwrap();
    for c in [Capability::Radio, Capability::Storage, Capability::EventLoop, Capability::Pin(8), Capability::Pin(7)] {
        assert_eq!(radio_first.is_taken(c), line_first.is_taken(c));
    }
    assert!(radio_first.is_taken(Capability::Radio));
    assert!(radio_first.is_taken(Capability::Pin(8)));
    assert!(!radio_first.is_taken(Capability::Storage));
}
