use modbus_link::slave::{BROADCAST_ID, MAX_DEVICE_ID, MIN_DEVICE_ID, TCP_DEVICE_ID};
use modbus_link::{Slave, SlaveAddress};

#[test]
fn broadcast_is_identifier_zero() {
    assert_eq!(BROADCAST_ID, 0);
    assert_eq!(Slave::broadcast(), Slave(0));
    assert!(Slave::broadcast().is_broadcast());
    assert!(!Slave::broadcast().is_single_device());
    assert!(!Slave::broadcast().is_reserved());
    assert_eq!(Slave::broadcast().address(), SlaveAddress::Broadcast);
}

#[test]
fn tcp_device_is_identifier_255() {
    assert_eq!(TCP_DEVICE_ID, 255);
    assert_eq!(Slave::tcp_device(), Slave(255));
    assert!(Slave::tcp_device().is_reserved());
    assert!(!Slave::tcp_device().is_broadcast());
    assert!(!Slave::tcp_device().is_single_device());
    assert_eq!(Slave::tcp_device().address(), SlaveAddress::Custom(255));
}

#[test]
fn single_devices_run_from_1_to_247() {
    assert_eq!(MIN_DEVICE_ID, 1);
    assert_eq!(MAX_DEVICE_ID, 247);
    assert_eq!(Slave::min_device(), Slave(1));
    assert_eq!(Slave::max_device(), Slave(247));
    assert!(Slave::min_device().is_single_device());
    assert!(Slave::max_device().is_single_device());
    assert_eq!(Slave::min_device().address(), SlaveAddress::Unit(1));
    assert_eq!(Slave::max_device().address(), SlaveAddress::Unit(247));
}

#[test]
fn address_changes_tag_at_the_edges() {
    assert_eq!(Slave(0).address(), SlaveAddress::Broadcast);
    assert_eq!(Slave(1).address(), SlaveAddress::Unit(1));
    assert_eq!(Slave(17).address(), SlaveAddress::Unit(17));
    assert_eq!(Slave(247).address(), SlaveAddress::Unit(247));
    assert_eq!(Slave(248).address(), SlaveAddress::Custom(248));
    assert_eq!(Slave(255).address(), SlaveAddress::Custom(255));
    assert!(!Slave(247).is_reserved());
    assert!(Slave(248).is_reserved());
    assert!(!Slave(248).is_single_device());
    assert!(!Slave(1).is_broadcast());
}

#[test]
fn every_identifier_survives_the_round_trip() {
    for id in 0..=255u8 {
        let address = Slave(id).address();
        assert_eq!(address.id(), id);
        assert_eq!(address.slave(), Slave(id));
        assert_eq!(address.slave().address(), address);
    }
}

#[test]
fn every_identifier_has_exactly_one_tag() {
    for id in 0..=255u8 {
        let slave = Slave(id);
        let tags = [slave.is_broadcast(), slave.is_single_device(), slave.is_reserved()];
        assert_eq!(tags.iter().filter(|tag| **tag).count(), 1);
        match slave.address() {
            SlaveAddress::Broadcast => assert!(slave.is_broadcast()),
            SlaveAddress::Unit(unit) => assert!(slave.is_single_device() && unit == id),
            SlaveAddress::Custom(raw) => assert!(slave.is_reserved() && raw == id),
        }
    }
}

#[test]
fn address_goes_on_the_wire_as_its_identifier() {
    assert_eq!(SlaveAddress::Broadcast.id(), 0);
    assert_eq!(SlaveAddress::Unit(42).id(), 42);
    assert_eq!(SlaveAddress::Custom(251).id(), 251);
    assert_eq!(SlaveAddress::Unit(42).slave(), Slave(42));
    assert_eq!(SlaveAddress::Broadcast.slave(), Slave::broadcast());
    assert_eq!(SlaveAddress::Custom(255).slave(), Slave::tcp_device());
}

#[test]
fn slaves_are_plain_values() {
    let slave = Slave(9);
    let copy = slave;
    assert_eq!(slave, copy);
    assert_ne!(slave, Slave(10));
    assert_eq!(format!("{:?}", slave), "Slave(9)");
}
