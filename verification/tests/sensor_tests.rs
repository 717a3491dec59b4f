use position_control::sensor::As5600;
use position_control::sensor::BusTransport;
use position_control::sensor::raw_to_millidegrees;

#[derive(Debug, Clone, Copy, PartialEq, Eq)]
enum MockFault {
    Nack,
    Timeout,
}

struct MockBus {
    response: Result<[u8; 2], MockFault>,
    seen_address: Option<u8>,
    seen_register: Option<u8>,
    label: u32,
}

impl MockBus {
    fn replying(high: u8, low: u8) -> MockBus {
        MockBus { response: Ok([high, low]), seen_address: None, seen_register: None, label: 0 }
    }

    fn failing(fault: MockFault) -> MockBus {
        MockBus { response: Err(fault), seen_address: None, seen_register: None, label: 0 }
    }
}

impl BusTransport for MockBus {
    type Fault = MockFault;

    fn write_read_two(&mut self, device_address: u8, register: u8) -> Result<[u8; 2], MockFault> {
        self.seen_address = Some(device_address);
        self.seen_register = Some(register);
        self.response
    }
}

#[test]
fn raw_angle_is_masked_to_twelve_bits() {
    let mut sensor = As5600::new(MockBus::replying(0xff, 0xff));
    assert_eq!(sensor.read_raw_angle(), Ok(4095));

    let mut sensor = As5600::new(MockBus::replying(0x08, 0x00));
    assert_eq!(sensor.read_raw_angle(), Ok(2048));

    let mut sensor = As5600::new(MockBus::replying(0xf0, 0x12));
    assert_eq!(sensor.read_raw_angle(), Ok(0x012));

    let mut sensor = As5600::new(MockBus::replying(0x00, 0x00));
    assert_eq!(sensor.read_raw_angle(), Ok(0));
}

#[test]
fn default_address_and_register_are_used() {
    let mut sensor = As5600::new(MockBus::replying(0x01, 0x02));
    let _ = sensor.read_raw_angle();
    let bus = sensor.release();
    assert_eq!(bus.seen_address, Some(0x36));
    assert_eq!(bus.seen_register, Some(0x0e));
}

#[test]
fn configured_address_and_register_are_used() {
    let mut sensor = As5600::with_config(MockBus::replying(0x01, 0x02), 0x40, 0x0c);
    let _ = sensor.read_raw_angle();
    let bus = sensor.release();
    assert_eq!(bus.seen_address, Some(0x40));
    assert_eq!(bus.seen_register, Some(0x0c));
}

#[test]
fn transport_fault_is_surfaced_verbatim() {
    let mut sensor = As5600::new(MockBus::failing(MockFault::Nack));
    assert_eq!(sensor.read_raw_angle(), Err(MockFault::Nack));

    let mut sensor = As5600::new(MockBus::failing(MockFault::Timeout));
    assert_eq!(sensor.read_millidegrees(), Err(MockFault::Timeout));
}

#[test]
fn release_returns_the_same_bus() {
    let mut bus = MockBus::replying(0x00, 0x00);
    bus.label = 77;
    let sensor = As5600::new(bus);
    let bus = sensor.release();
    assert_eq!(bus.label, 77);
}

#[test]
fn millidegree_anchors() {
    assert_eq!(raw_to_millidegrees(0), 0);
    assert_eq!(raw_to_millidegrees(2048), 180_000);
    assert_eq!(raw_to_millidegrees(4095), 359_912);
}

#[test]
fn millidegrees_through_the_driver() {
    let mut sensor = As5600::new(MockBus::replying(0x08, 0x00));
    assert_eq!(sensor.read_millidegrees(), Ok(180_000));

    let mut sensor = As5600::new(MockBus::replying(0x0f, 0xff));
    assert_eq!(sensor.read_millidegrees(), Ok(359_912));
}

#[test]
fn millidegrees_strictly_increase_with_raw() {
    let mut previous = raw_to_millidegrees(0);
    let mut raw: u16 = 1;
    while raw <= 4095 {
        let m = raw_to_millidegrees(raw);
        assert!(m > previous, "not strictly increasing at raw {}", raw);
        let slope = m - previous;
        assert!(slope == 87 || slope == 88, "slope {} at raw {}", slope, raw);
        previous = m;
        raw += 1;
    }
}
