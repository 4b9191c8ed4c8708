use mlx90614::crc8;
use mlx90614::device::ADDRESS;
use mlx90614::device::ID0;
use mlx90614::device::ID1;
use mlx90614::device::ID2;
use mlx90614::device::ID3;
use mlx90614::device::TA;
use mlx90614::device::TOBJ1;
use mlx90614::device::TOBJ2;
use mlx90614::device::TOMAX;
use mlx90614::device::TOMIN;
use mlx90614::validate_address;
use mlx90614::Error;
use mlx90614::Mlx90614;
use mlx90614::MockBus;
use mlx90614::MockBusError;
use mlx90614::MockDelay;
use mlx90614::RecordedTxn;
use mlx90614::DEFAULT_ADDRESS;

/// A well-formed 3-byte read response carrying `word` for register `reg`
/// of the device at `dev`.
fn reply(dev: u8, reg: u8, word: u16) -> Vec<u8> {
    let lsb = (word & 0xFF) as u8;
    let msb = (word >> 8) as u8;
    let pec = crc8(&[dev << 1, reg, (dev << 1) | 1, lsb, msb]);
    vec![lsb, msb, pec]
}

/// The 4-byte payload of a register write of `value` to `reg` of the
/// device at `dev`.
fn frame(dev: u8, reg: u8, value: u16) -> Vec<u8> {
    let lsb = (value & 0xFF) as u8;
    let msb = (value >> 8) as u8;
    let pec = crc8(&[dev << 1, reg, lsb, msb]);
    vec![reg, lsb, msb, pec]
}

fn session(replies: Vec<Vec<u8>>) -> Mlx90614<MockBus, MockDelay> {
    Mlx90614::new(MockBus::new(replies), MockDelay::new()).unwrap()
}

#[test]
fn validator_rejects_zero() {
    assert!(matches!(validate_address::<()>(0), Err(Error::InvalidAddress(0))));
}

#[test]
fn validator_rejects_everything_above_0x80() {
    for a in 0x81..=0xFFu8 {
        match validate_address::<()>(a) {
            Err(Error::InvalidAddress(got)) => assert_eq!(got, a),
            _ => panic!("address {a:#x} should have been rejected"),
        }
    }
}

#[test]
fn validator_accepts_one_through_0x80() {
    for a in 1..=0x80u8 {
        assert!(validate_address::<()>(a).is_ok(), "address {a:#x} should be legal");
    }
}

#[test]
fn session_rejects_illegal_address() {
    let r = Mlx90614::with_address(MockBus::new(vec![]), 0x81, MockDelay::new());
    assert!(matches!(r, Err(Error::InvalidAddress(0x81))));
}

#[test]
fn session_accepts_boundary_address() {
    // 0x80 is one past the conventional 7-bit maximum but is pinned as
    // legal; 0x7F is legal too.
    assert!(Mlx90614::with_address(MockBus::new(vec![]), 0x80, MockDelay::new()).is_ok());
    assert!(Mlx90614::with_address(MockBus::new(vec![]), 0x7F, MockDelay::new()).is_ok());
}

#[test]
fn default_address_is_0x5a() {
    assert_eq!(DEFAULT_ADDRESS, 0x5A);
    assert_eq!(session(vec![]).address(), 0x5A);
}

#[test]
fn read_ambient_returns_word_and_issues_one_read() {
    let mut s = session(vec![reply(0x5A, TA, 0x3907)]);
    assert_eq!(s.read_ambient().unwrap(), 0x3907);
    let recorded = &s.bus().recorded;
    assert_eq!(recorded.len(), 1);
    match &recorded[0] {
        RecordedTxn::WriteRead { addr, data, resp } => {
            assert_eq!(*addr, 0x5A);
            assert_eq!(data, &vec![TA]);
            assert_eq!(resp, &reply(0x5A, TA, 0x3907));
        }
        RecordedTxn::Write { .. } => panic!("expected a write-then-read"),
    }
    assert!(s.delay_handle().recorded.is_empty());
}

#[test]
fn read_uses_the_session_address() {
    let mut s =
        Mlx90614::with_address(MockBus::new(vec![reply(0x2C, TA, 100)]), 0x2C, MockDelay::new())
            .unwrap();
    assert_eq!(s.read_ambient().unwrap(), 100);
    match &s.bus().recorded[0] {
        RecordedTxn::WriteRead { addr, .. } => assert_eq!(*addr, 0x2C),
        RecordedTxn::Write { .. } => panic!("expected a write-then-read"),
    }
}

#[test]
fn read_object_flags_bit_fifteen() {
    let mut s = session(vec![reply(0x5A, TOBJ1, 0x8100)]);
    assert!(matches!(s.read_object(), Err(Error::Flag)));
}

#[test]
fn read_object_returns_clear_word() {
    let mut s = session(vec![reply(0x5A, TOBJ1, 0x3A5B)]);
    assert_eq!(s.read_object().unwrap(), 0x3A5B);
    match &s.bus().recorded[0] {
        RecordedTxn::WriteRead { data, .. } => assert_eq!(data, &vec![TOBJ1]),
        RecordedTxn::Write { .. } => panic!("expected a write-then-read"),
    }
}

#[test]
fn read_object2_flags_bit_fifteen() {
    let mut s = session(vec![reply(0x5A, TOBJ2, 0xFFFF)]);
    assert!(matches!(s.read_object2(), Err(Error::Flag)));
    match &s.bus().recorded[0] {
        RecordedTxn::WriteRead { data, .. } => assert_eq!(data, &vec![TOBJ2]),
        RecordedTxn::Write { .. } => panic!("expected a write-then-read"),
    }
}

#[test]
fn corrupted_response_fails_with_crc() {
    let mut bytes = reply(0x5A, TA, 0x3907);
    bytes[2] ^= 0xFF;
    let mut s = session(vec![bytes]);
    assert!(matches!(s.read_ambient(), Err(Error::Crc)));
}

#[test]
fn corrupted_data_byte_fails_with_crc() {
    let mut bytes = reply(0x5A, TOMIN, 0x1234);
    bytes[0] ^= 0x01;
    let mut s = session(vec![bytes]);
    assert!(matches!(s.get_min(), Err(Error::Crc)));
}

#[test]
fn transport_failure_is_wrapped() {
    let mut s = session(vec![]);
    assert!(matches!(s.read_ambient(), Err(Error::I2C(MockBusError))));
}

#[test]
fn transport_error_converts_into_the_driver_error() {
    assert!(matches!(Error::from(MockBusError), Error::I2C(MockBusError)));
}

#[test]
fn get_min_and_max_read_their_registers() {
    let mut s = session(vec![reply(0x5A, TOMIN, 0x10), reply(0x5A, TOMAX, 0x20)]);
    assert_eq!(s.get_min().unwrap(), 0x10);
    assert_eq!(s.get_max().unwrap(), 0x20);
    let recorded = &s.bus().recorded;
    match (&recorded[0], &recorded[1]) {
        (
            RecordedTxn::WriteRead { data: first, .. },
            RecordedTxn::WriteRead { data: second, .. },
        ) => {
            assert_eq!(first, &vec![TOMIN]);
            assert_eq!(second, &vec![TOMAX]);
        }
        _ => panic!("expected two write-then-reads"),
    }
}

#[test]
fn get_id_assembles_words_low_to_high() {
    let mut s = session(vec![
        reply(0x5A, ID0, 0x1111),
        reply(0x5A, ID1, 0x2222),
        reply(0x5A, ID2, 0x3333),
        reply(0x5A, ID3, 0x4444),
    ]);
    assert_eq!(s.get_id().unwrap(), 0x4444333322221111);
    assert_eq!(s.bus().transaction_count(), 4);
}

#[test]
fn get_id_surfaces_a_bad_word() {
    let mut bad = reply(0x5A, ID2, 0x3333);
    bad[1] ^= 0x40;
    let mut s = session(vec![reply(0x5A, ID0, 0x1111), reply(0x5A, ID1, 0x2222), bad]);
    assert!(matches!(s.get_id(), Err(Error::Crc)));
    assert_eq!(s.bus().recorded.len(), 3);
}

#[test]
fn set_min_erases_then_programs_with_settle_delays() {
    let mut s = session(vec![]);
    s.set_min(100).unwrap();
    let recorded = &s.bus().recorded;
    assert_eq!(recorded.len(), 2);
    match (&recorded[0], &recorded[1]) {
        (
            RecordedTxn::Write { addr: a0, data: erase },
            RecordedTxn::Write { addr: a1, data: program },
        ) => {
            assert_eq!((*a0, *a1), (0x5A, 0x5A));
            assert_eq!(erase, &frame(0x5A, TOMIN, 0));
            assert_eq!(program, &frame(0x5A, TOMIN, 100));
        }
        _ => panic!("expected two plain writes and no read-back"),
    }
    assert_eq!(s.delay_handle().recorded, vec![5, 5]);
}

#[test]
fn set_max_encodes_negative_counts_two_complement() {
    let mut s = session(vec![]);
    s.set_max(-1).unwrap();
    match &s.bus().recorded[1] {
        RecordedTxn::Write { data, .. } => assert_eq!(data, &frame(0x5A, TOMAX, 0xFFFF)),
        RecordedTxn::WriteRead { .. } => panic!("expected a plain write"),
    }
}

#[test]
fn failed_program_write_leaves_cell_erased() {
    let mut bus = MockBus::new(vec![]);
    bus.write_budget = 1;
    let mut s = Mlx90614::new(bus, MockDelay::new()).unwrap();
    assert!(matches!(s.set_min(100), Err(MockBusError)));
    let recorded = &s.bus().recorded;
    assert_eq!(recorded.len(), 1);
    match &recorded[0] {
        RecordedTxn::Write { data, .. } => assert_eq!(data, &frame(0x5A, TOMIN, 0)),
        RecordedTxn::WriteRead { .. } => panic!("expected the erase write"),
    }
    assert_eq!(s.delay_handle().recorded, vec![5]);
}

#[test]
fn failed_erase_write_leaves_no_trace() {
    let mut bus = MockBus::new(vec![]);
    bus.write_budget = 0;
    let mut s = Mlx90614::new(bus, MockDelay::new()).unwrap();
    assert!(matches!(s.set_max(7), Err(MockBusError)));
    assert!(s.bus().recorded.is_empty());
    assert!(s.delay_handle().recorded.is_empty());
}

#[test]
fn get_address_returns_low_byte() {
    let mut s = session(vec![reply(0x5A, ADDRESS, 0xBE5A)]);
    assert_eq!(s.get_address().unwrap(), 0x5A);
}

#[test]
fn set_address_replaces_only_the_low_byte() {
    let mut s = session(vec![reply(0x5A, ADDRESS, 0xBE5A)]);
    s.set_address(0x2A).unwrap();
    let recorded = &s.bus().recorded;
    assert_eq!(recorded.len(), 3);
    match &recorded[0] {
        RecordedTxn::WriteRead { data, .. } => assert_eq!(data, &vec![ADDRESS]),
        RecordedTxn::Write { .. } => panic!("expected the address cell read"),
    }
    match (&recorded[1], &recorded[2]) {
        (RecordedTxn::Write { data: erase, .. }, RecordedTxn::Write { data: program, .. }) => {
            assert_eq!(erase, &frame(0x5A, ADDRESS, 0));
            assert_eq!(program, &frame(0x5A, ADDRESS, 0xBE2A));
        }
        _ => panic!("expected the two-phase EEPROM write"),
    }
    assert_eq!(s.delay_handle().recorded, vec![5, 5]);
    // The session keeps talking to the old address.
    assert_eq!(s.address(), 0x5A);
}

#[test]
fn set_address_rejects_before_any_bus_activity() {
    let mut s = session(vec![reply(0x5A, ADDRESS, 0xBE5A)]);
    assert!(matches!(s.set_address(0x90), Err(Error::InvalidAddress(0x90))));
    assert!(s.bus().recorded.is_empty());
    assert!(s.delay_handle().recorded.is_empty());
}
