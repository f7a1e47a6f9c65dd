use ticktr::{
    check_ticket_owner, check_venue_authority, load_event, load_ticket, parse_decimal,
    read_capacity, read_number, require_authority, reserve_next_slot, to_decimal, Attributes,
    Delegates, ErrorCode, Event, Manager, Pubkey, ScanRecord,
};

fn key(b: u8) -> Pubkey {
    Pubkey::new_from_array([b; 32])
}

fn attrs(list: &[(&str, &str)]) -> Attributes {
    let mut a = Attributes::new();
    for (k, v) in list {
        a.push(k, v.to_string());
    }
    a
}

fn event_with(capacity: u64, num_minted: u32, list: &[(&str, &str)]) -> Event {
    Event {
        key: key(3),
        update_authority: key(2),
        name: "e".to_string(),
        uri: "u".to_string(),
        capacity,
        num_minted,
        attributes: attrs(list),
    }
}

#[test]
fn pubkey_equal_by_bytes() {
    let mut bytes = [7u8; 32];
    assert_eq!(Pubkey::new_from_array(bytes), key(7));
    assert_eq!(key(7).to_bytes(), bytes);
    bytes[31] = 8;
    assert_ne!(Pubkey::new_from_array(bytes), key(7));
    bytes[31] = 7;
    bytes[0] = 0;
    assert_ne!(Pubkey::new_from_array(bytes), key(7));
}

#[test]
fn require_authority_passes_the_authority_only() {
    let manager = Manager { bump: 1, authority: key(1) };
    assert_eq!(require_authority(&key(1), &manager), Ok(()));
    assert_eq!(require_authority(&key(2), &manager), Err(ErrorCode::InvalidAuthority));
}

#[test]
fn to_decimal_exact_texts() {
    assert_eq!(to_decimal(0), "0");
    assert_eq!(to_decimal(7), "7");
    assert_eq!(to_decimal(10), "10");
    assert_eq!(to_decimal(4500), "4500");
    assert_eq!(to_decimal(4294967295), "4294967295");
    assert_eq!(to_decimal(u64::MAX), "18446744073709551615");
}

#[test]
fn to_decimal_agrees_with_std() {
    for n in [0u64, 1, 9, 10, 11, 99, 100, 101, 12345, 1 << 32, u64::MAX - 1, u64::MAX] {
        assert_eq!(to_decimal(n), n.to_string());
    }
}

#[test]
fn parse_decimal_reads_numbers() {
    assert_eq!(parse_decimal("0"), Some(0));
    assert_eq!(parse_decimal("42"), Some(42));
    assert_eq!(parse_decimal("+42"), Some(42));
    assert_eq!(parse_decimal("007"), Some(7));
    assert_eq!(parse_decimal("18446744073709551615"), Some(u64::MAX));
}

#[test]
fn parse_decimal_refuses_what_is_no_number() {
    assert_eq!(parse_decimal(""), None);
    assert_eq!(parse_decimal("+"), None);
    assert_eq!(parse_decimal("-1"), None);
    assert_eq!(parse_decimal("++1"), None);
    assert_eq!(parse_decimal("1+"), None);
    assert_eq!(parse_decimal(" 1"), None);
    assert_eq!(parse_decimal("1 "), None);
    assert_eq!(parse_decimal("12a"), None);
    assert_eq!(parse_decimal("1.5"), None);
    assert_eq!(parse_decimal("\u{0661}"), None);
    assert_eq!(parse_decimal("18446744073709551616"), None);
    assert_eq!(parse_decimal("99999999999999999999999"), None);
}

#[test]
fn parse_decimal_agrees_with_std() {
    for s in ["0", "+0", "00", "5", "+", "", "-0", "a", "18446744073709551615",
        "18446744073709551616", "184467440737095516150", "+18446744073709551615", "1_000"]
    {
        assert_eq!(parse_decimal(s), s.parse::<u64>().ok());
    }
}

#[test]
fn parse_decimal_reads_back_to_decimal() {
    for n in [0u64, 1, 10, 250, 4294967295, 4294967296, u64::MAX] {
        assert_eq!(parse_decimal(&to_decimal(n)), Some(n));
    }
}

#[test]
fn attributes_get_finds_the_first() {
    let a = attrs(&[("City", "Lisbon"), ("Capacity", "3"), ("Capacity", "9")]);
    assert_eq!(a.len(), 3);
    assert_eq!(a.get("Capacity").map(|s| s.as_str()), Some("3"));
    assert_eq!(a.get("City").map(|s| s.as_str()), Some("Lisbon"));
    assert_eq!(a.get("capacity"), None);
    assert_eq!(Attributes::new().get("City"), None);
}

#[test]
fn read_capacity_each_outcome() {
    assert_eq!(read_capacity(&attrs(&[("Capacity", "12")])), Ok(12));
    assert_eq!(read_capacity(&attrs(&[("City", "x")])), Err(ErrorCode::MissingAttribute));
    assert_eq!(read_capacity(&attrs(&[("Capacity", "many")])), Err(ErrorCode::MalformedCapacity));
    assert_eq!(read_capacity(&attrs(&[("Capacity", "")])), Err(ErrorCode::MalformedCapacity));
    assert_eq!(
        read_capacity(&attrs(&[("Capacity", "18446744073709551616")])),
        Err(ErrorCode::MalformedCapacity)
    );
}

#[test]
fn reserve_counts_and_numbers() {
    let mut e = event_with(2, 0, &[("Capacity", "2")]);
    assert_eq!(reserve_next_slot(&mut e), Ok(1));
    assert_eq!(e.num_minted, 1);
    assert_eq!(reserve_next_slot(&mut e), Ok(2));
    assert_eq!(e.num_minted, 2);
    assert_eq!(reserve_next_slot(&mut e), Err(ErrorCode::MaximumTicketsReached));
    assert_eq!(e.num_minted, 2);
}

#[test]
fn reserve_missing_attribute() {
    let mut e = event_with(2, 0, &[("City", "x")]);
    assert_eq!(reserve_next_slot(&mut e), Err(ErrorCode::MissingAttribute));
    assert_eq!(e.num_minted, 0);
}

#[test]
fn reserve_malformed_capacity() {
    let mut e = event_with(2, 0, &[("Capacity", "two")]);
    assert_eq!(reserve_next_slot(&mut e), Err(ErrorCode::MalformedCapacity));
    assert_eq!(e.num_minted, 0);
}

#[test]
fn reserve_numeric_overflow() {
    let mut e = event_with(5_000_000_000, u32::MAX, &[("Capacity", "5000000000")]);
    assert_eq!(reserve_next_slot(&mut e), Err(ErrorCode::NumericOverflow));
    assert_eq!(e.num_minted, u32::MAX);
}

#[test]
fn reserve_last_slot_of_the_counter() {
    let mut e = event_with(5_000_000_000, u32::MAX - 1, &[("Capacity", "5000000000")]);
    assert_eq!(reserve_next_slot(&mut e), Ok(u32::MAX));
    assert_eq!(e.num_minted, u32::MAX);
}

#[test]
fn reserve_minted_beyond_capacity_is_maximum_reached() {
    let mut e = event_with(2, 7, &[("Capacity", "2")]);
    assert_eq!(reserve_next_slot(&mut e), Err(ErrorCode::MaximumTicketsReached));
    assert_eq!(e.num_minted, 7);
}

#[test]
fn reserve_goes_by_the_capacity_field() {
    let mut e = event_with(1, 0, &[("Capacity", "50")]);
    assert_eq!(reserve_next_slot(&mut e), Ok(1));
    assert_eq!(reserve_next_slot(&mut e), Err(ErrorCode::MaximumTicketsReached));
    assert_eq!(e.num_minted, 1);
}

#[test]
fn load_event_reads_capacity() {
    let e = load_event(
        key(3),
        key(2),
        "e".to_string(),
        "u".to_string(),
        4,
        attrs(&[("City", "x"), ("Capacity", "40")]),
    )
    .unwrap();
    assert_eq!(e.capacity, 40);
    assert_eq!(e.num_minted, 4);
    assert_eq!(e.key, key(3));
    assert_eq!(e.update_authority, key(2));
    assert_eq!(e.name, "e");
    assert_eq!(e.uri, "u");
    assert_eq!(e.attributes.len(), 2);
}

#[test]
fn load_event_errors() {
    let r = load_event(key(3), key(2), "e".to_string(), "u".to_string(), 0, attrs(&[]));
    assert!(matches!(r, Err(ErrorCode::MissingAttribute)));
    let r = load_event(
        key(3),
        key(2),
        "e".to_string(),
        "u".to_string(),
        0,
        attrs(&[("Capacity", "4x")]),
    );
    assert!(matches!(r, Err(ErrorCode::MalformedCapacity)));
}

fn record() -> ScanRecord {
    ScanRecord { authority: key(5), data: Vec::new() }
}

fn all() -> Delegates {
    Delegates { freeze: true, burn: true, transfer: true }
}

#[test]
fn load_ticket_reads_number_and_price() {
    let t = load_ticket(
        key(10),
        key(1),
        key(3),
        "t".to_string(),
        "u".to_string(),
        attrs(&[("Ticket Number", "17"), ("Hall", "A"), ("Price", "4500")]),
        all(),
        record(),
        false,
    )
    .unwrap();
    assert_eq!(t.ticket_number, 17);
    assert_eq!(t.price, 4500);
    assert_eq!(t.key, key(10));
    assert_eq!(t.owner, key(1));
    assert_eq!(t.event, key(3));
    assert_eq!(t.scan_record.authority, key(5));
    assert!(!t.frozen);
    assert!(check_ticket_owner(&key(1), &t));
    assert!(!check_ticket_owner(&key(5), &t));
    assert!(check_venue_authority(&key(5), &t));
    assert!(!check_venue_authority(&key(1), &t));
}

#[test]
fn load_ticket_refuses_unreadable_numbers() {
    let cases: [&[(&str, &str)]; 4] = [
        &[("Price", "1")],
        &[("Ticket Number", "1")],
        &[("Ticket Number", "4294967296"), ("Price", "1")],
        &[("Ticket Number", "1"), ("Price", "free")],
    ];
    for list in cases {
        let t = load_ticket(
            key(10),
            key(1),
            key(3),
            "t".to_string(),
            "u".to_string(),
            attrs(list),
            all(),
            record(),
            false,
        );
        assert!(t.is_none());
    }
}

#[test]
fn read_number_by_key() {
    let a = attrs(&[("Ticket Number", "4294967295"), ("Price", "x")]);
    assert_eq!(read_number(&a, "Ticket Number"), Some(4294967295));
    assert_eq!(read_number(&a, "Price"), None);
    assert_eq!(read_number(&a, "Seat"), None);
}

#[test]
fn error_messages() {
    assert_eq!(ErrorCode::MissingAttribute.message(), "The attribute is missing.");
    assert_eq!(ErrorCode::InvalidAuthority.message(), "Invalid Authority");
    assert_eq!(ErrorCode::NumericOverflow.message(), "Numeric Overflow");
    assert_eq!(ErrorCode::MaximumTicketsReached.message(), "MaximumTicketsReached");
    assert_eq!(ErrorCode::AlreadyScanned.message(), "Already Scanned");
    assert_eq!(ErrorCode::AlreadyInitialized.message(), "Already Initialized");
    assert_eq!(ErrorCode::MalformedCapacity.message(), "Malformed Capacity");
}
