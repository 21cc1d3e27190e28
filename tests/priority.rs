use h2_priority::frame::{
    Error, Head, Kind, OptionPriority, Priority, StreamDependency, StreamId, HEADER_LEN,
};

#[test]
fn test_priority_frame() {
    let mut dependency_buf = Vec::new();
    let dependency = StreamDependency::new(StreamId::zero(), 201, false);
    dependency.encode(&mut dependency_buf);
    let dependency = StreamDependency::load(&dependency_buf).unwrap();
    assert_eq!(dependency.dependency_id(), StreamId::zero());
    assert_eq!(dependency.weight(), 201);
    assert!(!dependency.is_exclusive());

    let priority = Priority::new(StreamId::from(3), dependency);
    let mut priority_buf = Vec::new();
    priority.encode(&mut priority_buf);
    let priority = Priority::load(priority.head(), &priority_buf[HEADER_LEN..]).unwrap();
    assert_eq!(priority.stream_id(), StreamId::from(3));
    assert_eq!(priority.dependency().dependency_id(), StreamId::zero());
    assert_eq!(priority.dependency().weight(), 201);
    assert!(!priority.dependency().is_exclusive());
}

#[test]
fn dependency_encodes_to_five_bytes() {
    let mut buf = Vec::new();
    StreamDependency::new(StreamId::zero(), 201, false).encode(&mut buf);
    assert_eq!(buf, vec![0x00, 0x00, 0x00, 0x00, 0xC9]);
    let d = StreamDependency::load(&buf).unwrap();
    assert_eq!(d.dependency_id(), StreamId::zero());
    assert_eq!(d.weight(), 201);
    assert!(!d.is_exclusive());
}

#[test]
fn exclusive_dependency_sets_high_bit() {
    let mut buf = vec![0xAA];
    StreamDependency::new(StreamId::from(0x0102_0304), 7, true).encode(&mut buf);
    assert_eq!(buf, vec![0xAA, 0x81, 0x02, 0x03, 0x04, 0x07]);
}

#[test]
fn dependency_round_trip_at_extremes() {
    for &id in &[0u32, 1, 0x7fff_ffff] {
        for &weight in &[0u8, 128, 255] {
            for &excl in &[false, true] {
                let d = StreamDependency::new(StreamId::from(id), weight, excl);
                let mut buf = Vec::new();
                d.encode(&mut buf);
                assert_eq!(buf.len(), 5);
                assert_eq!(StreamDependency::load(&buf), Ok(d));
            }
        }
    }
}

#[test]
fn priority_encodes_to_fourteen_bytes() {
    let d = StreamDependency::new(StreamId::zero(), 201, false);
    let p = Priority::new(StreamId::from(3), d);
    let mut buf = Vec::new();
    p.encode(&mut buf);
    assert_eq!(
        buf,
        vec![0x00, 0x00, 0x05, 0x02, 0x00, 0x00, 0x00, 0x00, 0x03, 0x00, 0x00, 0x00, 0x00, 0xC9]
    );
}

#[test]
fn priority_round_trip_through_parsed_head() {
    let d = StreamDependency::new(StreamId::from(0x7fff_ffff), 0, true);
    let p = Priority::new(StreamId::from(17), d);
    let mut buf = Vec::new();
    p.encode(&mut buf);
    let head = Head::parse(&buf[..HEADER_LEN]);
    assert_eq!(head.kind(), Kind::Priority);
    assert_eq!(head.flag(), 0);
    assert_eq!(head.stream_id(), StreamId::from(17));
    assert_eq!(head, p.head());
    assert_eq!(Priority::load(head, &buf[HEADER_LEN..]), Ok(p));
}

#[test]
fn self_dependency_is_rejected() {
    let head = Head::new(Kind::Priority, 0, StreamId::from(5));
    let payload = [0x00, 0x00, 0x00, 0x05, 0x10];
    assert_eq!(Priority::load(head, &payload), Err(Error::InvalidDependencyId));
    // the exclusive bit does not change the id
    let payload = [0x80, 0x00, 0x00, 0x05, 0x10];
    assert_eq!(Priority::load(head, &payload), Err(Error::InvalidDependencyId));
}

#[test]
fn self_dependency_on_zero_and_largest_id() {
    let zero = Head::new(Kind::Priority, 0, StreamId::zero());
    assert_eq!(Priority::load(zero, &[0, 0, 0, 0, 1]), Err(Error::InvalidDependencyId));
    let max = Head::new(Kind::Priority, 0, StreamId::from(0x7fff_ffff));
    assert_eq!(
        Priority::load(max, &[0x7f, 0xff, 0xff, 0xff, 1]),
        Err(Error::InvalidDependencyId)
    );
    assert_eq!(
        Priority::load(max, &[0xff, 0xff, 0xff, 0xff, 1]),
        Err(Error::InvalidDependencyId)
    );
}

#[test]
fn wrong_payload_length_is_rejected() {
    assert_eq!(StreamDependency::load(&[]), Err(Error::InvalidPayloadLength));
    assert_eq!(StreamDependency::load(&[0, 0, 0, 0]), Err(Error::InvalidPayloadLength));
    assert_eq!(StreamDependency::load(&[0, 0, 0, 0, 1, 2]), Err(Error::InvalidPayloadLength));
    let head = Head::new(Kind::Priority, 0, StreamId::from(1));
    assert_eq!(Priority::load(head, &[0, 0, 0, 2, 1, 2]), Err(Error::InvalidPayloadLength));
}

#[test]
fn priority_load_on_stream_zero_succeeds_with_other_dependency() {
    let head = Head::new(Kind::Priority, 0, StreamId::zero());
    let p = Priority::load(head, &[0, 0, 0, 9, 3]).unwrap();
    assert!(p.stream_id().is_zero());
    assert_eq!(p.dependency().dependency_id(), StreamId::from(9));
    assert_eq!(p.dependency().weight(), 3);
}

#[test]
fn stream_id_parse_splits_reserved_bit() {
    let (id, flag) = StreamId::parse(&[0x80, 0x00, 0x01, 0x02]);
    assert_eq!(u32::from(id), 0x0102);
    assert!(flag);
    let (id, flag) = StreamId::parse(&[0x12, 0x34, 0x56, 0x78, 0xff]);
    assert_eq!(u32::from(id), 0x1234_5678);
    assert!(!flag);
}

#[test]
fn stream_id_from_drops_reserved_bit() {
    assert_eq!(StreamId::from(0x8000_0003), StreamId::from(3));
    assert_eq!(u32::from(StreamId::from(0xffff_ffff)), 0x7fff_ffff);
    assert!(StreamId::zero().is_zero());
    assert!(!StreamId::from(1).is_zero());
}

#[test]
fn head_encodes_length_type_flags_and_stream() {
    let head = Head::new(Kind::Headers, 0x25, StreamId::from(0x0a0b_0c0d));
    let mut buf = Vec::new();
    head.encode(0x01_0203, &mut buf);
    assert_eq!(buf, vec![0x01, 0x02, 0x03, 0x01, 0x25, 0x0a, 0x0b, 0x0c, 0x0d]);
    let parsed = Head::parse(&buf);
    assert_eq!(parsed, head);
}

#[test]
fn head_parse_ignores_reserved_bit_and_maps_unknown_types() {
    let parsed = Head::parse(&[0, 0, 0, 0x2a, 0x01, 0x80, 0, 0, 0x07]);
    assert_eq!(parsed.kind(), Kind::Unknown);
    assert_eq!(parsed.flag(), 1);
    assert_eq!(parsed.stream_id(), StreamId::from(7));
}

#[test]
fn kind_bytes() {
    assert_eq!(Kind::new(2), Kind::Priority);
    assert_eq!(Kind::Priority.as_byte(), 2);
    assert_eq!(Kind::new(9), Kind::Continuation);
    assert_eq!(Kind::new(200), Kind::Unknown);
    assert_eq!(Kind::WindowUpdate.as_byte(), 8);
}

#[test]
fn option_priority_needs_stream_id() {
    let d = StreamDependency::new(StreamId::from(1), 15, true);
    let mut op = OptionPriority::new(d);
    assert!(!op.is_custom_stream_id());
    assert_eq!(Priority::try_from(op), Err(Error::InvalidStreamId));
    op.set_stream_id(StreamId::from(5));
    op.set_stream_id(StreamId::from(7));
    assert!(op.is_custom_stream_id());
    assert_eq!(op.dependency(), d);
    let p = Priority::try_from(op).unwrap();
    assert_eq!(p.stream_id(), StreamId::from(7));
    assert_eq!(p.dependency(), d);
}

#[test]
fn stream_ids_order_by_value() {
    assert!(StreamId::zero() < StreamId::from(1));
    assert!(StreamId::from(0x7fff_ffff) > StreamId::from(0x100));
}

#[test]
fn dependency_decodes_exclusive_bit_and_id() {
    assert_eq!(
        StreamDependency::load(&[0x80, 0x00, 0x00, 0x01, 0xFF]),
        Ok(StreamDependency::new(StreamId::from(1), 255, true))
    );
    assert_eq!(
        StreamDependency::load(&[0xFF, 0xFF, 0xFF, 0xFF, 0x00]),
        Ok(StreamDependency::new(StreamId::from(0x7fff_ffff), 0, true))
    );
    let mut buf = Vec::new();
    StreamDependency::new(StreamId::from(1), 255, true).encode(&mut buf);
    assert_eq!(buf, vec![0x80, 0x00, 0x00, 0x01, 0xFF]);
}

#[test]
fn exclusive_self_dependency_on_stream_seven_is_rejected() {
    let head = Head::new(Kind::Priority, 0, StreamId::from(7));
    assert_eq!(
        Priority::load(head, &[0x80, 0x00, 0x00, 0x07, 0x0a]),
        Err(Error::InvalidDependencyId)
    );
}

#[test]
fn priority_head_fields() {
    let p = Priority::new(StreamId::from(3), StreamDependency::new(StreamId::zero(), 1, false));
    let h = p.head();
    assert_eq!(h, Head::new(Kind::Priority, 0, StreamId::from(3)));
    assert_eq!(h.stream_id(), p.stream_id());
}
