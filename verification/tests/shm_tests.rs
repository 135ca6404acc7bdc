use mdfeed::shm::{advance_cursor, decode_shm_record, drain_indices, pending_count,
    SHM_QUEUE_CAPACITY, SHM_RECORD_BYTES};
use mdfeed::wire::DecodeError;

fn shm_record_bytes(
    instrument_id: i64,
    msg_type: i64,
    tx_ms: i64,
    event_ms: i64,
    local_ns: i64,
    sn_id: i64,
    price: &[u8; 16],
    size: &[u8; 16],
) -> Vec<u8> {
    let mut b = Vec::new();
    b.extend_from_slice(&instrument_id.to_le_bytes());
    b.extend_from_slice(&msg_type.to_le_bytes());
    b.extend_from_slice(&tx_ms.to_le_bytes());
    b.extend_from_slice(&event_ms.to_le_bytes());
    b.extend_from_slice(&local_ns.to_le_bytes());
    b.extend_from_slice(&sn_id.to_le_bytes());
    b.extend_from_slice(price);
    b.extend_from_slice(size);
    b
}

#[test]
fn advance_wraps_at_capacity() {
    assert_eq!(advance_cursor(SHM_QUEUE_CAPACITY - 1, SHM_QUEUE_CAPACITY), 0);
    assert_eq!(advance_cursor(0, SHM_QUEUE_CAPACITY), 1);
    assert_eq!(advance_cursor(4, 5), 0);
    assert_eq!(advance_cursor(3, 5), 4);
}

#[test]
fn drain_at_writer_cursor_reads_nothing() {
    assert_eq!(pending_count(7, 7, SHM_QUEUE_CAPACITY), 0);
    assert!(drain_indices(7, 7, SHM_QUEUE_CAPACITY).is_empty());
    assert_eq!(pending_count(0, 0, 1), 0);
}

#[test]
fn pending_counts_forward_and_wrapped() {
    assert_eq!(pending_count(2, 4, 5), 2);
    assert_eq!(pending_count(3, 1, 5), 3);
    assert_eq!(pending_count(0, 4, 5), 4);
    assert_eq!(pending_count(4, 0, 5), 1);
}

#[test]
fn drain_walks_in_order_with_wrap() {
    assert_eq!(drain_indices(2, 4, 5), vec![2, 3]);
    assert_eq!(drain_indices(3, 1, 5), vec![3, 4, 0]);
    assert_eq!(drain_indices(4, 0, 5), vec![4]);
}

#[test]
fn decode_shm_record_fields() {
    let price = *b"65000.5         ";
    let size = *b"0.01            ";
    let buf = shm_record_bytes(5, -2, 11, 22, 33, 44, &price, &size);
    assert_eq!(buf.len(), SHM_RECORD_BYTES);
    let rec = decode_shm_record(&buf).expect("record should decode");
    assert_eq!(rec.instrument_id, 5);
    assert_eq!(rec.msg_type, -2);
    assert_eq!(rec.tx_ms, 11);
    assert_eq!(rec.event_ms, 22);
    assert_eq!(rec.local_ns, 33);
    assert_eq!(rec.sn_id, 44);
    assert_eq!(rec.price_text, price.to_vec());
    assert_eq!(rec.size_text, size.to_vec());
    assert_eq!(String::from_utf8_lossy(&rec.price_text).trim_end(), "65000.5");
}

#[test]
fn decode_shm_record_short_fails() {
    let buf = vec![0u8; SHM_RECORD_BYTES - 1];
    match decode_shm_record(&buf) {
        Err(e) => assert_eq!(e, DecodeError::TooShort),
        Ok(_) => panic!("expected decode failure"),
    }
}
