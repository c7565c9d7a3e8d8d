use richat_plugin_agave::channel::{Channel, Cursor, Recv};
use richat_plugin_agave::config::ConfigChannel;
use richat_plugin_agave::protobuf::{ProtobufEncoder, ProtobufMessage};

fn channel(max_messages: usize, max_bytes: u64) -> Channel {
    Channel::new(ConfigChannel { encoder: ProtobufEncoder::Raw, max_messages, max_bytes })
}

fn entry(tag: u8) -> ProtobufMessage {
    ProtobufMessage::Entry { slot: 7, entry: vec![tag] }
}

// kind, eight bytes of slot, one byte of body
fn entry_bytes(tag: u8) -> Vec<u8> {
    vec![4, 7, 0, 0, 0, 0, 0, 0, 0, tag]
}

fn expect_delivered(channel: &Channel, cursor: &mut Cursor, seq: u64, payload: &[u8]) {
    match channel.next(cursor) {
        Recv::Delivered(message) => {
            assert_eq!(message.seq(), seq);
            assert_eq!(message.payload().as_slice(), payload);
            assert_eq!(message.len(), payload.len());
            assert_eq!(message.encoder(), ProtobufEncoder::Raw);
        }
        other => panic!("expected a message, got {:?}", other),
    }
}

#[test]
fn late_reader_lags_by_one_then_reads_the_rest() {
    let mut channel = channel(4, 1 << 20);
    let mut cursor = channel.subscribe();
    for tag in [b'A', b'B', b'C', b'D', b'E'] {
        channel.push(entry(tag), ProtobufEncoder::Raw);
    }
    assert!(matches!(channel.next(&mut cursor), Recv::Lagged(1)));
    expect_delivered(&channel, &mut cursor, 1, &entry_bytes(b'B'));
    expect_delivered(&channel, &mut cursor, 2, &entry_bytes(b'C'));
    expect_delivered(&channel, &mut cursor, 3, &entry_bytes(b'D'));
    expect_delivered(&channel, &mut cursor, 4, &entry_bytes(b'E'));
    assert!(matches!(channel.next(&mut cursor), Recv::Pending));
    assert!(matches!(channel.next(&mut cursor), Recv::Pending));
}

#[test]
fn reader_that_keeps_up_sees_every_message_in_order() {
    let mut channel = channel(2, 1 << 20);
    channel.push(entry(0), ProtobufEncoder::Raw);
    let mut cursor = channel.subscribe();
    assert_eq!(cursor.position(), 1);
    for tag in 1..=20u8 {
        channel.push(entry(tag), ProtobufEncoder::Raw);
        expect_delivered(&channel, &mut cursor, tag as u64, &entry_bytes(tag));
        assert!(matches!(channel.next(&mut cursor), Recv::Pending));
    }
    assert_eq!(cursor.position(), 21);
    assert_eq!(channel.next_seq(), 21);
}

#[test]
fn interleaved_pushes_and_reads_keep_push_order() {
    let mut channel = channel(8, 1 << 20);
    let mut cursor = channel.subscribe();
    channel.push(entry(10), ProtobufEncoder::Raw);
    channel.push(entry(11), ProtobufEncoder::Raw);
    expect_delivered(&channel, &mut cursor, 0, &entry_bytes(10));
    channel.push(entry(12), ProtobufEncoder::Raw);
    expect_delivered(&channel, &mut cursor, 1, &entry_bytes(11));
    expect_delivered(&channel, &mut cursor, 2, &entry_bytes(12));
    assert!(matches!(channel.next(&mut cursor), Recv::Pending));
}

#[test]
fn both_limits_hold_after_every_push() {
    // every message is 10 bytes long: at most three fit into 35 bytes
    let mut channel = channel(5, 35);
    for tag in 0..50u8 {
        channel.push(entry(tag), ProtobufEncoder::Raw);
        assert!(channel.total_count() <= 5);
        assert!(channel.total_bytes() <= 35);
        let expected = std::cmp::min(tag as usize + 1, 3);
        assert_eq!(channel.total_count(), expected);
        assert_eq!(channel.total_bytes(), 10 * expected as u64);
        assert_eq!(channel.next_seq(), tag as u64 + 1);
        assert_eq!(channel.oldest_seq(), tag as u64 + 1 - expected as u64);
    }
}

#[test]
fn count_limit_evicts_the_oldest_first() {
    let mut channel = channel(3, 1 << 20);
    for tag in 0..5u8 {
        channel.push(entry(tag), ProtobufEncoder::Raw);
    }
    assert_eq!(channel.oldest_seq(), 2);
    assert_eq!(channel.total_count(), 3);
    let mut cursor = channel.subscribe_from_oldest();
    expect_delivered(&channel, &mut cursor, 2, &entry_bytes(2));
    expect_delivered(&channel, &mut cursor, 3, &entry_bytes(3));
    expect_delivered(&channel, &mut cursor, 4, &entry_bytes(4));
    assert!(matches!(channel.next(&mut cursor), Recv::Pending));
}

#[test]
fn byte_limit_evicts_as_many_as_needed() {
    let mut channel = channel(100, 40);
    for tag in 0..4u8 {
        channel.push(entry(tag), ProtobufEncoder::Raw);
    }
    assert_eq!(channel.total_bytes(), 40);
    // 9 bytes of header and 25 of body make 34: beside it no message of 10 bytes fits
    // into 40, so all four older messages leave
    channel.push(ProtobufMessage::Entry { slot: 7, entry: vec![9; 25] }, ProtobufEncoder::Raw);
    assert_eq!(channel.total_count(), 1);
    assert_eq!(channel.total_bytes(), 34);
    assert_eq!(channel.oldest_seq(), 4);
    assert_eq!(channel.next_seq(), 5);
}

#[test]
fn message_larger_than_the_byte_limit_is_not_retained() {
    let mut channel = channel(10, 15);
    let mut cursor = channel.subscribe();
    channel.push(entry(1), ProtobufEncoder::Raw);
    assert_eq!(channel.total_count(), 1);
    channel.push(ProtobufMessage::Entry { slot: 7, entry: vec![0; 7] }, ProtobufEncoder::Raw);
    assert_eq!(channel.total_count(), 0);
    assert_eq!(channel.total_bytes(), 0);
    assert_eq!(channel.next_seq(), 2);
    assert_eq!(channel.oldest_seq(), 2);
    assert!(matches!(channel.next(&mut cursor), Recv::Lagged(2)));
    assert!(matches!(channel.next(&mut cursor), Recv::Pending));
    channel.push(entry(3), ProtobufEncoder::Raw);
    expect_delivered(&channel, &mut cursor, 2, &entry_bytes(3));
}

#[test]
fn channel_without_room_for_any_message_retains_nothing() {
    let mut channel = channel(0, 1 << 20);
    let mut cursor = channel.subscribe();
    channel.push(entry(1), ProtobufEncoder::Raw);
    channel.push(entry(2), ProtobufEncoder::Raw);
    assert_eq!(channel.total_count(), 0);
    assert_eq!(channel.next_seq(), 2);
    assert!(matches!(channel.next(&mut cursor), Recv::Lagged(2)));
    assert!(matches!(channel.next(&mut cursor), Recv::Pending));
}

#[test]
fn lag_counts_exactly_the_skipped_messages() {
    let mut channel = channel(3, 1 << 20);
    channel.push(entry(0), ProtobufEncoder::Raw);
    channel.push(entry(1), ProtobufEncoder::Raw);
    let mut cursor = channel.subscribe_from_oldest();
    expect_delivered(&channel, &mut cursor, 0, &entry_bytes(0));
    for tag in 2..10u8 {
        channel.push(entry(tag), ProtobufEncoder::Raw);
    }
    // the reader expects 1; 7, 8 and 9 are retained; 1 to 6 are gone
    assert!(matches!(channel.next(&mut cursor), Recv::Lagged(6)));
    assert_eq!(cursor.position(), 7);
    assert_eq!(cursor.last_seen(), Some(6));
    expect_delivered(&channel, &mut cursor, 7, &entry_bytes(7));
}

#[test]
fn reader_that_never_catches_up_is_delayed_not_starved() {
    let mut channel = channel(1, 1 << 20);
    let mut cursor = channel.subscribe();
    let mut next: u8 = 0;
    for _ in 0..5 {
        channel.push(entry(next), ProtobufEncoder::Raw);
        channel.push(entry(next + 1), ProtobufEncoder::Raw);
        next += 2;
        assert!(matches!(channel.next(&mut cursor), Recv::Lagged(1)));
        expect_delivered(&channel, &mut cursor, next as u64 - 1, &entry_bytes(next - 1));
    }
}

#[test]
fn readers_do_not_affect_each_other() {
    let mut channel = channel(4, 1 << 20);
    let mut fast = channel.subscribe();
    let mut slow = channel.subscribe();
    channel.push(entry(1), ProtobufEncoder::Raw);
    channel.push(entry(2), ProtobufEncoder::Raw);
    expect_delivered(&channel, &mut fast, 0, &entry_bytes(1));
    expect_delivered(&channel, &mut fast, 1, &entry_bytes(2));
    assert_eq!(slow.position(), 0);
    expect_delivered(&channel, &mut slow, 0, &entry_bytes(1));
    assert_eq!(channel.total_count(), 2);
}

#[test]
fn delivered_message_outlives_its_eviction() {
    let mut channel = channel(1, 1 << 20);
    let mut cursor = channel.subscribe();
    channel.push(entry(1), ProtobufEncoder::Raw);
    let held = match channel.next(&mut cursor) {
        Recv::Delivered(message) => message,
        other => panic!("expected a message, got {:?}", other),
    };
    channel.push(entry(2), ProtobufEncoder::Raw);
    assert_eq!(channel.oldest_seq(), 1);
    assert_eq!(held.seq(), 0);
    assert_eq!(held.payload().as_slice(), entry_bytes(1).as_slice());
}

#[test]
fn close_is_idempotent_and_final() {
    let mut channel = channel(4, 1 << 20);
    let mut cursor = channel.subscribe();
    assert!(!channel.is_closed());
    assert!(matches!(channel.next(&mut cursor), Recv::Pending));
    channel.close();
    assert!(channel.is_closed());
    assert!(matches!(channel.next(&mut cursor), Recv::EndOfStream));
    channel.close();
    channel.close();
    assert!(channel.is_closed());
    assert!(matches!(channel.next(&mut cursor), Recv::EndOfStream));
    assert!(matches!(channel.next(&mut cursor), Recv::EndOfStream));
    assert_eq!(cursor.position(), 0);
}

#[test]
fn closed_channel_ignores_pushes() {
    let mut channel = channel(4, 1 << 20);
    channel.push(entry(1), ProtobufEncoder::Raw);
    channel.close();
    channel.push(entry(2), ProtobufEncoder::Raw);
    assert_eq!(channel.next_seq(), 1);
    assert_eq!(channel.total_count(), 1);
    assert_eq!(channel.total_bytes(), 10);
}

#[test]
fn closed_channel_still_hands_out_what_it_retains() {
    let mut channel = channel(4, 1 << 20);
    let mut cursor = channel.subscribe();
    channel.push(entry(1), ProtobufEncoder::Raw);
    channel.close();
    expect_delivered(&channel, &mut cursor, 0, &entry_bytes(1));
    assert!(matches!(channel.next(&mut cursor), Recv::EndOfStream));
}

#[test]
fn fresh_channel_is_empty_and_open() {
    let channel = channel(4, 99);
    assert_eq!(channel.total_count(), 0);
    assert_eq!(channel.total_bytes(), 0);
    assert_eq!(channel.next_seq(), 0);
    assert_eq!(channel.oldest_seq(), 0);
    assert_eq!(channel.max_messages(), 4);
    assert_eq!(channel.max_bytes(), 99);
    assert!(!channel.is_closed());
    let cursor = channel.subscribe();
    assert_eq!(cursor.position(), 0);
    assert_eq!(cursor.last_seen(), None);
}

#[test]
fn append_takes_bytes_as_they_are() {
    let mut channel = channel(4, 1 << 20);
    let mut cursor = channel.subscribe();
    channel.append(vec![1, 2, 3], ProtobufEncoder::Prost);
    match channel.next(&mut cursor) {
        Recv::Delivered(message) => {
            assert_eq!(message.seq(), 0);
            assert_eq!(message.payload().as_slice(), &[1, 2, 3]);
            assert_eq!(message.encoder(), ProtobufEncoder::Prost);
        }
        other => panic!("expected a message, got {:?}", other),
    }
}
