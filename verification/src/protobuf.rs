//! Events and their encoded form.
//!
//! An event is encoded in one of two modes. `Raw` writes fixed-width
//! little-endian fields followed by the payload as it is. `Prost` writes tagged
//! fields: a key byte, then a variable-width integer or a length and the bytes.
//! Both start with the kind of the event and its slot.

use vstd::bytes::lemma_auto_spec_u64_to_from_le_bytes;
use vstd::bytes::spec_u64_to_le_bytes;
use vstd::bytes::u64_to_le_bytes;
use vstd::prelude::*;
use vstd::utf8::encode_utf8;

verus! {

/// How an event is turned into bytes.
#[derive(Debug, Clone, Copy, PartialEq, Eq, Structural)]
pub enum ProtobufEncoder {
    /// Tagged fields with variable-width integers.
    Prost,
    /// Fixed-width little-endian fields followed by the payload.
    Raw,
}

/// How far a slot has come.
#[derive(Debug, Clone, PartialEq, Eq)]
pub enum SlotStatus {
    Processed,
    Rooted,
    Confirmed,
    FirstShredReceived,
    Completed,
    CreatedBank,
    /// The slot was abandoned, with the reason.
    Dead(String),
}

/// A state change reported by the host.
#[derive(Debug, Clone, PartialEq, Eq)]
pub enum ProtobufMessage {
    Account { slot: u64, data: Vec<u8> },
    Slot { slot: u64, parent: Option<u64>, status: SlotStatus },
    Transaction { slot: u64, transaction: Vec<u8> },
    Entry { slot: u64, entry: Vec<u8> },
    BlockMeta { slot: u64, blockinfo: Vec<u8> },
}

/// The number a status is written as.
pub open spec fn status_code(status: SlotStatus) -> u8 {
    match status {
        SlotStatus::Processed => 0,
        SlotStatus::Confirmed => 1,
        SlotStatus::Rooted => 2,
        SlotStatus::FirstShredReceived => 3,
        SlotStatus::Completed => 4,
        SlotStatus::CreatedBank => 5,
        SlotStatus::Dead(_) => 6,
    }
}

/// The text a status carries, as UTF-8; empty unless the slot is dead.
pub open spec fn status_text(status: SlotStatus) -> Seq<u8> {
    match status {
        SlotStatus::Dead(reason) => encode_utf8(reason@),
        _ => Seq::empty(),
    }
}

impl ProtobufMessage {
    /// The number an event's kind is written as.
    pub open spec fn kind_code(&self) -> u8 {
        match self {
            ProtobufMessage::Account { .. } => 1,
            ProtobufMessage::Slot { .. } => 2,
            ProtobufMessage::Transaction { .. } => 3,
            ProtobufMessage::Entry { .. } => 4,
            ProtobufMessage::BlockMeta { .. } => 5,
        }
    }

    /// The slot the event belongs to.
    pub open spec fn spec_slot(&self) -> u64 {
        match self {
            ProtobufMessage::Account { slot, .. } => *slot,
            ProtobufMessage::Slot { slot, .. } => *slot,
            ProtobufMessage::Transaction { slot, .. } => *slot,
            ProtobufMessage::Entry { slot, .. } => *slot,
            ProtobufMessage::BlockMeta { slot, .. } => *slot,
        }
    }

    /// The bytes an event carries besides its fixed fields.
    pub open spec fn body(&self) -> Seq<u8> {
        match self {
            ProtobufMessage::Account { data, .. } => data@,
            ProtobufMessage::Slot { status, .. } => status_text(*status),
            ProtobufMessage::Transaction { transaction, .. } => transaction@,
            ProtobufMessage::Entry { entry, .. } => entry@,
            ProtobufMessage::BlockMeta { blockinfo, .. } => blockinfo@,
        }
    }

    /// The slot the event belongs to.
    #[verifier::when_used_as_spec(spec_slot)]
    pub fn slot(&self) -> (slot: u64)
        ensures
            slot == self.spec_slot(),
    {
        match self {
            ProtobufMessage::Account { slot, .. } => *slot,
            ProtobufMessage::Slot { slot, .. } => *slot,
            ProtobufMessage::Transaction { slot, .. } => *slot,
            ProtobufMessage::Entry { slot, .. } => *slot,
            ProtobufMessage::BlockMeta { slot, .. } => *slot,
        }
    }
}

/// A number in groups of seven bits, lowest group first; every byte but the
/// last has its top bit set.
pub open spec fn varint(value: nat) -> Seq<u8>
    decreases value,
{
    if value < 128 {
        seq![value as u8]
    } else {
        seq![(value % 128 + 128) as u8] + varint(value / 128)
    }
}

/// A tagged field that holds a number.
pub open spec fn varint_field(number: u8, value: nat) -> Seq<u8> {
    seq![(number * 8) as u8] + varint(value)
}

/// A tagged field that holds bytes, with their length in front.
pub open spec fn bytes_field(number: u8, bytes: Seq<u8>) -> Seq<u8> {
    seq![(number * 8 + 2) as u8] + varint(bytes.len()) + bytes
}

/// The event in `Raw` mode: kind, slot, then for a slot update the parent (a
/// flag byte and, if there is one, the parent slot) and the status code, then
/// the body.
pub open spec fn encoded_raw(message: ProtobufMessage) -> Seq<u8> {
    let start = seq![message.kind_code()] + spec_u64_to_le_bytes(message.spec_slot());
    match message {
        ProtobufMessage::Slot { parent, status, .. } => {
            let parent_bytes = match parent {
                Some(parent) => seq![1u8] + spec_u64_to_le_bytes(parent),
                None => seq![0u8],
            };
            start + parent_bytes + seq![status_code(status)] + message.body()
        },
        _ => start + message.body(),
    }
}

/// The event in `Prost` mode: field 1 is the kind, field 2 the slot, field 5
/// the body; a slot update has its parent, if any, in field 3 and its status
/// code in field 4 before the body.
pub open spec fn encoded_prost(message: ProtobufMessage) -> Seq<u8> {
    let start = varint_field(1, message.kind_code() as nat) + varint_field(
        2,
        message.spec_slot() as nat,
    );
    match message {
        ProtobufMessage::Slot { parent, status, .. } => {
            let parent_bytes = match parent {
                Some(parent) => varint_field(3, parent as nat),
                None => Seq::empty(),
            };
            start + parent_bytes + varint_field(4, status_code(status) as nat) + bytes_field(
                5,
                message.body(),
            )
        },
        _ => start + bytes_field(5, message.body()),
    }
}

/// The bytes of `message` in the given mode.
pub open spec fn encoded(message: ProtobufMessage, encoder: ProtobufEncoder) -> Seq<u8> {
    match encoder {
        ProtobufEncoder::Prost => encoded_prost(message),
        ProtobufEncoder::Raw => encoded_raw(message),
    }
}

/// 128 to the power of `digits`: the first number that does not fit into that
/// many groups of seven bits.
pub open spec fn varint_limit(digits: nat) -> nat
    decreases digits,
{
    if digits == 0 {
        1
    } else {
        128 * varint_limit((digits - 1) as nat)
    }
}

/// A number below 128 to the power of `digits` takes at most `digits` bytes.
pub proof fn lemma_varint_len(value: nat, digits: nat)
    requires
        digits >= 1,
        value < varint_limit(digits),
    ensures
        1 <= varint(value).len() <= digits,
    decreases digits,
{
    if value >= 128 {
        if digits == 1 {
            reveal_with_fuel(varint_limit, 2);
        } else {
            lemma_varint_len(value / 128, (digits - 1) as nat);
        }
    }
}

/// A 64-bit number takes between one and ten bytes.
pub proof fn lemma_varint_u64_len(value: u64)
    ensures
        1 <= varint(value as nat).len() <= 10,
{
    assert(varint_limit(10) > u64::MAX) by {
        reveal_with_fuel(varint_limit, 11);
    }
    lemma_varint_len(value as nat, 10);
}

/// An encoded event is as long as its body plus a header of bounded size. In
/// `Raw` mode the header of every event but a slot update is nine bytes.
pub proof fn lemma_encoded_len(message: ProtobufMessage, encoder: ProtobufEncoder)
    requires
        message.body().len() <= u64::MAX,
    ensures
        message.body().len() < encoded(message, encoder).len() <= message.body().len() + 40,
        encoder is Raw && !(message is Slot) ==> encoded(message, encoder).len()
            == message.body().len() + 9,
{
    lemma_auto_spec_u64_to_from_le_bytes();
    lemma_varint_u64_len(message.kind_code() as u64);
    lemma_varint_u64_len(message.spec_slot());
    lemma_varint_u64_len(message.body().len() as u64);
    match message {
        ProtobufMessage::Slot { parent, status, .. } => {
            lemma_varint_u64_len(status_code(status) as u64);
            match parent {
                Some(parent) => {
                    lemma_varint_u64_len(parent);
                },
                None => {},
            }
        },
        _ => {},
    }
}

fn put_bytes(out: &mut Vec<u8>, bytes: &[u8])
    ensures
        final(out)@ == old(out)@ + bytes@,
{
    let ghost start = out@;
    let mut i: usize = 0;
    while i < bytes.len()
        invariant
            i <= bytes@.len(),
            out@ == start + bytes@.take(i as int),
        decreases bytes@.len() - i,
    {
        out.push(bytes[i]);
        i = i + 1;
        assert(out@ =~= start + bytes@.take(i as int));
    }
    assert(bytes@.take(bytes@.len() as int) =~= bytes@);
}

fn put_u64(out: &mut Vec<u8>, value: u64)
    ensures
        final(out)@ == old(out)@ + spec_u64_to_le_bytes(value),
{
    let bytes = u64_to_le_bytes(value);
    put_bytes(out, bytes.as_slice());
}

fn put_varint(out: &mut Vec<u8>, value: u64)
    ensures
        final(out)@ == old(out)@ + varint(value as nat),
{
    let ghost start = out@;
    let mut rest: u64 = value;
    while rest >= 128
        invariant
            start + varint(value as nat) == out@ + varint(rest as nat),
        decreases rest,
    {
        let ghost before = out@;
        let low: u8 = (rest % 128 + 128) as u8;
        out.push(low);
        proof {
            assert(before + (seq![low] + varint((rest / 128) as nat)) =~= before.push(low) + varint(
                (rest / 128) as nat,
            ));
        }
        rest = rest / 128;
    }
    let ghost before = out@;
    out.push(rest as u8);
    assert(before + seq![rest as u8] =~= before.push(rest as u8));
}

fn put_varint_field(out: &mut Vec<u8>, number: u8, value: u64)
    requires
        number < 32,
    ensures
        final(out)@ == old(out)@ + varint_field(number, value as nat),
{
    let ghost start = out@;
    let key: u8 = number * 8;
    out.push(key);
    put_varint(out, value);
    assert(out@ =~= start + varint_field(number, value as nat));
}

fn put_bytes_field(out: &mut Vec<u8>, number: u8, bytes: &[u8])
    requires
        number < 31,
    ensures
        final(out)@ == old(out)@ + bytes_field(number, bytes@),
{
    let ghost start = out@;
    let key: u8 = number * 8 + 2;
    out.push(key);
    put_varint(out, bytes.len() as u64);
    put_bytes(out, bytes);
    assert(out@ =~= start + bytes_field(number, bytes@));
}

impl SlotStatus {
    /// The number the status is written as.
    pub fn code(&self) -> (code: u8)
        ensures
            code == status_code(*self),
    {
        match self {
            SlotStatus::Processed => 0,
            SlotStatus::Confirmed => 1,
            SlotStatus::Rooted => 2,
            SlotStatus::FirstShredReceived => 3,
            SlotStatus::Completed => 4,
            SlotStatus::CreatedBank => 5,
            SlotStatus::Dead(_) => 6,
        }
    }
}

impl ProtobufMessage {
    /// The number the event's kind is written as.
    pub fn kind(&self) -> (code: u8)
        ensures
            code == self.kind_code(),
    {
        match self {
            ProtobufMessage::Account { .. } => 1,
            ProtobufMessage::Slot { .. } => 2,
            ProtobufMessage::Transaction { .. } => 3,
            ProtobufMessage::Entry { .. } => 4,
            ProtobufMessage::BlockMeta { .. } => 5,
        }
    }

    fn body_bytes(&self) -> (bytes: &[u8])
        ensures
            bytes@ == self.body(),
    {
        match self {
            ProtobufMessage::Account { data, .. } => data.as_slice(),
            ProtobufMessage::Slot { status, .. } => match status {
                SlotStatus::Dead(reason) => reason.as_str().as_bytes(),
                _ => {
                    let empty: &[u8] = &[];
                    assert(empty@ =~= Seq::<u8>::empty());
                    empty
                },
            },
            ProtobufMessage::Transaction { transaction, .. } => transaction.as_slice(),
            ProtobufMessage::Entry { entry, .. } => entry.as_slice(),
            ProtobufMessage::BlockMeta { blockinfo, .. } => blockinfo.as_slice(),
        }
    }

    fn encode_raw(&self) -> (bytes: Vec<u8>)
        ensures
            bytes@ == encoded_raw(*self),
    {
        let mut out: Vec<u8> = Vec::new();
        out.push(self.kind());
        put_u64(&mut out, self.slot());
        match self {
            ProtobufMessage::Slot { parent, status, .. } => {
                match parent {
                    Some(parent) => {
                        out.push(1);
                        put_u64(&mut out, *parent);
                    },
                    None => {
                        out.push(0);
                    },
                }
                out.push(status.code());
            },
            _ => {},
        }
        put_bytes(&mut out, self.body_bytes());
        assert(out@ =~= encoded_raw(*self));
        out
    }

    fn encode_prost(&self) -> (bytes: Vec<u8>)
        ensures
            bytes@ == encoded_prost(*self),
    {
        let mut out: Vec<u8> = Vec::new();
        put_varint_field(&mut out, 1, self.kind() as u64);
        put_varint_field(&mut out, 2, self.slot());
        match self {
            ProtobufMessage::Slot { parent, status, .. } => {
                match parent {
                    Some(parent) => {
                        put_varint_field(&mut out, 3, *parent);
                    },
                    None => {},
                }
                put_varint_field(&mut out, 4, status.code() as u64);
            },
            _ => {},
        }
        put_bytes_field(&mut out, 5, self.body_bytes());
        assert(out@ =~= encoded_prost(*self));
        out
    }

    /// Encodes the event in the given mode. The result depends on the event and
    /// the mode alone.
    pub fn encode(&self, encoder: ProtobufEncoder) -> (bytes: Vec<u8>)
        ensures
            bytes@ == encoded(*self, encoder),
    {
        match encoder {
            ProtobufEncoder::Prost => self.encode_prost(),
            ProtobufEncoder::Raw => self.encode_raw(),
        }
    }
}

} // verus!
