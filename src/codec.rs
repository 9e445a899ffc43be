//! The canonical wire layout of the two payloads that are hashed and signed.
//!
//! Fields follow one another in declaration order: fixed-size byte arrays as
//! they are, integers as little-endian `u64`, and the variable flag data as a
//! little-endian `u32` length followed by its bytes.
use crate::state::CustomError;
use vstd::prelude::*;

verus! {

/// Little-endian bytes of a `u64`.
pub open spec fn u64_le(v: u64) -> Seq<u8> {
    seq![
        v as u8,
        (v >> 8u64) as u8,
        (v >> 16u64) as u8,
        (v >> 24u64) as u8,
        (v >> 32u64) as u8,
        (v >> 40u64) as u8,
        (v >> 48u64) as u8,
        (v >> 56u64) as u8,
    ]
}

/// The `u64` that the first eight bytes of `s` hold, little-endian.
pub open spec fn le_u64(s: Seq<u8>) -> u64 {
    (s[0] as u64) | ((s[1] as u64) << 8u64) | ((s[2] as u64) << 16u64) | ((s[3] as u64) << 24u64)
        | ((s[4] as u64) << 32u64) | ((s[5] as u64) << 40u64) | ((s[6] as u64) << 48u64) | ((
    s[7] as u64) << 56u64)
}

/// The `u64` that the first eight bytes of `s` hold, big-endian.
pub open spec fn be_u64(s: Seq<u8>) -> u64 {
    ((s[0] as u64) << 56u64) | ((s[1] as u64) << 48u64) | ((s[2] as u64) << 40u64) | ((
    s[3] as u64) << 32u64) | ((s[4] as u64) << 24u64) | ((s[5] as u64) << 16u64) | ((
    s[6] as u64) << 8u64) | (s[7] as u64)
}

/// Little-endian bytes of a `u32`.
pub open spec fn u32_le(v: u32) -> Seq<u8> {
    seq![v as u8, (v >> 8u32) as u8, (v >> 16u32) as u8, (v >> 24u32) as u8]
}

/// The `u32` that the first four bytes of `s` hold, little-endian.
pub open spec fn le_u32(s: Seq<u8>) -> u32 {
    (s[0] as u32) | ((s[1] as u32) << 8u32) | ((s[2] as u32) << 16u32) | ((s[3] as u32) << 24u32)
}

/// Whether flag data is short enough for its `u32` length prefix.
pub open spec fn flag_data_fits(d: Seq<u8>) -> bool {
    d.len() <= u32::MAX
}

/// The length prefix followed by the bytes.
pub open spec fn bytes_with_len(d: Seq<u8>) -> Seq<u8> {
    u32_le(d.len() as u32) + d
}

/// Size of an encoded outbound payload without its flag data.
pub const SEND_PAYLOAD_FIXED_LEN: usize = 128;

/// An outbound transfer as authorized by the send signer.
#[derive(Clone, Debug, PartialEq, Eq)]
pub struct SendPayload {
    pub token_address: [u8; 32],
    pub token_address_to: [u8; 20],
    pub amount_to_send: u64,
    pub fee_amount: u64,
    /// Must be the local chain.
    pub chain_from: u64,
    /// Must be the remote chain.
    pub chain_to: u64,
    pub timestamp: u64,
    pub flags: [u8; 32],
    pub flag_data: Vec<u8>,
}

/// An inbound transfer, also the record emitted when it is applied.
#[derive(Clone, Debug, PartialEq, Eq)]
pub struct ReceivePayload {
    pub to: [u8; 32],
    pub token_address_to: [u8; 32],
    pub amount_to: u64,
    /// Must be the remote chain.
    pub chain_from: u64,
    /// Must be the local chain.
    pub chain_to: u64,
    pub event_id: u64,
    pub flags: [u8; 32],
    pub flag_data: Vec<u8>,
}

/// The canonical bytes of an outbound payload.
pub open spec fn send_payload_bytes(p: SendPayload) -> Seq<u8> {
    p.token_address@ + p.token_address_to@ + u64_le(p.amount_to_send) + u64_le(p.fee_amount)
        + u64_le(p.chain_from) + u64_le(p.chain_to) + u64_le(p.timestamp) + p.flags@
        + bytes_with_len(p.flag_data@)
}

/// The canonical bytes of an inbound payload.
pub open spec fn receive_payload_bytes(p: ReceivePayload) -> Seq<u8> {
    p.to@ + p.token_address_to@ + u64_le(p.amount_to) + u64_le(p.chain_from) + u64_le(p.chain_to)
        + u64_le(p.event_id) + p.flags@ + bytes_with_len(p.flag_data@)
}

/// Some outbound payload is encoded as `b`.
pub open spec fn is_send_payload_encoding(b: Seq<u8>) -> bool {
    exists|p: SendPayload| flag_data_fits(p.flag_data@) && #[trigger] send_payload_bytes(p) == b
}

/// The outbound payload that `b` encodes (meaningful when there is one).
pub open spec fn decoded_send_payload(b: Seq<u8>) -> SendPayload {
    choose|p: SendPayload| flag_data_fits(p.flag_data@) && #[trigger] send_payload_bytes(p) == b
}

/// The two payloads agree on every field.
pub open spec fn same_send_payload(p: SendPayload, q: SendPayload) -> bool {
    &&& p.token_address@ == q.token_address@
    &&& p.token_address_to@ == q.token_address_to@
    &&& p.amount_to_send == q.amount_to_send
    &&& p.fee_amount == q.fee_amount
    &&& p.chain_from == q.chain_from
    &&& p.chain_to == q.chain_to
    &&& p.timestamp == q.timestamp
    &&& p.flags@ == q.flags@
    &&& p.flag_data@ == q.flag_data@
}

/// The two payloads agree on every field.
pub open spec fn same_receive_payload(p: ReceivePayload, q: ReceivePayload) -> bool {
    &&& p.to@ == q.to@
    &&& p.token_address_to@ == q.token_address_to@
    &&& p.amount_to == q.amount_to
    &&& p.chain_from == q.chain_from
    &&& p.chain_to == q.chain_to
    &&& p.event_id == q.event_id
    &&& p.flags@ == q.flags@
    &&& p.flag_data@ == q.flag_data@
}

proof fn lemma_le_u64_of_u64_le(v: u64)
    ensures
        le_u64(u64_le(v)) == v,
{
    assert(((v as u8) as u64 | (((v >> 8u64) as u8) as u64) << 8u64 | (((v >> 16u64) as u8) as u64)
        << 16u64 | (((v >> 24u64) as u8) as u64) << 24u64 | (((v >> 32u64) as u8) as u64) << 32u64
        | (((v >> 40u64) as u8) as u64) << 40u64 | (((v >> 48u64) as u8) as u64) << 48u64 | (((v
        >> 56u64) as u8) as u64) << 56u64) == v) by (bit_vector);
}

proof fn lemma_u64_le_of_le_u64(s: Seq<u8>)
    requires
        s.len() == 8,
    ensures
        u64_le(le_u64(s)) == s,
{
    let (b0, b1, b2, b3, b4, b5, b6, b7) = (s[0], s[1], s[2], s[3], s[4], s[5], s[6], s[7]);
    let x = le_u64(s);
    assert(x as u8 == b0 && (x >> 8u64) as u8 == b1 && (x >> 16u64) as u8 == b2 && (x >> 24u64) as u8
        == b3 && (x >> 32u64) as u8 == b4 && (x >> 40u64) as u8 == b5 && (x >> 48u64) as u8 == b6 && (x
        >> 56u64) as u8 == b7) by (bit_vector)
        requires
            x == (b0 as u64) | ((b1 as u64) << 8u64) | ((b2 as u64) << 16u64) | ((b3 as u64)
                << 24u64) | ((b4 as u64) << 32u64) | ((b5 as u64) << 40u64) | ((b6 as u64) << 48u64)
                | ((b7 as u64) << 56u64),
    ;
    assert(u64_le(x) =~= s);
}

proof fn lemma_le_u32_of_u32_le(v: u32)
    ensures
        le_u32(u32_le(v)) == v,
{
    assert(((v as u8) as u32 | (((v >> 8u32) as u8) as u32) << 8u32 | (((v >> 16u32) as u8) as u32)
        << 16u32 | (((v >> 24u32) as u8) as u32) << 24u32) == v) by (bit_vector);
}

proof fn lemma_u32_le_of_le_u32(s: Seq<u8>)
    requires
        s.len() == 4,
    ensures
        u32_le(le_u32(s)) == s,
{
    let (b0, b1, b2, b3) = (s[0], s[1], s[2], s[3]);
    let x = le_u32(s);
    assert(x as u8 == b0 && (x >> 8u32) as u8 == b1 && (x >> 16u32) as u8 == b2 && (x >> 24u32) as u8
        == b3) by (bit_vector)
        requires
            x == (b0 as u32) | ((b1 as u32) << 8u32) | ((b2 as u32) << 16u32) | ((b3 as u32)
                << 24u32),
    ;
    assert(u32_le(x) =~= s);
}

/// Where each field lies in the encoding of an outbound payload.
proof fn lemma_send_payload_layout(p: SendPayload)
    requires
        flag_data_fits(p.flag_data@),
    ensures
        ({
            let b = send_payload_bytes(p);
            &&& b.len() == 128 + p.flag_data@.len()
            &&& b.subrange(0, 32) == p.token_address@
            &&& b.subrange(32, 52) == p.token_address_to@
            &&& b.subrange(52, 60) == u64_le(p.amount_to_send)
            &&& b.subrange(60, 68) == u64_le(p.fee_amount)
            &&& b.subrange(68, 76) == u64_le(p.chain_from)
            &&& b.subrange(76, 84) == u64_le(p.chain_to)
            &&& b.subrange(84, 92) == u64_le(p.timestamp)
            &&& b.subrange(92, 124) == p.flags@
            &&& b.subrange(124, 128) == u32_le(p.flag_data@.len() as u32)
            &&& b.subrange(128, b.len() as int) == p.flag_data@
        }),
{
    let b = send_payload_bytes(p);
    assert(b.subrange(0, 32) =~= p.token_address@);
    assert(b.subrange(32, 52) =~= p.token_address_to@);
    assert(b.subrange(52, 60) =~= u64_le(p.amount_to_send));
    assert(b.subrange(60, 68) =~= u64_le(p.fee_amount));
    assert(b.subrange(68, 76) =~= u64_le(p.chain_from));
    assert(b.subrange(76, 84) =~= u64_le(p.chain_to));
    assert(b.subrange(84, 92) =~= u64_le(p.timestamp));
    assert(b.subrange(92, 124) =~= p.flags@);
    assert(b.subrange(124, 128) =~= u32_le(p.flag_data@.len() as u32));
    assert(b.subrange(128, b.len() as int) =~= p.flag_data@);
}

/// Decoding is exact: two outbound payloads with the same canonical bytes
/// agree on every field, so the bytes that are signed fix the payload.
pub proof fn lemma_send_payload_bytes_injective(p: SendPayload, q: SendPayload)
    requires
        flag_data_fits(p.flag_data@),
        flag_data_fits(q.flag_data@),
        send_payload_bytes(p) == send_payload_bytes(q),
    ensures
        same_send_payload(p, q),
{
    lemma_send_payload_layout(p);
    lemma_send_payload_layout(q);
    lemma_le_u64_of_u64_le(p.amount_to_send);
    lemma_le_u64_of_u64_le(q.amount_to_send);
    lemma_le_u64_of_u64_le(p.fee_amount);
    lemma_le_u64_of_u64_le(q.fee_amount);
    lemma_le_u64_of_u64_le(p.chain_from);
    lemma_le_u64_of_u64_le(q.chain_from);
    lemma_le_u64_of_u64_le(p.chain_to);
    lemma_le_u64_of_u64_le(q.chain_to);
    lemma_le_u64_of_u64_le(p.timestamp);
    lemma_le_u64_of_u64_le(q.timestamp);
}

/// The decoded payload of a valid encoding is the one that was encoded.
pub proof fn lemma_decoded_send_payload(p: SendPayload)
    requires
        flag_data_fits(p.flag_data@),
    ensures
        is_send_payload_encoding(send_payload_bytes(p)),
        same_send_payload(decoded_send_payload(send_payload_bytes(p)), p),
{
    let b = send_payload_bytes(p);
    assert(flag_data_fits(p.flag_data@) && send_payload_bytes(p) == b);
    let q = decoded_send_payload(b);
    lemma_send_payload_bytes_injective(q, p);
}

/// Appends the bytes of `s`.
fn push_bytes(out: &mut Vec<u8>, s: &[u8])
    ensures
        final(out)@ == old(out)@ + s@,
{
    let mut i: usize = 0;
    while i < s.len()
        invariant
            i <= s@.len(),
            out@ == old(out)@ + s@.subrange(0, i as int),
        decreases s@.len() - i,
    {
        out.push(s[i]);
        i = i + 1;
        proof {
            assert(out@ =~= old(out)@ + s@.subrange(0, i as int));
        }
    }
    proof {
        assert(s@.subrange(0, s@.len() as int) =~= s@);
    }
}

fn push_u64_le(out: &mut Vec<u8>, v: u64)
    ensures
        final(out)@ == old(out)@ + u64_le(v),
{
    out.push(v as u8);
    out.push((v >> 8u64) as u8);
    out.push((v >> 16u64) as u8);
    out.push((v >> 24u64) as u8);
    out.push((v >> 32u64) as u8);
    out.push((v >> 40u64) as u8);
    out.push((v >> 48u64) as u8);
    out.push((v >> 56u64) as u8);
    proof {
        assert(out@ =~= old(out)@ + u64_le(v));
    }
}

fn push_u32_le(out: &mut Vec<u8>, v: u32)
    ensures
        final(out)@ == old(out)@ + u32_le(v),
{
    out.push(v as u8);
    out.push((v >> 8u32) as u8);
    out.push((v >> 16u32) as u8);
    out.push((v >> 24u32) as u8);
    proof {
        assert(out@ =~= old(out)@ + u32_le(v));
    }
}

/// The `u64` stored little-endian at `off`.
pub fn read_u64_le(b: &[u8], off: usize) -> (r: u64)
    requires
        off + 8 <= b@.len(),
    ensures
        r == le_u64(b@.subrange(off as int, off + 8)),
{
    (b[off] as u64) | ((b[off + 1] as u64) << 8u64) | ((b[off + 2] as u64) << 16u64) | ((b[off
        + 3] as u64) << 24u64) | ((b[off + 4] as u64) << 32u64) | ((b[off + 5] as u64) << 40u64)
        | ((b[off + 6] as u64) << 48u64) | ((b[off + 7] as u64) << 56u64)
}

/// The `u64` stored big-endian at `off`.
pub fn read_u64_be(b: &[u8], off: usize) -> (r: u64)
    requires
        off + 8 <= b@.len(),
    ensures
        r == be_u64(b@.subrange(off as int, off + 8)),
{
    ((b[off] as u64) << 56u64) | ((b[off + 1] as u64) << 48u64) | ((b[off + 2] as u64) << 40u64)
        | ((b[off + 3] as u64) << 32u64) | ((b[off + 4] as u64) << 24u64) | ((b[off + 5] as u64)
        << 16u64) | ((b[off + 6] as u64) << 8u64) | (b[off + 7] as u64)
}

fn read_u32_le(b: &[u8], off: usize) -> (r: u32)
    requires
        off + 4 <= b@.len(),
    ensures
        r == le_u32(b@.subrange(off as int, off + 4)),
{
    (b[off] as u32) | ((b[off + 1] as u32) << 8u32) | ((b[off + 2] as u32) << 16u32) | ((b[off
        + 3] as u32) << 24u32)
}

fn read_bytes32(b: &[u8], off: usize) -> (r: [u8; 32])
    requires
        off + 32 <= b@.len(),
    ensures
        r@ == b@.subrange(off as int, off + 32),
{
    let mut r: [u8; 32] = [0u8; 32];
    let mut i: usize = 0;
    let n: usize = b.len();
    while i < 32
        invariant
            i <= 32,
            n == b@.len(),
            off + 32 <= n,
            forall|j: int| 0 <= j < i ==> r@[j] == b@[off + j],
        decreases 32 - i,
    {
        r[i] = b[off + i];
        i = i + 1;
    }
    proof {
        assert(r@ =~= b@.subrange(off as int, off + 32));
    }
    r
}

fn read_bytes20(b: &[u8], off: usize) -> (r: [u8; 20])
    requires
        off + 20 <= b@.len(),
    ensures
        r@ == b@.subrange(off as int, off + 20),
{
    let mut r: [u8; 20] = [0u8; 20];
    let mut i: usize = 0;
    let n: usize = b.len();
    while i < 20
        invariant
            i <= 20,
            n == b@.len(),
            off + 20 <= n,
            forall|j: int| 0 <= j < i ==> r@[j] == b@[off + j],
        decreases 20 - i,
    {
        r[i] = b[off + i];
        i = i + 1;
    }
    proof {
        assert(r@ =~= b@.subrange(off as int, off + 20));
    }
    r
}

fn read_tail(b: &[u8], off: usize) -> (r: Vec<u8>)
    requires
        off <= b@.len(),
    ensures
        r@ == b@.subrange(off as int, b@.len() as int),
{
    let mut r: Vec<u8> = Vec::new();
    let mut i: usize = off;
    while i < b.len()
        invariant
            off <= i <= b@.len(),
            r@ == b@.subrange(off as int, i as int),
        decreases b@.len() - i,
    {
        r.push(b[i]);
        i = i + 1;
        proof {
            assert(r@ =~= b@.subrange(off as int, i as int));
        }
    }
    r
}

impl SendPayload {
    /// Decodes an outbound payload; fails with `InvalidSerialization` unless
    /// `data` is exactly the canonical encoding of some payload.
    pub fn try_from_slice(data: &[u8]) -> (r: Result<SendPayload, CustomError>)
        ensures
            r is Ok <==> is_send_payload_encoding(data@),
            r matches Ok(p) ==> flag_data_fits(p.flag_data@) && send_payload_bytes(p) == data@,
            r matches Err(e) ==> e == CustomError::InvalidSerialization,
    {
        let n = data.len();
        if n < SEND_PAYLOAD_FIXED_LEN {
            proof {
                lemma_not_send_encoding(data@);
            }
            return Err(CustomError::InvalidSerialization);
        }
        let len = read_u32_le(data, 124);
        if len as usize != n - SEND_PAYLOAD_FIXED_LEN {
            proof {
                lemma_not_send_encoding(data@);
            }
            return Err(CustomError::InvalidSerialization);
        }
        let p = SendPayload {
            token_address: read_bytes32(data, 0),
            token_address_to: read_bytes20(data, 32),
            amount_to_send: read_u64_le(data, 52),
            fee_amount: read_u64_le(data, 60),
            chain_from: read_u64_le(data, 68),
            chain_to: read_u64_le(data, 76),
            timestamp: read_u64_le(data, 84),
            flags: read_bytes32(data, 92),
            flag_data: read_tail(data, 128),
        };
        proof {
            let b = data@;
            lemma_u64_le_of_le_u64(b.subrange(52, 60));
            lemma_u64_le_of_le_u64(b.subrange(60, 68));
            lemma_u64_le_of_le_u64(b.subrange(68, 76));
            lemma_u64_le_of_le_u64(b.subrange(76, 84));
            lemma_u64_le_of_le_u64(b.subrange(84, 92));
            lemma_u32_le_of_le_u32(b.subrange(124, 128));
            assert(send_payload_bytes(p) =~= b);
        }
        Ok(p)
    }

    /// The canonical bytes of this payload; `InvalidSerialization` when the
    /// flag data is too long for its length prefix.
    pub fn try_to_vec(&self) -> (r: Result<Vec<u8>, CustomError>)
        ensures
            r is Ok <==> flag_data_fits(self.flag_data@),
            r matches Ok(v) ==> v@ == send_payload_bytes(*self),
            r matches Err(e) ==> e == CustomError::InvalidSerialization,
    {
        if self.flag_data.len() > u32::MAX as usize {
            return Err(CustomError::InvalidSerialization);
        }
        let mut out: Vec<u8> = Vec::new();
        push_bytes(&mut out, self.token_address.as_slice());
        push_bytes(&mut out, self.token_address_to.as_slice());
        push_u64_le(&mut out, self.amount_to_send);
        push_u64_le(&mut out, self.fee_amount);
        push_u64_le(&mut out, self.chain_from);
        push_u64_le(&mut out, self.chain_to);
        push_u64_le(&mut out, self.timestamp);
        push_bytes(&mut out, self.flags.as_slice());
        push_u32_le(&mut out, self.flag_data.len() as u32);
        push_bytes(&mut out, self.flag_data.as_slice());
        proof {
            assert(out@ =~= send_payload_bytes(*self));
        }
        Ok(out)
    }
}

impl ReceivePayload {
    /// The canonical bytes of this payload; `InvalidSerialization` when the
    /// flag data is too long for its length prefix.
    pub fn try_to_vec(&self) -> (r: Result<Vec<u8>, CustomError>)
        ensures
            r is Ok <==> flag_data_fits(self.flag_data@),
            r matches Ok(v) ==> v@ == receive_payload_bytes(*self),
            r matches Err(e) ==> e == CustomError::InvalidSerialization,
    {
        if self.flag_data.len() > u32::MAX as usize {
            return Err(CustomError::InvalidSerialization);
        }
        let mut out: Vec<u8> = Vec::new();
        push_bytes(&mut out, self.to.as_slice());
        push_bytes(&mut out, self.token_address_to.as_slice());
        push_u64_le(&mut out, self.amount_to);
        push_u64_le(&mut out, self.chain_from);
        push_u64_le(&mut out, self.chain_to);
        push_u64_le(&mut out, self.event_id);
        push_bytes(&mut out, self.flags.as_slice());
        push_u32_le(&mut out, self.flag_data.len() as u32);
        push_bytes(&mut out, self.flag_data.as_slice());
        proof {
            assert(out@ =~= receive_payload_bytes(*self));
        }
        Ok(out)
    }
}

/// A byte string whose length disagrees with its length prefix encodes no payload.
proof fn lemma_not_send_encoding(b: Seq<u8>)
    requires
        b.len() < 128 || b.len() - 128 != le_u32(b.subrange(124, 128)),
    ensures
        !is_send_payload_encoding(b),
{
    assert forall|p: SendPayload| flag_data_fits(p.flag_data@) implies #[trigger] send_payload_bytes(
        p,
    ) != b by {
        if send_payload_bytes(p) == b {
            lemma_send_payload_layout(p);
            lemma_le_u32_of_u32_le(p.flag_data@.len() as u32);
        }
    }
}

} // verus!
