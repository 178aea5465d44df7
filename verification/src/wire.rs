//! Compact, schema-less binary encoding of trace packets: unsigned values as
//! base-128 varints, buffers length-prefixed, one tag byte per payload
//! variant.
use vstd::prelude::*;
use vstd::arithmetic::div_mod::{lemma_fundamental_div_mod, lemma_remainder_lower, lemma_remainder_upper};
use crate::protocol::{EventInfo, TraceData, TracePacket, MAX_INFO_SIZE};

verus! {

/// Little-endian base-128 encoding: seven value bits per byte, the high bit
/// set on every byte but the last.
pub open spec fn spec_varint(v: u64) -> Seq<u8>
    decreases v,
{
    if v < 128 {
        seq![v as u8]
    } else {
        seq![((v % 128) + 128) as u8] + spec_varint(v / 128)
    }
}

/// 128 raised to `n`.
pub open spec fn pow128(n: nat) -> nat
    decreases n,
{
    if n == 0 {
        1
    } else {
        128 * pow128((n - 1) as nat)
    }
}

proof fn lemma_varint_len_aux(v: u64, n: nat)
    requires
        1 <= n,
        (v as nat) < pow128(n),
    ensures
        1 <= spec_varint(v).len() <= n,
    decreases n,
{
    if v >= 128 {
        let q = (v as int) / 128;
        let p = pow128((n - 1) as nat) as int;
        lemma_fundamental_div_mod(v as int, 128);
        lemma_remainder_lower(v as int, 128);
        lemma_remainder_upper(v as int, 128);
        assert(128 * q <= v as int);
        assert(q < p);
        lemma_varint_len_aux(v / 128, (n - 1) as nat);
    }
}

/// A varint of a 64-bit value takes at most ten bytes.
pub proof fn lemma_varint_len(v: u64)
    ensures
        1 <= spec_varint(v).len() <= 10,
{
    assert(pow128(10) == 1180591620717411303424nat) by {
        reveal_with_fuel(pow128, 11);
    }
    lemma_varint_len_aux(v, 10);
}

/// The value a varint byte run denotes: seven low bits per byte, later
/// bytes more significant.
pub open spec fn spec_varint_value(b: Seq<u8>) -> nat
    decreases b.len(),
{
    if b.len() == 0 {
        0
    } else if b[0] < 128 {
        b[0] as nat
    } else {
        (b[0] - 128) as nat + 128 * spec_varint_value(b.drop_first())
    }
}

/// The varint encoding loses nothing: decoding the encoding of any value
/// gives back that value.
pub proof fn lemma_varint_round_trip(v: u64)
    ensures
        spec_varint_value(spec_varint(v)) == v,
    decreases v,
{
    if v >= 128 {
        lemma_varint_round_trip(v / 128);
        lemma_fundamental_div_mod(v as int, 128);
        assert(spec_varint(v).drop_first() =~= spec_varint(v / 128));
    }
}

/// The encoding of an optional span id: one presence byte, then the id.
pub open spec fn spec_encode_opt_id(p: Option<u64>) -> Seq<u8> {
    match p {
        None => seq![0u8],
        Some(id) => seq![1u8] + spec_varint(id),
    }
}

/// The encoding of a bounded buffer: its meaningful length, then its bytes.
pub open spec fn spec_encode_bytes(s: Seq<u8>) -> Seq<u8> {
    spec_varint(s.len() as u64) + s
}

/// The encoding of one payload: a tag byte, then the variant's fields.
pub open spec fn spec_encode_data(d: TraceData) -> Seq<u8> {
    match d {
        TraceData::NewSpan { id, name, name_len, info } => seq![0u8] + spec_varint(id)
            + spec_encode_bytes(name@.take(name_len as int)) + spec_encode_bytes(info@),
        TraceData::Record { span } => seq![1u8] + spec_varint(span),
        TraceData::Event { parent_span, name, name_len, info } => seq![2u8] + spec_encode_opt_id(
            parent_span,
        ) + spec_encode_bytes(name@.take(name_len as int)) + spec_encode_bytes(info@),
        TraceData::Enter { span } => seq![3u8] + spec_varint(span),
        TraceData::Exit { span } => seq![4u8] + spec_varint(span),
    }
}

/// The encoding of a whole packet: timestamp, capture-mode byte, payload.
pub open spec fn spec_encode_packet(p: TracePacket) -> Seq<u8> {
    spec_varint(p.timestamp) + seq![if p.with_process { 1u8 } else { 0u8 }] + spec_encode_data(
        p.data,
    )
}

/// An encoded packet never exceeds 560 bytes.
pub proof fn lemma_encode_packet_len(p: TracePacket)
    requires
        p.wf(),
    ensures
        spec_encode_packet(p).len() <= 560,
{
    broadcast use vstd::array::group_array_axioms;
    broadcast use crate::protocol::lemma_event_info_len;

    lemma_varint_len(p.timestamp);
    match p.data {
        TraceData::NewSpan { id, name, name_len, info } => {
            lemma_varint_len(id);
            lemma_varint_len(name@.take(name_len as int).len() as u64);
            lemma_varint_len(info@.len() as u64);
        },
        TraceData::Record { span } => lemma_varint_len(span),
        TraceData::Event { parent_span, name, name_len, info } => {
            if let Some(id) = parent_span {
                lemma_varint_len(id);
            }
            lemma_varint_len(name@.take(name_len as int).len() as u64);
            lemma_varint_len(info@.len() as u64);
        },
        TraceData::Enter { span } => lemma_varint_len(span),
        TraceData::Exit { span } => lemma_varint_len(span),
    }
}

/// Appends the varint encoding of `v` to `out`.
pub fn encode_u64(v: u64, out: &mut Vec<u8>)
    ensures
        final(out)@ == old(out)@ + spec_varint(v),
{
    let mut x = v;
    while x >= 128
        invariant
            old(out)@ + spec_varint(v) == out@ + spec_varint(x),
        decreases x,
    {
        out.push(((x % 128) + 128) as u8);
        x = x / 128;
    }
    out.push(x as u8);
    proof {
        assert(final(out)@ =~= old(out)@ + spec_varint(v));
    }
}

/// Appends the meaningful prefix of a fixed-capacity name buffer, length first.
fn encode_name(name: &[u8; MAX_INFO_SIZE], name_len: usize, out: &mut Vec<u8>)
    requires
        name_len <= MAX_INFO_SIZE,
    ensures
        final(out)@ == old(out)@ + spec_encode_bytes(name@.take(name_len as int)),
{
    encode_u64(name_len as u64, out);
    let mut i: usize = 0;
    while i < name_len
        invariant
            i <= name_len <= MAX_INFO_SIZE,
            out@ == old(out)@ + spec_varint(name_len as u64) + name@.take(i as int),
        decreases name_len - i,
    {
        out.push(name[i]);
        proof {
            assert(name@.take(i + 1) =~= name@.take(i as int).push(name@[i as int]));
        }
        i = i + 1;
    }
    proof {
        assert(final(out)@ =~= old(out)@ + spec_encode_bytes(name@.take(name_len as int)));
    }
}

/// Appends the meaningful bytes of a field set, length first.
fn encode_info(info: &EventInfo, out: &mut Vec<u8>)
    requires
        info.wf(),
    ensures
        final(out)@ == old(out)@ + spec_encode_bytes(info@),
{
    encode_u64(info.len() as u64, out);
    let n = info.len();
    let mut i: usize = 0;
    while i < n
        invariant
            i <= n == info@.len(),
            info.wf(),
            out@ == old(out)@ + spec_varint(info@.len() as u64) + info@.take(i as int),
        decreases n - i,
    {
        out.push(info.byte_at(i));
        proof {
            assert(info@.take(i + 1) =~= info@.take(i as int).push(info@[i as int]));
        }
        i = i + 1;
    }
    proof {
        assert(info@.take(n as int) =~= info@);
        assert(final(out)@ =~= old(out)@ + spec_encode_bytes(info@));
    }
}

/// Appends the compact encoding of `p` to `out`.
pub fn encode_packet(p: &TracePacket, out: &mut Vec<u8>)
    requires
        p.wf(),
    ensures
        final(out)@ == old(out)@ + spec_encode_packet(*p),
{
    encode_u64(p.timestamp, out);
    out.push(if p.with_process { 1u8 } else { 0u8 });
    match &p.data {
        TraceData::NewSpan { id, name, name_len, info } => {
            out.push(0u8);
            encode_u64(*id, out);
            encode_name(name, *name_len, out);
            encode_info(info, out);
        },
        TraceData::Record { span } => {
            out.push(1u8);
            encode_u64(*span, out);
        },
        TraceData::Event { parent_span, name, name_len, info } => {
            out.push(2u8);
            match parent_span {
                None => out.push(0u8),
                Some(id) => {
                    out.push(1u8);
                    encode_u64(*id, out);
                },
            }
            encode_name(name, *name_len, out);
            encode_info(info, out);
        },
        TraceData::Enter { span } => {
            out.push(3u8);
            encode_u64(*span, out);
        },
        TraceData::Exit { span } => {
            out.push(4u8);
            encode_u64(*span, out);
        },
    }
    proof {
        assert(final(out)@ =~= old(out)@ + spec_encode_packet(*p));
    }
}

} // verus!
