//! Consistent Overhead Byte Stuffing: re-codes a payload so that it contains
//! no zero byte, letting a single zero delimit messages on the stream.
use vstd::prelude::*;

verus! {

/// Index of the first zero byte in `s`, or `s.len()` when `s` has none.
pub open spec fn first_zero(s: Seq<u8>) -> nat
    decreases s.len(),
{
    if s.len() == 0 {
        0
    } else if s[0] == 0 {
        0
    } else {
        1 + first_zero(s.drop_first())
    }
}

proof fn lemma_first_zero(s: Seq<u8>)
    ensures
        first_zero(s) <= s.len(),
        forall|i: int| 0 <= i < first_zero(s) ==> s[i] != 0,
        first_zero(s) < s.len() ==> s[first_zero(s) as int] == 0,
    decreases s.len(),
{
    if s.len() > 0 && s[0] != 0 {
        lemma_first_zero(s.drop_first());
        assert forall|i: int| 0 <= i < first_zero(s) implies s[i] != 0 by {
            if i > 0 {
                assert(s.drop_first()[i - 1] == s[i]);
            }
        }
    }
}

/// The stuffed form of `s`, without the trailing delimiter: groups of at most
/// 254 zero-free bytes, each preceded by a code byte that is one more than
/// the group's length; a code byte of 255 marks a full group that swallowed
/// no zero.
pub open spec fn spec_cobs_body(s: Seq<u8>) -> Seq<u8>
    decreases s.len(),
{
    let z = first_zero(s);
    if s.len() >= 254 && z >= 254 {
        seq![255u8] + s.take(254) + spec_cobs_body(s.skip(254))
    } else if z < s.len() {
        seq![(z + 1) as u8] + s.take(z as int) + spec_cobs_body(s.skip(z + 1 as int))
    } else {
        seq![(s.len() + 1) as u8] + s
    }
}

/// A framed message: the stuffed payload followed by the zero delimiter.
pub open spec fn spec_cobs_frame(s: Seq<u8>) -> Seq<u8> {
    spec_cobs_body(s) + seq![0u8]
}

/// No byte of the stuffed payload is zero: the delimiter is unambiguous.
pub proof fn lemma_cobs_body_nonzero(s: Seq<u8>)
    ensures
        forall|i: int| 0 <= i < spec_cobs_body(s).len() ==> spec_cobs_body(s)[i] != 0,
    decreases s.len(),
{
    lemma_first_zero(s);
    let z = first_zero(s);
    let b = spec_cobs_body(s);
    if s.len() >= 254 && z >= 254 {
        lemma_cobs_body_nonzero(s.skip(254));
        assert forall|i: int| 0 <= i < b.len() implies b[i] != 0 by {
            if i == 0 {
            } else if i < 255 {
                assert(b[i] == s[i - 1]);
            } else {
                assert(b[i] == spec_cobs_body(s.skip(254))[i - 255]);
            }
        }
    } else if z < s.len() {
        lemma_cobs_body_nonzero(s.skip(z + 1 as int));
        assert forall|i: int| 0 <= i < b.len() implies b[i] != 0 by {
            if i == 0 {
            } else if i < z + 1 {
                assert(b[i] == s[i - 1]);
            } else {
                assert(b[i] == spec_cobs_body(s.skip(z + 1 as int))[i - z - 1]);
            }
        }
    } else {
        assert forall|i: int| 0 <= i < b.len() implies b[i] != 0 by {
            if i > 0 {
                assert(b[i] == s[i - 1]);
            }
        }
    }
}

/// Stuffing costs at least one byte and at most one byte per input byte.
pub proof fn lemma_cobs_body_len(s: Seq<u8>)
    ensures
        s.len() + 1 <= spec_cobs_body(s).len() <= 2 * s.len() + 1,
    decreases s.len(),
{
    lemma_first_zero(s);
    let z = first_zero(s);
    if s.len() >= 254 && z >= 254 {
        lemma_cobs_body_len(s.skip(254));
    } else if z < s.len() {
        lemma_cobs_body_len(s.skip(z + 1 as int));
    }
}

/// Undoes the stuffing of a well-formed body: each code byte names how many
/// data bytes follow and — unless it is 255 or closes the body — stands for
/// one swallowed zero.
pub open spec fn spec_cobs_decode(b: Seq<u8>) -> Seq<u8>
    decreases b.len(),
{
    if b.len() == 0 {
        Seq::empty()
    } else {
        let code = b[0] as int;
        if code == 0 || b.len() < 1 + (code - 1) {
            Seq::empty()
        } else {
            let group = b.subrange(1, code);
            if b.len() == code {
                group
            } else if code == 255 {
                group + spec_cobs_decode(b.skip(255))
            } else {
                group + seq![0u8] + spec_cobs_decode(b.skip(code))
            }
        }
    }
}

/// Stuffing loses nothing and is unambiguous: decoding the stuffed body of
/// any payload gives back exactly that payload.
pub proof fn lemma_cobs_round_trip(s: Seq<u8>)
    ensures
        spec_cobs_decode(spec_cobs_body(s)) == s,
    decreases s.len(),
{
    lemma_first_zero(s);
    let z = first_zero(s);
    let b = spec_cobs_body(s);
    if s.len() >= 254 && z >= 254 {
        let rest = spec_cobs_body(s.skip(254));
        lemma_cobs_body_len(s.skip(254));
        lemma_cobs_round_trip(s.skip(254));
        assert(b.subrange(1, 255) =~= s.take(254));
        assert(b.skip(255) =~= rest);
        assert(spec_cobs_decode(b) =~= s);
    } else if z < s.len() {
        let rest = spec_cobs_body(s.skip(z + 1 as int));
        lemma_cobs_body_len(s.skip(z + 1 as int));
        lemma_cobs_round_trip(s.skip(z + 1 as int));
        assert(b.subrange(1, z + 1 as int) =~= s.take(z as int));
        assert(b.skip(z + 1 as int) =~= rest);
        assert(s[z as int] == 0);
        assert(spec_cobs_decode(b) =~= s);
    } else {
        assert(b.subrange(1, s.len() + 1 as int) =~= s);
        assert(spec_cobs_decode(b) =~= s);
    }
}

/// Appends `cnt` bytes of `data` starting at `pos` to `out`.
fn push_run(data: &Vec<u8>, pos: usize, cnt: usize, out: &mut Vec<u8>)
    requires
        pos + cnt <= data@.len(),
    ensures
        final(out)@ == old(out)@ + data@.subrange(pos as int, pos + cnt),
{
    let dn = data.len();
    let mut k: usize = 0;
    while k < cnt
        invariant
            k <= cnt,
            pos + cnt <= dn == data@.len(),
            out@ == old(out)@ + data@.subrange(pos as int, pos + k),
        decreases cnt - k,
    {
        out.push(data[pos + k]);
        proof {
            assert(data@.subrange(pos as int, pos + k + 1) =~= data@.subrange(
                pos as int,
                pos + k,
            ).push(data@[pos + k]));
        }
        k = k + 1;
    }
}

/// The framed form of `data`: its stuffed bytes followed by the single zero
/// delimiter. The result holds no other zero byte and is at most one code
/// byte per input byte plus two longer than the input.
pub fn cobs_frame(data: &Vec<u8>) -> (out: Vec<u8>)
    ensures
        out@ == spec_cobs_frame(data@),
        out@.len() <= 2 * data@.len() + 2,
        out@.len() >= 1 && out@[out@.len() - 1] == 0,
        forall|i: int| 0 <= i < out@.len() - 1 ==> out@[i] != 0,
{
    let n = data.len();
    let mut out: Vec<u8> = Vec::new();
    let mut pos: usize = 0;
    proof {
        assert(data@.skip(0) =~= data@);
    }
    loop
        invariant
            pos <= n == data@.len(),
            spec_cobs_body(data@) == out@ + spec_cobs_body(data@.skip(pos as int)),
        decreases n - pos,
    {
        let rem = n - pos;
        let lim = if rem < 254 {
            rem
        } else {
            254
        };
        let mut z: usize = 0;
        while z < lim && data[pos + z] != 0
            invariant
                z <= lim <= 254,
                pos + lim <= n == data@.len(),
                forall|k: int| 0 <= k < z ==> #[trigger] data@[pos + k] != 0,
            decreases lim - z,
        {
            z = z + 1;
        }
        let ghost suf = data@.skip(pos as int);
        proof {
            lemma_first_zero(suf);
            assert forall|k: int| 0 <= k < z implies #[trigger] suf[k] != 0 by {
                assert(suf[k] == data@[pos + k]);
            }
        }
        if z < lim {
            // a zero inside the next 254 bytes: it is swallowed by the code byte
            proof {
                assert(suf[z as int] == data@[pos + z]);
                assert(first_zero(suf) == z);
            }
            out.push((z + 1) as u8);
            push_run(data, pos, z, &mut out);
            proof {
                assert(suf.take(z as int) =~= data@.subrange(pos as int, pos + z));
                assert(suf.skip(z + 1 as int) =~= data@.skip(pos + z + 1));
                assert(spec_cobs_body(suf) == seq![(z + 1) as u8] + suf.take(z as int)
                    + spec_cobs_body(suf.skip(z + 1 as int)));
            }
            pos = pos + z + 1;
        } else if rem >= 254 {
            // a full zero-free group
            proof {
                assert(first_zero(suf) >= 254);
                assert(suf.take(254) =~= data@.subrange(pos as int, pos + 254));
                assert(suf.skip(254) =~= data@.skip(pos + 254));
            }
            out.push(255u8);
            push_run(data, pos, 254, &mut out);
            pos = pos + 254;
        } else {
            // the zero-free tail: emit it and the delimiter
            proof {
                assert(first_zero(suf) == suf.len());
                assert(suf =~= data@.subrange(pos as int, pos + rem));
                assert(spec_cobs_body(suf) == seq![(suf.len() + 1) as u8] + suf);
            }
            out.push((rem + 1) as u8);
            push_run(data, pos, rem, &mut out);
            out.push(0u8);
            proof {
                lemma_cobs_body_len(data@);
                lemma_cobs_body_nonzero(data@);
                assert(out@ =~= spec_cobs_frame(data@));
                assert forall|i: int| 0 <= i < out@.len() - 1 implies out@[i] != 0 by {
                    assert(out@[i] == spec_cobs_body(data@)[i]);
                }
            }
            return out;
        }
    }
}

} // verus!
