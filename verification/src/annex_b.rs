//! Reframing of H.264 / H.265 bitstreams into Annex B form.
//!
//! Container formats (MP4, RTSP payloads) carry NAL units with big-endian
//! length prefixes ("AVCC" framing) and keep parameter sets in a
//! decoder-configuration record. Hardware decoders want Annex B: every NAL
//! unit preceded by the start code `00 00 00 01`.

use vstd::prelude::*;

verus! {

/// Video codec of a compressed stream.
#[derive(Clone, Copy, Debug, PartialEq, Eq)]
pub enum VideoCodec {
    /// H.264 / AVC.
    H264,
    /// H.265 / HEVC.
    H265,
}

/// The Annex B start code.
pub open spec fn start_code() -> Seq<u8> {
    seq![0u8, 0u8, 0u8, 1u8]
}

/// Big-endian 16-bit value at `at`.
pub open spec fn be16(s: Seq<u8>, at: int) -> nat {
    (s[at] as nat) * 256 + (s[at + 1] as nat)
}

/// Big-endian 32-bit value at `at`.
pub open spec fn be32(s: Seq<u8>, at: int) -> nat {
    (s[at] as nat) * 16777216 + (s[at + 1] as nat) * 65536 + (s[at + 2] as nat) * 256 + (
    s[at + 3] as nat)
}

/// Annex B form of the 4-byte length-prefixed NAL units of `s` from `offset` on.
///
/// Units are taken one after another; the conversion stops at the first unit
/// whose length is zero or runs past the end of `s`, and at a tail shorter
/// than a length prefix.
pub open spec fn avcc_units(s: Seq<u8>, offset: nat) -> Seq<u8>
    decreases s.len() - offset,
{
    if offset + 4 > s.len() {
        seq![]
    } else {
        let len = be32(s, offset as int);
        let start = offset + 4;
        if len == 0 || start + len > s.len() {
            seq![]
        } else {
            start_code() + s.subrange(start as int, (start + len) as int) + avcc_units(
                s,
                start + len,
            )
        }
    }
}

/// `count` NAL units with 2-byte length prefixes starting at `offset`, as
/// Annex B bytes, together with the offset just past the last unit.
///
/// When the record is truncated (a prefix or a unit runs past the end), the
/// bytes of the units before it are kept and the end offset is `None`.
pub open spec fn units16(s: Seq<u8>, offset: nat, count: nat) -> (Seq<u8>, Option<nat>)
    decreases count,
{
    if count == 0 {
        (seq![], Some(offset))
    } else if offset + 2 > s.len() {
        (seq![], None)
    } else {
        let len = be16(s, offset as int);
        let start = offset + 2;
        if start + len > s.len() {
            (seq![], None)
        } else {
            let rest = units16(s, start + len, (count - 1) as nat);
            (start_code() + s.subrange(start as int, (start + len) as int) + rest.0, rest.1)
        }
    }
}

/// Parameter sets of an `avcC` record (H.264 decoder configuration): the SPS
/// list whose count sits in the low five bits of byte 5, then the PPS list
/// whose count is the byte after the SPS list.
pub open spec fn avcc_parameter_sets(s: Seq<u8>) -> Seq<u8> {
    if s.len() < 7 {
        seq![]
    } else {
        let sps = units16(s, 6, (s[5] & 0x1fu8) as nat);
        match sps.1 {
            None => sps.0,
            Some(end) => if end >= s.len() {
                sps.0
            } else {
                sps.0 + units16(s, end + 1, s[end as int] as nat).0
            },
        }
    }
}

/// NAL-unit arrays of an `hvcC` record from `offset` on: each array is a
/// one-byte type, a 2-byte unit count, then the units.
pub open spec fn hvcc_arrays(s: Seq<u8>, offset: nat, count: nat) -> Seq<u8>
    decreases count,
{
    if count == 0 || offset + 3 > s.len() {
        seq![]
    } else {
        let units = units16(s, offset + 3, be16(s, (offset + 1) as int));
        match units.1 {
            None => units.0,
            Some(end) => units.0 + hvcc_arrays(s, end, (count - 1) as nat),
        }
    }
}

/// Parameter sets of an `hvcC` record (H.265 decoder configuration): the
/// array count is byte 22 and the arrays start at byte 23.
pub open spec fn hvcc_parameter_sets(s: Seq<u8>) -> Seq<u8> {
    if s.len() < 23 {
        seq![]
    } else {
        hvcc_arrays(s, 23, s[22] as nat)
    }
}

/// Parameter sets of a decoder-configuration record, as Annex B bytes.
pub open spec fn parameter_sets_annex_b(codec: VideoCodec, s: Seq<u8>) -> Seq<u8> {
    match codec {
        VideoCodec::H264 => avcc_parameter_sets(s),
        VideoCodec::H265 => hvcc_parameter_sets(s),
    }
}

fn push_start_code(out: &mut Vec<u8>)
    ensures
        final(out)@ == old(out)@ + start_code(),
{
    out.push(0u8);
    out.push(0u8);
    out.push(0u8);
    out.push(1u8);
}

/// Appends `data[from..to]` to `out`.
pub(crate) fn push_range(out: &mut Vec<u8>, data: &[u8], from: usize, to: usize)
    requires
        from <= to <= data@.len(),
    ensures
        final(out)@ == old(out)@ + data@.subrange(from as int, to as int),
{
    let mut i = from;
    while i < to
        invariant
            from <= i <= to <= data@.len(),
            out@ == old(out)@ + data@.subrange(from as int, i as int),
        decreases to - i,
    {
        out.push(data[i]);
        assert(data@.subrange(from as int, i + 1) == data@.subrange(from as int, i as int).push(
            data@[i as int],
        ));
        i = i + 1;
    }
}

/// Converts length-prefixed (AVCC) NAL units to Annex B.
///
/// Each 4-byte big-endian length prefix becomes the start code
/// `00 00 00 01`; conversion stops at the first zero-length or truncated
/// unit, keeping what came before it.
pub fn avcc_to_annex_b(avcc: &[u8]) -> (annex_b: Vec<u8>)
    ensures
        annex_b@ == avcc_units(avcc@, 0),
{
    let mut annex_b: Vec<u8> = Vec::with_capacity(avcc.len());
    let mut offset: usize = 0;
    while offset <= avcc.len() && 4 <= avcc.len() - offset
        invariant_except_break
            offset <= avcc@.len(),
            annex_b@ + avcc_units(avcc@, offset as nat) == avcc_units(avcc@, 0),
        ensures
            annex_b@ == avcc_units(avcc@, 0),
        decreases avcc@.len() - offset,
    {
        let len: u64 = (avcc[offset] as u64) * 16777216 + (avcc[offset + 1] as u64) * 65536 + (
        avcc[offset + 2] as u64) * 256 + (avcc[offset + 3] as u64);
        let start: usize = offset + 4;
        if len == 0 || len > (avcc.len() - start) as u64 {
            assert(avcc_units(avcc@, offset as nat) == Seq::<u8>::empty());
            assert(annex_b@ + Seq::<u8>::empty() == annex_b@);
            break;
        }
        let end: usize = start + len as usize;
        let ghost before = annex_b@;
        push_start_code(&mut annex_b);
        push_range(&mut annex_b, avcc, start, end);
        assert(annex_b@ + avcc_units(avcc@, end as nat) == before + avcc_units(
            avcc@,
            offset as nat,
        ));
        offset = end;
    }
    annex_b
}

/// Appends `count` 2-byte-length-prefixed units starting at `offset` to
/// `out` in Annex B form; returns the offset past the last unit, or `None`
/// when the record is truncated.
fn append_units16(data: &[u8], offset: usize, count: usize, out: &mut Vec<u8>) -> (end: Option<
    usize,
>)
    requires
        offset <= data@.len(),
    ensures
        final(out)@ == old(out)@ + units16(data@, offset as nat, count as nat).0,
        match end {
            Some(e) => e <= data@.len() && units16(data@, offset as nat, count as nat).1 == Some(
                e as nat,
            ),
            None => units16(data@, offset as nat, count as nat).1 is None,
        },
{
    let ghost whole = units16(data@, offset as nat, count as nat);
    let mut cur: usize = offset;
    let mut i: usize = 0;
    while i < count
        invariant
            i <= count,
            cur <= data@.len(),
            out@ + units16(data@, cur as nat, (count - i) as nat).0 == old(out)@ + whole.0,
            units16(data@, cur as nat, (count - i) as nat).1 == whole.1,
            whole == units16(data@, offset as nat, count as nat),
        decreases count - i,
    {
        if data.len() - cur < 2 {
            assert(out@ + Seq::<u8>::empty() == out@);
            return None;
        }
        let len: usize = (data[cur] as usize) * 256 + (data[cur + 1] as usize);
        let start: usize = cur + 2;
        if len > data.len() - start {
            assert(out@ + Seq::<u8>::empty() == out@);
            return None;
        }
        let end: usize = start + len;
        let ghost before = out@;
        push_start_code(out);
        push_range(out, data, start, end);
        assert(out@ + units16(data@, end as nat, (count - i - 1) as nat).0 == before + units16(
            data@,
            cur as nat,
            (count - i) as nat,
        ).0);
        cur = end;
        i = i + 1;
    }
    assert(out@ + Seq::<u8>::empty() == out@);
    Some(cur)
}

/// Extracts the parameter sets (SPS / PPS, and VPS for H.265) of a decoder
/// configuration record (`avcC` / `hvcC`) as Annex B bytes.
///
/// A record too short to hold its header yields nothing; a truncated record
/// yields the units before the truncation.
pub fn extradata_to_annex_b(codec: VideoCodec, extradata: &[u8]) -> (out: Vec<u8>)
    ensures
        out@ == parameter_sets_annex_b(codec, extradata@),
{
    let mut out: Vec<u8> = Vec::with_capacity(extradata.len());
    match codec {
        VideoCodec::H264 => {
            if extradata.len() < 7 {
                return out;
            }
            let num_sps: usize = (extradata[5] & 0x1f) as usize;
            match append_units16(extradata, 6, num_sps, &mut out) {
                None => {
                    assert(out@ =~= avcc_parameter_sets(extradata@));
                    out
                },
                Some(end) => {
                    if end >= extradata.len() {
                        assert(out@ =~= avcc_parameter_sets(extradata@));
                        return out;
                    }
                    let num_pps: usize = extradata[end] as usize;
                    let _ = append_units16(extradata, end + 1, num_pps, &mut out);
                    assert(out@ =~= avcc_parameter_sets(extradata@));
                    out
                },
            }
        },
        VideoCodec::H265 => {
            if extradata.len() < 23 {
                return out;
            }
            let num_arrays: usize = extradata[22] as usize;
            let mut offset: usize = 23;
            let mut i: usize = 0;
            while i < num_arrays
                invariant
                    i <= num_arrays,
                    offset <= extradata@.len(),
                    extradata@.len() >= 23,
                    num_arrays == extradata@[22],
                    parameter_sets_annex_b(codec, extradata@) == hvcc_arrays(
                        extradata@,
                        23,
                        num_arrays as nat,
                    ),
                    out@ + hvcc_arrays(extradata@, offset as nat, (num_arrays - i) as nat)
                        == hvcc_arrays(extradata@, 23, num_arrays as nat),
                decreases num_arrays - i,
            {
                if extradata.len() - offset < 3 {
                    assert(out@ + Seq::<u8>::empty() == out@);
                    return out;
                }
                let num_nalus: usize = (extradata[offset + 1] as usize) * 256 + (extradata[offset
                    + 2] as usize);
                let ghost before = out@;
                match append_units16(extradata, offset + 3, num_nalus, &mut out) {
                    None => {
                        assert(out@ + Seq::<u8>::empty() == out@);
                        return out;
                    },
                    Some(end) => {
                        assert(out@ + hvcc_arrays(extradata@, end as nat, (num_arrays - i - 1) as nat)
                            == before + hvcc_arrays(
                            extradata@,
                            offset as nat,
                            (num_arrays - i) as nat,
                        ));
                        offset = end;
                    },
                }
                i = i + 1;
            }
            assert(out@ + Seq::<u8>::empty() == out@);
            out
        },
    }
}

/// Big-endian bytes of a 32-bit length.
pub open spec fn be32_bytes(n: nat) -> Seq<u8> {
    seq![(n / 16777216 % 256) as u8, (n / 65536 % 256) as u8, (n / 256 % 256) as u8, (n % 256) as u8]
}

proof fn lemma_be32_bytes(n: nat)
    requires
        n < 0x1_0000_0000,
    ensures
        be32(be32_bytes(n), 0) == n,
{
    let b = be32_bytes(n);
    assert(b[0] as nat == n / 16777216 % 256);
    assert(b[1] as nat == n / 65536 % 256);
    assert(b[2] as nat == n / 256 % 256);
    assert(b[3] as nat == n % 256);
    assert(n / 16777216 % 256 * 16777216 + n / 65536 % 256 * 65536 + n / 256 % 256 * 256 + n % 256 == n) by (nonlinear_arith)
        requires n < 0x1_0000_0000;
}

proof fn lemma_empty_prefix(b: Seq<u8>)
    ensures
        Seq::<u8>::empty().is_prefix_of(b),
{
    assert(Seq::<u8>::empty() =~= b.subrange(0, 0));
}

proof fn lemma_prefix_extend(c: Seq<u8>, a: Seq<u8>, b: Seq<u8>)
    requires
        a.is_prefix_of(b),
    ensures
        (c + a).is_prefix_of(c + b),
{
    assert((c + a) =~= (c + b).subrange(0, (c + a).len() as int));
}

proof fn lemma_prefix_trans(a: Seq<u8>, b: Seq<u8>, c: Seq<u8>)
    requires
        a.is_prefix_of(b),
        b.is_prefix_of(c),
    ensures
        a.is_prefix_of(c),
{
    assert(a =~= c.subrange(0, a.len() as int));
}

proof fn lemma_prefix_of_concat(a: Seq<u8>, t: Seq<u8>)
    ensures
        a.is_prefix_of(a + t),
{
    assert(a =~= (a + t).subrange(0, a.len() as int));
}

/// The Annex B output never outgrows its input: each unit gains a 4-byte
/// start code in place of its 4-byte length prefix.
pub proof fn lemma_avcc_units_len(s: Seq<u8>, offset: nat)
    requires
        offset <= s.len(),
    ensures
        avcc_units(s, offset).len() <= s.len() - offset,
    decreases s.len() - offset,
{
    if offset + 4 <= s.len() {
        let len = be32(s, offset as int);
        let start = offset + 4;
        if len != 0 && start + len <= s.len() {
            lemma_avcc_units_len(s, start + len);
        }
    }
}

/// Truncating the input never emits a unit in part: the output for the
/// first `k` bytes is a prefix of the output for the whole input (a
/// truncated trailing unit is dropped whole).
pub proof fn lemma_avcc_units_prefix(s: Seq<u8>, k: nat, offset: nat)
    requires
        k <= s.len(),
    ensures
        avcc_units(s.take(k as int), offset).is_prefix_of(avcc_units(s, offset)),
    decreases s.len() - offset,
{
    let t = s.take(k as int);
    if offset + 4 > t.len() {
        lemma_empty_prefix(avcc_units(s, offset));
    } else {
        assert(be32(t, offset as int) == be32(s, offset as int));
        let len = be32(s, offset as int);
        let start = offset + 4;
        if len == 0 || start + len > t.len() {
            lemma_empty_prefix(avcc_units(s, offset));
        } else {
            assert(t.subrange(start as int, (start + len) as int) =~= s.subrange(
                start as int,
                (start + len) as int,
            ));
            lemma_avcc_units_prefix(s, k, start + len);
            lemma_prefix_extend(
                start_code() + s.subrange(start as int, (start + len) as int),
                avcc_units(t, start + len),
                avcc_units(s, start + len),
            );
        }
    }
}

/// NAL units that length-prefixed framing can carry: each non-empty and
/// shorter than 2^32 bytes.
pub open spec fn framable_units(units: Seq<Seq<u8>>) -> bool {
    forall|i: int| 0 <= i < units.len() ==> 0 < #[trigger] units[i].len() < 0x1_0000_0000
}

/// `units` in length-prefixed (AVCC) framing.
pub open spec fn avcc_frame(units: Seq<Seq<u8>>) -> Seq<u8>
    decreases units.len(),
{
    if units.len() == 0 {
        seq![]
    } else {
        be32_bytes(units[0].len()) + units[0] + avcc_frame(units.drop_first())
    }
}

/// `units` in Annex B framing.
pub open spec fn annex_b_frame(units: Seq<Seq<u8>>) -> Seq<u8>
    decreases units.len(),
{
    if units.len() == 0 {
        seq![]
    } else {
        start_code() + units[0] + annex_b_frame(units.drop_first())
    }
}

proof fn lemma_avcc_frame_after(p: Seq<u8>, units: Seq<Seq<u8>>)
    requires
        framable_units(units),
    ensures
        avcc_units(p + avcc_frame(units), p.len()) == annex_b_frame(units),
    decreases units.len(),
{
    let s = p + avcc_frame(units);
    if units.len() == 0 {
        assert(s =~= p);
    } else {
        let u = units[0];
        let rest = units.drop_first();
        let head = be32_bytes(u.len());
        lemma_be32_bytes(u.len());
        assert(avcc_frame(units) == head + u + avcc_frame(rest));
        assert(s =~= p + head + u + avcc_frame(rest));
        let off = p.len();
        assert(s[off as int] == head[0]);
        assert(s[off as int + 1] == head[1]);
        assert(s[off as int + 2] == head[2]);
        assert(s[off as int + 3] == head[3]);
        assert(be32(s, off as int) == be32(head, 0));
        let start = off + 4;
        assert(s.subrange(start as int, (start + u.len()) as int) =~= u);
        assert(framable_units(rest)) by {
            assert forall|i: int| 0 <= i < rest.len() implies 0 < #[trigger] rest[i].len()
                < 0x1_0000_0000 by {
                assert(rest[i] == units[i + 1]);
            }
        }
        let p2 = p + head + u;
        assert(p2 + avcc_frame(rest) =~= s);
        lemma_avcc_frame_after(p2, rest);
        assert(p2.len() == start + u.len());
    }
}

/// Well-formed length-prefixed input converts exactly: every length prefix
/// becomes a start code and every unit is kept, so the output is as long as
/// the input.
pub proof fn lemma_avcc_well_formed(units: Seq<Seq<u8>>)
    requires
        framable_units(units),
    ensures
        avcc_units(avcc_frame(units), 0) == annex_b_frame(units),
        annex_b_frame(units).len() == avcc_frame(units).len(),
    decreases units.len(),
{
    lemma_avcc_frame_after(Seq::<u8>::empty(), units);
    assert(Seq::<u8>::empty() + avcc_frame(units) =~= avcc_frame(units));
    if units.len() > 0 {
        let rest = units.drop_first();
        assert(framable_units(rest)) by {
            assert forall|i: int| 0 <= i < rest.len() implies 0 < #[trigger] rest[i].len()
                < 0x1_0000_0000 by {
                assert(rest[i] == units[i + 1]);
            }
        }
        lemma_avcc_well_formed(rest);
    }
}

proof fn lemma_frames_concat(u1: Seq<Seq<u8>>, u2: Seq<Seq<u8>>)
    ensures
        avcc_frame(u1 + u2) == avcc_frame(u1) + avcc_frame(u2),
        annex_b_frame(u1 + u2) == annex_b_frame(u1) + annex_b_frame(u2),
    decreases u1.len(),
{
    if u1.len() == 0 {
        assert(u1 + u2 =~= u2);
        assert(avcc_frame(u1) + avcc_frame(u2) =~= avcc_frame(u2));
        assert(annex_b_frame(u1) + annex_b_frame(u2) =~= annex_b_frame(u2));
    } else {
        assert((u1 + u2).drop_first() =~= u1.drop_first() + u2);
        assert((u1 + u2)[0] == u1[0]);
        lemma_frames_concat(u1.drop_first(), u2);
        assert(avcc_frame(u1 + u2) =~= avcc_frame(u1) + avcc_frame(u2));
        assert(annex_b_frame(u1 + u2) =~= annex_b_frame(u1) + annex_b_frame(u2));
    }
}

/// Converting two well-formed length-prefixed inputs back to back gives
/// the two conversions back to back.
pub proof fn lemma_avcc_concat(u1: Seq<Seq<u8>>, u2: Seq<Seq<u8>>)
    requires
        framable_units(u1),
        framable_units(u2),
    ensures
        avcc_units(avcc_frame(u1) + avcc_frame(u2), 0) == avcc_units(avcc_frame(u1), 0)
            + avcc_units(avcc_frame(u2), 0),
{
    assert(framable_units(u1 + u2)) by {
        assert forall|i: int| 0 <= i < (u1 + u2).len() implies 0 < #[trigger] (u1 + u2)[i].len()
            < 0x1_0000_0000 by {
            if i < u1.len() {
                assert((u1 + u2)[i] == u1[i]);
            } else {
                assert((u1 + u2)[i] == u2[i - u1.len()]);
            }
        }
    }
    lemma_frames_concat(u1, u2);
    lemma_avcc_well_formed(u1 + u2);
    lemma_avcc_well_formed(u1);
    lemma_avcc_well_formed(u2);
}

proof fn lemma_units16_prefix(s: Seq<u8>, k: nat, offset: nat, count: nat)
    requires
        k <= s.len(),
    ensures
        ({
            let a = units16(s.take(k as int), offset, count);
            let b = units16(s, offset, count);
            &&& a.0.is_prefix_of(b.0)
            &&& a.1 is Some ==> b == a
        }),
    decreases count,
{
    let t = s.take(k as int);
    if count == 0 {
        lemma_empty_prefix(Seq::<u8>::empty());
    } else if offset + 2 > t.len() {
        lemma_empty_prefix(units16(s, offset, count).0);
    } else {
        assert(be16(t, offset as int) == be16(s, offset as int));
        let len = be16(s, offset as int);
        let start = offset + 2;
        if start + len > t.len() {
            lemma_empty_prefix(units16(s, offset, count).0);
        } else {
            let chunk = s.subrange(start as int, (start + len) as int);
            assert(t.subrange(start as int, (start + len) as int) =~= chunk);
            lemma_units16_prefix(s, k, start + len, (count - 1) as nat);
            lemma_prefix_extend(
                start_code() + chunk,
                units16(t, start + len, (count - 1) as nat).0,
                units16(s, start + len, (count - 1) as nat).0,
            );
        }
    }
}

proof fn lemma_hvcc_arrays_prefix(s: Seq<u8>, k: nat, offset: nat, count: nat)
    requires
        k <= s.len(),
    ensures
        hvcc_arrays(s.take(k as int), offset, count).is_prefix_of(hvcc_arrays(s, offset, count)),
    decreases count,
{
    let t = s.take(k as int);
    if count == 0 || offset + 3 > t.len() {
        lemma_empty_prefix(hvcc_arrays(s, offset, count));
    } else {
        assert(be16(t, (offset + 1) as int) == be16(s, (offset + 1) as int));
        let n = be16(s, (offset + 1) as int);
        let ua = units16(t, offset + 3, n);
        let ub = units16(s, offset + 3, n);
        lemma_units16_prefix(s, k, offset + 3, n);
        match ua.1 {
            None => {
                match ub.1 {
                    None => {},
                    Some(end) => {
                        lemma_prefix_of_concat(ub.0, hvcc_arrays(s, end, (count - 1) as nat));
                        lemma_prefix_trans(ua.0, ub.0, hvcc_arrays(s, offset, count));
                    },
                }
            },
            Some(end) => {
                lemma_hvcc_arrays_prefix(s, k, end, (count - 1) as nat);
                lemma_prefix_extend(
                    ub.0,
                    hvcc_arrays(t, end, (count - 1) as nat),
                    hvcc_arrays(s, end, (count - 1) as nat),
                );
            },
        }
    }
}

proof fn lemma_avcc_parameter_sets_prefix(s: Seq<u8>, k: nat)
    requires
        k <= s.len(),
    ensures
        avcc_parameter_sets(s.take(k as int)).is_prefix_of(avcc_parameter_sets(s)),
{
    let t = s.take(k as int);
    if t.len() < 7 {
        lemma_empty_prefix(avcc_parameter_sets(s));
    } else {
        assert(t[5] == s[5]);
        let n = (s[5] & 0x1fu8) as nat;
        let sa = units16(t, 6, n);
        let sb = units16(s, 6, n);
        lemma_units16_prefix(s, k, 6, n);
        let whole = avcc_parameter_sets(s);
        assert(sb.0.is_prefix_of(whole)) by {
            match sb.1 {
                None => lemma_prefix_of_concat(sb.0, Seq::<u8>::empty()),
                Some(end) => if end >= s.len() {
                    lemma_prefix_of_concat(sb.0, Seq::<u8>::empty());
                } else {
                    lemma_prefix_of_concat(sb.0, units16(s, end + 1, s[end as int] as nat).0);
                },
            }
            assert(sb.0 + Seq::<u8>::empty() =~= sb.0);
        }
        match sa.1 {
            None => lemma_prefix_trans(sa.0, sb.0, whole),
            Some(end) => {
                if end >= t.len() {
                    lemma_prefix_trans(sa.0, sb.0, whole);
                } else {
                    assert(t[end as int] == s[end as int]);
                    lemma_units16_prefix(s, k, end + 1, s[end as int] as nat);
                    lemma_prefix_extend(
                        sb.0,
                        units16(t, end + 1, t[end as int] as nat).0,
                        units16(s, end + 1, s[end as int] as nat).0,
                    );
                }
            },
        }
    }
}

/// Parameter-set extraction reads a record front to back: the output for
/// the first `k` bytes of a record is a prefix of the output for the whole
/// record, and a record too short for its header (under 7 bytes for
/// H.264, under 23 for H.265) yields nothing.
pub proof fn lemma_parameter_sets_prefix(codec: VideoCodec, s: Seq<u8>, k: nat)
    requires
        k <= s.len(),
    ensures
        parameter_sets_annex_b(codec, s.take(k as int)).is_prefix_of(parameter_sets_annex_b(codec, s)),
        (codec == VideoCodec::H264 && s.len() < 7) ==> parameter_sets_annex_b(codec, s).len() == 0,
        (codec == VideoCodec::H265 && s.len() < 23) ==> parameter_sets_annex_b(codec, s).len() == 0,
{
    match codec {
        VideoCodec::H264 => lemma_avcc_parameter_sets_prefix(s, k),
        VideoCodec::H265 => {
            let t = s.take(k as int);
            if t.len() < 23 {
                lemma_empty_prefix(hvcc_parameter_sets(s));
            } else {
                assert(t[22] == s[22]);
                lemma_hvcc_arrays_prefix(s, k, 23, s[22] as nat);
            }
        },
    }
}

/// Big-endian bytes of a 16-bit length.
pub open spec fn be16_bytes(n: nat) -> Seq<u8> {
    seq![(n / 256 % 256) as u8, (n % 256) as u8]
}

proof fn lemma_be16_bytes(n: nat)
    requires
        n < 0x1_0000,
    ensures
        be16(be16_bytes(n), 0) == n,
{
    let b = be16_bytes(n);
    assert(b[0] as nat == n / 256 % 256);
    assert(b[1] as nat == n % 256);
    assert(n / 256 % 256 * 256 + n % 256 == n) by (nonlinear_arith)
        requires
            n < 0x1_0000,
    ;
}

/// `units` with 2-byte big-endian length prefixes, as in a decoder
/// configuration record.
pub open spec fn units16_frame(units: Seq<Seq<u8>>) -> Seq<u8>
    decreases units.len(),
{
    if units.len() == 0 {
        seq![]
    } else {
        be16_bytes(units[0].len()) + units[0] + units16_frame(units.drop_first())
    }
}

/// Units that a 2-byte length prefix can carry: each under 2^16 bytes.
pub open spec fn short_units(units: Seq<Seq<u8>>) -> bool {
    forall|i: int| 0 <= i < units.len() ==> #[trigger] units[i].len() < 0x1_0000
}

proof fn lemma_short_units_rest(units: Seq<Seq<u8>>)
    requires
        short_units(units),
        units.len() > 0,
    ensures
        short_units(units.drop_first()),
{
    assert forall|i: int| 0 <= i < units.drop_first().len() implies #[trigger] units.drop_first()[i].len()
        < 0x1_0000 by {
        assert(units.drop_first()[i] == units[i + 1]);
    }
}

proof fn lemma_units16_frame_after(p: Seq<u8>, units: Seq<Seq<u8>>, tail: Seq<u8>)
    requires
        short_units(units),
    ensures
        units16(p + units16_frame(units) + tail, p.len(), units.len()) == (
            annex_b_frame(units),
            Some(p.len() + units16_frame(units).len()),
        ),
    decreases units.len(),
{
    let s = p + units16_frame(units) + tail;
    if units.len() == 0 {
        assert(units16_frame(units).len() == 0);
    } else {
        let u = units[0];
        let rest = units.drop_first();
        let head = be16_bytes(u.len());
        lemma_be16_bytes(u.len());
        lemma_short_units_rest(units);
        let off = p.len();
        assert(s =~= p + head + u + (units16_frame(rest) + tail));
        assert(s[off as int] == head[0]);
        assert(s[off as int + 1] == head[1]);
        assert(be16(s, off as int) == be16(head, 0));
        let start = off + 2;
        assert(s.subrange(start as int, (start + u.len()) as int) =~= u);
        let p2 = p + head + u;
        assert(p2 + units16_frame(rest) + tail =~= s);
        lemma_units16_frame_after(p2, rest, tail);
        assert(p2.len() == start + u.len());
    }
}

/// One NAL-unit array of an `hvcC` record: its header byte (completeness
/// flag and NAL unit type) and its units.
pub struct NalArray {
    /// Array completeness bit, reserved bit and NAL unit type.
    pub header: u8,
    /// The array's NAL units.
    pub units: Seq<Seq<u8>>,
}

/// The arrays of an `hvcC` record as bytes: each is its header byte, its
/// unit count (2 bytes, big endian) and its length-prefixed units.
pub open spec fn nal_arrays_frame(arrays: Seq<NalArray>) -> Seq<u8>
    decreases arrays.len(),
{
    if arrays.len() == 0 {
        seq![]
    } else {
        let a = arrays[0];
        seq![a.header] + be16_bytes(a.units.len()) + units16_frame(a.units) + nal_arrays_frame(
            arrays.drop_first(),
        )
    }
}

/// Every unit of every array, in order.
pub open spec fn all_units(arrays: Seq<NalArray>) -> Seq<Seq<u8>>
    decreases arrays.len(),
{
    if arrays.len() == 0 {
        seq![]
    } else {
        arrays[0].units + all_units(arrays.drop_first())
    }
}

/// Arrays that an `hvcC` record can carry: under 2^16 units each, every
/// unit under 2^16 bytes.
pub open spec fn framable_arrays(arrays: Seq<NalArray>) -> bool {
    forall|i: int| 0 <= i < arrays.len() ==> #[trigger] arrays[i].units.len() < 0x1_0000
        && short_units(arrays[i].units)
}

proof fn lemma_nal_arrays_after(p: Seq<u8>, arrays: Seq<NalArray>, tail: Seq<u8>)
    requires
        framable_arrays(arrays),
    ensures
        hvcc_arrays(p + nal_arrays_frame(arrays) + tail, p.len(), arrays.len()) == annex_b_frame(
            all_units(arrays),
        ),
    decreases arrays.len(),
{
    let s = p + nal_arrays_frame(arrays) + tail;
    if arrays.len() > 0 {
        let a = arrays[0];
        assert(framable_arrays(arrays) ==> a.units.len() < 0x1_0000 && short_units(a.units));
        let rest = arrays.drop_first();
        assert(framable_arrays(rest)) by {
            assert forall|i: int| 0 <= i < rest.len() implies #[trigger] rest[i].units.len()
                < 0x1_0000 && short_units(rest[i].units) by {
                assert(rest[i] == arrays[i + 1]);
            }
        }
        let count = be16_bytes(a.units.len());
        lemma_be16_bytes(a.units.len());
        let off = p.len();
        let p1 = p + seq![a.header] + count;
        assert(s =~= p1 + units16_frame(a.units) + (nal_arrays_frame(rest) + tail));
        assert(s[off as int + 1] == count[0]);
        assert(s[off as int + 2] == count[1]);
        assert(be16(s, (off + 1) as int) == be16(count, 0));
        lemma_units16_frame_after(p1, a.units, nal_arrays_frame(rest) + tail);
        let p2 = p1 + units16_frame(a.units);
        assert(p2 + nal_arrays_frame(rest) + tail =~= s);
        lemma_nal_arrays_after(p2, rest, tail);
        lemma_frames_concat(a.units, all_units(rest));
    }
}

/// Every parameter set of a well-formed `hvcC` record reaches the decoder:
/// for a record whose 22 leading bytes are anything, whose byte 22 counts
/// its arrays, and whose arrays are well formed (whatever their header
/// bytes, completeness flags included), the output is the Annex B framing
/// of every unit of every array, in order. Bytes after the last array are
/// ignored.
pub proof fn lemma_hvcc_record_yields_every_unit(
    head: Seq<u8>,
    arrays: Seq<NalArray>,
    tail: Seq<u8>,
)
    requires
        head.len() == 22,
        arrays.len() < 256,
        framable_arrays(arrays),
    ensures
        parameter_sets_annex_b(
            VideoCodec::H265,
            head + seq![arrays.len() as u8] + nal_arrays_frame(arrays) + tail,
        ) == annex_b_frame(all_units(arrays)),
{
    let p = head + seq![arrays.len() as u8];
    let s = p + nal_arrays_frame(arrays) + tail;
    assert(s[22] == arrays.len() as u8);
    lemma_nal_arrays_after(p, arrays, tail);
}

/// Every parameter set of a well-formed `avcC` record reaches the decoder:
/// for a record whose 5 leading bytes are anything, whose byte 5 carries
/// the SPS count in its low five bits (the high bits are reserved), then
/// the length-prefixed SPS units, the PPS count byte and the
/// length-prefixed PPS units, the output is the Annex B framing of every
/// SPS and then every PPS, in order. Bytes after the last PPS are ignored.
pub proof fn lemma_avcc_record_yields_every_unit(
    head: Seq<u8>,
    sps_count_byte: u8,
    sps: Seq<Seq<u8>>,
    pps: Seq<Seq<u8>>,
    tail: Seq<u8>,
)
    requires
        head.len() == 5,
        (sps_count_byte & 0x1fu8) as nat == sps.len(),
        pps.len() < 256,
        short_units(sps),
        short_units(pps),
    ensures
        parameter_sets_annex_b(
            VideoCodec::H264,
            head + seq![sps_count_byte] + units16_frame(sps) + seq![pps.len() as u8]
                + units16_frame(pps) + tail,
        ) == annex_b_frame(sps + pps),
{
    let p = head + seq![sps_count_byte];
    let rest = seq![pps.len() as u8] + units16_frame(pps) + tail;
    let s = p + units16_frame(sps) + rest;
    assert(s =~= head + seq![sps_count_byte] + units16_frame(sps) + seq![pps.len() as u8]
        + units16_frame(pps) + tail);
    assert(s[5] == sps_count_byte);
    lemma_units16_frame_after(p, sps, rest);
    let end = p.len() + units16_frame(sps).len();
    assert(s[end as int] == pps.len() as u8);
    let p2 = p + units16_frame(sps) + seq![pps.len() as u8];
    assert(p2 + units16_frame(pps) + tail =~= s);
    lemma_units16_frame_after(p2, pps, tail);
    lemma_frames_concat(sps, pps);
}

} // verus!
