//! Checksum engine: a running, resettable 8-bit CRC over the wire bytes of a
//! packet, for the polynomial 0x1D. A packet carries its own checksum as its
//! final byte, chosen so that the CRC of the whole packet, trailing byte
//! included, is zero exactly when no byte was disturbed.
use vstd::prelude::*;

verus! {

/// One step of the CRC-8 shift register for polynomial 0x1D: shift the state
/// left one bit and, if a bit fell out, fold the polynomial back in.
pub open spec fn crc_shift_once(c: u8) -> u8 {
    if c & 0x80 != 0 {
        (c << 1) ^ 0x1d
    } else {
        c << 1
    }
}

/// What one input byte does to the checksum state: eight shift steps of the
/// polynomial 0x1D shift register, starting from the byte XORed with the
/// state. This is the mathematical reading of the classic 256-entry CRC
/// lookup table.
pub open spec fn crc_table_entry(j: u8) -> u8 {
    crc_shift_once(
        crc_shift_once(
            crc_shift_once(
                crc_shift_once(crc_shift_once(crc_shift_once(crc_shift_once(crc_shift_once(j))))),
            ),
        ),
    )
}

/// The running CRC of `data`, starting from the state `start`.
pub open spec fn spec_crc(start: u8, data: Seq<u8>) -> u8
    decreases data.len(),
{
    if data.len() == 0 {
        start
    } else {
        spec_crc(crc_table_entry(data[0] ^ start), data.skip(1))
    }
}

/// One shift step of the polynomial 0x1D shift register, at run time.
fn crc_shift_once_exec(c: u8) -> (r: u8)
    ensures
        r == crc_shift_once(c),
{
    if c & 0x80 != 0 {
        (c << 1u8) ^ 0x1d
    } else {
        c << 1u8
    }
}

/// One table entry of the CRC, computed at run time from the polynomial.
fn crc_table_entry_exec(j: u8) -> (r: u8)
    ensures
        r == crc_table_entry(j),
{
    let c1 = crc_shift_once_exec(j);
    let c2 = crc_shift_once_exec(c1);
    let c3 = crc_shift_once_exec(c2);
    let c4 = crc_shift_once_exec(c3);
    let c5 = crc_shift_once_exec(c4);
    let c6 = crc_shift_once_exec(c5);
    let c7 = crc_shift_once_exec(c6);
    crc_shift_once_exec(c7)
}

/// Calculate the CRC of the given data, continuing from the state `start_crc`
/// (pass 0 to start a fresh checksum).
pub fn crc(start_crc: u8, data: &[u8]) -> (r: u8)
    ensures
        r == spec_crc(start_crc, data@),
{
    let mut acc = start_crc;
    let mut i: usize = 0;
    while i < data.len()
        invariant
            0 <= i <= data@.len(),
            acc == spec_crc(start_crc, data@.take(i as int)),
        decreases data@.len() - i,
    {
        let b = data[i];
        acc = crc_table_entry_exec(b ^ acc);
        proof {
            lemma_crc_snoc(start_crc, data@.take(i as int), data@[i as int]);
            assert(data@.take(i as int + 1) =~= data@.take(i as int).push(data@[i as int]));
        }
        i = i + 1;
    }
    proof {
        assert(data@.take(data@.len() as int) =~= data@);
    }
    acc
}

/// The CRC of a concatenation is the CRC of the second part, started from the
/// CRC of the first: the checksum is a running state over the byte stream.
pub proof fn lemma_crc_append(start: u8, a: Seq<u8>, b: Seq<u8>)
    ensures
        spec_crc(start, a + b) == spec_crc(spec_crc(start, a), b),
    decreases a.len(),
{
    if a.len() == 0 {
        assert(a + b =~= b);
    } else {
        assert((a + b)[0] == a[0]);
        assert((a + b).skip(1) =~= a.skip(1) + b);
        lemma_crc_append(crc_table_entry(a[0] ^ start), a.skip(1), b);
    }
}

/// The CRC of a single byte is one table step.
proof fn lemma_crc_single(c: u8, x: u8)
    ensures
        spec_crc(c, seq![x]) == crc_table_entry(x ^ c),
{
    reveal_with_fuel(spec_crc, 2);
    assert(seq![x].skip(1) =~= Seq::<u8>::empty());
}

/// Feeding one more byte advances the checksum by one table step.
pub proof fn lemma_crc_snoc(start: u8, s: Seq<u8>, x: u8)
    ensures
        spec_crc(start, s.push(x)) == crc_table_entry(x ^ spec_crc(start, s)),
{
    assert(s.push(x) =~= s + seq![x]);
    lemma_crc_append(start, s, seq![x]);
    lemma_crc_single(spec_crc(start, s), x);
}

/// CRC self-check: appending the running checksum of a byte sequence to that
/// sequence drives the checksum of the whole to zero. This is what lets a
/// receiver validate a packet by checksumming it in full, trailing CRC byte
/// included, and comparing against zero.
pub proof fn lemma_crc_self_check(b: Seq<u8>)
    ensures
        spec_crc(0, b + seq![spec_crc(0, b)]) == 0,
{
    let c = spec_crc(0, b);
    lemma_crc_append(0, b, seq![c]);
    lemma_crc_single(c, c);
    assert(c ^ c == 0) by (bit_vector);
    assert(crc_table_entry(0) == 0) by (bit_vector);
}

/// The table step is injective: distinct bytes drive the shift register to
/// distinct states.
proof fn lemma_table_entry_injective(a: u8, b: u8)
    requires
        crc_table_entry(a) == crc_table_entry(b),
    ensures
        a == b,
{
    assert(crc_table_entry(a) == crc_table_entry(b) ==> a == b) by (bit_vector);
}

/// Distinct checksum states stay distinct however many further bytes both
/// sides consume.
proof fn lemma_crc_states_stay_distinct(c1: u8, c2: u8, s: Seq<u8>)
    requires
        c1 != c2,
    ensures
        spec_crc(c1, s) != spec_crc(c2, s),
    decreases s.len(),
{
    if s.len() > 0 {
        let b = s[0];
        assert(b ^ c1 != b ^ c2) by (bit_vector)
            requires
                c1 != c2,
        ;
        let n1 = crc_table_entry(b ^ c1);
        let n2 = crc_table_entry(b ^ c2);
        if n1 == n2 {
            lemma_table_entry_injective(b ^ c1, b ^ c2);
        }
        lemma_crc_states_stay_distinct(n1, n2, s.skip(1));
    }
}

/// Changing a single byte of a sequence changes its CRC.
pub proof fn lemma_crc_detects_byte_change(start: u8, p: Seq<u8>, i: int, x: u8)
    requires
        0 <= i < p.len(),
        x != p[i],
    ensures
        spec_crc(start, p.update(i, x)) != spec_crc(start, p),
{
    let q = p.update(i, x);
    let pre = p.take(i);
    let suf = p.skip(i + 1);
    assert(p =~= pre + seq![p[i]] + suf);
    assert(q =~= pre + seq![x] + suf);
    lemma_crc_append(start, pre + seq![p[i]], suf);
    lemma_crc_append(start, pre + seq![x], suf);
    lemma_crc_append(start, pre, seq![p[i]]);
    lemma_crc_append(start, pre, seq![x]);
    let c = spec_crc(start, pre);
    lemma_crc_single(c, p[i]);
    lemma_crc_single(c, x);
    let b1 = p[i];
    assert(b1 ^ c != x ^ c) by (bit_vector)
        requires
            b1 != x,
    ;
    let n1 = crc_table_entry(b1 ^ c);
    let n2 = crc_table_entry(x ^ c);
    if n1 == n2 {
        lemma_table_entry_injective(b1 ^ c, x ^ c);
    }
    lemma_crc_states_stay_distinct(n1, n2, suf);
}

/// Corruption detection at the checksum level: flipping any single bit of a
/// byte sequence whose CRC is zero leaves a sequence whose CRC is not zero.
pub proof fn lemma_crc_detects_bit_flip(p: Seq<u8>, i: int, k: u8)
    requires
        spec_crc(0, p) == 0,
        0 <= i < p.len(),
        k < 8,
    ensures
        spec_crc(0, p.update(i, p[i] ^ (1u8 << k))) != 0,
{
    let b = p[i];
    assert(b ^ (1u8 << k) != b) by (bit_vector)
        requires
            k < 8,
    ;
    lemma_crc_detects_byte_change(0, p, i, b ^ (1u8 << k));
}

} // verus!
