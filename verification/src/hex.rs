//! Hexadecimal rendering of byte sequences, as the wire format uses it:
//! two characters per byte, digits and uppercase letters only.
use vstd::prelude::*;

verus! {

/// True of exactly the characters the encoder emits: ASCII digits and uppercase A-F.
pub open spec fn is_hex_char(c: u8) -> bool {
    (0x30 <= c && c <= 0x39) || (0x41 <= c && c <= 0x46)
}

/// The ASCII character for one nibble: digits, then uppercase letters.
pub open spec fn hex_digit(n: int) -> u8
    recommends
        0 <= n < 16,
{
    if n < 10 {
        (0x30 + n) as u8
    } else {
        (0x37 + n) as u8
    }
}

/// The numeric value of one hex character.
pub open spec fn hex_val(c: u8) -> int
    recommends
        is_hex_char(c),
{
    if c <= 0x39 {
        c - 0x30
    } else {
        c - 0x37
    }
}

/// Hex encoding of a byte sequence, high nibble of each byte first.
pub open spec fn hex_of(b: Seq<u8>) -> Seq<u8>
    decreases b.len(),
{
    if b.len() == 0 {
        Seq::<u8>::empty()
    } else {
        seq![hex_digit(b[0] as int / 16), hex_digit(b[0] as int % 16)] + hex_of(b.drop_first())
    }
}

/// A character sequence that decoding accepts: even length, hex characters throughout.
pub open spec fn valid_hex(s: Seq<u8>) -> bool {
    s.len() % 2 == 0 && (forall|i: int| 0 <= i < s.len() ==> is_hex_char(s[i]))
}

/// The bytes that a hex character sequence stands for, two characters per byte.
pub open spec fn hex_decoded(s: Seq<u8>) -> Seq<u8>
    decreases s.len(),
{
    if s.len() < 2 {
        Seq::<u8>::empty()
    } else {
        seq![(hex_val(s[0]) * 16 + hex_val(s[1])) as u8] + hex_decoded(s.skip(2))
    }
}

pub proof fn lemma_hex_of_len(b: Seq<u8>)
    ensures
        hex_of(b).len() == 2 * b.len(),
    decreases b.len(),
{
    if b.len() > 0 {
        lemma_hex_of_len(b.drop_first());
    }
}

pub proof fn lemma_hex_of_concat(a: Seq<u8>, b: Seq<u8>)
    ensures
        hex_of(a + b) == hex_of(a) + hex_of(b),
    decreases a.len(),
{
    if a.len() == 0 {
        assert(a + b =~= b);
        assert(hex_of(a) + hex_of(b) =~= hex_of(b));
    } else {
        lemma_hex_of_concat(a.drop_first(), b);
        assert((a + b).drop_first() =~= a.drop_first() + b);
        assert(hex_of(a + b) =~= hex_of(a) + hex_of(b));
    }
}

fn nibble_char(n: u8) -> (r: u8)
    requires
        n < 16,
    ensures
        r == hex_digit(n as int),
{
    if n < 10 {
        0x30 + n
    } else {
        0x37 + n
    }
}

fn is_hex_char_exec(c: u8) -> (r: bool)
    ensures
        r == is_hex_char(c),
{
    (0x30 <= c && c <= 0x39) || (0x41 <= c && c <= 0x46)
}

fn hex_val_exec(c: u8) -> (r: u8)
    requires
        is_hex_char(c),
    ensures
        r == hex_val(c),
        r < 16,
{
    if c <= 0x39 {
        c - 0x30
    } else {
        c - 0x37
    }
}

/// Renders each input byte as two hex characters, digits and uppercase letters.
pub fn hex_encode(b: &Vec<u8>) -> (r: Vec<u8>)
    ensures
        r@ == hex_of(b@),
        r@.len() == 2 * b@.len(),
{
    let mut r: Vec<u8> = Vec::new();
    let mut i: usize = 0;
    while i < b.len()
        invariant
            i <= b@.len(),
            r@ == hex_of(b@.subrange(0, i as int)),
        decreases b@.len() - i,
    {
        let byte: u8 = b[i];
        r.push(nibble_char(byte / 16));
        r.push(nibble_char(byte % 16));
        proof {
            let pre = b@.subrange(0, i as int);
            let one = seq![b@[i as int]];
            lemma_hex_of_concat(pre, one);
            assert(one.drop_first() =~= Seq::<u8>::empty());
            assert(hex_of(Seq::<u8>::empty()) =~= Seq::<u8>::empty());
            assert(hex_of(one) =~= seq![
                hex_digit(b@[i as int] as int / 16),
                hex_digit(b@[i as int] as int % 16),
            ]);
            assert(pre + one =~= b@.subrange(0, i as int + 1));
            assert(r@ =~= hex_of(pre) + hex_of(one));
        }
        i = i + 1;
    }
    proof {
        assert(b@.subrange(0, b@.len() as int) =~= b@);
        lemma_hex_of_len(b@);
    }
    r
}

proof fn lemma_hex_decoded_snoc(s: Seq<u8>, a: u8, b: u8)
    requires
        s.len() % 2 == 0,
    ensures
        hex_decoded(s + seq![a, b]) == hex_decoded(s).push((hex_val(a) * 16 + hex_val(b)) as u8),
    decreases s.len(),
{
    if s.len() == 0 {
        assert(s + seq![a, b] =~= seq![a, b]);
        assert(seq![a, b].skip(2) =~= Seq::<u8>::empty());
        assert(hex_decoded(Seq::<u8>::empty()) =~= Seq::<u8>::empty());
        assert(hex_decoded(s) =~= Seq::<u8>::empty());
        assert(hex_decoded(s + seq![a, b]) =~= hex_decoded(s).push(
            (hex_val(a) * 16 + hex_val(b)) as u8,
        ));
    } else {
        lemma_hex_decoded_snoc(s.skip(2), a, b);
        assert((s + seq![a, b]).skip(2) =~= s.skip(2) + seq![a, b]);
        assert((s + seq![a, b])[0] == s[0]);
        assert((s + seq![a, b])[1] == s[1]);
        assert(hex_decoded(s + seq![a, b]) =~= hex_decoded(s).push(
            (hex_val(a) * 16 + hex_val(b)) as u8,
        ));
    }
}

/// Turns a hex character sequence back into bytes. Returns the decoded bytes
/// exactly when the input has even length and holds only digits and uppercase
/// A-F; returns nothing otherwise.
pub fn hex_decode(s: &Vec<u8>) -> (r: Option<Vec<u8>>)
    ensures
        (r is Some) == valid_hex(s@),
        r matches Some(v) ==> v@ == hex_decoded(s@),
{
    if s.len() % 2 != 0 {
        return None;
    }
    let mut out: Vec<u8> = Vec::new();
    let mut i: usize = 0;
    while i < s.len()
        invariant
            i <= s@.len(),
            i % 2 == 0,
            s@.len() % 2 == 0,
            forall|j: int| 0 <= j < i ==> is_hex_char(s@[j]),
            out@ == hex_decoded(s@.subrange(0, i as int)),
        decreases s@.len() - i,
    {
        let hi: u8 = s[i];
        let lo: u8 = s[i + 1];
        if !is_hex_char_exec(hi) || !is_hex_char_exec(lo) {
            return None;
        }
        let v: u8 = hex_val_exec(hi) * 16 + hex_val_exec(lo);
        out.push(v);
        proof {
            let pre = s@.subrange(0, i as int);
            lemma_hex_decoded_snoc(pre, s@[i as int], s@[i as int + 1]);
            assert(pre + seq![s@[i as int], s@[i as int + 1]] =~= s@.subrange(0, i as int + 2));
        }
        i = i + 2;
    }
    proof {
        assert(s@.subrange(0, s@.len() as int) =~= s@);
    }
    Some(out)
}

/// Decoding inverts encoding: the hex rendering of any byte sequence is a
/// valid hex character sequence, and decoding it gives the bytes back.
pub proof fn lemma_hex_round_trip(b: Seq<u8>)
    ensures
        valid_hex(hex_of(b)),
        hex_decoded(hex_of(b)) == b,
    decreases b.len(),
{
    lemma_hex_of_len(b);
    if b.len() == 0 {
        assert(hex_decoded(hex_of(b)) =~= b);
    } else {
        lemma_hex_round_trip(b.drop_first());
        let h = hex_digit(b[0] as int / 16);
        let l = hex_digit(b[0] as int % 16);
        let rest = hex_of(b.drop_first());
        assert(hex_of(b) =~= seq![h, l] + rest);
        assert(hex_of(b).skip(2) =~= rest);
        assert(hex_val(h) == b[0] as int / 16);
        assert(hex_val(l) == b[0] as int % 16);
        assert((hex_val(h) * 16 + hex_val(l)) as u8 == b[0]);
        assert forall|i: int| 0 <= i < hex_of(b).len() implies is_hex_char(hex_of(b)[i]) by {
            if i >= 2 {
                assert(hex_of(b)[i] == rest[i - 2]);
            }
        }
        assert(hex_decoded(hex_of(b)) =~= b);
    }
}

} // verus!
