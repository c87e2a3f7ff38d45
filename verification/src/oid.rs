//! Document identifiers: the 12 bytes of a MongoDB object id, held as a
//! 4-byte high part and an 8-byte low part (big-endian).

use vstd::prelude::*;

verus! {

/// A 12-byte document identifier: `hi` holds bytes 0..4, `lo` bytes 4..12,
/// both big-endian.
#[derive(PartialEq, Eq, Structural, Clone, Copy, Debug)]
pub struct Oid {
    pub hi: u32,
    pub lo: u64,
}

pub open spec fn is_hex_digit(c: char) -> bool {
    ('0' <= c && c <= '9') || ('a' <= c && c <= 'f') || ('A' <= c && c <= 'F')
}

/// The value of a hexadecimal digit (either case).
pub open spec fn hex_digit_value(c: char) -> nat {
    if '0' <= c && c <= '9' {
        ((c as int) - ('0' as int)) as nat
    } else if 'a' <= c && c <= 'f' {
        ((c as int) - ('a' as int) + 10) as nat
    } else {
        ((c as int) - ('A' as int) + 10) as nat
    }
}

/// The number that a string of hexadecimal digits denotes.
pub open spec fn hex_value(s: Seq<char>) -> nat
    decreases s.len(),
{
    if s.len() == 0 {
        0
    } else {
        hex_value(s.drop_last()) * 16 + hex_digit_value(s.last())
    }
}

pub open spec fn pow16(n: nat) -> nat
    decreases n,
{
    if n == 0 { 1 } else { 16 * pow16((n - 1) as nat) }
}

/// What parsing an object id from its hex text gives: 24 hexadecimal digits
/// (either case) denote the 12 bytes; anything else is refused.
pub open spec fn parse_hex_oid(s: Seq<char>) -> Option<Oid> {
    if s.len() == 24 && (forall|i: int| 0 <= i < 24 ==> is_hex_digit(#[trigger] s[i])) {
        Some(Oid { hi: hex_value(s.take(8)) as u32, lo: hex_value(s.skip(8)) as u64 })
    } else {
        None
    }
}

proof fn lemma_hex_value_bound(s: Seq<char>)
    requires
        forall|i: int| 0 <= i < s.len() ==> is_hex_digit(#[trigger] s[i]),
    ensures
        hex_value(s) < pow16(s.len()),
    decreases s.len(),
{
    if s.len() > 0 {
        let p = s.drop_last();
        assert forall|i: int| 0 <= i < p.len() implies is_hex_digit(#[trigger] p[i]) by {
            assert(p[i] == s[i]);
        }
        lemma_hex_value_bound(p);
        assert(is_hex_digit(s[s.len() - 1]));
        let h = hex_value(p);
        let d = hex_digit_value(s.last());
        let q = pow16(p.len());
        assert(d < 16);
        assert(h * 16 + d < q * 16) by (nonlinear_arith)
            requires h < q, d < 16;
    }
}

fn hex_digit(c: char) -> (r: Option<u64>)
    ensures
        r is Some <==> is_hex_digit(c),
        r matches Some(v) ==> v as nat == hex_digit_value(c) && v < 16,
{
    if '0' <= c && c <= '9' {
        Some((c as u32 - '0' as u32) as u64)
    } else if 'a' <= c && c <= 'f' {
        Some((c as u32 - 'a' as u32 + 10) as u64)
    } else if 'A' <= c && c <= 'F' {
        Some((c as u32 - 'A' as u32 + 10) as u64)
    } else {
        None
    }
}

/// Parses the hex text of an object id, as `ObjectId::parse_str` does:
/// exactly 24 hexadecimal digits, either case.
pub fn parse_object_id(s: &str) -> (r: Option<Oid>)
    ensures
        r == parse_hex_oid(s@),
{
    let ghost text = s@;
    let mut count: usize = 0;
    let mut hi: u64 = 0;
    let mut lo: u64 = 0;
    for c in it: s.chars()
        invariant
            it.seq() == text,
            text == s@,
            count as int == it.index(),
            count <= 24,
            forall|i: int| 0 <= i < count ==> is_hex_digit(#[trigger] text[i]),
            count <= 8 ==> hi as nat == hex_value(text.take(count as int)) && lo == 0,
            count > 8 ==> hi as nat == hex_value(text.take(8)) && lo as nat == hex_value(text.subrange(8, count as int)),
            hi < 0x1_0000_0000,
    {
        proof {
            assert(text[count as int] == c);
        }
        if count == 24 {
            assert(text.len() > 24);
            assert(parse_hex_oid(text) is None);
            return None;
        }
        let d = match hex_digit(c) {
            Some(d) => d,
            None => {
                assert(!is_hex_digit(text[count as int]));
                assert(parse_hex_oid(text) is None);
                return None;
            },
        };
        if count < 8 {
            proof {
                assert(text.take(count + 1).drop_last() =~= text.take(count as int));
                assert forall|i: int| 0 <= i < count + 1 implies is_hex_digit(#[trigger] text.take(count + 1)[i]) by {}
                lemma_hex_value_bound(text.take(count + 1));
                assert(pow16(8) == 0x1_0000_0000) by { reveal_with_fuel(pow16, 9); }
                lemma_pow16_mono((count + 1) as nat, 8);
            }
            hi = hi * 16 + d;
        } else {
            proof {
                assert(text.subrange(8, count + 1).drop_last() =~= text.subrange(8, count as int));
                assert forall|i: int| 0 <= i < count + 1 - 8 implies is_hex_digit(#[trigger] text.subrange(8, count + 1)[i]) by {
                    assert(text.subrange(8, count + 1)[i] == text[i + 8]);
                }
                lemma_hex_value_bound(text.subrange(8, count + 1));
                assert(pow16(16) == 0x1_0000_0000_0000_0000) by { reveal_with_fuel(pow16, 17); }
                lemma_pow16_mono((count + 1 - 8) as nat, 16);
                if count == 8 {
                    assert(text.subrange(8, 8) =~= Seq::<char>::empty());
                }
            }
            lo = lo * 16 + d;
        }
        count = count + 1;
    }
    if count != 24 {
        return None;
    }
    proof {
        assert(text.take(text.len() as int) =~= text);
        assert(text.subrange(8, 24) =~= text.skip(8));
    }
    Some(Oid { hi: hi as u32, lo })
}

proof fn lemma_pow16_mono(a: nat, b: nat)
    requires
        a <= b,
    ensures
        pow16(a) <= pow16(b),
    decreases b,
{
    if a < b {
        lemma_pow16_mono(a, (b - 1) as nat);
    }
}

} // verus!
