//! Three-bit filter masks and their binary text form (`{:03b}`), as the
//! category and purity filters are written in API parameters and the
//! configuration.

use vstd::prelude::*;
use crate::text::chars_of;
use crate::text::string_of;

verus! {

pub open spec fn bit_char(b: nat) -> char {
    if b == 0 {
        '0'
    } else {
        '1'
    }
}

/// The binary digits of `n`, most significant first, without leading zeros
/// (`0` is the single digit `0`).
pub open spec fn binary_digits(n: nat) -> Seq<char>
    decreases n,
{
    if n < 2 {
        seq![bit_char(n)]
    } else {
        binary_digits(n / 2).push(bit_char(n % 2))
    }
}

pub open spec fn zeros(k: nat) -> Seq<char> {
    Seq::new(k, |i: int| '0')
}

/// The text `format!("{:03b}", n)` produces: the binary digits of `n`,
/// left-padded with zeros to at least three digits.
pub open spec fn mask_text(n: u32) -> Seq<char> {
    let d = binary_digits(n as nat);
    if d.len() < 3 {
        zeros((3 - d.len()) as nat) + d
    } else {
        d
    }
}

pub open spec fn is_binary(s: Seq<char>) -> bool {
    forall|i: int| 0 <= i < s.len() ==> (#[trigger] s[i] == '0' || s[i] == '1')
}

/// The number a sequence of binary digits denotes.
pub open spec fn binary_value(s: Seq<char>) -> nat
    decreases s.len(),
{
    if s.len() == 0 {
        0
    } else {
        2 * binary_value(s.drop_last()) + if s.last() == '1' {
            1nat
        } else {
            0nat
        }
    }
}

/// The mask a stored text denotes: a non-empty string of binary digits whose
/// value fits in `u32` denotes that value; any other text denotes `default`.
pub open spec fn mask_of(s: Seq<char>, default: u32) -> u32 {
    if s.len() > 0 && is_binary(s) && binary_value(s) <= u32::MAX {
        binary_value(s) as u32
    } else {
        default
    }
}

proof fn lemma_digits(n: nat)
    ensures
        binary_digits(n).len() >= 1,
        is_binary(binary_digits(n)),
        binary_value(binary_digits(n)) == n,
    decreases n,
{
    if n >= 2 {
        lemma_digits(n / 2);
        let d = binary_digits(n / 2);
        let e = d.push(bit_char(n % 2));
        assert(e.drop_last() =~= d);
        assert(e.last() == bit_char(n % 2));
        assert(binary_value(e) == 2 * binary_value(d) + if n % 2 == 1 { 1nat } else { 0nat });
        assert(n == 2 * (n / 2) + n % 2);
        assert forall|i: int| 0 <= i < e.len() implies (#[trigger] e[i] == '0' || e[i] == '1') by {
            if i < d.len() {
                assert(e[i] == d[i]);
            }
        }
    } else {
        let e = seq![bit_char(n)];
        assert(e.drop_last() =~= Seq::<char>::empty());
        assert(e.last() == bit_char(n));
        assert(binary_value(Seq::<char>::empty()) == 0);
    }
}

proof fn lemma_zeros_value(k: nat)
    ensures
        binary_value(zeros(k)) == 0,
    decreases k,
{
    if k > 0 {
        assert(zeros(k).drop_last() =~= zeros((k - 1) as nat));
        lemma_zeros_value((k - 1) as nat);
    }
}

proof fn lemma_leading_zeros(k: nat, s: Seq<char>)
    ensures
        binary_value(zeros(k) + s) == binary_value(s),
    decreases s.len(),
{
    if s.len() == 0 {
        assert(zeros(k) + s =~= zeros(k));
        lemma_zeros_value(k);
    } else {
        lemma_leading_zeros(k, s.drop_last());
        assert((zeros(k) + s).drop_last() =~= zeros(k) + s.drop_last());
        assert((zeros(k) + s).last() == s.last());
    }
}

/// Extending a binary text never lowers its value.
proof fn lemma_value_grows(s: Seq<char>, i: int)
    requires
        0 <= i <= s.len(),
    ensures
        binary_value(s.take(i)) <= binary_value(s),
    decreases s.len() - i,
{
    if i < s.len() {
        lemma_value_grows(s, i + 1);
        assert(s.take(i + 1).drop_last() =~= s.take(i));
    } else {
        assert(s.take(i) =~= s);
    }
}

/// Reading back the text of a mask gives the mask.
pub proof fn lemma_mask_roundtrip(n: u32, default: u32)
    ensures
        mask_of(mask_text(n), default) == n,
{
    lemma_digits(n as nat);
    let d = binary_digits(n as nat);
    if d.len() < 3 {
        let k = (3 - d.len()) as nat;
        lemma_leading_zeros(k, d);
        let t = zeros(k) + d;
        assert forall|i: int| 0 <= i < t.len() implies (#[trigger] t[i] == '0' || t[i] == '1') by {
            if i >= k {
                assert(t[i] == d[i - k]);
            }
        }
    }
}

fn digits_of(n: u32) -> (r: Vec<char>)
    ensures
        r@ == binary_digits(n as nat),
    decreases n,
{
    if n < 2 {
        let mut v: Vec<char> = Vec::new();
        v.push(if n == 0 { '0' } else { '1' });
        assert(v@ =~= seq![bit_char(n as nat)]);
        v
    } else {
        let mut v = digits_of(n / 2);
        v.push(if n % 2 == 0 { '0' } else { '1' });
        v
    }
}

/// `format!("{:03b}", n)`.
pub fn format_mask(n: u32) -> (r: String)
    ensures
        r@ == mask_text(n),
{
    let d = digits_of(n);
    if d.len() < 3 {
        let k = 3 - d.len();
        let mut v: Vec<char> = Vec::new();
        let mut i: usize = 0;
        while i < k
            invariant
                i <= k,
                v@ == zeros(i as nat),
            decreases k - i,
        {
            v.push('0');
            i = i + 1;
            assert(v@ =~= zeros(i as nat));
        }
        let mut j: usize = 0;
        while j < d.len()
            invariant
                j <= d@.len(),
                v@ == zeros(k as nat) + d@.take(j as int),
            decreases d@.len() - j,
        {
            v.push(d[j]);
            j = j + 1;
            assert(v@ =~= zeros(k as nat) + d@.take(j as int));
        }
        assert(d@.take(d@.len() as int) =~= d@);
        string_of(v.as_slice())
    } else {
        string_of(d.as_slice())
    }
}

/// Reads a stored mask; text that is not a binary number fitting in `u32`
/// gives `default`.
pub fn parse_mask(s: &str, default: u32) -> (r: u32)
    ensures
        r == mask_of(s@, default),
{
    let c = chars_of(s);
    if c.len() == 0 {
        return default;
    }
    let mut acc: u64 = 0;
    let mut i: usize = 0;
    while i < c.len()
        invariant
            c@ == s@,
            i <= c@.len(),
            is_binary(c@.take(i as int)),
            acc == binary_value(c@.take(i as int)),
            acc <= u32::MAX,
        decreases c@.len() - i,
    {
        let ch = c[i];
        if ch != '0' && ch != '1' {
            proof {
                assert(c@[i as int] == ch);
            }
            return default;
        }
        let ghost prefix = c@.take(i as int);
        assert(c@.take(i + 1).drop_last() =~= prefix);
        let next: u64 = acc * 2 + if ch == '1' { 1u64 } else { 0u64 };
        if next > 0xffff_ffffu64 {
            proof {
                lemma_value_grows(c@, i + 1);
            }
            return default;
        }
        acc = next;
        i = i + 1;
        assert forall|k: int| 0 <= k < c@.take(i as int).len() implies (#[trigger] c@.take(
            i as int,
        )[k] == '0' || c@.take(i as int)[k] == '1') by {
            if k < i - 1 {
                assert(c@.take(i as int)[k] == prefix[k]);
            }
        }
    }
    assert(c@.take(c@.len() as int) =~= c@);
    acc as u32
}

} // verus!
