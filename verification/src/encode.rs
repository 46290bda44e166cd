use vstd::prelude::*;
use vstd::string::*;

verus! {

// Query-value encoding: the canonical string form of the typed values that
// can stand in a URL query component. Unsigned and signed integers use their
// decimal text form, booleans the words `true` and `false`. Each encoding
// function's result is pinned exactly by a spec function of the input, so the
// encoding is deterministic: two runs on one value give one string.

/// The decimal digit character for `d`, which must lie below ten.
pub open spec fn digit_char(d: nat) -> char {
    if d == 0 {
        '0'
    } else if d == 1 {
        '1'
    } else if d == 2 {
        '2'
    } else if d == 3 {
        '3'
    } else if d == 4 {
        '4'
    } else if d == 5 {
        '5'
    } else if d == 6 {
        '6'
    } else if d == 7 {
        '7'
    } else if d == 8 {
        '8'
    } else {
        '9'
    }
}

/// The decimal representation of `n`: most significant digit first, no sign,
/// and no leading zero except for `n == 0` itself.
pub open spec fn dec_chars(n: nat) -> Seq<char>
    decreases n,
{
    if n < 10 {
        seq![digit_char(n)]
    } else {
        dec_chars(n / 10).push(digit_char(n % 10))
    }
}

/// The decimal representation of a signed value: a leading minus sign before
/// the magnitude's digits when the value is negative.
pub open spec fn dec_chars_signed(n: int) -> Seq<char> {
    if n < 0 {
        seq!['-'] + dec_chars((-n) as nat)
    } else {
        dec_chars(n as nat)
    }
}

/// The encoding of a boolean: the word `true` or the word `false`.
pub open spec fn bool_chars(b: bool) -> Seq<char> {
    if b {
        "true"@
    } else {
        "false"@
    }
}

pub open spec fn is_digit(c: char) -> bool {
    ('0' as int) <= c as int <= ('9' as int)
}

pub open spec fn digit_val(c: char) -> nat
    recommends
        is_digit(c),
{
    (c as int - ('0' as int)) as nat
}

pub open spec fn all_digits(s: Seq<char>) -> bool {
    forall|i: int| 0 <= i < s.len() ==> is_digit(s[i])
}

/// The numeric value of a digit string, most significant digit first.
pub open spec fn dec_val(s: Seq<char>) -> nat
    decreases s.len(),
{
    if s.len() == 0 {
        0
    } else {
        dec_val(s.drop_last()) * 10 + digit_val(s.last())
    }
}

/// The digit string of `d` as a borrowed one-character string.
fn digit_str(d: u64) -> (r: &'static str)
    requires
        d < 10,
    ensures
        r@ == seq![digit_char(d as nat)],
{
    proof {
        reveal_strlit("0");
        reveal_strlit("1");
        reveal_strlit("2");
        reveal_strlit("3");
        reveal_strlit("4");
        reveal_strlit("5");
        reveal_strlit("6");
        reveal_strlit("7");
        reveal_strlit("8");
        reveal_strlit("9");
    }
    let r: &'static str = match d {
        0 => "0",
        1 => "1",
        2 => "2",
        3 => "3",
        4 => "4",
        5 => "5",
        6 => "6",
        7 => "7",
        8 => "8",
        _ => "9",
    };
    proof {
        assert(r@ =~= seq![digit_char(d as nat)]);
    }
    r
}

/// Encode an unsigned integer as its decimal digits.
pub fn encode_u64(n: u64) -> (r: String)
    ensures
        r@ == dec_chars(n as nat),
    decreases n,
{
    if n < 10 {
        let s = digit_str(n).to_owned();
        s
    } else {
        let rest = encode_u64(n / 10);
        let r = rest.concat(digit_str(n % 10));
        proof {
            assert(r@ =~= dec_chars(n as nat));
        }
        r
    }
}

/// Encode a signed integer as its decimal digits, with a leading minus sign
/// when it is negative.
pub fn encode_i64(n: i64) -> (r: String)
    ensures
        r@ == dec_chars_signed(n as int),
{
    if n >= 0 {
        encode_u64(n as u64)
    } else {
        // `-(n + 1)` stays in range even for the smallest value.
        let mag: u64 = (-(n + 1)) as u64 + 1;
        proof {
            reveal_strlit("-");
            assert(mag as int == -(n as int));
        }
        let r = "-".to_owned().concat(encode_u64(mag).as_str());
        proof {
            assert(r@ =~= dec_chars_signed(n as int));
        }
        r
    }
}

/// Encode a boolean as the word `true` or `false`.
pub fn encode_bool(b: bool) -> (r: String)
    ensures
        r@ == bool_chars(b),
{
    if b {
        "true".to_owned()
    } else {
        "false".to_owned()
    }
}

/// The text after an optional single leading plus sign.
pub open spec fn strip_plus(s: Seq<char>) -> Seq<char> {
    if s.len() > 0 && s[0] == '+' {
        s.subrange(1, s.len() as int)
    } else {
        s
    }
}

/// Whether `s` parses as a base-10 unsigned 64-bit integer: an optional
/// leading plus sign, then at least one digit, and a value that fits.
pub open spec fn dec_parses(s: Seq<char>) -> bool {
    let t = strip_plus(s);
    t.len() > 0 && all_digits(t) && dec_val(t) <= u64::MAX
}

/// The parsed value of `s`, meaningful when `dec_parses(s)` holds.
pub open spec fn dec_parsed(s: Seq<char>) -> nat {
    dec_val(strip_plus(s))
}

/// The value of a digit string never shrinks when the string grows on the
/// right, so every prefix's value bounds the whole string's value from below.
proof fn lemma_dec_val_prefix_le(s: Seq<char>, j: int)
    requires
        0 <= j <= s.len(),
    ensures
        dec_val(s.subrange(0, j)) <= dec_val(s),
    decreases s.len() - j,
{
    if j == s.len() {
        assert(s.subrange(0, j) =~= s);
    } else {
        let p = s.subrange(0, j);
        let q = s.subrange(0, j + 1);
        assert(q.drop_last() =~= p);
        assert(dec_val(q) == dec_val(p) * 10 + digit_val(q.last()));
        assert(dec_val(p) <= dec_val(p) * 10) by (nonlinear_arith);
        lemma_dec_val_prefix_le(s, j + 1);
    }
}

/// Parse a base-10 unsigned 64-bit integer, accepting an optional leading
/// plus sign, exactly as the standard decimal form admits it. Every other
/// text, and every value above the 64-bit range, is rejected.
pub fn parse_u64(s: &str) -> (r: Option<u64>)
    ensures
        r == (if dec_parses(s@) {
            Some(dec_parsed(s@) as u64)
        } else {
            None::<u64>
        }),
{
    let len: usize = s.unicode_len();
    let mut start: usize = 0;
    if len > 0 {
        let c0 = s.get_char(0);
        if c0 == '+' {
            start = 1;
        }
    }
    let ghost t = strip_plus(s@);
    proof {
        assert(t =~= s@.subrange(start as int, len as int));
    }
    if start == len {
        return None;
    }
    let mut acc: u64 = 0;
    let mut i: usize = start;
    while i < len
        invariant
            start <= i <= len,
            len == s@.len(),
            start < len,
            t == s@.subrange(start as int, len as int),
            t == strip_plus(s@),
            all_digits(t.subrange(0, i - start)),
            acc as nat == dec_val(t.subrange(0, i - start)),
        decreases len - i,
    {
        let c = s.get_char(i);
        let u: u32 = c as u32;
        if u < 48 || u > 57 {
            proof {
                assert(!is_digit(t[i - start]));
            }
            return None;
        }
        let d: u64 = (u - 48) as u64;
        if acc > (u64::MAX - d) / 10 {
            // The value read so far already overflows the 64-bit range once
            // this digit is attached, so the whole string's value does too.
            proof {
                let pre = t.subrange(0, i - start + 1);
                assert(pre.drop_last() =~= t.subrange(0, i - start));
                assert(pre.last() == t[i - start]);
                assert(digit_val(pre.last()) == d as nat);
                assert(dec_val(pre) == (acc as nat) * 10 + d as nat);
                assert((acc as nat) * 10 + d as nat > u64::MAX as nat) by (nonlinear_arith)
                    requires
                        acc > (u64::MAX - d) / 10,
                        d <= 9,
                ;
                if all_digits(t) && dec_val(t) <= u64::MAX {
                    lemma_dec_val_prefix_le(t, i - start + 1);
                }
            }
            return None;
        }
        proof {
            assert((acc as nat) * 10 + d as nat <= u64::MAX as nat) by (nonlinear_arith)
                requires
                    acc <= (u64::MAX - d) / 10,
                    d <= 9,
            ;
            let pre = t.subrange(0, i - start + 1);
            assert(pre.drop_last() =~= t.subrange(0, i - start));
            assert(pre.last() == t[i - start]);
        }
        acc = acc * 10 + d;
        i = i + 1;
    }
    proof {
        assert(t.subrange(0, len - start) =~= t);
    }
    Some(acc)
}

/// Decimal encoding yields digits only, and never starts with a sign.
pub proof fn lemma_dec_chars_all_digits(n: nat)
    ensures
        dec_chars(n).len() >= 1,
        all_digits(dec_chars(n)),
    decreases n,
{
    if n >= 10 {
        lemma_dec_chars_all_digits(n / 10);
        assert(all_digits(dec_chars(n))) by {
            let s = dec_chars(n / 10);
            let w = s.push(digit_char(n % 10));
            assert(forall|i: int| 0 <= i < s.len() ==> w[i] == s[i]);
        }
    }
}

/// Reading the decimal digits of `n` back as a number gives `n` again.
proof fn lemma_dec_val_of_dec_chars(n: nat)
    ensures
        dec_val(dec_chars(n)) == n,
    decreases n,
{
    if n < 10 {
        let s = seq![digit_char(n)];
        assert(s.drop_last() =~= Seq::<char>::empty());
        assert(s.last() == digit_char(n));
        assert(digit_val(digit_char(n)) == n);
        assert(dec_val(s) == dec_val(s.drop_last()) * 10 + digit_val(s.last()));
    } else {
        lemma_dec_val_of_dec_chars(n / 10);
        let s = dec_chars(n / 10);
        let w = s.push(digit_char(n % 10));
        assert(w.drop_last() =~= s);
        assert(dec_val(w) == (n / 10) * 10 + (n % 10));
        assert((n / 10) * 10 + (n % 10) == n) by (nonlinear_arith);
    }
}

/// Round trip: the decimal encoding of every unsigned 64-bit value parses
/// back to exactly that value.
pub proof fn lemma_dec_roundtrip(n: u64)
    ensures
        dec_parses(dec_chars(n as nat)),
        dec_parsed(dec_chars(n as nat)) == n as nat,
{
    let s = dec_chars(n as nat);
    lemma_dec_chars_all_digits(n as nat);
    lemma_dec_val_of_dec_chars(n as nat);
    assert(is_digit(s[0]));
    assert(s[0] != '+');
    assert(strip_plus(s) == s);
}

} // verus!
