//! Character classes and small text routines used by request validation,
//! error messages and configuration parsing.

use vstd::prelude::*;

verus! {

broadcast use vstd::string::group_string_axioms;

/// The Unicode `White_Space` property, which `char::is_whitespace` tests.
pub open spec fn is_white_space(c: char) -> bool {
    let u = c as u32;
    ||| 0x9 <= u <= 0xd
    ||| u == 0x20
    ||| u == 0x85
    ||| u == 0xa0
    ||| u == 0x1680
    ||| 0x2000 <= u <= 0x200a
    ||| u == 0x2028
    ||| u == 0x2029
    ||| u == 0x202f
    ||| u == 0x205f
    ||| u == 0x3000
}

/// Text that is empty once leading and trailing white space is trimmed, that
/// is, text made of white space only.
pub open spec fn is_blank_text(s: Seq<char>) -> bool {
    forall|i: int| 0 <= i < s.len() ==> is_white_space(#[trigger] s[i])
}

/// `char::is_whitespace`: whether `c` has the Unicode `White_Space`
/// property, the code points that `is_white_space` lists.
fn char_is_whitespace(c: char) -> (r: bool)
    ensures
        r == is_white_space(c),
{
    let u = c as u32;
    (0x9 <= u && u <= 0xd) || u == 0x20 || u == 0x85 || u == 0xa0 || u == 0x1680 || (0x2000 <= u
        && u <= 0x200a) || u == 0x2028 || u == 0x2029 || u == 0x202f || u == 0x205f || u == 0x3000
}

/// Whether `s.trim()` is empty: every character of `s` is white space.
pub fn is_blank(s: &str) -> (r: bool)
    ensures
        r == is_blank_text(s@),
{
    let mut chars = s.chars();
    let ghost mut k: int = 0;
    loop
        invariant
            0 <= k <= s@.len(),
            vstd::std_specs::iter::IteratorSpec::remaining(&chars) == s@.skip(k),
            forall|j: int| 0 <= j < k ==> is_white_space(#[trigger] s@[j]),
        decreases s@.len() - k,
    {
        match chars.next() {
            Some(c) => {
                assert(c == s@[k]);
                if !char_is_whitespace(c) {
                    return false;
                }
                proof {
                    assert(s@.skip(k).drop_first() =~= s@.skip(k + 1));
                    k = k + 1;
                }
            },
            None => {
                assert(k == s@.len());
                return true;
            },
        }
    }
}

/// `String::push`: appends one character.
#[verifier::external_body]
pub(crate) fn push_char(s: &mut String, c: char)
    ensures
        final(s)@ == old(s)@.push(c),
{
    s.push(c);
}

/// A fresh `String` holding `a` followed by `b`.
pub fn concat(a: &str, b: &str) -> (r: String)
    ensures
        r@ == a@ + b@,
{
    let mut r = String::from_str(a);
    r.append(b);
    r
}


/// The decimal digit character for `d < 10`.
pub open spec fn digit_char(d: nat) -> char {
    if d == 0 {
        '0'
    } else if d == 1 {
        '1'
    } else if d == 2 {
        '2'
    } else if d == 3 {
        '3'
    } else if d == 4 {
        '4'
    } else if d == 5 {
        '5'
    } else if d == 6 {
        '6'
    } else if d == 7 {
        '7'
    } else if d == 8 {
        '8'
    } else {
        '9'
    }
}

/// The shortest decimal digits of `n`.
pub open spec fn digits_of(n: nat) -> Seq<char>
    decreases n,
{
    if n < 10 {
        seq![digit_char(n)]
    } else {
        digits_of(n / 10).push(digit_char(n % 10))
    }
}

/// The decimal text of an integer, as `Display` writes it.
pub open spec fn decimal_text(v: int) -> Seq<char> {
    if v < 0 {
        seq!['-'] + digits_of((-v) as nat)
    } else {
        digits_of(v as nat)
    }
}

fn digit_char_exec(d: u32) -> (c: char)
    requires
        d < 10,
    ensures
        c == digit_char(d as nat),
{
    if d == 0 {
        '0'
    } else if d == 1 {
        '1'
    } else if d == 2 {
        '2'
    } else if d == 3 {
        '3'
    } else if d == 4 {
        '4'
    } else if d == 5 {
        '5'
    } else if d == 6 {
        '6'
    } else if d == 7 {
        '7'
    } else if d == 8 {
        '8'
    } else {
        '9'
    }
}

fn push_digits(s: &mut String, n: u32)
    ensures
        final(s)@ == old(s)@ + digits_of(n as nat),
    decreases n,
{
    if n >= 10 {
        push_digits(s, n / 10);
    }
    push_char(s, digit_char_exec(n % 10));
    proof {
        if n < 10 {
            assert(old(s)@ + digits_of(n as nat) =~= old(s)@.push(digit_char(n as nat)));
        } else {
            assert((old(s)@ + digits_of((n / 10) as nat)).push(digit_char((n % 10) as nat))
                =~= old(s)@ + digits_of(n as nat));
        }
    }
}

/// Appends the decimal text of `v` to `s`.
pub fn push_decimal_i32(s: &mut String, v: i32)
    ensures
        final(s)@ == old(s)@ + decimal_text(v as int),
{
    if v < 0 {
        push_char(s, '-');
        let magnitude: u32 = if v == i32::MIN {
            2147483648u32
        } else {
            (-v) as u32
        };
        push_digits(s, magnitude);
        assert(old(s)@.push('-') + digits_of(magnitude as nat) =~= old(s)@ + (seq!['-']
            + digits_of((-(v as int)) as nat)));
    } else {
        push_digits(s, v as u32);
    }
}

/// The lower-case hexadecimal digit character for `d < 16`.
pub open spec fn hex_char(d: nat) -> char {
    if d < 10 {
        digit_char(d)
    } else if d == 10 {
        'a'
    } else if d == 11 {
        'b'
    } else if d == 12 {
        'c'
    } else if d == 13 {
        'd'
    } else if d == 14 {
        'e'
    } else {
        'f'
    }
}

/// The last `width` lower-case hexadecimal digits of `n`, zero-padded; for
/// `n < 16^width` this is what `{:0width$x}` writes.
pub open spec fn hex_fixed(n: nat, width: nat) -> Seq<char>
    decreases width,
{
    if width == 0 {
        seq![]
    } else {
        hex_fixed(n / 16, (width - 1) as nat).push(hex_char(n % 16))
    }
}

fn hex_char_exec(d: u8) -> (c: char)
    requires
        d < 16,
    ensures
        c == hex_char(d as nat),
{
    if d < 10 {
        digit_char_exec(d as u32)
    } else if d == 10 {
        'a'
    } else if d == 11 {
        'b'
    } else if d == 12 {
        'c'
    } else if d == 13 {
        'd'
    } else if d == 14 {
        'e'
    } else {
        'f'
    }
}

/// Appends the last `width` hexadecimal digits of `n`, zero-padded.
pub fn push_hex_fixed(s: &mut String, n: u128, width: u32)
    ensures
        final(s)@ == old(s)@ + hex_fixed(n as nat, width as nat),
    decreases width,
{
    if width > 0 {
        push_hex_fixed(s, n / 16, width - 1);
        push_char(s, hex_char_exec((n % 16) as u8));
        assert((old(s)@ + hex_fixed((n / 16) as nat, (width - 1) as nat)).push(
            hex_char((n % 16) as nat),
        ) =~= old(s)@ + hex_fixed(n as nat, width as nat));
    } else {
        assert(old(s)@ + hex_fixed(n as nat, 0) =~= old(s)@);
    }
}


/// A decimal digit character.
pub open spec fn is_digit_char(c: char) -> bool {
    48 <= (c as u32) <= 57
}

/// Text made of decimal digits only.
pub open spec fn all_digits(s: Seq<char>) -> bool {
    forall|i: int| 0 <= i < s.len() ==> is_digit_char(#[trigger] s[i])
}

/// The number that a text of decimal digits denotes (0 for empty text).
pub open spec fn decimal_value(s: Seq<char>) -> nat
    decreases s.len(),
{
    if s.len() == 0 {
        0
    } else {
        decimal_value(s.drop_last()) * 10 + ((s.last() as u32) - 48) as nat
    }
}

/// Extending a digit text never makes its value smaller.
pub proof fn lemma_decimal_value_prefix(s: Seq<char>, k: int)
    requires
        0 <= k <= s.len(),
        all_digits(s),
    ensures
        decimal_value(s.take(k)) <= decimal_value(s),
    decreases s.len() - k,
{
    if k < s.len() {
        lemma_decimal_value_prefix(s, k + 1);
        assert(s.take(k + 1).drop_last() =~= s.take(k));
        assert(is_digit_char(s[k]));
    } else {
        assert(s.take(k) =~= s);
    }
}

/// The decimal digits of `n` are digits, and denote `n` again.
pub proof fn lemma_digits_round_trip(n: nat)
    ensures
        all_digits(digits_of(n)),
        decimal_value(digits_of(n)) == n,
        digits_of(n).len() > 0,
    decreases n,
{
    assert(digit_char((n % 10) as nat) as u32 == 48 + n % 10);
    let d = digits_of(n);
    if n >= 10 {
        lemma_digits_round_trip(n / 10);
        assert(d.drop_last() =~= digits_of(n / 10));
        assert(d.last() == digit_char((n % 10) as nat));
        assert(decimal_value(d) == decimal_value(d.drop_last()) * 10 + ((d.last() as u32)
            - 48) as nat);
        assert(decimal_value(d) == (n / 10) * 10 + n % 10);
    } else {
        assert(d.drop_last() =~= Seq::<char>::empty());
        assert(d.last() == digit_char(n));
        assert(decimal_value(d) == decimal_value(d.drop_last()) * 10 + ((d.last() as u32)
            - 48) as nat);
    }
}

/// Reads a text of decimal digits as a `u64`; `None` when the text is empty,
/// holds anything but a digit, or denotes a number above `u64::MAX`.
pub fn parse_decimal_u64(s: &str) -> (r: Option<u64>)
    ensures
        r matches Some(v) ==> s@.len() > 0 && all_digits(s@) && v == decimal_value(s@),
        r is None ==> s@.len() == 0 || !all_digits(s@) || decimal_value(s@) > u64::MAX,
{
    let mut chars = s.chars();
    let ghost mut k: int = 0;
    let mut acc: u64 = 0;
    let mut any = false;
    loop
        invariant
            0 <= k <= s@.len(),
            any == (k > 0),
            vstd::std_specs::iter::IteratorSpec::remaining(&chars) == s@.skip(k),
            all_digits(s@.take(k)),
            acc == decimal_value(s@.take(k)),
        decreases s@.len() - k,
    {
        match chars.next() {
            Some(c) => {
                assert(c == s@[k]);
                let code = c as u32;
                if code < 48 || code > 57 {
                    return None;
                }
                let ghost next = s@.take(k + 1);
                proof {
                    assert(next.drop_last() =~= s@.take(k));
                    assert(next.last() == c);
                }
                let digit = (code - 48) as u64;
                let scaled = acc.checked_mul(10);
                let sum = match scaled {
                    Some(m) => m.checked_add(digit),
                    None => None,
                };
                match sum {
                    Some(v) => {
                        acc = v;
                        any = true;
                    },
                    None => {
                        proof {
                            assert forall|i: int| 0 <= i < next.len() implies is_digit_char(
                                #[trigger] next[i],
                            ) by {
                                if i < k {
                                    assert(next[i] == s@.take(k)[i]);
                                }
                            }
                            if all_digits(s@) {
                                lemma_decimal_value_prefix(s@, k + 1);
                            }
                        }
                        return None;
                    },
                }
                proof {
                    assert forall|i: int| 0 <= i < next.len() implies is_digit_char(
                        #[trigger] next[i],
                    ) by {
                        if i < k {
                            assert(next[i] == s@.take(k)[i]);
                        }
                    }
                    assert(s@.skip(k).drop_first() =~= s@.skip(k + 1));
                    k = k + 1;
                }
            },
            None => {
                assert(k == s@.len());
                assert(s@.take(k) =~= s@);
                if !any {
                    return None;
                }
                return Some(acc);
            },
        }
    }
}

} // verus!
