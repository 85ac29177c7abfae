//! Decimal rendering and parsing of the integer and fixed-point quantities
//! that appear in configuration blocks and report rows.
use vstd::prelude::*;

verus! {

/// Decimal digit as a character.
pub open spec fn digit_char(d: nat) -> char {
    if d == 0 {
        '0'
    } else if d == 1 {
        '1'
    } else if d == 2 {
        '2'
    } else if d == 3 {
        '3'
    } else if d == 4 {
        '4'
    } else if d == 5 {
        '5'
    } else if d == 6 {
        '6'
    } else if d == 7 {
        '7'
    } else if d == 8 {
        '8'
    } else {
        '9'
    }
}

/// The decimal rendering of a natural number, most significant digit first.
pub open spec fn dec_spec(n: nat) -> Seq<char>
    decreases n,
{
    if n < 10 {
        seq![digit_char(n)]
    } else {
        dec_spec(n / 10) + seq![digit_char(n % 10)]
    }
}

/// The decimal rendering of `n`, zero-padded on the left to exactly `k` digits;
/// only the `k` least significant digits are kept.
pub open spec fn pad_dec_spec(n: nat, k: nat) -> Seq<char>
    decreases k,
{
    if k == 0 {
        Seq::<char>::empty()
    } else {
        pad_dec_spec(n / 10, (k - 1) as nat) + seq![digit_char(n % 10)]
    }
}

pub open spec fn is_digit(c: char) -> bool {
    '0' <= c && c <= '9'
}

pub open spec fn all_digits(s: Seq<char>) -> bool {
    forall|i: int| 0 <= i < s.len() ==> is_digit(#[trigger] s[i])
}

pub open spec fn digit_val(c: char) -> nat {
    ((c as nat) - ('0' as nat)) as nat
}

/// The value of a digit string read in base ten; the empty string reads as zero.
pub open spec fn digits_val(s: Seq<char>) -> nat
    decreases s.len(),
{
    if s.len() == 0 {
        0
    } else {
        digits_val(s.drop_last()) * 10 + digit_val(s.last())
    }
}

fn digit_str(d: u64) -> (s: &'static str)
    requires
        d < 10,
    ensures
        s@ =~= seq![digit_char(d as nat)],
{
    proof {
        reveal_strlit("0");
        reveal_strlit("1");
        reveal_strlit("2");
        reveal_strlit("3");
        reveal_strlit("4");
        reveal_strlit("5");
        reveal_strlit("6");
        reveal_strlit("7");
        reveal_strlit("8");
        reveal_strlit("9");
    }
    if d == 0 {
        "0"
    } else if d == 1 {
        "1"
    } else if d == 2 {
        "2"
    } else if d == 3 {
        "3"
    } else if d == 4 {
        "4"
    } else if d == 5 {
        "5"
    } else if d == 6 {
        "6"
    } else if d == 7 {
        "7"
    } else if d == 8 {
        "8"
    } else {
        "9"
    }
}

/// Renders a number in decimal, exactly as `dec_spec` describes.
pub fn u64_to_dec(n: u64) -> (s: String)
    ensures
        s@ == dec_spec(n as nat),
    decreases n,
{
    if n < 10 {
        let s = String::from_str(digit_str(n));
        proof {
            assert(s@ =~= dec_spec(n as nat));
        }
        s
    } else {
        let mut s = u64_to_dec(n / 10);
        s.append(digit_str(n % 10));
        proof {
            assert(s@ =~= dec_spec(n as nat));
        }
        s
    }
}

/// Renders the `k` least significant decimal digits of `n`, zero-padded,
/// exactly as `pad_dec_spec` describes.
pub fn pad_dec(n: u64, k: usize) -> (s: String)
    ensures
        s@ == pad_dec_spec(n as nat, k as nat),
    decreases k,
{
    if k == 0 {
        let s = String::new();
        proof {
            assert(s@ =~= pad_dec_spec(n as nat, 0));
        }
        s
    } else {
        let mut s = pad_dec(n / 10, k - 1);
        s.append(digit_str(n % 10));
        proof {
            assert(s@ =~= pad_dec_spec(n as nat, k as nat));
        }
        s
    }
}

pub open spec fn pow10(k: nat) -> nat
    decreases k,
{
    if k == 0 {
        1
    } else {
        10 * pow10((k - 1) as nat)
    }
}

/// A non-negative decimal numeral with exactly six fraction digits:
/// one or more digits, a point, six digits.
pub open spec fn fixed6_nonneg(s: Seq<char>) -> bool {
    let n = s.len() as int;
    n >= 8 && s[n - 7] == '.' && all_digits(s.subrange(0, n - 7)) && all_digits(
        s.subrange(n - 6, n),
    )
}

/// A decimal numeral with exactly six fraction digits and an optional
/// leading minus sign.
pub open spec fn is_fixed6(s: Seq<char>) -> bool {
    fixed6_nonneg(s) || (s.len() >= 1 && s[0] == '-' && fixed6_nonneg(
        s.subrange(1, s.len() as int),
    ))
}

/// The value of a six-fraction-digit numeral, in millionths.
pub open spec fn fixed6_val(s: Seq<char>) -> nat {
    let n = s.len() as int;
    digits_val(s.subrange(0, n - 7)) * 1000000 + digits_val(s.subrange(n - 6, n))
}

/// The value of a digit string is at least the value of any of its prefixes.
pub proof fn lemma_digits_val_prefix_le(s: Seq<char>, i: int)
    requires
        0 <= i <= s.len(),
    ensures
        digits_val(s.subrange(0, i)) <= digits_val(s),
    decreases s.len() - i,
{
    if i < s.len() {
        assert(s.subrange(0, i + 1).drop_last() =~= s.subrange(0, i));
        assert(digits_val(s.subrange(0, i + 1)) == digits_val(s.subrange(0, i)) * 10 + digit_val(
            s.subrange(0, i + 1).last(),
        ));
        lemma_digits_val_prefix_le(s, i + 1);
    } else {
        assert(s.subrange(0, i) =~= s);
    }
}

/// Reads a non-negative six-fraction-digit numeral as a count of
/// millionths. Returns the exact value when the text has that shape and the
/// count fits in a machine word, and nothing otherwise.
pub fn parse_fixed6(s: &str) -> (r: Option<u64>)
    ensures
        r is Some <==> fixed6_nonneg(s@) && fixed6_val(s@) <= u64::MAX,
        r matches Some(v) ==> v == fixed6_val(s@),
{
    let n = s.unicode_len();
    if n < 8 {
        return None;
    }
    let ghost hd = s@.subrange(0, n - 7);
    let ghost fr = s@.subrange(n - 6, n as int);
    if s.get_char(n - 7) != '.' {
        return None;
    }
    let mut head: u64 = 0;
    let mut i: usize = 0;
    proof {
        assert(hd.subrange(0, 0) =~= Seq::<char>::empty());
    }
    while i < n - 7
        invariant
            0 <= i <= n - 7,
            8 <= n == s@.len(),
            hd == s@.subrange(0, n - 7),
            fr == s@.subrange(n - 6, n as int),
            head == digits_val(hd.subrange(0, i as int)),
            all_digits(hd.subrange(0, i as int)),
        decreases n - 7 - i,
    {
        let c = s.get_char(i);
        proof {
            assert(hd[i as int] == s@[i as int]);
        }
        let x = c as u32;
        if x < 48 || x > 57 {
            proof {
                assert(!is_digit(hd[i as int]));
                assert(!all_digits(hd));
            }
            return None;
        }
        let d = (x - 48) as u64;
        proof {
            assert(is_digit(hd[i as int]));
            assert(d == digit_val(hd[i as int]));
        }
        let step = match head.checked_mul(10) {
            Some(m) => m.checked_add(d),
            None => None,
        };
        proof {
            assert(hd.subrange(0, i + 1).drop_last() =~= hd.subrange(0, i as int));
            assert(hd.subrange(0, i + 1).last() == hd[i as int]);
            assert(digits_val(hd.subrange(0, i + 1)) == digits_val(hd.subrange(0, i as int)) * 10
                + digit_val(hd[i as int]));
        }
        match step {
            Some(v) => {
                head = v;
            },
            None => {
                proof {
                    lemma_digits_val_prefix_le(hd, i + 1);
                    assert(digits_val(hd) > u64::MAX);
                    assert(fixed6_val(s@) >= digits_val(hd) * 1000000) by (nonlinear_arith)
                        requires
                            fixed6_val(s@) == digits_val(hd) * 1000000 + digits_val(fr) && digits_val(
                                fr,
                            ) >= 0 && digits_val(hd) >= 0,
                    ;
                    assert(digits_val(hd) * 1000000 >= digits_val(hd)) by (nonlinear_arith)
                        requires
                            digits_val(hd) >= 0,
                    ;
                }
                return None;
            },
        }
        i = i + 1;
    }
    proof {
        assert(hd.subrange(0, (n - 7) as int) =~= hd);
    }
    let mut frac: u64 = 0;
    let mut j: usize = n - 6;
    proof {
        assert(fr.subrange(0, 0) =~= Seq::<char>::empty());
        lemma_digits_val_small(fr.subrange(0, 0));
    }
    while j < n
        invariant
            n - 6 <= j <= n,
            8 <= n == s@.len(),
            hd == s@.subrange(0, n - 7),
            fr == s@.subrange(n - 6, n as int),
            head == digits_val(hd),
            all_digits(hd),
            frac == digits_val(fr.subrange(0, j - (n - 6))),
            all_digits(fr.subrange(0, j - (n - 6))),
            frac < pow10((j - (n - 6)) as nat),
            j - (n - 6) <= 6,
        decreases n - j,
    {
        let c = s.get_char(j);
        proof {
            assert(fr[j - (n - 6)] == s@[j as int]);
        }
        let x = c as u32;
        if x < 48 || x > 57 {
            proof {
                assert(!is_digit(fr[j - (n - 6)]));
                assert(!all_digits(fr));
            }
            return None;
        }
        let d = (x - 48) as u64;
        proof {
            assert(is_digit(fr[j - (n - 6)]));
            assert(d == digit_val(fr[j - (n - 6)]));
            reveal_with_fuel(pow10, 7);
            assert(pow10(5) == 100000);
            lemma_pow10_le((j - (n - 6)) as nat, 5);
            assert(frac < 100000);
            let t = j - (n - 6);
            assert(fr.subrange(0, t + 1).drop_last() =~= fr.subrange(0, t));
            assert(fr.subrange(0, t + 1).last() == fr[t]);
            assert(digits_val(fr.subrange(0, t + 1)) == digits_val(fr.subrange(0, t)) * 10
                + digit_val(fr[t]));
            lemma_digits_val_small(fr.subrange(0, t + 1));
        }
        frac = frac * 10 + d;
        j = j + 1;
    }
    proof {
        assert(fr.subrange(0, 6) =~= fr);
    }
    let scaled = match head.checked_mul(1000000) {
        Some(m) => m.checked_add(frac),
        None => None,
    };
    match scaled {
        Some(v) => {
            proof {
                assert(fixed6_nonneg(s@));
                assert(v == fixed6_val(s@));
            }
            Some(v)
        },
        None => {
            proof {
                assert(fixed6_val(s@) > u64::MAX);
            }
            None
        },
    }
}

proof fn lemma_digits_val_small(s: Seq<char>)
    requires
        all_digits(s),
    ensures
        digits_val(s) < pow10(s.len()),
    decreases s.len(),
{
    if s.len() == 0 {
    } else {
        assert(all_digits(s.drop_last())) by {
            assert(forall|i: int|
                0 <= i < s.len() - 1 ==> s.drop_last()[i] == #[trigger] s[i]);
        }
        lemma_digits_val_small(s.drop_last());
        assert(is_digit(s.last()));
        assert(digit_val(s.last()) <= 9);
        assert(digits_val(s.drop_last()) * 10 + 9 < pow10((s.len() - 1) as nat) * 10)
            by (nonlinear_arith)
            requires
                digits_val(s.drop_last()) < pow10((s.len() - 1) as nat),
        ;
    }
}

proof fn lemma_pow10_le(a: nat, b: nat)
    requires
        a <= b,
    ensures
        pow10(a) <= pow10(b),
    decreases b,
{
    if a < b {
        lemma_pow10_le(a, (b - 1) as nat);
        assert(pow10(b) == 10 * pow10((b - 1) as nat));
    }
}

/// A piece of text repeated `n` times.
pub open spec fn repeat_spec(p: Seq<char>, n: nat) -> Seq<char>
    decreases n,
{
    if n == 0 {
        Seq::<char>::empty()
    } else {
        repeat_spec(p, (n - 1) as nat) + p
    }
}

/// Repeats a piece of text `n` times, exactly as `repeat_spec` describes.
pub fn repeat_str(piece: &str, n: usize) -> (s: String)
    ensures
        s@ == repeat_spec(piece@, n as nat),
{
    let mut s = String::new();
    let mut i: usize = 0;
    proof {
        assert(s@ =~= repeat_spec(piece@, 0));
    }
    while i < n
        invariant
            0 <= i <= n,
            s@ == repeat_spec(piece@, i as nat),
        decreases n - i,
    {
        s.append(piece);
        i = i + 1;
    }
    s
}

/// Text padded on the left with spaces to at least `w` characters; text
/// already that long is unchanged.
pub open spec fn left_pad_spec(s: Seq<char>, w: nat) -> Seq<char> {
    if s.len() >= w {
        s
    } else {
        repeat_spec(" "@, (w - s.len()) as nat) + s
    }
}

/// Pads text on the left with spaces to the given width, exactly as
/// `left_pad_spec` describes.
pub fn left_pad(s: &str, width: usize) -> (r: String)
    ensures
        r@ == left_pad_spec(s@, width as nat),
{
    let n = s.unicode_len();
    if n >= width {
        String::from_str(s)
    } else {
        let mut r = repeat_str(" ", width - n);
        r.append(s);
        r
    }
}

/// A fixed-point count of `10^frac`-ths rendered as a decimal numeral with
/// exactly `frac` fraction digits.
pub open spec fn fixed_render(v: nat, frac: nat) -> Seq<char> {
    dec_spec(v / pow10(frac)) + seq!['.'] + pad_dec_spec(v % pow10(frac), frac)
}

/// Renders a fixed-point count of hundredths or thousandths, exactly as
/// `fixed_render` describes.
pub fn format_fixed(v: u64, frac: usize) -> (s: String)
    requires
        frac == 2 || frac == 3,
    ensures
        s@ == fixed_render(v as nat, frac as nat),
{
    let p: u64 = if frac == 2 {
        100
    } else {
        1000
    };
    proof {
        reveal_with_fuel(pow10, 4);
        assert(p == pow10(frac as nat));
    }
    let mut s = u64_to_dec(v / p);
    s.append(".");
    s.append(pad_dec(v % p, frac).as_str());
    proof {
        reveal_strlit(".");
        assert(s@ =~= fixed_render(v as nat, frac as nat));
    }
    s
}

/// `x / d`, rounded to the nearest integer with halves rounded up.
pub open spec fn round_div_spec(x: nat, d: nat) -> nat {
    x / d + if (x % d) * 2 >= d {
        1nat
    } else {
        0nat
    }
}

/// Divides with rounding to nearest, halves up.
pub fn round_div(x: u64, d: u64) -> (r: u64)
    requires
        2 <= d,
    ensures
        r == round_div_spec(x as nat, d as nat),
{
    let q = x / d;
    let rem = x % d;
    proof {
        assert(q * d <= x) by (nonlinear_arith)
            requires
                d >= 2 && q == x as nat / d as nat && x as nat % d as nat >= 0,
        ;
        assert(q < 0x8000_0000_0000_0000u64) by (nonlinear_arith)
            requires
                q * d <= x && x <= u64::MAX && d >= 2 && q >= 0,
        ;
    }
    if rem > d / 2 || (rem == d / 2 && d % 2 == 0) {
        proof {
            assert((x as nat % d as nat) * 2 >= d as nat);
        }
        q + 1
    } else {
        proof {
            assert(!((x as nat % d as nat) * 2 >= d as nat));
        }
        q
    }
}

} // verus!
