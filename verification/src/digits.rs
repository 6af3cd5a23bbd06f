//! Decimal rendering and parsing of unsigned integers, and the byte-count
//! formatter built on them. The wire handshake carries lengths and sizes in
//! canonical decimal (no leading zeroes), so both directions are proved
//! against one spec-level representation, `dec_rep`.

use vstd::prelude::*;
use vstd::string::StringExecFns;
use vstd::string::StrSliceExecFns;

verus! {

pub open spec fn is_digit_char(c: char) -> bool {
    '0' <= c && c <= '9'
}

/// The numeric value of one decimal digit character.
pub open spec fn digit_val(c: char) -> nat
    recommends
        is_digit_char(c),
{
    (c as nat - '0' as nat) as nat
}

/// The decimal digit character for a value below ten.
pub open spec fn digit_char(d: nat) -> char
    recommends
        d < 10,
{
    if d == 0 {
        '0'
    } else if d == 1 {
        '1'
    } else if d == 2 {
        '2'
    } else if d == 3 {
        '3'
    } else if d == 4 {
        '4'
    } else if d == 5 {
        '5'
    } else if d == 6 {
        '6'
    } else if d == 7 {
        '7'
    } else if d == 8 {
        '8'
    } else {
        '9'
    }
}

/// The canonical decimal representation of `n`: most significant digit
/// first, no leading zeroes (a lone `'0'` for zero).
pub open spec fn dec_rep(n: nat) -> Seq<char>
    decreases n,
{
    if n < 10 {
        seq![digit_char(n)]
    } else {
        dec_rep(n / 10).push(digit_char(n % 10))
    }
}

/// The value of a digit string, most significant digit first.
pub open spec fn dec_val(s: Seq<char>) -> nat
    decreases s.len(),
{
    if s.len() == 0 {
        0
    } else {
        dec_val(s.drop_last()) * 10 + digit_val(s.last())
    }
}

pub open spec fn all_digits(s: Seq<char>) -> bool {
    forall|i: int| 0 <= i < s.len() ==> is_digit_char(#[trigger] s[i])
}

/// A digit string is canonical when it is nonempty and carries no leading
/// zero (a lone `'0'` is allowed).
pub open spec fn canonical_digits(s: Seq<char>) -> bool {
    &&& all_digits(s)
    &&& s.len() > 0
    &&& (s.len() > 1 ==> s[0] != '0')
}

/// `digit_char` and `digit_val` invert each other on one digit.
pub proof fn lemma_digit_roundtrip(d: nat)
    requires
        d < 10,
    ensures
        is_digit_char(digit_char(d)),
        digit_val(digit_char(d)) == d,
{
    if d == 0 {
    } else if d == 1 {
    } else if d == 2 {
    } else if d == 3 {
    } else if d == 4 {
    } else if d == 5 {
    } else if d == 6 {
    } else if d == 7 {
    } else if d == 8 {
    } else {
    }
}

/// `digit_val` followed by `digit_char` gives back the same character.
pub proof fn lemma_char_digit_roundtrip(c: char)
    requires
        is_digit_char(c),
    ensures
        digit_val(c) < 10,
        digit_char(digit_val(c)) == c,
{
    if c == '0' {
    } else if c == '1' {
    } else if c == '2' {
    } else if c == '3' {
    } else if c == '4' {
    } else if c == '5' {
    } else if c == '6' {
    } else if c == '7' {
    } else if c == '8' {
    } else {
        assert(c == '9');
    }
}

pub proof fn lemma_dec_rep_digits(n: nat)
    ensures
        dec_rep(n).len() >= 1,
        all_digits(dec_rep(n)),
        dec_rep(n)[0] == '0' <==> n == 0,
        dec_val(dec_rep(n)) == n,
        canonical_digits(dec_rep(n)),
    decreases n,
{
    if n < 10 {
        lemma_digit_roundtrip(n);
        assert(dec_rep(n) =~= seq![digit_char(n)]);
        assert(dec_rep(n).drop_last() =~= Seq::<char>::empty());
        assert(dec_rep(n).last() == digit_char(n));
        assert(dec_val(dec_rep(n)) == dec_val(Seq::<char>::empty()) * 10 + digit_val(
            digit_char(n),
        ));
        assert(dec_val(dec_rep(n)) == n);
    } else {
        lemma_dec_rep_digits(n / 10);
        lemma_digit_roundtrip(n % 10);
        let pre = dec_rep(n / 10);
        let whole = pre.push(digit_char(n % 10));
        assert(dec_rep(n) == whole);
        assert(whole.drop_last() =~= pre);
        assert(whole.last() == digit_char(n % 10));
        assert(dec_val(whole) == dec_val(pre) * 10 + digit_val(digit_char(n % 10)));
        vstd::arithmetic::div_mod::lemma_fundamental_div_mod(n as int, 10);
        assert(dec_val(whole) == n);
        assert(whole[0] == pre[0]);
    }
}

/// Canonical digit strings are exactly the `dec_rep` images: value and
/// representation determine each other.
pub proof fn lemma_canonical_digits_unique(s: Seq<char>)
    requires
        canonical_digits(s),
    ensures
        dec_rep(dec_val(s)) == s,
    decreases s.len(),
{
    if s.len() == 1 {
        let c = s[0];
        assert(dec_val(s.drop_last()) == 0) by {
            assert(s.drop_last() =~= Seq::<char>::empty());
        }
        assert(dec_val(s) == digit_val(c));
        lemma_char_digit_roundtrip(c);
        assert(dec_rep(digit_val(c)) =~= seq![digit_char(digit_val(c))]);
        assert(dec_rep(dec_val(s)) =~= s);
    } else {
        let pre = s.drop_last();
        assert(all_digits(pre)) by {
            assert(forall|i: int| 0 <= i < pre.len() ==> pre[i] == s[i]);
        }
        assert(pre[0] == s[0]);
        assert(canonical_digits(pre));
        lemma_canonical_digits_unique(pre);
        let d = digit_val(s.last());
        assert(dec_val(s) == dec_val(pre) * 10 + d);
        // the leading digit of `pre` is nonzero, so its value is at least 1
        assert(dec_val(pre) >= 1) by {
            lemma_nonzero_lead_val(pre);
        }
        assert(dec_val(s) >= 10) by (nonlinear_arith)
            requires
                dec_val(s) == dec_val(pre) * 10 + d,
                dec_val(pre) >= 1,
        ;
        assert(dec_val(s) / 10 == dec_val(pre) && dec_val(s) % 10 == d) by (nonlinear_arith)
            requires
                dec_val(s) == dec_val(pre) * 10 + d,
                d < 10,
        ;
        lemma_char_digit_roundtrip(s.last());
        assert(digit_char(d) == s.last());
        assert(dec_rep(dec_val(s)) =~= dec_rep(dec_val(pre)).push(s.last()));
        assert(pre.push(s.last()) =~= s);
    }
}

/// A canonical digit string with a nonzero leading digit has a positive value.
proof fn lemma_nonzero_lead_val(s: Seq<char>)
    requires
        all_digits(s),
        s.len() > 0,
        s[0] != '0',
    ensures
        dec_val(s) >= 1,
    decreases s.len(),
{
    if s.len() == 1 {
        assert(digit_val(s[0]) >= 1);
        assert(s.drop_last() =~= Seq::<char>::empty());
    } else {
        let pre = s.drop_last();
        assert(all_digits(pre)) by {
            assert(forall|i: int| 0 <= i < pre.len() ==> pre[i] == s[i]);
        }
        assert(pre[0] == s[0]);
        lemma_nonzero_lead_val(pre);
        assert(dec_val(s) == dec_val(pre) * 10 + digit_val(s.last()));
        assert(dec_val(pre) * 10 >= 10) by (nonlinear_arith)
            requires
                dec_val(pre) >= 1,
        ;
    }
}

/// One decimal digit character, executable side of `digit_char`.
pub fn digit_char_exec(d: u64) -> (c: char)
    requires
        d < 10,
    ensures
        c == digit_char(d as nat),
{
    if d == 0 {
        '0'
    } else if d == 1 {
        '1'
    } else if d == 2 {
        '2'
    } else if d == 3 {
        '3'
    } else if d == 4 {
        '4'
    } else if d == 5 {
        '5'
    } else if d == 6 {
        '6'
    } else if d == 7 {
        '7'
    } else if d == 8 {
        '8'
    } else {
        '9'
    }
}

/// Appends one character to a string.
///
/// Relies on `String::push` of std: it appends exactly the given character
/// and changes nothing else.
#[verifier::external_body]
pub fn push_char(s: &mut String, c: char)
    ensures
        final(s)@ == old(s)@.push(c),
{
    s.push(c);
}

/// Renders `n` in canonical decimal.
pub fn u64_to_dec(n: u64) -> (r: String)
    ensures
        r@ == dec_rep(n as nat),
    decreases n,
{
    if n < 10 {
        let mut s = String::new();
        push_char(&mut s, digit_char_exec(n));
        proof {
            assert(s@ =~= seq![digit_char(n as nat)]);
        }
        s
    } else {
        let mut s = u64_to_dec(n / 10);
        push_char(&mut s, digit_char_exec(n % 10));
        s
    }
}

/// Whether `c` is a decimal digit, executable side of `is_digit_char`.
pub fn is_digit_exec(c: char) -> (b: bool)
    ensures
        b == is_digit_char(c),
{
    '0' <= c && c <= '9'
}

/// The value of one digit character.
pub fn digit_val_exec(c: char) -> (d: u64)
    requires
        is_digit_char(c),
    ensures
        d == digit_val(c),
        d < 10,
{
    (c as u32 - '0' as u32) as u64
}

/// Scans the maximal run of digit characters in `s` starting at `from`.
/// Returns the end of the run and its value, or `None` for the value when it
/// does not fit in a `u64`.
pub fn scan_digits(s: &str, from: usize) -> (r: (usize, Option<u64>))
    requires
        from <= s@.len(),
    ensures
        from <= r.0 <= s@.len(),
        all_digits(s@.subrange(from as int, r.0 as int)),
        r.0 < s@.len() ==> !is_digit_char(s@[r.0 as int]),
        match r.1 {
            Some(v) => v == dec_val(s@.subrange(from as int, r.0 as int)),
            None => dec_val(s@.subrange(from as int, r.0 as int)) > u64::MAX,
        },
{
    let n = s.unicode_len();
    let mut i = from;
    let mut acc: u64 = 0;
    let mut overflow = false;
    loop
        invariant
            from <= i <= n,
            n == s@.len(),
            all_digits(s@.subrange(from as int, i as int)),
            overflow ==> dec_val(s@.subrange(from as int, i as int)) > u64::MAX,
            !overflow ==> acc == dec_val(s@.subrange(from as int, i as int)),
        ensures
            from <= i <= n,
            all_digits(s@.subrange(from as int, i as int)),
            i < n ==> !is_digit_char(s@[i as int]),
            overflow ==> dec_val(s@.subrange(from as int, i as int)) > u64::MAX,
            !overflow ==> acc == dec_val(s@.subrange(from as int, i as int)),
        decreases n - i,
    {
        if i == n {
            break;
        }
        let c = s.get_char(i);
        if !is_digit_exec(c) {
            break;
        }
        let d = digit_val_exec(c);
        proof {
            let pre = s@.subrange(from as int, i as int);
            let ext = s@.subrange(from as int, i + 1 as int);
            assert(ext.drop_last() =~= pre);
            assert(ext.last() == c);
            assert(dec_val(ext) == dec_val(pre) * 10 + digit_val(c));
        }
        if !overflow {
            if acc > (u64::MAX - d) / 10 {
                proof {
                    let pre = s@.subrange(from as int, i as int);
                    assert(dec_val(pre) * 10 + d as nat > u64::MAX) by (nonlinear_arith)
                        requires
                            dec_val(pre) == acc as nat,
                            acc > (u64::MAX - d) / 10,
                            d < 10,
                    ;
                }
                overflow = true;
            } else {
                proof {
                    let pre = s@.subrange(from as int, i as int);
                    assert(acc as nat * 10 + d as nat <= u64::MAX) by (nonlinear_arith)
                        requires
                            acc <= (u64::MAX - d) / 10,
                            d < 10,
                    ;
                }
                acc = acc * 10 + d;
            }
        } else {
            proof {
                let pre = s@.subrange(from as int, i as int);
                let ext = s@.subrange(from as int, i + 1 as int);
                assert(dec_val(ext) >= dec_val(pre) * 10) by (nonlinear_arith)
                    requires
                        dec_val(ext) == dec_val(pre) * 10 + digit_val(c),
                ;
                assert(dec_val(pre) * 10 >= dec_val(pre)) by (nonlinear_arith);
            }
        }
        i = i + 1;
    }
    if overflow {
        (i, None)
    } else {
        (i, Some(acc))
    }
}

// ---------------------------------------------------------------------------
// Byte-count formatting
// ---------------------------------------------------------------------------

pub const KIB: u64 = 1024;
pub const MIB: u64 = 1048576;
pub const GIB: u64 = 1073741824;

/// The scale a byte count is displayed in: 0 = bytes, 1 = KiB, 2 = MiB,
/// 3 = GiB (and beyond).
pub open spec fn size_unit(size: u64) -> nat {
    if size < KIB {
        0
    } else if size < MIB {
        1
    } else if size < GIB {
        2
    } else {
        3
    }
}

pub open spec fn unit_scale(u: nat) -> u64
    recommends
        1 <= u <= 3,
{
    if u == 1 {
        KIB
    } else if u == 2 {
        MIB
    } else {
        GIB
    }
}

pub open spec fn unit_suffix(u: nat) -> Seq<char>
    recommends
        u <= 3,
{
    if u == 0 {
        " B"@
    } else if u == 1 {
        " KiB"@
    } else if u == 2 {
        " MiB"@
    } else {
        " GiB"@
    }
}

/// A value below one hundred rendered as exactly two digits.
pub open spec fn two_digits(f: nat) -> Seq<char>
    recommends
        f < 100,
{
    seq![digit_char(f / 10), digit_char(f % 10)]
}

/// What `display_size` returns: the raw count below 1 KiB, otherwise the
/// scaled value with two decimal places — rounded half-up, carrying into
/// the integer part when the fraction rounds to a whole — and the unit
/// suffix.
pub open spec fn display_size_spec(size: u64) -> Seq<char> {
    let u = size_unit(size);
    if u == 0 {
        dec_rep(size as nat) + unit_suffix(0)
    } else {
        let scale = unit_scale(u);
        let whole = size as nat / scale as nat;
        let frac = ((size as nat % scale as nat) * 200 / scale as nat + 1) / 2;
        if frac == 100 {
            dec_rep(whole + 1) + "."@ + two_digits(0) + unit_suffix(u)
        } else {
            dec_rep(whole) + "."@ + two_digits(frac) + unit_suffix(u)
        }
    }
}

/// Renders a byte count per `display_size_spec`.
pub fn format_size(size: u64) -> (r: String)
    ensures
        r@ == display_size_spec(size),
{
    if size < 1024 {
        let mut s = u64_to_dec(size);
        s.append(" B");
        s
    } else {
        let unit: u64 = if size < MIB {
            1
        } else if size < GIB {
            2
        } else {
            3
        };
        let scale: u64 = if unit == 1 {
            KIB
        } else if unit == 2 {
            MIB
        } else {
            GIB
        };
        let whole = size / scale;
        let rem = size % scale;
        proof {
            assert(rem * 200 <= u64::MAX) by (nonlinear_arith)
                requires
                    rem < GIB,
                    GIB == 1073741824,
            ;
        }
        let frac = (rem * 200 / scale + 1) / 2;
        proof {
            assert(frac <= 100) by (nonlinear_arith)
                requires
                    frac == ((rem as int) * 200 / (scale as int) + 1) / 2,
                    rem < scale,
                    scale >= 1024,
            ;
            assert(whole < u64::MAX) by (nonlinear_arith)
                requires
                    whole == (size as int) / (scale as int),
                    scale >= 1024,
                    size <= u64::MAX,
            ;
        }
        let shown_whole: u64 = if frac == 100 {
            whole + 1
        } else {
            whole
        };
        let shown_frac: u64 = if frac == 100 {
            0
        } else {
            frac
        };
        let mut s = u64_to_dec(shown_whole);
        s.append(".");
        push_char(&mut s, digit_char_exec(shown_frac / 10));
        push_char(&mut s, digit_char_exec(shown_frac % 10));
        if unit == 1 {
            s.append(" KiB");
        } else if unit == 2 {
            s.append(" MiB");
        } else {
            s.append(" GiB");
        }
        proof {
            let u = size_unit(size);
            assert(u == unit as nat);
            let f = ((size as nat % scale as nat) * 200 / scale as nat + 1) / 2;
            assert(f == frac as nat);
            if f == 100 {
                assert(s@ =~= dec_rep(size as nat / scale as nat + 1) + "."@ + two_digits(0)
                    + unit_suffix(u));
            } else {
                assert(s@ =~= dec_rep(size as nat / scale as nat) + "."@ + two_digits(f)
                    + unit_suffix(u));
            }
        }
        s
    }
}

} // verus!
