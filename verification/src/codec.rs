//! The wire handshake: the metadata record exchanged before payload bytes
//! flow, and the protocol's control markers.
//!
//! A transfer opens with one metadata line — the file name, length-prefixed,
//! and the payload size in bytes, both in canonical decimal — followed by the
//! terminator marker on a line of its own. The receiver answers with a single
//! line: the accept marker or the reject marker. `parse_metadata` accepts a
//! line exactly when it is `encode_metadata` of some name and size, and
//! returns that name and size.

use vstd::prelude::*;
use vstd::string::StrSliceExecFns;
use vstd::string::StringExecFns;

use crate::digits::all_digits;
use crate::digits::canonical_digits;
use crate::digits::dec_rep;
use crate::digits::dec_val;
use crate::digits::is_digit_char;
use crate::digits::lemma_canonical_digits_unique;
use crate::digits::lemma_dec_rep_digits;
use crate::digits::push_char;
use crate::digits::scan_digits;
use crate::digits::u64_to_dec;

verus! {

/// The line that closes the metadata: payload or response follows.
pub open spec fn terminator_spec() -> Seq<char> {
    "ITS OVER"@
}

/// The receiver's one-line acceptance.
pub open spec fn accept_spec() -> Seq<char> {
    "HAND IT OVER"@
}

/// The receiver's one-line rejection (insufficient capacity).
pub open spec fn reject_spec() -> Seq<char> {
    "NO, SIRE."@
}

/// Character-wise equality of two string slices.
pub fn str_eq(a: &str, b: &str) -> (r: bool)
    ensures
        r == (a@ == b@),
{
    let sa = a.to_owned();
    let sb = b.to_owned();
    sa.eq(&sb)
}

pub fn terminator_line() -> (r: String)
    ensures
        r@ == terminator_spec(),
{
    "ITS OVER".to_owned()
}

pub fn accept_line() -> (r: String)
    ensures
        r@ == accept_spec(),
{
    "HAND IT OVER".to_owned()
}

pub fn reject_line() -> (r: String)
    ensures
        r@ == reject_spec(),
{
    "NO, SIRE.".to_owned()
}

pub fn is_terminator(line: &str) -> (b: bool)
    ensures
        b == (line@ == terminator_spec()),
{
    str_eq(line, "ITS OVER")
}

/// The sender's reading of the receiver's one-line response: exactly the
/// reject marker means rejection; anything else counts as acceptance.
pub fn response_is_reject(line: &str) -> (b: bool)
    ensures
        b == (line@ == reject_spec()),
{
    str_eq(line, "NO, SIRE.")
}

/// The one metadata line for a file called `name` of `size` bytes: the
/// name's character count in canonical decimal, a space, the name itself,
/// a space, and the size in canonical decimal.
pub open spec fn encode_metadata_spec(name: Seq<char>, size: u64) -> Seq<char> {
    dec_rep(name.len()) + seq![' '] + name + seq![' '] + dec_rep(size as nat)
}

/// Renders the metadata line for `name` and `size`.
pub fn encode_metadata(name: &str, size: u64) -> (r: String)
    ensures
        r@ == encode_metadata_spec(name@, size),
{
    let len = name.unicode_len();
    let mut s = u64_to_dec(len as u64);
    push_char(&mut s, ' ');
    s.append(name);
    push_char(&mut s, ' ');
    let sz = u64_to_dec(size);
    s.append(sz.as_str());
    proof {
        assert(s@ =~= encode_metadata_spec(name@, size));
    }
    s
}

/// How an encoded metadata line decomposes: digit prefix, space, name,
/// space, digit tail.
proof fn lemma_encoding_shape(line: Seq<char>, name: Seq<char>, size: u64)
    requires
        line == encode_metadata_spec(name, size),
    ensures
        ({
            let la = dec_rep(name.len()).len() as int;
            let nl = name.len() as int;
            &&& line.len() == la + 1 + nl + 1 + dec_rep(size as nat).len()
            &&& line.subrange(0, la) == dec_rep(name.len())
            &&& line[la] == ' '
            &&& line.subrange(la + 1, la + 1 + nl) == name
            &&& line[la + 1 + nl] == ' '
            &&& line.subrange(la + 2 + nl, line.len() as int) == dec_rep(size as nat)
            &&& la >= 1
            &&& dec_rep(size as nat).len() >= 1
        }),
{
    lemma_dec_rep_digits(name.len());
    lemma_dec_rep_digits(size as nat);
    let a = dec_rep(name.len());
    let e = dec_rep(size as nat);
    let la = a.len() as int;
    let nl = name.len() as int;
    assert(line.subrange(0, la) =~= a);
    assert(line.subrange(la + 1, la + 1 + nl) =~= name);
    assert(line.subrange(la + 2 + nl, line.len() as int) =~= e);
}

/// If `line` is an encoding and a maximal digit run opens it, that run is
/// exactly the encoded length prefix: it cannot stop short of the prefix
/// (every prefix character is a digit) nor run past it (a space follows).
proof fn lemma_scan_is_length_prefix(line: Seq<char>, nm: Seq<char>, sz: u64, i: int)
    requires
        line == encode_metadata_spec(nm, sz),
        0 <= i <= line.len(),
        all_digits(line.subrange(0, i)),
        i < line.len() ==> !is_digit_char(line[i]),
    ensures
        i == dec_rep(nm.len()).len(),
        line.subrange(0, i) == dec_rep(nm.len()),
{
    lemma_encoding_shape(line, nm, sz);
    lemma_dec_rep_digits(nm.len());
    let a = dec_rep(nm.len());
    let la = a.len() as int;
    if i < la {
        assert(line.subrange(0, la)[i] == line[i]);
        assert(is_digit_char(a[i]));
    }
    if i > la {
        assert(line.subrange(0, i)[la] == line[la]);
    }
    assert(line.subrange(0, i) =~= a);
}

/// Recovers the name and size from a metadata line. Succeeds exactly on the
/// lines that `encode_metadata` produces, and returns the encoded values.
pub fn parse_metadata(line: &str) -> (r: Option<(String, u64)>)
    ensures
        match r {
            Some(p) => line@ == encode_metadata_spec(p.0@, p.1),
            None => forall|nm: Seq<char>, sz: u64| line@ != encode_metadata_spec(nm, sz),
        },
{
    let n = line.unicode_len();
    let (i, lv) = scan_digits(line, 0);

    // the line must open with the name-length digits
    if i == 0 {
        proof {
            assert forall|nm: Seq<char>, sz: u64| line@ != encode_metadata_spec(nm, sz) by {
                if line@ == encode_metadata_spec(nm, sz) {
                    lemma_encoding_shape(line@, nm, sz);
                    lemma_dec_rep_digits(nm.len());
                    let a = dec_rep(nm.len());
                    let la = a.len() as int;
                    assert(line@.subrange(0, la)[0] == line@[0]);
                    assert(is_digit_char(line@[0]));
                }
            }
        }
        return None;
    }
    // the length is canonical decimal: no leading zero
    if i > 1 && line.get_char(0) == '0' {
        proof {
            assert forall|nm: Seq<char>, sz: u64| line@ != encode_metadata_spec(nm, sz) by {
                if line@ == encode_metadata_spec(nm, sz) {
                    lemma_encoding_shape(line@, nm, sz);
                    lemma_dec_rep_digits(nm.len());
                    lemma_scan_is_length_prefix(line@, nm, sz, i as int);
                    let a = dec_rep(nm.len());
                    assert(line@.subrange(0, i as int)[0] == line@[0]);
                    assert(line@[0] == a[0]);
                }
            }
        }
        return None;
    }
    let l = match lv {
        Some(v) => v,
        None => {
            proof {
                assert forall|nm: Seq<char>, sz: u64| line@ != encode_metadata_spec(nm, sz) by {
                    if line@ == encode_metadata_spec(nm, sz) {
                        lemma_encoding_shape(line@, nm, sz);
                        lemma_dec_rep_digits(nm.len());
                        lemma_scan_is_length_prefix(line@, nm, sz, i as int);
                        let a = dec_rep(nm.len());
                        let la = a.len() as int;
                        assert(dec_val(a) == nm.len());
                        assert(nm.len() <= line@.len());
                    }
                }
            }
            return None;
        },
    };
    // a space separates the length from the name
    if i == n || line.get_char(i) != ' ' {
        proof {
            assert forall|nm: Seq<char>, sz: u64| line@ != encode_metadata_spec(nm, sz) by {
                if line@ == encode_metadata_spec(nm, sz) {
                    lemma_encoding_shape(line@, nm, sz);
                    lemma_dec_rep_digits(nm.len());
                    lemma_scan_is_length_prefix(line@, nm, sz, i as int);
                    let a = dec_rep(nm.len());
                    let la = a.len() as int;
                    assert(line@[la] == ' ');
                }
            }
        }
        return None;
    }
    // the declared length must leave room for the name, the second
    // separator, and at least one size digit
    let remaining = n - i - 1;
    if l > remaining as u64 || (l as usize) + 2 > remaining {
        proof {
            assert forall|nm: Seq<char>, sz: u64| line@ != encode_metadata_spec(nm, sz) by {
                if line@ == encode_metadata_spec(nm, sz) {
                    lemma_encoding_shape(line@, nm, sz);
                    lemma_dec_rep_digits(nm.len());
                    lemma_scan_is_length_prefix(line@, nm, sz, i as int);
                    let a = dec_rep(nm.len());
                    let la = a.len() as int;
                    assert(l == nm.len());
                    assert(line@.len() >= la + 2 + nm.len());
                }
            }
        }
        return None;
    }
    let name_end = i + 1 + (l as usize);
    // the second separator
    if line.get_char(name_end) != ' ' {
        proof {
            assert forall|nm: Seq<char>, sz: u64| line@ != encode_metadata_spec(nm, sz) by {
                if line@ == encode_metadata_spec(nm, sz) {
                    lemma_encoding_shape(line@, nm, sz);
                    lemma_dec_rep_digits(nm.len());
                    lemma_scan_is_length_prefix(line@, nm, sz, i as int);
                    let a = dec_rep(nm.len());
                    let la = a.len() as int;
                    assert(l == nm.len());
                    assert(line@[la + 1 + nm.len()] == ' ');
                }
            }
        }
        return None;
    }
    // the size digits run to the end of the line
    let (j, sv) = scan_digits(line, name_end + 1);
    if j < n || j == name_end + 1 {
        proof {
            assert forall|nm: Seq<char>, sz: u64| line@ != encode_metadata_spec(nm, sz) by {
                if line@ == encode_metadata_spec(nm, sz) {
                    lemma_encoding_shape(line@, nm, sz);
                    lemma_dec_rep_digits(nm.len());
                    lemma_dec_rep_digits(sz as nat);
                    lemma_scan_is_length_prefix(line@, nm, sz, i as int);
                    let a = dec_rep(nm.len());
                    let e = dec_rep(sz as nat);
                    let la = a.len() as int;
                    assert(line@.subrange(0, i as int) =~= a);
                    assert(l == nm.len());
                    // every character from the second separator on is a digit
                    assert(j == n) by {
                        if j < n {
                            let tail = line@.subrange(la + 2 + nm.len(), line@.len() as int);
                            assert(line@[j as int] == tail[j - (la + 2 + nm.len())]);
                            assert(is_digit_char(line@[j as int]));
                        }
                    }
                    assert(j > name_end + 1);
                }
            }
        }
        return None;
    }
    // the size is canonical decimal: no leading zero
    if j - (name_end + 1) > 1 && line.get_char(name_end + 1) == '0' {
        proof {
            assert forall|nm: Seq<char>, sz: u64| line@ != encode_metadata_spec(nm, sz) by {
                if line@ == encode_metadata_spec(nm, sz) {
                    lemma_encoding_shape(line@, nm, sz);
                    lemma_dec_rep_digits(nm.len());
                    lemma_dec_rep_digits(sz as nat);
                    lemma_scan_is_length_prefix(line@, nm, sz, i as int);
                    let a = dec_rep(nm.len());
                    let e = dec_rep(sz as nat);
                    let la = a.len() as int;
                    assert(line@.subrange(0, i as int) =~= a);
                    assert(l == nm.len());
                    let tail = line@.subrange(la + 2 + nm.len(), line@.len() as int);
                    assert(line@[la + 2 + nm.len()] == tail[0]);
                    assert(tail[0] == e[0]);
                    assert(e.len() == line@.len() - (la + 2 + nm.len()));
                }
            }
        }
        return None;
    }
    let size = match sv {
        Some(v) => v,
        None => {
            proof {
                assert forall|nm: Seq<char>, sz: u64| line@ != encode_metadata_spec(nm, sz) by {
                    if line@ == encode_metadata_spec(nm, sz) {
                        lemma_encoding_shape(line@, nm, sz);
                        lemma_dec_rep_digits(nm.len());
                        lemma_dec_rep_digits(sz as nat);
                        lemma_scan_is_length_prefix(line@, nm, sz, i as int);
                        let a = dec_rep(nm.len());
                        let e = dec_rep(sz as nat);
                        let la = a.len() as int;
                        assert(line@.subrange(0, i as int) =~= a);
                        assert(l == nm.len());
                        let tail = line@.subrange(name_end + 1, n as int);
                        assert(tail =~= e);
                        assert(dec_val(e) == sz as nat);
                    }
                }
            }
            return None;
        },
    };
    let name = line.substring_char(i + 1, name_end).to_owned();
    proof {
        // the three segments are canonical, so the whole line re-encodes
        let seg1 = line@.subrange(0, i as int);
        let seg3 = line@.subrange(name_end + 1, n as int);
        assert(canonical_digits(seg1)) by {
            assert(seg1.len() > 1 ==> seg1[0] != '0') by {
                assert(i > 1 ==> line@[0] != '0');
                assert(seg1.len() > 0 ==> seg1[0] == line@[0]);
            }
        }
        lemma_canonical_digits_unique(seg1);
        assert(canonical_digits(seg3)) by {
            assert(seg3.len() > 1 ==> seg3[0] != '0') by {
                assert(seg3.len() > 0 ==> seg3[0] == line@[name_end + 1]);
            }
        }
        lemma_canonical_digits_unique(seg3);
        assert(name@.len() == l as nat);
        assert(dec_rep(name@.len()) == seg1);
        assert(dec_rep(size as nat) == seg3);
        assert(line@ =~= seg1 + seq![' '] + name@ + seq![' '] + seg3);
    }
    Some((name, size))
}

} // verus!
