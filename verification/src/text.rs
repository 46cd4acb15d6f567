//! Small string utilities shared by the configuration and subscription
//! modules: character-wise equality and substring search, ASCII lowercasing,
//! and decimal rendering of port numbers.

use vstd::prelude::*;

verus! {

use vstd::string::StrSliceExecFns;

/// Character-by-character equality of two string slices.
pub fn str_eq(a: &str, b: &str) -> (r: bool)
    ensures
        r == (a@ == b@),
{
    let la = a.unicode_len();
    let lb = b.unicode_len();
    if la != lb {
        proof {
            if a@ == b@ {
                assert(a@.len() == b@.len());
            }
        }
        return false;
    }
    let mut i: usize = 0;
    while i < la
        invariant
            la == a@.len(),
            la == b@.len(),
            i <= la,
            forall|j: int| 0 <= j < i ==> a@[j] == b@[j],
        decreases la - i,
    {
        if a.get_char(i) != b.get_char(i) {
            return false;
        }
        i += 1;
    }
    proof {
        assert(a@ =~= b@);
    }
    true
}

/// `needle` occurs as a contiguous run of characters inside `hay`.
pub open spec fn contains_seq(hay: Seq<char>, needle: Seq<char>) -> bool {
    exists|k: int|
        0 <= k && k + needle.len() <= hay.len() && #[trigger] hay.subrange(k, k + needle.len())
            == needle
}

/// Substring search by direct comparison at every offset.
pub fn str_contains(hay: &str, needle: &str) -> (r: bool)
    ensures
        r == contains_seq(hay@, needle@),
{
    let lh = hay.unicode_len();
    let ln = needle.unicode_len();
    if ln > lh {
        return false;
    }
    if ln == 0 {
        proof {
            assert(0 + needle@.len() as int <= hay@.len() && hay@.subrange(
                0,
                0 + needle@.len() as int,
            ) =~= needle@);
        }
        return true;
    }
    let mut k: usize = 0;
    while k <= lh - ln
        invariant
            lh == hay@.len(),
            ln == needle@.len(),
            1 <= ln <= lh,
            k <= lh - ln + 1,
            forall|kk: int|
                0 <= kk < k ==> #[trigger] hay@.subrange(kk, kk + needle@.len()) != needle@,
        decreases lh - ln - k + 1,
    {
        let mut j: usize = 0;
        let mut matched = true;
        while j < ln
            invariant
                lh == hay@.len(),
                ln == needle@.len(),
                k + ln <= lh,
                j <= ln,
                matched ==> forall|jj: int| 0 <= jj < j ==> hay@[k + jj] == needle@[jj],
                !matched ==> hay@.subrange(k as int, k + needle@.len()) != needle@,
            decreases ln - j,
        {
            if hay.get_char(k + j) != needle.get_char(j) {
                proof {
                    assert(hay@.subrange(k as int, k + needle@.len())[j as int] == hay@[k + j]);
                }
                matched = false;
                j = ln;
            } else {
                j += 1;
            }
        }
        if matched {
            proof {
                assert(hay@.subrange(k as int, k + needle@.len()) =~= needle@);
            }
            return true;
        }
        k += 1;
    }
    proof {
        assert(forall|kk: int|
            0 <= kk && kk + needle@.len() <= hay@.len() ==> #[trigger] hay@.subrange(
                kk,
                kk + needle@.len(),
            ) != needle@);
    }
    false
}

/// Relies on std's `String::push`: appends exactly one character.
#[verifier::external_body]
pub fn push_char(s: &mut String, c: char)
    ensures
        final(s)@ == old(s)@.push(c),
{
    s.push(c);
}

/// An upper-case ASCII letter mapped to its lower-case form; everything else
/// is left alone.
pub open spec fn lower_char(c: char) -> char {
    if 65 <= c as int && c as int <= 90 {
        ((c as u8) + 32) as char
    } else {
        c
    }
}

/// The string with every upper-case ASCII letter lowered.
pub open spec fn ascii_lower(s: Seq<char>) -> Seq<char> {
    Seq::new(s.len(), |i: int| lower_char(s[i]))
}

/// Lower-cases the ASCII letters of a string.
pub fn to_ascii_lowercase(s: &str) -> (r: String)
    ensures
        r@ == ascii_lower(s@),
{
    let len = s.unicode_len();
    let mut out = String::new();
    let mut i: usize = 0;
    while i < len
        invariant
            len == s@.len(),
            i <= len,
            out@ == ascii_lower(s@).take(i as int),
        decreases len - i,
    {
        let c = s.get_char(i);
        let lc: char = if 'A' <= c && c <= 'Z' {
            ((c as u8) + 32) as char
        } else {
            c
        };
        push_char(&mut out, lc);
        proof {
            assert(out@ =~= ascii_lower(s@).take(i + 1));
        }
        i += 1;
    }
    proof {
        assert(out@ =~= ascii_lower(s@));
    }
    out
}

/// The decimal digit `d` as a character.
pub open spec fn digit_char(d: int) -> char {
    ((d + 48) as u8) as char
}

/// The decimal rendering of a non-negative number, most significant digit
/// first, with no leading zeroes.
pub open spec fn dec_str(n: int) -> Seq<char>
    decreases n,
{
    if n < 10 {
        seq![digit_char(n)]
    } else {
        dec_str(n / 10).push(digit_char(n % 10))
    }
}

/// The digit bytes of `ds`, read back to front, as characters.
spec fn rev_digit_chars(ds: Seq<u8>) -> Seq<char> {
    Seq::new(ds.len(), |i: int| digit_char(ds[ds.len() - 1 - i] as int))
}

/// Renders a port number in decimal.
pub fn u16_to_string(n: u16) -> (r: String)
    ensures
        r@ == dec_str(n as int),
{
    let mut ds: Vec<u8> = Vec::new();
    let mut m: u16 = n;
    while m >= 10
        invariant
            dec_str(n as int) == dec_str(m as int) + rev_digit_chars(ds@),
            forall|j: int| 0 <= j < ds@.len() ==> ds@[j] < 10,
        decreases m,
    {
        let d: u8 = (m % 10) as u8;
        proof {
            assert(dec_str(m as int) == dec_str(m as int / 10).push(digit_char(m as int % 10)));
            assert(rev_digit_chars(ds@.push(d)) =~= seq![digit_char(d as int)]
                + rev_digit_chars(ds@));
            assert(dec_str(m as int / 10) + rev_digit_chars(ds@.push(d)) =~= dec_str(m as int)
                + rev_digit_chars(ds@));
        }
        ds.push(d);
        m = m / 10;
    }
    let mut out = String::new();
    push_char(&mut out, ((m as u8) + 48) as char);
    proof {
        assert(dec_str(m as int) =~= seq![digit_char(m as int)]);
        assert(out@ =~= dec_str(m as int) + rev_digit_chars(ds@).take(0));
    }
    let mut idx: usize = ds.len();
    while idx > 0
        invariant
            idx <= ds@.len(),
            dec_str(n as int) == dec_str(m as int) + rev_digit_chars(ds@),
            forall|j: int| 0 <= j < ds@.len() ==> ds@[j] < 10,
            out@ == dec_str(m as int) + rev_digit_chars(ds@).take(ds@.len() - idx),
        decreases idx,
    {
        idx = idx - 1;
        let d = ds[idx];
        push_char(&mut out, (d + 48) as char);
        proof {
            assert(rev_digit_chars(ds@).take(ds@.len() - idx) =~= rev_digit_chars(ds@).take(
                ds@.len() - idx - 1,
            ).push(digit_char(ds@[idx as int] as int)));
            assert(out@ =~= dec_str(m as int) + rev_digit_chars(ds@).take(ds@.len() - idx));
        }
    }
    proof {
        assert(rev_digit_chars(ds@).take(ds@.len() - 0) =~= rev_digit_chars(ds@));
        assert(out@ =~= dec_str(n as int));
    }
    out
}

} // verus!
