//! Verified text utilities shared across the library: prefix handling for the
//! bearer scheme, identifier syntax, and small string constructions.

use vstd::prelude::*;
use vstd::string::*;

verus! {

/// Whether `p` is a prefix of `s`.
pub open spec fn has_prefix(s: Seq<char>, p: Seq<char>) -> bool {
    s.len() >= p.len() && s.subrange(0, p.len() as int) == p
}

/// Strips prefix `p` from `s`, when present.
pub fn strip_prefix_str(s: &str, p: &str) -> (r: Option<String>)
    ensures
        has_prefix(s@, p@) ==> (r matches Some(t) && t@ == s@.skip(p@.len() as int)),
        !has_prefix(s@, p@) ==> r is None,
{
    let sn = s.unicode_len();
    let pn = p.unicode_len();
    if sn < pn {
        return None;
    }
    let mut i: usize = 0;
    while i < pn
        invariant
            i <= pn,
            pn == p@.len(),
            sn == s@.len(),
            pn <= sn,
            forall|j: int| 0 <= j < i ==> s@[j] == p@[j],
        decreases pn - i,
    {
        if s.get_char(i) != p.get_char(i) {
            assert(s@.subrange(0, pn as int)[i as int] != p@[i as int]);
            return None;
        }
        i += 1;
    }
    assert(s@.subrange(0, pn as int) =~= p@);
    let rest = s.substring_char(pn, sn);
    assert(rest@ =~= s@.skip(pn as int));
    Some(rest.to_owned())
}

/// Concatenation of two string slices.
pub fn concat_strs(a: &str, b: &str) -> (r: String)
    ensures
        r@ == a@ + b@,
{
    let mut s = a.to_owned();
    s.append(b);
    s
}

/// Whether `c` is a lowercase hexadecimal digit.
pub open spec fn is_hex_digit(c: char) -> bool {
    ('0' <= c && c <= '9') || ('a' <= c && c <= 'f')
}

/// What the character at position `i` of a hyphenated UUID must be: a hyphen
/// at positions 8, 13, 18 and 23, a lowercase hex digit everywhere else.
pub open spec fn uuid_char_ok(s: Seq<char>, i: int) -> bool {
    if i == 8 || i == 13 || i == 18 || i == 23 {
        s[i] == '-'
    } else {
        is_hex_digit(s[i])
    }
}

/// Whether `s` has the hyphenated UUID shape: 36 characters, hyphens at
/// positions 8, 13, 18 and 23, lowercase hex digits everywhere else.
pub open spec fn is_uuid_chars(s: Seq<char>) -> bool {
    s.len() == 36 && forall|i: int| 0 <= i < 36 ==> #[trigger] uuid_char_ok(s, i)
}

/// Checks whether `s` has the hyphenated UUID shape.
pub fn is_uuid(s: &str) -> (r: bool)
    ensures
        r == is_uuid_chars(s@),
{
    let n = s.unicode_len();
    if n != 36 {
        return false;
    }
    let mut i: usize = 0;
    while i < 36
        invariant
            s@.len() == 36,
            i <= 36,
            forall|j: int| 0 <= j < i ==> #[trigger] uuid_char_ok(s@, j),
        decreases 36 - i,
    {
        let c = s.get_char(i);
        let ok = if i == 8 || i == 13 || i == 18 || i == 23 {
            c == '-'
        } else {
            ('0' <= c && c <= '9') || ('a' <= c && c <= 'f')
        };
        if !ok {
            assert(!uuid_char_ok(s@, i as int));
            return false;
        }
        assert(uuid_char_ok(s@, i as int));
        i += 1;
    }
    true
}

/// Whether `c` is a decimal digit.
pub open spec fn is_dec_digit(c: char) -> bool {
    '0' <= c && c <= '9'
}

/// The numeric value of a decimal digit.
pub open spec fn digit_val(c: char) -> int {
    c as int - '0' as int
}

/// Whether every character of `s` is a decimal digit.
pub open spec fn all_digits(s: Seq<char>) -> bool {
    forall|i: int| 0 <= i < s.len() ==> is_dec_digit(#[trigger] s[i])
}

/// The numeric value of a decimal digit string.
pub open spec fn dec_val(s: Seq<char>) -> int
    decreases s.len(),
{
    if s.len() == 0 {
        0
    } else {
        dec_val(s.drop_last()) * 10 + digit_val(s.last())
    }
}

/// The value of a digit string is never negative.
pub proof fn lemma_dec_val_nonneg(s: Seq<char>)
    requires
        all_digits(s),
    ensures
        dec_val(s) >= 0,
    decreases s.len(),
{
    if s.len() > 0 {
        assert(all_digits(s.drop_last()));
        lemma_dec_val_nonneg(s.drop_last());
    }
}

/// The value of a digit string never drops when more digits are appended.
pub proof fn lemma_dec_val_prefix_le(s: Seq<char>, i: int)
    requires
        all_digits(s),
        0 <= i <= s.len(),
    ensures
        dec_val(s.take(i)) <= dec_val(s),
    decreases s.len() - i,
{
    assert(all_digits(s.take(i)));
    if i < s.len() {
        lemma_dec_val_prefix_le(s, i + 1);
        assert(s.take(i + 1).drop_last() =~= s.take(i));
        assert(s.take(i + 1).last() == s[i]);
        lemma_dec_val_nonneg(s.take(i));
        assert(dec_val(s.take(i + 1)) == dec_val(s.take(i)) * 10 + digit_val(s[i]));
    } else {
        assert(s.take(i) =~= s);
    }
}

/// Parses a decimal port number: a non-empty, all-digit string whose value
/// fits in a `u16`, and nothing else.
pub fn parse_u16(s: &str) -> (r: Option<u16>)
    ensures
        (s@.len() > 0 && all_digits(s@) && dec_val(s@) <= u16::MAX) ==> (r matches Some(v) && v
            == dec_val(s@)),
        !(s@.len() > 0 && all_digits(s@) && dec_val(s@) <= u16::MAX) ==> r is None,
{
    let n = s.unicode_len();
    if n == 0 {
        return None;
    }
    let mut acc: u32 = 0;
    let mut i: usize = 0;
    while i < n
        invariant
            0 < n == s@.len(),
            i <= n,
            all_digits(s@.take(i as int)),
            acc == dec_val(s@.take(i as int)),
            acc <= u16::MAX,
        decreases n - i,
    {
        let c = s.get_char(i);
        if !('0' <= c && c <= '9') {
            assert(!is_dec_digit(s@[i as int]));
            return None;
        }
        let d: u32 = (c as u32) - ('0' as u32);
        proof {
            assert(s@.take(i as int + 1).drop_last() =~= s@.take(i as int));
            assert(s@.take(i as int + 1).last() == s@[i as int]);
        }
        let next: u32 = acc * 10 + d;
        if next > 65535 {
            proof {
                assert(all_digits(s@.take(i as int + 1)));
                assert(dec_val(s@.take(i as int + 1)) == next);
                if all_digits(s@) {
                    lemma_dec_val_prefix_le(s@, i as int + 1);
                }
            }
            return None;
        }
        acc = next;
        i += 1;
    }
    proof {
        assert(s@.take(n as int) =~= s@);
    }
    Some(acc as u16)
}

/// Whether `c` is an ASCII whitespace character.
pub open spec fn is_space_char(c: char) -> bool {
    c == ' ' || c == '\t' || c == '\n' || c == '\r'
}

/// `s` without its leading whitespace.
pub open spec fn trim_start_chars(s: Seq<char>) -> Seq<char>
    decreases s.len(),
{
    if s.len() > 0 && is_space_char(s[0]) {
        trim_start_chars(s.skip(1))
    } else {
        s
    }
}

/// `s` without its trailing whitespace.
pub open spec fn trim_end_chars(s: Seq<char>) -> Seq<char>
    decreases s.len(),
{
    if s.len() > 0 && is_space_char(s.last()) {
        trim_end_chars(s.drop_last())
    } else {
        s
    }
}

/// `s` without its leading and trailing whitespace.
pub open spec fn trim_chars(s: Seq<char>) -> Seq<char> {
    trim_end_chars(trim_start_chars(s))
}

/// Whether the character at position `i` of `s` is ASCII whitespace.
fn is_space_at(s: &str, i: usize) -> (r: bool)
    requires
        i < s@.len(),
    ensures
        r == is_space_char(s@[i as int]),
{
    let c = s.get_char(i);
    c == ' ' || c == '\t' || c == '\n' || c == '\r'
}

/// Trims ASCII whitespace from both ends of a string.
pub fn trim_str(s: &str) -> (r: String)
    ensures
        r@ == trim_chars(s@),
{
    let n = s.unicode_len();
    proof {
        assert(s@.skip(0) =~= s@);
    }
    let mut i: usize = 0;
    while i < n && is_space_at(s, i)
        invariant
            n == s@.len(),
            i <= n,
            trim_start_chars(s@) == trim_start_chars(s@.skip(i as int)),
        decreases n - i,
    {
        proof {
            assert(s@.skip(i as int).skip(1) =~= s@.skip(i as int + 1));
        }
        i += 1;
    }
    proof {
        assert(trim_start_chars(s@.skip(i as int)) == s@.skip(i as int).skip(0));
        assert(s@.skip(i as int).skip(0) =~= s@.skip(i as int));
    }
    let ghost t = s@.skip(i as int);
    let mut j: usize = n;
    while j > i && is_space_at(s, j - 1)
        invariant
            n == s@.len(),
            i <= j <= n,
            t == s@.skip(i as int),
            trim_start_chars(s@) == t,
            trim_end_chars(t) == trim_end_chars(t.take(j - i as int)),
        decreases j,
    {
        proof {
            assert(t.take(j - i as int).last() == s@[j - 1]);
            assert(t.take(j - i as int).drop_last() =~= t.take(j - 1 - i as int));
        }
        j -= 1;
    }
    proof {
        if j > i {
            assert(t.take(j - i as int).last() == s@[j - 1]);
            assert(!is_space_char(t.take(j - i as int).last()));
        }
        assert(trim_end_chars(t.take(j - i as int)) == t.take(j - i as int));
        assert(s@.subrange(i as int, j as int) =~= t.take(j - i as int));
    }
    let out = s.substring_char(i, j);
    out.to_owned()
}

/// One comma-separated field, trimmed, kept only when non-empty.
pub open spec fn csv_field(acc: Seq<char>) -> Seq<Seq<char>> {
    if trim_chars(acc).len() > 0 {
        seq![trim_chars(acc)]
    } else {
        seq![]
    }
}

/// The comma-separated fields of `s` after `acc`, each trimmed, empty fields
/// dropped.
pub open spec fn csv_fields(s: Seq<char>, acc: Seq<char>) -> Seq<Seq<char>>
    decreases s.len(),
{
    if s.len() == 0 {
        csv_field(acc)
    } else if s[0] == ',' {
        csv_field(acc) + csv_fields(s.skip(1), seq![])
    } else {
        csv_fields(s.skip(1), acc.push(s[0]))
    }
}

/// The comma-separated fields of `s`, each trimmed, empty fields dropped.
pub open spec fn split_csv_model(s: Seq<char>) -> Seq<Seq<char>> {
    csv_fields(s, seq![])
}

/// Splits `s` on commas, trims each field, and drops the empty ones.
pub fn split_trim_csv(s: &str) -> (r: Vec<String>)
    ensures
        r.deep_view() == split_csv_model(s@),
{
    let n = s.unicode_len();
    let mut out: Vec<String> = Vec::new();
    proof {
        assert(s@.skip(0) =~= s@);
        assert(s@.subrange(0, 0) =~= Seq::<char>::empty());
        assert(out.deep_view() =~= Seq::<Seq<char>>::empty());
        assert(out.deep_view() + csv_fields(s@, Seq::<char>::empty()) =~= csv_fields(
            s@,
            Seq::<char>::empty(),
        ));
    }
    let mut fs: usize = 0;
    let mut i: usize = 0;
    while i < n
        invariant
            n == s@.len(),
            fs <= i <= n,
            split_csv_model(s@) == out.deep_view() + csv_fields(
                s@.skip(i as int),
                s@.subrange(fs as int, i as int),
            ),
        decreases n - i,
    {
        let c = s.get_char(i);
        if c == ',' {
            let field = trim_str(s.substring_char(fs, i));
            proof {
                assert(s@.skip(i as int)[0] == ',');
                assert(s@.skip(i as int).skip(1) =~= s@.skip(i as int + 1));
                assert(s@.subrange(i as int + 1, i as int + 1) =~= Seq::<char>::empty());
            }
            if field.as_str().unicode_len() > 0 {
                let ghost old_deep = out.deep_view();
                out.push(field);
                proof {
                    assert(out.deep_view() =~= old_deep + csv_field(
                        s@.subrange(fs as int, i as int),
                    ));
                }
            } else {
                proof {
                    assert(csv_field(s@.subrange(fs as int, i as int)) =~= Seq::<
                        Seq<char>,
                    >::empty());
                    assert(out.deep_view() + csv_field(s@.subrange(fs as int, i as int))
                        =~= out.deep_view());
                }
            }
            fs = i + 1;
        } else {
            proof {
                assert(s@.skip(i as int)[0] == s@[i as int]);
                assert(s@.skip(i as int).skip(1) =~= s@.skip(i as int + 1));
                assert(s@.subrange(fs as int, i as int).push(s@[i as int]) =~= s@.subrange(
                    fs as int,
                    i as int + 1,
                ));
            }
        }
        i += 1;
    }
    proof {
        assert(s@.skip(n as int) =~= Seq::<char>::empty());
    }
    let field = trim_str(s.substring_char(fs, n));
    if field.as_str().unicode_len() > 0 {
        let ghost old_deep = out.deep_view();
        out.push(field);
        proof {
            assert(out.deep_view() =~= old_deep + csv_field(s@.subrange(fs as int, n as int)));
        }
    } else {
        proof {
            assert(csv_field(s@.subrange(fs as int, n as int)) =~= Seq::<Seq<char>>::empty());
            assert(out.deep_view() + csv_field(s@.subrange(fs as int, n as int))
                =~= out.deep_view());
        }
    }
    out
}

/// Whether `needle` occurs contiguously inside `s`.
pub open spec fn contains_seq(s: Seq<char>, needle: Seq<char>) -> bool {
    exists|i: int|
        0 <= i && i + needle.len() <= s.len() && #[trigger] s.subrange(i, i + needle.len())
            == needle
}

/// Checks whether `needle` occurs contiguously inside `s`.
pub fn contains_str(s: &str, needle: &str) -> (r: bool)
    ensures
        r == contains_seq(s@, needle@),
{
    let n = s.unicode_len();
    let m = needle.unicode_len();
    if m > n {
        return false;
    }
    let mut i: usize = 0;
    while i <= n - m
        invariant
            n == s@.len(),
            m == needle@.len(),
            m <= n,
            i <= n - m + 1,
            forall|k: int| 0 <= k < i ==> #[trigger] s@.subrange(k, k + m as int) != needle@,
        decreases n - m + 1 - i,
    {
        let mut j: usize = 0;
        while j < m && chars_agree_at(s, needle, i, j)
            invariant
                n == s@.len(),
                m == needle@.len(),
                m <= n,
                i + m <= n,
                j <= m,
                forall|l: int| 0 <= l < j ==> s@[i + l] == needle@[l],
            decreases m - j,
        {
            j += 1;
        }
        if j == m {
            proof {
                assert(s@.subrange(i as int, i as int + m as int) =~= needle@);
            }
            return true;
        }
        proof {
            assert(s@.subrange(i as int, i as int + m as int)[j as int] != needle@[j as int]);
        }
        i += 1;
    }
    false
}

/// Whether the character at offset `i + j` of `s` equals the character at
/// offset `j` of `needle`.
fn chars_agree_at(s: &str, needle: &str, i: usize, j: usize) -> (r: bool)
    requires
        i + j < usize::MAX,
        i + j < s@.len(),
        j < needle@.len(),
    ensures
        r == (s@[i as int + j as int] == needle@[j as int]),
{
    s.get_char(i + j) == needle.get_char(j)
}

} // verus!
