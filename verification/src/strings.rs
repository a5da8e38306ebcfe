//! Character-level string utilities shared by the request validators and the
//! session guard: equality, ASCII case-insensitive equality, blankness, and
//! whitespace trimming, each specified over the `Seq<char>` view.

use vstd::prelude::*;
use vstd::string::*;

verus! {

/// Equality of two string slices, decided character by character.
pub fn str_eq(a: &str, b: &str) -> (r: bool)
    ensures
        r == (a@ == b@),
{
    let alen = a.unicode_len();
    let blen = b.unicode_len();
    if alen != blen {
        return false;
    }
    let mut i: usize = 0;
    while i < alen
        invariant
            0 <= i <= alen,
            alen == a@.len(),
            alen == b@.len(),
            forall|j: int| 0 <= j < i ==> a@[j] == b@[j],
        decreases alen - i,
    {
        if a.get_char(i) != b.get_char(i) {
            return false;
        }
        i += 1;
    }
    proof {
        assert(a@ =~= b@);
    }
    true
}

/// Code point of `c` with an ASCII upper-case letter folded to lower case.
pub open spec fn lower_code(c: char) -> int {
    if 65 <= c as int <= 90 {
        c as int + 32
    } else {
        c as int
    }
}

/// The two strings agree character by character up to ASCII case.
pub open spec fn eq_ignore_ascii_case_spec(a: Seq<char>, b: Seq<char>) -> bool {
    a.len() == b.len() && (forall|i: int| 0 <= i < a.len() ==> lower_code(a[i]) == lower_code(b[i]))
}

/// ASCII case-insensitive equality of two string slices.
pub fn eq_ignore_ascii_case(a: &str, b: &str) -> (r: bool)
    ensures
        r == eq_ignore_ascii_case_spec(a@, b@),
{
    let alen = a.unicode_len();
    let blen = b.unicode_len();
    if alen != blen {
        return false;
    }
    let mut i: usize = 0;
    while i < alen
        invariant
            0 <= i <= alen,
            alen == a@.len(),
            alen == b@.len(),
            forall|j: int| 0 <= j < i ==> lower_code(a@[j]) == lower_code(b@[j]),
        decreases alen - i,
    {
        let ca = a.get_char(i) as u32;
        let cb = b.get_char(i) as u32;
        let la = if 65 <= ca && ca <= 90 {
            ca + 32
        } else {
            ca
        };
        let lb = if 65 <= cb && cb <= 90 {
            cb + 32
        } else {
            cb
        };
        if la != lb {
            return false;
        }
        i += 1;
    }
    true
}

/// The whitespace characters recognized when a cookie segment or a
/// configuration value is trimmed.
pub open spec fn is_space_char(c: char) -> bool {
    c == ' ' || c == '\t' || c == '\n' || c == '\r'
}

/// Executable counterpart of `is_space_char`.
#[verifier::when_used_as_spec(is_space_char)]
pub fn is_space(c: char) -> (r: bool)
    ensures
        r == is_space_char(c),
{
    c == ' ' || c == '\t' || c == '\n' || c == '\r'
}

/// Every character of the string is whitespace; what `trim` would reduce to
/// the empty string.
pub open spec fn is_blank_spec(s: Seq<char>) -> bool {
    forall|i: int| 0 <= i < s.len() ==> is_space_char(s[i])
}

/// Whether the string holds no character besides whitespace.
pub fn is_blank(s: &str) -> (r: bool)
    ensures
        r == is_blank_spec(s@),
{
    let n = s.unicode_len();
    let mut i: usize = 0;
    while i < n
        invariant
            0 <= i <= n,
            n == s@.len(),
            forall|j: int| 0 <= j < i ==> is_space_char(s@[j]),
        decreases n - i,
    {
        if !is_space(s.get_char(i)) {
            return false;
        }
        i += 1;
    }
    true
}

/// The string with leading and trailing whitespace removed.
pub open spec fn trim_spec(s: Seq<char>) -> Seq<char>
    decreases s.len(),
{
    if s.len() == 0 {
        s
    } else if is_space_char(s.first()) {
        trim_spec(s.drop_first())
    } else if is_space_char(s.last()) {
        trim_spec(s.drop_last())
    } else {
        s
    }
}

/// Trims leading and trailing whitespace from a string slice.
pub fn trim<'a>(s: &'a str) -> (r: &'a str)
    ensures
        r@ == trim_spec(s@),
    decreases s@.len(),
{
    let n = s.unicode_len();
    if n == 0 {
        return s;
    }
    if is_space(s.get_char(0)) {
        let rest = s.substring_char(1, n);
        proof {
            assert(rest@ =~= s@.drop_first());
        }
        return trim(rest);
    }
    if is_space(s.get_char(n - 1)) {
        let rest = s.substring_char(0, n - 1);
        proof {
            assert(rest@ =~= s@.drop_last());
        }
        return trim(rest);
    }
    s
}

/// `p` is a prefix of `t`.
pub fn starts_with(t: &str, p: &str) -> (r: bool)
    ensures
        r == p@.is_prefix_of(t@),
{
    let plen = p.unicode_len();
    let tlen = t.unicode_len();
    if plen > tlen {
        return false;
    }
    let mut i: usize = 0;
    while i < plen
        invariant
            0 <= i <= plen,
            plen == p@.len(),
            tlen == t@.len(),
            plen <= tlen,
            forall|j: int| 0 <= j < i ==> t@[j] == p@[j],
        decreases plen - i,
    {
        if t.get_char(i) != p.get_char(i) {
            return false;
        }
        i += 1;
    }
    proof {
        assert(p@ =~= t@.subrange(0, p@.len() as int));
    }
    true
}

/// The segments of a string split on a separator. Splitting the empty
/// string yields one empty segment, and every separator ends the segment
/// before it.
pub open spec fn split_spec(s: Seq<char>, sep: char) -> Seq<Seq<char>>
    decreases s.len(),
{
    if s.len() == 0 {
        seq![Seq::<char>::empty()]
    } else {
        let rest = split_spec(s.drop_last(), sep);
        if s.last() == sep {
            rest.push(Seq::<char>::empty())
        } else {
            rest.update(rest.len() - 1, rest.last().push(s.last()))
        }
    }
}

/// Splits a string on a separator character.
pub fn split_on(s: &str, sep: char) -> (parts: Vec<String>)
    ensures
        parts.deep_view() == split_spec(s@, sep),
{
    let n = s.unicode_len();
    let mut parts: Vec<String> = Vec::new();
    let mut start: usize = 0;
    let mut i: usize = 0;
    proof {
        assert(parts.deep_view().push(s@.subrange(0, 0)) =~~= split_spec(s@.take(0), sep));
    }
    while i < n
        invariant
            0 <= start <= i <= n,
            n == s@.len(),
            parts.deep_view().push(s@.subrange(start as int, i as int)) == split_spec(
                s@.take(i as int),
                sep,
            ),
        decreases n - i,
    {
        let ghost prev = parts.deep_view();
        let ghost cur = s@.subrange(start as int, i as int);
        proof {
            assert(s@.take(i as int + 1).drop_last() =~= s@.take(i as int));
            assert(s@.take(i as int + 1).last() == s@[i as int]);
        }
        if s.get_char(i) == sep {
            let seg = s.substring_char(start, i);
            parts.push(String::from_str(seg));
            start = i + 1;
            proof {
                assert(parts.deep_view() =~~= prev.push(cur));
                assert(split_spec(s@.take(i as int + 1), sep) =~~= prev.push(cur).push(
                    Seq::<char>::empty(),
                ));
                assert(parts.deep_view().push(s@.subrange(i as int + 1, i as int + 1))
                    =~~= split_spec(s@.take(i as int + 1), sep));
            }
        } else {
            proof {
                let r = split_spec(s@.take(i as int), sep);
                assert(r == prev.push(cur));
                assert(r.last() == cur);
                assert(r.len() - 1 == prev.len());
                assert(split_spec(s@.take(i as int + 1), sep) =~~= r.update(
                    r.len() - 1,
                    cur.push(s@[i as int]),
                ));
                assert(r.update(r.len() - 1, cur.push(s@[i as int])) =~~= prev.push(
                    cur.push(s@[i as int]),
                ));
                assert(cur.push(s@[i as int]) =~= s@.subrange(start as int, i as int + 1));
                assert(parts.deep_view().push(s@.subrange(start as int, i as int + 1))
                    =~~= split_spec(s@.take(i as int + 1), sep));
            }
        }
        i += 1;
    }
    let last = s.substring_char(start, n);
    parts.push(String::from_str(last));
    proof {
        assert(s@.take(n as int) =~= s@);
        assert(parts.deep_view() =~~= split_spec(s@, sep));
    }
    parts
}

} // verus!
