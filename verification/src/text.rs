//! Character-level helpers on strings: substring search and field splitting.

use vstd::prelude::*;
use vstd::string::*;

verus! {

/// `needle` stands in `haystack` at position `i`.
pub open spec fn occurs_at(haystack: Seq<char>, needle: Seq<char>, i: int) -> bool {
    &&& 0 <= i
    &&& i + needle.len() <= haystack.len()
    &&& haystack.subrange(i, i + needle.len()) == needle
}

/// `needle` is a contiguous part of `haystack`.
pub open spec fn contains_text(haystack: Seq<char>, needle: Seq<char>) -> bool {
    exists|i: int| occurs_at(haystack, needle, i)
}

/// The fields of `s` between occurrences of `sep`, where the field in
/// progress began at `start` and the scan stands at `i`.
pub open spec fn split_from(s: Seq<char>, sep: char, start: int, i: int) -> Seq<Seq<char>>
    decreases s.len() - i,
{
    if i >= s.len() {
        seq![s.subrange(start, s.len() as int)]
    } else if s[i] == sep {
        seq![s.subrange(start, i)] + split_from(s, sep, i + 1, i + 1)
    } else {
        split_from(s, sep, start, i + 1)
    }
}

/// The fields of `s` separated by `sep`: always at least one, possibly empty.
pub open spec fn split_on(s: Seq<char>, sep: char) -> Seq<Seq<char>> {
    split_from(s, sep, 0, 0)
}

/// The fields joined again, `sep` between each two.
pub open spec fn join(fields: Seq<Seq<char>>, sep: char) -> Seq<char>
    decreases fields.len(),
{
    if fields.len() == 0 {
        Seq::empty()
    } else if fields.len() == 1 {
        fields[0]
    } else {
        fields[0] + seq![sep] + join(fields.skip(1), sep)
    }
}

/// What a scan yields from a point on: at least one field, none of which
/// holds the separator, and joined they are the string from where the field
/// in progress began.
pub proof fn split_from_is_inverse_of_join(s: Seq<char>, sep: char, start: int, i: int)
    requires
        0 <= start <= i <= s.len(),
        forall|k: int| start <= k < i ==> s[k] != sep,
    ensures
        split_from(s, sep, start, i).len() >= 1,
        forall|f: int, k: int|
            0 <= f < split_from(s, sep, start, i).len() && 0 <= k < split_from(
                s,
                sep,
                start,
                i,
            )[f].len() ==> split_from(s, sep, start, i)[f][k] != sep,
        join(split_from(s, sep, start, i), sep) == s.subrange(start, s.len() as int),
    decreases s.len() - i,
{
    if i >= s.len() {
    } else if s[i] == sep {
        split_from_is_inverse_of_join(s, sep, i + 1, i + 1);
        let head = s.subrange(start, i);
        let rest = split_from(s, sep, i + 1, i + 1);
        let all = seq![head] + rest;
        assert(all[0] == head);
        assert(all.skip(1) =~= rest);
        assert(head + seq![sep] + s.subrange(i + 1, s.len() as int) =~= s.subrange(
            start,
            s.len() as int,
        ));
        assert forall|f: int, k: int| 0 <= f < all.len() && 0 <= k < all[f].len() implies all[f][k]
            != sep by {
            if f > 0 {
                assert(all[f] == rest[f - 1]);
            }
        }
    } else {
        split_from_is_inverse_of_join(s, sep, start, i + 1);
    }
}

/// Splitting is the inverse of joining: the fields of a string hold no
/// separator, there is at least one, and joined they give the string back.
pub proof fn split_is_inverse_of_join(s: Seq<char>, sep: char)
    ensures
        split_on(s, sep).len() >= 1,
        forall|f: int, k: int|
            0 <= f < split_on(s, sep).len() && 0 <= k < split_on(s, sep)[f].len() ==> split_on(
                s,
                sep,
            )[f][k] != sep,
        join(split_on(s, sep), sep) == s,
{
    split_from_is_inverse_of_join(s, sep, 0, 0);
    assert(s.subrange(0, s.len() as int) =~= s);
}

/// The views of a sequence of strings.
pub open spec fn texts(v: Seq<String>) -> Seq<Seq<char>> {
    v.map_values(|s: String| s@)
}

/// The characters of `s`, in order.
pub fn chars_of(s: &str) -> (v: Vec<char>)
    ensures
        v@ == s@,
{
    let n: usize = s.unicode_len();
    let mut v: Vec<char> = Vec::new();
    let mut i: usize = 0;
    while i < n
        invariant
            n == s@.len(),
            i <= n,
            v@ == s@.subrange(0, i as int),
        decreases n - i,
    {
        v.push(s.get_char(i));
        i += 1;
        assert(v@ =~= s@.subrange(0, i as int));
    }
    assert(s@.subrange(0, n as int) =~= s@);
    v
}

/// Whether `needle` stands in `haystack` at position `at`.
pub fn matches_at(haystack: &Vec<char>, needle: &Vec<char>, at: usize) -> (r: bool)
    ensures
        r == occurs_at(haystack@, needle@, at as int),
{
    if needle.len() > haystack.len() || at > haystack.len() - needle.len() {
        return false;
    }
    let mut j: usize = 0;
    while j < needle.len()
        invariant
            j <= needle.len(),
            at + needle.len() <= haystack.len(),
            forall|k: int| 0 <= k < j ==> haystack@[at + k] == needle@[k],
        decreases needle.len() - j,
    {
        if haystack[at + j] != needle[j] {
            proof {
                let sub = haystack@.subrange(at as int, at + needle.len());
                assert(sub[j as int] == haystack@[at + j]);
            }
            return false;
        }
        j += 1;
    }
    assert(haystack@.subrange(at as int, at + needle.len()) =~= needle@);
    true
}

/// Whether `needle` is a contiguous part of `haystack`.
pub fn contains(haystack: &str, needle: &str) -> (r: bool)
    ensures
        r == contains_text(haystack@, needle@),
{
    let h = chars_of(haystack);
    let n = chars_of(needle);
    let mut i: usize = 0;
    while i < h.len()
        invariant
            i <= h.len(),
            h@ == haystack@,
            n@ == needle@,
            forall|k: int| 0 <= k < i ==> !occurs_at(h@, n@, k),
        decreases h.len() - i,
    {
        if matches_at(&h, &n, i) {
            return true;
        }
        i += 1;
    }
    let at_end = matches_at(&h, &n, i);
    assert(!at_end ==> forall|k: int| !occurs_at(h@, n@, k));
    at_end
}

/// The fields of `s` separated by `sep`, as owned strings.
pub fn split(s: &str, sep: char) -> (fields: Vec<String>)
    ensures
        texts(fields@) == split_on(s@, sep),
{
    let n: usize = s.unicode_len();
    let mut fields: Vec<String> = Vec::new();
    let mut start: usize = 0;
    let mut i: usize = 0;
    assert(texts(fields@) =~= Seq::<Seq<char>>::empty());
    while i < n
        invariant
            n == s@.len(),
            start <= i <= n,
            split_on(s@, sep) == texts(fields@) + split_from(s@, sep, start as int, i as int),
        decreases n - i,
    {
        let ghost before = fields@;
        if s.get_char(i) == sep {
            let field = s.substring_char(start, i).to_owned();
            fields.push(field);
            assert(texts(fields@) =~= texts(before) + seq![s@.subrange(start as int, i as int)]);
            start = i + 1;
        }
        i += 1;
    }
    let ghost before = fields@;
    let last = s.substring_char(start, n).to_owned();
    fields.push(last);
    assert(texts(fields@) =~= texts(before) + seq![s@.subrange(start as int, n as int)]);
    fields
}

} // verus!
