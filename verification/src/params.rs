//! Strict reading of query parameters: a query is a list of decoded
//! name-value pairs; a name that is not a parameter, a name given twice, or
//! a number that is not one makes the whole query a bad request.

use vstd::prelude::*;
use vstd::string::*;
use crate::query::{opt_text, BrowseQuery, BrowseQueryView, UpdateDocumentsQuery};
use crate::response::{ErrorKind, ResponseError};
use crate::text::chars_of;

verus! {

/// Name of the offset parameter.
pub open spec fn offset_name() -> Seq<char> {
    "offset"@
}

/// Name of the limit parameter.
pub open spec fn limit_name() -> Seq<char> {
    "limit"@
}

/// Name of the projection parameter.
pub open spec fn attributes_name() -> Seq<char> {
    "attributesToRetrieve"@
}

/// Name of the primary key parameter.
pub open spec fn primary_key_name() -> Seq<char> {
    "primaryKey"@
}

/// A decimal digit.
pub open spec fn is_digit(c: char) -> bool {
    '0' <= c <= '9'
}

/// The number that a sequence of decimal digits writes.
pub open spec fn digits_value(s: Seq<char>) -> nat
    decreases s.len(),
{
    if s.len() == 0 {
        0
    } else {
        (digits_value(s.drop_last()) * 10 + (s.last() as int - '0' as int)) as nat
    }
}

/// The digits of a number's text: the text without one leading plus sign.
pub open spec fn digits_of(s: Seq<char>) -> Seq<char> {
    if s.len() > 0 && s[0] == '+' {
        s.skip(1)
    } else {
        s
    }
}

/// The number that a text writes: one or more decimal digits, after at most
/// one plus sign, whose value fits the machine's word.
pub open spec fn number_of(s: Seq<char>) -> Option<usize> {
    let digits = digits_of(s);
    if digits.len() > 0 && (forall|i: int| 0 <= i < digits.len() ==> is_digit(#[trigger] digits[i]))
        && digits_value(digits) <= usize::MAX {
        Some(digits_value(digits) as usize)
    } else {
        None
    }
}

/// A longer sequence of digits writes no smaller a number than its prefix.
pub proof fn digits_value_grows(s: Seq<char>, k: int)
    requires
        0 <= k <= s.len(),
        forall|i: int| 0 <= i < s.len() ==> is_digit(#[trigger] s[i]),
    ensures
        digits_value(s.take(k)) <= digits_value(s),
    decreases s.len(),
{
    if k == s.len() {
        assert(s.take(k) =~= s);
    } else {
        assert(s.drop_last().take(k) =~= s.take(k));
        digits_value_grows(s.drop_last(), k);
        assert(is_digit(s[s.len() - 1]));
    }
}

/// Reads a number.
pub fn parse_number(s: &str) -> (r: Option<usize>)
    ensures
        r == number_of(s@),
{
    let v = chars_of(s);
    let start: usize = if v.len() > 0 && v[0] == '+' {
        1
    } else {
        0
    };
    let ghost digits = digits_of(s@);
    assert(digits =~= v@.skip(start as int));
    if v.len() == start {
        return None;
    }
    let mut acc: usize = 0;
    let mut i: usize = start;
    assert(digits.take(0) =~= Seq::<char>::empty());
    while i < v.len()
        invariant
            start <= i <= v.len(),
            digits == v@.skip(start as int),
            digits == digits_of(s@),
            digits.len() == v.len() - start,
            forall|k: int| 0 <= k < i - start ==> is_digit(#[trigger] digits[k]),
            acc == digits_value(digits.take(i - start)),
        decreases v.len() - i,
    {
        let c = v[i];
        assert(digits[i - start] == c);
        if c < '0' || c > '9' {
            return None;
        }
        let d: usize = (c as u8 - '0' as u8) as usize;
        proof {
            let next = digits.take(i - start + 1);
            assert(next.drop_last() =~= digits.take(i - start));
            assert(next.last() == c);
            assert(digits_value(next) == acc * 10 + d);
        }
        if acc > (usize::MAX - d) / 10 {
            proof {
                let next = digits.take(i - start + 1);
                assert(digits_value(next) > usize::MAX) by (nonlinear_arith)
                    requires
                        digits_value(next) == acc * 10 + d,
                        acc > (usize::MAX - d) / 10,
                        d <= 9,
                ;
                if forall|k: int| 0 <= k < digits.len() ==> is_digit(#[trigger] digits[k]) {
                    digits_value_grows(digits, i - start + 1);
                }
            }
            return None;
        }
        assert(acc * 10 + d <= usize::MAX) by (nonlinear_arith)
            requires
                acc <= (usize::MAX - d) / 10,
                d <= 9,
        ;
        acc = acc * 10 + d;
        i += 1;
    }
    assert(digits.take(digits.len() as int) =~= digits);
    Some(acc)
}

/// The parameters of a listing as they stand in a query, not yet read.
pub struct BrowseFields {
    pub offset: Option<Seq<char>>,
    pub limit: Option<Seq<char>>,
    pub attributes_to_retrieve: Option<Seq<char>>,
}

/// The parameters that the pairs of a query give, each at most once; `None`
/// where a name is not a parameter of a listing or comes twice.
pub open spec fn browse_fields(pairs: Seq<(String, String)>) -> Option<BrowseFields>
    decreases pairs.len(),
{
    if pairs.len() == 0 {
        Some(BrowseFields { offset: None, limit: None, attributes_to_retrieve: None })
    } else {
        let name = pairs.last().0@;
        let value = pairs.last().1@;
        match browse_fields(pairs.drop_last()) {
            None => None,
            Some(f) => if name == offset_name() && f.offset is None {
                Some(BrowseFields { offset: Some(value), ..f })
            } else if name == limit_name() && f.limit is None {
                Some(BrowseFields { limit: Some(value), ..f })
            } else if name == attributes_name() && f.attributes_to_retrieve is None {
                Some(BrowseFields { attributes_to_retrieve: Some(value), ..f })
            } else {
                None
            },
        }
    }
}

/// The number that an optional text writes: `Some(None)` where there is no
/// text, `None` where the text is no number.
pub open spec fn optional_number(text: Option<Seq<char>>) -> Option<Option<usize>> {
    match text {
        None => Some(None),
        Some(t) => match number_of(t) {
            Some(n) => Some(Some(n)),
            None => None,
        },
    }
}

/// The listing query that the pairs write, `None` where they write none.
pub open spec fn browse_query_of(pairs: Seq<(String, String)>) -> Option<BrowseQueryView> {
    match browse_fields(pairs) {
        None => None,
        Some(f) => match (optional_number(f.offset), optional_number(f.limit)) {
            (Some(offset), Some(limit)) => Some(
                BrowseQueryView { offset, limit, attributes_to_retrieve: f.attributes_to_retrieve },
            ),
            _ => None,
        },
    }
}

/// The primary key that the pairs of a query give: `Some(None)` where they
/// give none, `None` where a name is not `primaryKey` or comes twice.
pub open spec fn primary_key_of(pairs: Seq<(String, String)>) -> Option<Option<Seq<char>>>
    decreases pairs.len(),
{
    if pairs.len() == 0 {
        Some(None)
    } else {
        match primary_key_of(pairs.drop_last()) {
            Some(None) => if pairs.last().0@ == primary_key_name() {
                Some(Some(pairs.last().1@))
            } else {
                None
            },
            _ => None,
        }
    }
}

impl BrowseQuery {
    /// Reads the query of a listing from its decoded pairs. Any name other
    /// than `offset`, `limit` and `attributesToRetrieve`, a name given twice,
    /// and an offset or limit that is no number make it a bad request.
    pub fn from_pairs(pairs: &Vec<(String, String)>) -> (r: Result<BrowseQuery, ResponseError>)
        ensures
            match browse_query_of(pairs@) {
                Some(q) => r matches Ok(got) && got@ == q,
                None => r matches Err(e) && e.kind == ErrorKind::BadRequest,
            },
    {
        let offset_key = String::from_str("offset");
        let limit_key = String::from_str("limit");
        let attributes_key = String::from_str("attributesToRetrieve");
        let mut offset: Option<String> = None;
        let mut limit: Option<String> = None;
        let mut attributes: Option<String> = None;
        let mut i: usize = 0;
        assert(pairs@.take(0) =~= Seq::<(String, String)>::empty());
        while i < pairs.len()
            invariant
                i <= pairs.len(),
                offset_key@ == offset_name(),
                limit_key@ == limit_name(),
                attributes_key@ == attributes_name(),
                browse_fields(pairs@.take(i as int)) == Some(
                    BrowseFields {
                        offset: opt_text(offset),
                        limit: opt_text(limit),
                        attributes_to_retrieve: opt_text(attributes),
                    },
                ),
            decreases pairs.len() - i,
        {
            let ghost upto = pairs@.take(i + 1);
            assert(upto.drop_last() =~= pairs@.take(i as int));
            assert(upto.last() == pairs@[i as int]);
            let name = &pairs[i].0;
            let value = &pairs[i].1;
            if *name == offset_key && offset.is_none() {
                offset = Some(value.clone());
            } else if *name == limit_key && limit.is_none() {
                limit = Some(value.clone());
            } else if *name == attributes_key && attributes.is_none() {
                attributes = Some(value.clone());
            } else {
                proof {
                    assert(browse_fields(upto) is None);
                    unknown_field_spoils_the_rest(pairs@, i + 1);
                }
                return Err(bad_request("unknown or repeated query parameter"));
            }
            i += 1;
        }
        assert(pairs@.take(pairs.len() as int) =~= pairs@);
        let offset = match read_optional_number(&offset) {
            Some(n) => n,
            None => { return Err(bad_request("offset is not a number")); },
        };
        let limit = match read_optional_number(&limit) {
            Some(n) => n,
            None => { return Err(bad_request("limit is not a number")); },
        };
        Ok(BrowseQuery { offset, limit, attributes_to_retrieve: attributes })
    }
}

impl UpdateDocumentsQuery {
    /// Reads the query of a document addition from its decoded pairs. Any name
    /// other than `primaryKey`, and that name given twice, make it a bad
    /// request.
    pub fn from_pairs(pairs: &Vec<(String, String)>) -> (r: Result<
        UpdateDocumentsQuery,
        ResponseError,
    >)
        ensures
            match primary_key_of(pairs@) {
                Some(key) => r matches Ok(got) && opt_text(got.primary_key) == key,
                None => r matches Err(e) && e.kind == ErrorKind::BadRequest,
            },
    {
        let primary_key_key = String::from_str("primaryKey");
        let mut primary_key: Option<String> = None;
        let mut i: usize = 0;
        assert(pairs@.take(0) =~= Seq::<(String, String)>::empty());
        while i < pairs.len()
            invariant
                i <= pairs.len(),
                primary_key_key@ == primary_key_name(),
                primary_key_of(pairs@.take(i as int)) == Some(opt_text(primary_key)),
            decreases pairs.len() - i,
        {
            let ghost upto = pairs@.take(i + 1);
            assert(upto.drop_last() =~= pairs@.take(i as int));
            assert(upto.last() == pairs@[i as int]);
            let name = &pairs[i].0;
            if *name == primary_key_key && primary_key.is_none() {
                primary_key = Some(pairs[i].1.clone());
            } else {
                proof {
                    assert(primary_key_of(upto) is None);
                    unknown_key_spoils_the_rest(pairs@, i + 1);
                }
                return Err(bad_request("unknown or repeated query parameter"));
            }
            i += 1;
        }
        assert(pairs@.take(pairs.len() as int) =~= pairs@);
        Ok(UpdateDocumentsQuery { primary_key })
    }
}

/// Once a prefix of the pairs is no listing query, the whole is none.
pub proof fn unknown_field_spoils_the_rest(pairs: Seq<(String, String)>, k: int)
    requires
        0 <= k <= pairs.len(),
        browse_fields(pairs.take(k)) is None,
    ensures
        browse_fields(pairs) is None,
    decreases pairs.len(),
{
    if k == pairs.len() {
        assert(pairs.take(k) =~= pairs);
    } else {
        assert(pairs.drop_last().take(k) =~= pairs.take(k));
        unknown_field_spoils_the_rest(pairs.drop_last(), k);
    }
}

/// Once a prefix of the pairs is no addition query, the whole is none.
pub proof fn unknown_key_spoils_the_rest(pairs: Seq<(String, String)>, k: int)
    requires
        0 <= k <= pairs.len(),
        primary_key_of(pairs.take(k)) is None,
    ensures
        primary_key_of(pairs) is None,
    decreases pairs.len(),
{
    if k == pairs.len() {
        assert(pairs.take(k) =~= pairs);
    } else {
        assert(pairs.drop_last().take(k) =~= pairs.take(k));
        unknown_key_spoils_the_rest(pairs.drop_last(), k);
    }
}

/// Reads a number that may be absent.
pub fn read_optional_number(text: &Option<String>) -> (r: Option<Option<usize>>)
    ensures
        r == optional_number(opt_text(*text)),
{
    match text {
        None => Some(None),
        Some(t) => match parse_number(t.as_str()) {
            Some(n) => Some(Some(n)),
            None => None,
        },
    }
}

/// A bad request with the given message.
pub fn bad_request(message: &str) -> (e: ResponseError)
    ensures
        e.kind == ErrorKind::BadRequest,
        e.message@ == message@,
{
    ResponseError { kind: ErrorKind::BadRequest, message: String::from_str(message) }
}

} // verus!
