//! A named point for a map overlay, as it is written on a command line:
//! `(name,lat,long)`, with or without the brackets.

use vstd::prelude::*;
use vstd::string::*;

verus! {

/// Whether `c` is one of the brackets that may stand around a city.
pub open spec fn is_bracket(c: char) -> bool {
    c == '(' || c == ')'
}

/// `s` from its first character on that is no bracket.
pub open spec fn without_leading(s: Seq<char>) -> Seq<char>
    decreases s.len(),
{
    if s.len() > 0 && is_bracket(s[0]) {
        without_leading(s.drop_first())
    } else {
        s
    }
}

/// `s` up to its last character that is no bracket.
pub open spec fn without_trailing(s: Seq<char>) -> Seq<char>
    decreases s.len(),
{
    if s.len() > 0 && is_bracket(s.last()) {
        without_trailing(s.drop_last())
    } else {
        s
    }
}

/// `s` without the brackets at either end.
pub open spec fn unbracketed(s: Seq<char>) -> Seq<char> {
    without_trailing(without_leading(s))
}

/// The number of characters that `s` has before its first comma.
pub open spec fn field_len(s: Seq<char>) -> nat
    decreases s.len(),
{
    if s.len() == 0 || s[0] == ',' {
        0
    } else {
        1 + field_len(s.drop_first())
    }
}

/// The first three of the fields that commas part `s` into, where it has
/// as many.
pub open spec fn three_fields(s: Seq<char>) -> Option<(Seq<char>, Seq<char>, Seq<char>)> {
    let first = field_len(s) as int;
    if first >= s.len() {
        None
    } else {
        let rest = s.skip(first + 1);
        let second = field_len(rest) as int;
        if second >= rest.len() {
            None
        } else {
            let last = rest.skip(second + 1);
            Some((s.take(first), rest.take(second), last.take(field_len(last) as int)))
        }
    }
}

/// A city as it was written: its name, and its latitude and longitude as
/// the numerals that stand for them.
#[derive(Debug, Clone, PartialEq, Eq)]
pub struct City {
    /// The name.
    pub name: String,
    /// The numeral of the latitude in degrees.
    pub lat: String,
    /// The numeral of the longitude in degrees.
    pub long: String,
}

/// The index at which the field that starts at `from` ends: that of the
/// next comma before `to`, or `to` where there is none.
fn field_end(s: &str, from: usize, to: usize) -> (end: usize)
    requires
        from <= to <= s@.len(),
    ensures
        end == from + field_len(s@.subrange(from as int, to as int)),
        from <= end <= to,
{
    let mut i: usize = from;
    while i < to && s.get_char(i) != ','
        invariant
            from <= i <= to <= s@.len(),
            field_len(s@.subrange(from as int, to as int)) == (i - from) + field_len(
                s@.subrange(i as int, to as int),
            ),
        decreases to - i,
    {
        assert(s@.subrange(i as int, to as int).drop_first() =~= s@.subrange(i + 1, to as int));
        i = i + 1;
    }
    i
}

impl City {
    /// Reads a city from `name,lat,long`, which may stand in brackets.
    /// What follows a third comma is not read. Without two commas there is
    /// no city.
    pub fn from_str(s: &str) -> (city: Option<City>)
        ensures
            match city {
                Some(c) => three_fields(unbracketed(s@)) == Some((c.name@, c.lat@, c.long@)),
                None => three_fields(unbracketed(s@)) is None,
            },
    {
        let n: usize = s.unicode_len();
        let mut start: usize = 0;
        assert(s@.subrange(0, n as int) =~= s@);
        while start < n && (s.get_char(start) == '(' || s.get_char(start) == ')')
            invariant
                start <= n == s@.len(),
                without_leading(s@) == without_leading(s@.subrange(start as int, n as int)),
            decreases n - start,
        {
            assert(s@.subrange(start as int, n as int).drop_first() =~= s@.subrange(
                start + 1,
                n as int,
            ));
            start = start + 1;
        }
        let mut end: usize = n;
        while end > start && (s.get_char(end - 1) == '(' || s.get_char(end - 1) == ')')
            invariant
                start <= end <= n == s@.len(),
                without_leading(s@) == s@.subrange(start as int, n as int),
                unbracketed(s@) == without_trailing(s@.subrange(start as int, end as int)),
            decreases end - start,
        {
            assert(s@.subrange(start as int, end as int).drop_last() =~= s@.subrange(
                start as int,
                end - 1,
            ));
            end = end - 1;
        }
        let ghost text = s@.subrange(start as int, end as int);
        assert(unbracketed(s@) == text);
        let name_end: usize = field_end(s, start, end);
        if name_end >= end {
            return None;
        }
        let ghost rest = text.skip(name_end - start + 1);
        assert(rest =~= s@.subrange(name_end + 1, end as int));
        let lat_end: usize = field_end(s, name_end + 1, end);
        if lat_end >= end {
            return None;
        }
        let ghost last = rest.skip(lat_end - name_end);
        assert(last =~= s@.subrange(lat_end + 1, end as int));
        let long_end: usize = field_end(s, lat_end + 1, end);
        let name = String::from_str(s.substring_char(start, name_end));
        let lat = String::from_str(s.substring_char(name_end + 1, lat_end));
        let long = String::from_str(s.substring_char(lat_end + 1, long_end));
        proof {
            assert(text.take(name_end - start) =~= s@.subrange(start as int, name_end as int));
            assert(rest.take(lat_end - name_end - 1) =~= s@.subrange(name_end + 1, lat_end as int));
            assert(last.take(long_end - lat_end - 1) =~= s@.subrange(lat_end + 1, long_end as int));
        }
        Some(City { name, lat, long })
    }
}

} // verus!
