//! Index pagination for listings and byte ranges for downloads.

use vstd::prelude::*;
use vstd::string::*;
use crate::text::{int_text, nat_text, push_decimal, push_signed_decimal};

verus! {

/// Pagination bounds of a listing query; no bound means no restriction.
#[derive(Clone, Copy, Debug, PartialEq, Eq)]
pub struct Range {
    pub start: Option<i32>,
    pub end: Option<i32>,
}

/// A byte range of a download. Both bounds are inclusive.
#[derive(Clone, Copy, Debug, PartialEq, Eq)]
pub struct DownloadRange {
    pub start: Option<u64>,
    pub end: Option<u64>,
}

/// The query suffix that selects a page of a listing.
pub open spec fn pagination_query(range: Option<Range>) -> Seq<char> {
    match range {
        None => Seq::empty(),
        Some(r) => match (r.start, r.end) {
            (Some(s), Some(e)) => "?start="@ + int_text(s as int) + "&end="@ + int_text(e as int),
            (Some(s), None) => "?start="@ + int_text(s as int) + "-"@,
            (None, Some(e)) => "?end="@ + int_text(e as int),
            (None, None) => Seq::empty(),
        },
    }
}

/// The value of the `Range` header that requests a byte range.
pub open spec fn range_header(start: Option<u64>, end: Option<u64>) -> Seq<char> {
    match (start, end) {
        (Some(s), Some(e)) => "bytes="@ + nat_text(s as nat) + "-"@ + nat_text(e as nat),
        (Some(s), None) => "bytes="@ + nat_text(s as nat) + "-"@,
        (None, Some(e)) => "bytes=-"@ + nat_text(e as nat),
        (None, None) => "bytes=0-"@,
    }
}

/// Renders the pagination query suffix of a listing request: empty when
/// nothing restricts it. With only a start bound the value keeps a trailing
/// `-`, as the node expects.
pub fn construct_pagination_query(range: Option<Range>) -> (r: String)
    ensures
        r@ == pagination_query(range),
{
    let mut q = String::new();
    match range {
        None => {},
        Some(range) => {
            match (range.start, range.end) {
                (Some(start), Some(end)) => {
                    q.append("?start=");
                    push_signed_decimal(&mut q, start);
                    q.append("&end=");
                    push_signed_decimal(&mut q, end);
                },
                (Some(start), None) => {
                    q.append("?start=");
                    push_signed_decimal(&mut q, start);
                    q.append("-");
                },
                (None, Some(end)) => {
                    q.append("?end=");
                    push_signed_decimal(&mut q, end);
                },
                (None, None) => {},
            }
        },
    }
    assert(q@ =~= pagination_query(range));
    q
}

impl DownloadRange {
    pub fn new(start: Option<u64>, end: Option<u64>) -> (r: Self)
        ensures
            r.start == start,
            r.end == end,
    {
        Self { start, end }
    }

    /// The whole resource.
    pub fn full() -> (r: Self)
        ensures
            r.start.is_none(),
            r.end.is_none(),
    {
        Self::new(None, None)
    }

    pub fn is_full(&self) -> (r: bool)
        ensures
            r == (self.start.is_none() && self.end.is_none()),
    {
        self.start.is_none() && self.end.is_none()
    }

    /// The `Range` header value; the whole resource is asked for from offset 0.
    pub fn header_value(&self) -> (r: String)
        ensures
            r@ == range_header(self.start, self.end),
    {
        let mut h = String::new();
        match (self.start, self.end) {
            (Some(start), Some(end)) => {
                h.append("bytes=");
                push_decimal(&mut h, start);
                h.append("-");
                push_decimal(&mut h, end);
            },
            (Some(start), None) => {
                h.append("bytes=");
                push_decimal(&mut h, start);
                h.append("-");
            },
            (None, Some(end)) => {
                h.append("bytes=-");
                push_decimal(&mut h, end);
            },
            (None, None) => {
                h.append("bytes=0-");
            },
        }
        assert(h@ =~= range_header(self.start, self.end));
        h
    }
}

} // verus!
