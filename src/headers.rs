//! The file name carried by a `Content-Disposition` header.

use vstd::prelude::*;
use vstd::string::*;
use crate::text::{chars_of, push_char};

verus! {

/// The marker that precedes the file name.
pub open spec fn filename_key() -> Seq<char> {
    "filename="@
}

pub open spec fn occurs_at(s: Seq<char>, p: Seq<char>, i: int) -> bool {
    0 <= i && i + p.len() <= s.len() && s.subrange(i, i + p.len()) == p
}

/// The first position at or after `i` where `p` occurs in `s`.
pub open spec fn find_from(s: Seq<char>, p: Seq<char>, i: int) -> Option<int>
    decreases s.len() + 1 - i,
{
    if i < 0 || i + p.len() > s.len() {
        None
    } else if occurs_at(s, p, i) {
        Some(i)
    } else {
        find_from(s, p, i + 1)
    }
}

/// `s` without its leading double quotes.
pub open spec fn strip_leading_quotes(s: Seq<char>) -> Seq<char>
    decreases s.len(),
{
    if s.len() > 0 && s[0] == '"' {
        strip_leading_quotes(s.drop_first())
    } else {
        s
    }
}

/// `s` without its trailing double quotes.
pub open spec fn strip_trailing_quotes(s: Seq<char>) -> Seq<char>
    decreases s.len(),
{
    if s.len() > 0 && s.last() == '"' {
        strip_trailing_quotes(s.drop_last())
    } else {
        s
    }
}

/// The file name of a disposition header: what follows the first
/// `filename=`, with the double quotes at either end removed.
pub open spec fn disposition_filename(h: Seq<char>) -> Option<Seq<char>> {
    match find_from(h, filename_key(), 0) {
        Some(i) => Some(
            strip_trailing_quotes(strip_leading_quotes(h.subrange(i + filename_key().len(), h.len() as int))),
        ),
        None => None,
    }
}

/// The disposition header that offers `name` as an attachment.
pub open spec fn attachment_header(name: Seq<char>) -> Seq<char> {
    "attachment; filename=\""@ + name + "\""@
}

fn matches_at(s: &Vec<char>, p: &Vec<char>, i: usize) -> (r: bool)
    requires
        i + p@.len() <= s@.len(),
    ensures
        r == occurs_at(s@, p@, i as int),
{
    let n = s.len();
    let mut k: usize = 0;
    while k < p.len()
        invariant
            n == s@.len(),
            i + p@.len() <= s@.len(),
            k <= p@.len(),
            s@.subrange(i as int, i + k) == p@.subrange(0, k as int),
        decreases p@.len() - k,
    {
        if s[i + k] != p[k] {
            assert(s@.subrange(i as int, i + p@.len())[k as int] != p@[k as int]);
            return false;
        }
        k = k + 1;
        assert(s@.subrange(i as int, i + k) =~= p@.subrange(0, k as int));
    }
    assert(p@.subrange(0, k as int) =~= p@);
    true
}

fn find(s: &Vec<char>, p: &Vec<char>) -> (r: Option<usize>)
    ensures
        r matches Some(i) ==> find_from(s@, p@, 0) == Some(i as int) && occurs_at(s@, p@, i as int),
        r is None ==> find_from(s@, p@, 0) is None,
{
    let n = s.len();
    if p.len() > n {
        return None;
    }
    let last = n - p.len();
    let mut i: usize = 0;
    while i <= last
        invariant
            n == s@.len(),
            last + p@.len() == s@.len(),
            find_from(s@, p@, 0) == find_from(s@, p@, i as int),
        decreases last + 1 - i,
    {
        if matches_at(s, p, i) {
            return Some(i);
        }
        if i == last {
            return None;
        }
        i = i + 1;
    }
    None
}

/// Extracts the file name from a `Content-Disposition` value: the text after
/// the first `filename=`, without surrounding double quotes. `None` when the
/// value names no file.
pub fn extract_filename(content_disposition: &str) -> (r: Option<String>)
    ensures
        r is None <==> disposition_filename(content_disposition@) is None,
        r matches Some(name) ==> disposition_filename(content_disposition@) == Some(name@),
{
    let h = chars_of(content_disposition);
    let key = chars_of("filename=");
    let n = h.len();
    match find(&h, &key) {
        None => None,
        Some(i) => {
            let mut from = i + key.len();
            let mut to = n;
            assert(strip_leading_quotes(h@.subrange(i + key@.len(), h@.len() as int))
                == strip_leading_quotes(h@.subrange(from as int, to as int)));
            while from < to && h[from] == '"'
                invariant
                    from <= to == h@.len(),
                    strip_leading_quotes(h@.subrange(i + key@.len(), h@.len() as int))
                        == strip_leading_quotes(h@.subrange(from as int, to as int)),
                decreases to - from,
            {
                assert(h@.subrange(from as int, to as int).drop_first()
                    =~= h@.subrange(from + 1, to as int));
                from = from + 1;
            }
            let ghost lead = h@.subrange(from as int, to as int);
            assert(strip_leading_quotes(lead) == lead);
            while to > from && h[to - 1] == '"'
                invariant
                    from <= to <= h@.len(),
                    strip_trailing_quotes(lead) == strip_trailing_quotes(h@.subrange(from as int, to as int)),
                decreases to - from,
            {
                assert(h@.subrange(from as int, to as int).drop_last()
                    =~= h@.subrange(from as int, to - 1));
                to = to - 1;
            }
            let mut name = String::new();
            let mut k: usize = from;
            while k < to
                invariant
                    from <= k <= to <= h@.len(),
                    name@ == h@.subrange(from as int, k as int),
                decreases to - k,
            {
                push_char(&mut name, h[k]);
                k = k + 1;
                assert(name@ =~= h@.subrange(from as int, k as int));
            }
            Some(name)
        },
    }
}

/// Renders the disposition header that offers `name` as an attachment.
pub fn content_disposition(name: &str) -> (r: String)
    ensures
        r@ == attachment_header(name@),
{
    let mut h = String::new();
    h.append("attachment; filename=\"");
    h.append(name);
    h.append("\"");
    h
}

/// A file name written into a disposition header is read back exactly, as
/// long as it does not itself begin or end with a double quote.
pub proof fn lemma_filename_round_trip(name: Seq<char>)
    requires
        name.len() > 0 ==> name[0] != '"' && name.last() != '"',
    ensures
        disposition_filename(attachment_header(name)) == Some(name),
{
    reveal_strlit("attachment; filename=\"");
    reveal_strlit("filename=");
    reveal_strlit("\"");
    let h = attachment_header(name);
    let key = filename_key();
    let lit = "attachment; filename=\""@;
    assert forall|i: int| 0 <= i < 12 implies !occurs_at(h, key, i) by {
        assert(h[i] == lit[i]);
        assert(lit[i] != 'f');
        if i + key.len() <= h.len() {
            assert(h.subrange(i, i + key.len())[0] == h[i]);
        }
    }
    assert(occurs_at(h, key, 12)) by {
        assert(h.subrange(12, 21) =~= key);
    }
    lemma_find_skips(h, key, 0, 12);
    let rest = h.subrange(21, h.len() as int);
    assert(rest =~= seq!['"'] + name + seq!['"']);
    assert(rest.drop_first() =~= name + seq!['"']);
    let tail = name + seq!['"'];
    if name.len() > 0 {
        assert(tail[0] == name[0]);
        assert(strip_leading_quotes(tail) == tail);
        assert(strip_leading_quotes(rest) == tail);
        assert(tail.drop_last() =~= name);
        assert(name.last() == name[name.len() - 1]);
        assert(strip_trailing_quotes(name) == name);
        assert(strip_trailing_quotes(tail) == name);
    } else {
        assert(tail.drop_first() =~= name);
        assert(strip_leading_quotes(name) == name);
        assert(strip_leading_quotes(tail) == name);
        assert(strip_leading_quotes(rest) == name);
        assert(strip_trailing_quotes(name) == name);
    }
}

proof fn lemma_find_skips(s: Seq<char>, p: Seq<char>, i: int, j: int)
    requires
        0 <= i <= j,
        occurs_at(s, p, j),
        forall|k: int| i <= k < j ==> !occurs_at(s, p, k),
    ensures
        find_from(s, p, i) == Some(j),
    decreases j - i,
{
    if i < j {
        lemma_find_skips(s, p, i + 1, j);
    }
}

} // verus!
