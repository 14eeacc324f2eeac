//! The search query of the gallery: tags to look for and an order to show
//! the results in, written as words separated by single spaces.

use vstd::prelude::*;
use crate::error::Error;
use crate::text::{joined, same_text};

verus! {

/// The order of a result list.
#[derive(Clone, Copy, Debug, PartialEq, Eq, Structural)]
pub enum Sort {
    Date,
    Score,
}

/// A parsed search query.
pub struct Query {
    pub tags: Vec<String>,
    pub sort: Sort,
}

/// A query as its contracts see it.
pub struct QueryView {
    pub tags: Seq<Seq<char>>,
    pub sort: Sort,
}

impl View for Query {
    type V = QueryView;

    open spec fn view(&self) -> QueryView {
        QueryView { tags: self.tags@.map_values(|t: String| t@), sort: self.sort }
    }
}

/// The characters with the Unicode property `White_Space`.
pub open spec fn is_white_space(c: char) -> bool {
    let code = c as u32;
    0x09 <= code <= 0x0D || code == 0x20 || code == 0x85 || code == 0xA0 || code == 0x1680 || 0x2000 <= code
        <= 0x200A || code == 0x2028 || code == 0x2029 || code == 0x202F || code == 0x205F || code == 0x3000
}

/// Tests a character for the Unicode property `White_Space`.
pub fn white_space(c: char) -> (yes: bool)
    ensures
        yes == is_white_space(c),
{
    let code: u32 = c as u32;
    (0x09 <= code && code <= 0x0D) || code == 0x20 || code == 0x85 || code == 0xA0 || code == 0x1680 || (0x2000
        <= code && code <= 0x200A) || code == 0x2028 || code == 0x2029 || code == 0x202F || code == 0x205F
        || code == 0x3000
}

/// `s` without its leading white space.
pub open spec fn without_leading_space(s: Seq<char>) -> Seq<char>
    decreases s.len(),
{
    if s.len() > 0 && is_white_space(s.first()) {
        without_leading_space(s.drop_first())
    } else {
        s
    }
}

/// `s` without its trailing white space.
pub open spec fn without_trailing_space(s: Seq<char>) -> Seq<char>
    decreases s.len(),
{
    if s.len() > 0 && is_white_space(s.last()) {
        without_trailing_space(s.drop_last())
    } else {
        s
    }
}

/// `s` without the white space at either end.
pub open spec fn trimmed(s: Seq<char>) -> Seq<char> {
    without_trailing_space(without_leading_space(s))
}

/// The index of the first `mark` in `s`, or the length of `s` where there is
/// none.
pub open spec fn first_index_of(s: Seq<char>, mark: char) -> nat
    decreases s.len(),
{
    if s.len() == 0 || s.first() == mark {
        0
    } else {
        1 + first_index_of(s.drop_first(), mark)
    }
}

/// The order that a word names.
pub open spec fn sort_named(word: Seq<char>) -> Option<Sort> {
    if word == "date"@ {
        Some(Sort::Date)
    } else if word == "score"@ {
        Some(Sort::Score)
    } else {
        None
    }
}

/// The text of the refusal of a word that names no order.
pub open spec fn invalid_sort_text(word: Seq<char>) -> Seq<char> {
    "Invalid sort '"@ + word + "'"@
}

/// The query after one more word: a word without a colon is a tag; `sort:`
/// followed by the name of an order sets the order, and followed by anything
/// else is an error, reported as that text; every other word with a colon is
/// passed over.
pub open spec fn with_word(q: QueryView, word: Seq<char>) -> Result<QueryView, Seq<char>> {
    let colon = first_index_of(word, ':') as int;
    if colon >= word.len() {
        Ok(QueryView { tags: q.tags.push(word), sort: q.sort })
    } else if word.subrange(0, colon) == "sort"@ {
        match sort_named(word.subrange(colon + 1, word.len() as int)) {
            Some(sort) => Ok(QueryView { tags: q.tags, sort }),
            None => Err(word.subrange(colon + 1, word.len() as int)),
        }
    } else {
        Ok(q)
    }
}

/// The query after the words of `s`, which single spaces separate, taken from
/// left to right; the first word in error ends it.
pub open spec fn with_words(q: QueryView, s: Seq<char>) -> Result<QueryView, Seq<char>>
    decreases s.len(),
{
    let end = first_index_of(s, ' ') as int;
    match with_word(q, s.subrange(0, end)) {
        Err(bad) => Err(bad),
        Ok(next) => if end >= s.len() {
            Ok(next)
        } else {
            with_words(next, s.subrange(end + 1, s.len() as int))
        },
    }
}

/// What a query string means: nothing where it is blank, and otherwise what
/// its words add up to.
pub open spec fn parsed(raw: Seq<char>) -> Result<QueryView, Seq<char>> {
    let empty = QueryView { tags: Seq::empty(), sort: Sort::Date };
    if trimmed(raw).len() == 0 {
        Ok(empty)
    } else {
        with_words(empty, trimmed(raw))
    }
}

/// The index of a mark is within the sequence, nothing before it is the mark,
/// and the mark stands there unless the index is the length.
pub proof fn first_index_of_is_first(s: Seq<char>, mark: char)
    ensures
        0 <= first_index_of(s, mark) <= s.len(),
        forall|i: int| 0 <= i < first_index_of(s, mark) ==> s[i] != mark,
        first_index_of(s, mark) < s.len() ==> s[first_index_of(s, mark) as int] == mark,
    decreases s.len(),
{
    if s.len() == 0 || s.first() == mark {
    } else {
        first_index_of_is_first(s.drop_first(), mark);
        let k = first_index_of(s.drop_first(), mark) as int;
        assert forall|i: int| 0 <= i < 1 + k implies s[i] != mark by {
            if i > 0 {
                assert(s.drop_first()[i - 1] == s[i]);
            }
        }
        if 1 + k < s.len() {
            assert(s.drop_first()[k] == s[1 + k]);
        }
    }
}

/// An index with the properties of the first index of a mark is that index.
pub proof fn first_index_of_is_unique(s: Seq<char>, mark: char, at: int)
    requires
        0 <= at <= s.len(),
        forall|i: int| 0 <= i < at ==> s[i] != mark,
        at < s.len() ==> s[at] == mark,
    ensures
        first_index_of(s, mark) == at,
{
    first_index_of_is_first(s, mark);
    let k = first_index_of(s, mark) as int;
    if k < at {
        assert(s[k] != mark);
    } else if at < k {
        assert(s[at] != mark);
    }
}

impl Default for Sort {
    /// The order of results where the query names none.
    fn default() -> (sort: Sort)
        ensures
            sort == Sort::Date,
    {
        Sort::Date
    }
}

/// The refusal carries a text, which only executable code can make: the
/// conversion is stated in full on `try_from` itself, and here as far as the
/// order goes.
impl vstd::std_specs::convert::TryFromSpecImpl<&str> for Sort {
    open spec fn obeys_try_from_spec() -> bool {
        false
    }

    open spec fn try_from_spec(value: &str) -> Result<Sort, Error> {
        match sort_named(value@) {
            Some(named) => Ok(named),
            None => Err(Error::Query(arbitrary())),
        }
    }
}

impl TryFrom<&str> for Sort {
    type Error = Error;

    /// The order that `value` names.
    fn try_from(value: &str) -> (sort: Result<Sort, Error>)
        ensures
            match sort_named(value@) {
                Some(named) => sort == Ok::<Sort, Error>(named),
                None => sort matches Err(Error::Query(why)) && why@ == invalid_sort_text(value@),
            },
    {
        if same_text(value, "date") {
            Ok(Sort::Date)
        } else if same_text(value, "score") {
            Ok(Sort::Score)
        } else {
            let mut why = joined("Invalid sort '", value);
            why.append("'");
            Err(Error::Query(why))
        }
    }
}

/// The position of the first `mark` in `text` at or after `from` and before
/// `to`, or `to` where there is none.
fn find_from(text: &str, from: usize, to: usize, mark: char) -> (at: usize)
    requires
        from <= to <= text@.len(),
    ensures
        from <= at <= to,
        at - from == first_index_of(text@.subrange(from as int, to as int), mark),
{
    let mut at: usize = from;
    while at < to && text.get_char(at) != mark
        invariant
            from <= at <= to <= text@.len(),
            forall|i: int| from <= i < at ==> text@[i] != mark,
        decreases to - at,
    {
        at += 1;
    }
    proof {
        first_index_of_is_unique(text@.subrange(from as int, to as int), mark, at - from);
    }
    at
}

impl Default for Query {
    /// The query that asks for everything, newest first.
    fn default() -> (q: Query)
        ensures
            q@.tags.len() == 0,
            q@.sort == Sort::Date,
    {
        Query { tags: Vec::new(), sort: Sort::Date }
    }
}

impl Query {
    /// Parses a query string.
    pub fn parse(raw: &str) -> (q: Result<Query, Error>)
        ensures
            match parsed(raw@) {
                Ok(meant) => q matches Ok(got) && got@ == meant,
                Err(bad) => q matches Err(Error::Query(why)) && why@ == invalid_sort_text(bad),
            },
    {
        let len: usize = raw.unicode_len();
        let mut lo: usize = 0;
        assert(raw@.subrange(0, len as int) =~= raw@);
        while lo < len && white_space(raw.get_char(lo))
            invariant
                lo <= len == raw@.len(),
                without_leading_space(raw@) == without_leading_space(raw@.subrange(lo as int, len as int)),
            decreases len - lo,
        {
            assert(raw@.subrange(lo as int, len as int).drop_first() =~= raw@.subrange(lo + 1, len as int));
            lo += 1;
        }
        let mut hi: usize = len;
        while lo < hi && white_space(raw.get_char(hi - 1))
            invariant
                lo <= hi <= len == raw@.len(),
                without_leading_space(raw@) == raw@.subrange(lo as int, len as int),
                trimmed(raw@) == without_trailing_space(raw@.subrange(lo as int, hi as int)),
            decreases hi - lo,
        {
            assert(raw@.subrange(lo as int, hi as int).drop_last() =~= raw@.subrange(lo as int, hi - 1));
            hi -= 1;
        }
        let ghost text = raw@.subrange(lo as int, hi as int);
        assert(trimmed(raw@) == text);
        let mut result = Query { tags: Vec::new(), sort: Sort::Date };
        if lo == hi {
            assert(result@.tags =~= Seq::<Seq<char>>::empty());
            return Ok(result);
        }
        assert(result@.tags =~= Seq::<Seq<char>>::empty());
        let mut pos: usize = lo;
        loop
            invariant
                lo <= pos <= hi <= len == raw@.len(),
                text == raw@.subrange(lo as int, hi as int),
                text.len() > 0,
                parsed(raw@) == with_words(result@, raw@.subrange(pos as int, hi as int)),
            decreases hi - pos,
        {
            let ghost rest = raw@.subrange(pos as int, hi as int);
            let end: usize = find_from(raw, pos, hi, ' ');
            let colon: usize = find_from(raw, pos, end, ':');
            let ghost word = raw@.subrange(pos as int, end as int);
            assert(rest.subrange(0, end - pos) =~= word);
            assert(word.subrange(0, colon - pos) =~= raw@.subrange(pos as int, colon as int));
            if colon == end {
                let tag = String::from_str(raw.substring_char(pos, end));
                let ghost before = result@;
                result.tags.push(tag);
                assert(result@.tags =~= before.tags.push(word));
            } else {
                assert(word.subrange(colon - pos + 1, word.len() as int) =~= raw@.subrange(
                    colon + 1,
                    end as int,
                ));
                if same_text(raw.substring_char(pos, colon), "sort") {
                    match Sort::try_from(raw.substring_char(colon + 1, end)) {
                        Ok(sort) => {
                            result.sort = sort;
                        },
                        Err(e) => {
                            return Err(e);
                        },
                    }
                }
            }
            if end >= hi {
                return Ok(result);
            }
            assert(rest.subrange(end - pos + 1, rest.len() as int) =~= raw@.subrange(end + 1, hi as int));
            pos = end + 1;
        }
    }
}

} // verus!
