use vstd::prelude::*;
use fuzzy_matcher::skim::SkimMatcherV2;
use crate::model::Track;

verus! {

/// Whether `needle` stands in `hay` at position `at`.
pub open spec fn occurs_at(needle: Seq<char>, hay: Seq<char>, at: int) -> bool {
    &&& 0 <= at
    &&& at + needle.len() <= hay.len()
    &&& hay.subrange(at, at + needle.len()) == needle
}

/// Whether `needle` stands somewhere in `hay`.
pub open spec fn is_substring(needle: Seq<char>, hay: Seq<char>) -> bool {
    exists|at: int| occurs_at(needle, hay, at)
}

/// Whether the characters of `query` from `from` up to `to` form a token: a
/// run of characters other than the space, at least one, that reaches on
/// both sides to a space or to the end of the query.
pub open spec fn is_token(query: Seq<char>, from: int, to: int) -> bool {
    &&& 0 <= from < to <= query.len()
    &&& forall|k: int| from <= k < to ==> query[k] != ' '
    &&& (from == 0 || query[from - 1] == ' ')
    &&& (to == query.len() || query[to] == ' ')
}

/// Whether some token of `query` stands somewhere in `text`.
pub open spec fn matches_a_token(query: Seq<char>, text: Seq<char>) -> bool {
    exists|from: int, to: int| #[trigger]
        is_token(query, from, to) && is_substring(query.subrange(from, to), text)
}

/// The score that the skim matcher, as it is set up by default, gives to
/// `choice` for `pattern`; absent where it finds no match.
pub uninterp spec fn skim_score(choice: Seq<char>, pattern: Seq<char>) -> Option<i64>;

/// The lowercase form of a string by the Unicode case mapping.
pub uninterp spec fn lowercase_of(s: Seq<char>) -> Seq<char>;

/// Calls `SkimMatcherV2::fuzzy` of the crate `fuzzy_matcher` on a matcher
/// made by `SkimMatcherV2::default`, without asking for positions, and
/// passes on the score. Nothing is claimed of the score but that it depends
/// on the two strings alone.
#[verifier::external_body]
fn fuzzy_score(choice: &str, pattern: &str) -> (score: Option<i64>)
    ensures
        score == skim_score(choice@, pattern@),
{
    SkimMatcherV2::default().fuzzy(choice, pattern, false).map(|(score, _)| score)
}

/// Calls `str::to_lowercase`. Nothing is claimed of the result but that it
/// depends on the string alone.
#[verifier::external_body]
fn to_lowercase(s: &str) -> (lower: String)
    ensures
        lower@ == lowercase_of(s@),
{
    s.to_lowercase()
}

/// The characters of a string, in order.
fn chars_of(s: &str) -> (chars: Vec<char>)
    ensures
        chars@ == s@,
{
    let mut chars: Vec<char> = Vec::new();
    for c in it: s.chars()
        invariant
            it.seq() == s@,
            chars@ == it.seq().take(it.index()),
    {
        chars.push(c);
    }
    chars
}

/// Whether the characters of `query` from `from` up to `to` stand in `text`
/// at position `at`.
fn run_occurs_at(query: &Vec<char>, from: usize, to: usize, text: &Vec<char>, at: usize) -> (r:
    bool)
    requires
        from <= to <= query.len(),
        at + (to - from) <= text.len(),
    ensures
        r == occurs_at(query@.subrange(from as int, to as int), text@, at as int),
{
    let ghost needle = query@.subrange(from as int, to as int);
    let len: usize = to - from;
    let mut k: usize = 0;
    while k < len
        invariant
            from <= to <= query.len(),
            len == to - from,
            at + len <= text.len(),
            k <= len,
            needle == query@.subrange(from as int, to as int),
            forall|j: int| 0 <= j < k ==> text@[at + j] == needle[j],
        decreases len - k,
    {
        if query[from + k] != text[at + k] {
            assert(text@.subrange(at as int, at + needle.len())[k as int] != needle[k as int]);
            return false;
        }
        k += 1;
    }
    assert(text@.subrange(at as int, at + needle.len()) =~= needle);
    true
}

/// Whether the characters of `query` from `from` up to `to` stand somewhere
/// in `text`.
fn run_occurs(query: &Vec<char>, from: usize, to: usize, text: &Vec<char>) -> (r: bool)
    requires
        from <= to <= query.len(),
    ensures
        r == is_substring(query@.subrange(from as int, to as int), text@),
{
    let ghost needle = query@.subrange(from as int, to as int);
    let len: usize = to - from;
    if len > text.len() {
        return false;
    }
    let last: usize = text.len() - len;
    let mut at: usize = 0;
    loop
        invariant
            from <= to <= query.len(),
            len == to - from,
            len <= text.len(),
            last == text.len() - len,
            at <= last,
            needle == query@.subrange(from as int, to as int),
            forall|p: int| 0 <= p < at ==> !occurs_at(needle, text@, p),
        decreases last - at,
    {
        if run_occurs_at(query, from, to, text, at) {
            return true;
        }
        if at == last {
            return false;
        }
        at += 1;
    }
}

/// Whether some token of `query` stands somewhere in `text`.
pub fn token_match(query: &str, text: &str) -> (r: bool)
    ensures
        r == matches_a_token(query@, text@),
{
    let query_chars = chars_of(query);
    let text_chars = chars_of(text);
    let n: usize = query_chars.len();
    let mut from: usize = 0;
    while from < n
        invariant
            n == query_chars.len(),
            query_chars@ == query@,
            text_chars@ == text@,
            from <= n,
            from == 0 || query_chars@[from - 1] == ' ',
            forall|a: int, b: int|
                a < from && #[trigger] is_token(query@, a, b) ==> !is_substring(
                    query@.subrange(a, b),
                    text@,
                ),
        ensures
            forall|a: int, b: int| #[trigger]
                is_token(query@, a, b) ==> !is_substring(query@.subrange(a, b), text@),
        decreases n - from,
    {
        let mut to: usize = from;
        while to < n && query_chars[to] != ' '
            invariant
                n == query_chars.len(),
                from <= to <= n,
                forall|k: int| from <= k < to ==> query_chars@[k] != ' ',
            decreases n - to,
        {
            to += 1;
        }
        if to > from && run_occurs(&query_chars, from, to, &text_chars) {
            assert(is_token(query@, from as int, to as int));
            return true;
        }
        assert forall|a: int, b: int|
            a <= to && #[trigger] is_token(query@, a, b) implies !is_substring(
            query@.subrange(a, b),
            text@,
        ) by {
            if a == from {
                assert(b == to) by {
                    if b < to {
                        assert(query@[b] != ' ');
                    } else if b > to {
                        assert(query@[to as int] != ' ');
                    }
                }
            } else if a > from {
                assert(query@[a - 1] != ' ');
            }
        }
        if to == n {
            break ;
        }
        from = to + 1;
    }
    false
}

/// How the search overlay decides whether an item answers the query.
#[derive(Copy, Clone, Debug, PartialEq, Eq, Structural)]
pub enum MatchStrategy {
    /// Some space-separated token of the query stands in the item's text.
    Substring,
    /// The skim matcher finds the query in the item's text.
    Fuzzy,
}

impl MatchStrategy {
    /// Whether a text answers a query, both taken as they are.
    pub open spec fn accepts(self, text: Seq<char>, query: Seq<char>) -> bool {
        match self {
            MatchStrategy::Substring => matches_a_token(query, text),
            MatchStrategy::Fuzzy => skim_score(text, query) is Some,
        }
    }

    /// Whether an item with the given text stays in the list under the given
    /// query: every item does under an empty query, and otherwise those whose
    /// text answers the query once both are in lowercase.
    pub open spec fn keeps(self, query: Seq<char>, text: Seq<char>) -> bool {
        ||| query.len() == 0
        ||| lowercase_of(query).len() == 0
        ||| self.accepts(lowercase_of(text), lowercase_of(query))
    }

    /// Decides whether a text answers a query, both taken as they are.
    pub fn matches(&self, text: &str, query: &str) -> (r: bool)
        ensures
            r == self.accepts(text@, query@),
    {
        match self {
            MatchStrategy::Substring => token_match(query, text),
            MatchStrategy::Fuzzy => fuzzy_score(text, query).is_some(),
        }
    }
}

/// A query made ready to be held against many items.
pub struct Query {
    strategy: MatchStrategy,
    /// Whether the query keeps every item.
    keeps_all: bool,
    lowered: String,
    raw: Ghost<Seq<char>>,
}

impl Query {
    /// The strategy that the query was made with.
    pub closed spec fn strategy(self) -> MatchStrategy {
        self.strategy
    }

    /// The text of the query, as it was typed.
    pub closed spec fn text(self) -> Seq<char> {
        self.raw@
    }

    #[verifier::type_invariant]
    spec fn inv(self) -> bool {
        &&& self.lowered@ == lowercase_of(self.raw@)
        &&& self.keeps_all == (self.raw@.len() == 0 || self.lowered@.len() == 0)
    }

    /// Makes a query ready.
    pub fn new(strategy: MatchStrategy, query: &str) -> (q: Query)
        ensures
            q.strategy() == strategy,
            q.text() == query@,
    {
        let lowered = to_lowercase(query);
        let keeps_all = query.is_empty() || lowered.as_str().is_empty();
        Query { strategy, keeps_all, lowered, raw: Ghost(query@) }
    }

    /// Decides whether an item with the given text stays in the list.
    pub fn keeps(&self, text: &str) -> (r: bool)
        ensures
            r == self.strategy().keeps(self.text(), text@),
    {
        proof {
            use_type_invariant(self);
        }
        if self.keeps_all {
            true
        } else {
            let lowered_text = to_lowercase(text);
            self.strategy.matches(lowered_text.as_str(), self.lowered.as_str())
        }
    }
}

/// An item that the search overlay can hold a query against.
pub trait ItemText {
    /// The text that stands for the item.
    spec fn text(&self) -> Seq<char>;

    /// Returns the text that stands for the item.
    fn to_text(&self) -> (s: String)
        ensures
            s@ == self.text(),
    ;
}

impl ItemText for String {
    open spec fn text(&self) -> Seq<char> {
        self@
    }

    fn to_text(&self) -> (s: String) {
        self.clone()
    }
}

impl ItemText for Track {
    /// A track is searched by its name, its artists and its album.
    open spec fn text(&self) -> Seq<char> {
        self.name@ + " "@ + self.artists@ + " "@ + self.album@
    }

    fn to_text(&self) -> (s: String) {
        let mut text = self.name.clone();
        text.append(" ");
        text.append(self.artists.as_str());
        text.append(" ");
        text.append(self.album.as_str());
        text
    }
}

} // verus!
