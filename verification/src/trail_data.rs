//! Finding the trail systems in the page that lists them: they stand as JSON
//! between a fixed opening and a fixed closing text.

use vstd::prelude::*;
use crate::cache::{CacheEntry, Instant, ResponseCache};
use crate::text::push_char;

verus! {

/// The text after which the trail systems begin.
pub const START_TAG: &'static str = "var trail_systems = ";

/// The text at which the trail systems end.
pub const END_TAG: &'static str = ";</script>";

/// Whether `pattern` stands in `text` at position `at`.
pub open spec fn occurs_at(text: Seq<char>, pattern: Seq<char>, at: int) -> bool {
    &&& 0 <= at
    &&& at + pattern.len() <= text.len()
    &&& text.subrange(at, at + pattern.len()) == pattern
}

/// The first position at or after `from` at which `pattern` stands in `text`.
pub open spec fn first_occurrence(text: Seq<char>, pattern: Seq<char>, from: int) -> Option<int>
    decreases text.len() as int - from + 1,
{
    if from < 0 || from + pattern.len() as int > text.len() as int {
        None
    } else if occurs_at(text, pattern, from) {
        Some(from)
    } else {
        first_occurrence(text, pattern, from + 1)
    }
}

/// Why a page yields no trail systems.
#[derive(Clone, Copy, Debug, PartialEq, Eq, Structural)]
pub enum ExtractError {
    StartTagNotFound,
    EndTagNotFound,
}

/// What stands between the first `start` and the first `end` after it.
pub open spec fn between(text: Seq<char>, start: Seq<char>, end: Seq<char>) -> Result<
    Seq<char>,
    ExtractError,
> {
    match first_occurrence(text, start, 0) {
        None => Err(ExtractError::StartTagNotFound),
        Some(opened) => match first_occurrence(text, end, opened + start.len()) {
            None => Err(ExtractError::EndTagNotFound),
            Some(closed) => Ok(text.subrange(opened + start.len(), closed)),
        },
    }
}

/// The characters of a text, one by one.
pub fn chars_of(text: &str) -> (chars: Vec<char>)
    ensures
        chars@ == text@,
{
    let mut chars: Vec<char> = Vec::new();
    for c in it: text.chars()
        invariant
            it.seq() == text@,
            chars@ == text@.take(it.index() as int),
    {
        chars.push(c);
        assert(chars@ =~= text@.take(it.index() + 1));
    }
    assert(text@.take(text@.len() as int) =~= text@);
    chars
}

fn matches_at(text: &Vec<char>, pattern: &Vec<char>, at: usize) -> (found: bool)
    requires
        at + pattern.len() <= text.len(),
    ensures
        found == occurs_at(text@, pattern@, at as int),
{
    let mut i: usize = 0;
    while i < pattern.len()
        invariant
            i <= pattern.len(),
            at + pattern.len() <= text.len(),
            text@.subrange(at as int, at + i) == pattern@.take(i as int),
        decreases pattern.len() - i,
    {
        if text[at + i] != pattern[i] {
            assert(text@.subrange(at as int, at + pattern.len())[i as int] != pattern@[i as int]);
            return false;
        }
        i = i + 1;
        assert(text@.subrange(at as int, at + i) =~= pattern@.take(i as int));
    }
    assert(pattern@.take(pattern.len() as int) =~= pattern@);
    true
}

/// Finds the first position at or after `from` at which `pattern` stands in
/// `text`.
pub fn find(text: &Vec<char>, pattern: &Vec<char>, from: usize) -> (at: Option<usize>)
    ensures
        match at {
            Some(at) => first_occurrence(text@, pattern@, from as int) == Some(at as int),
            None => first_occurrence(text@, pattern@, from as int).is_none(),
        },
{
    if pattern.len() > text.len() || from > text.len() - pattern.len() {
        return None;
    }
    let last: usize = text.len() - pattern.len();
    let mut at: usize = from;
    loop
        invariant
            from <= at <= last,
            last == text.len() - pattern.len(),
            first_occurrence(text@, pattern@, at as int) == first_occurrence(
                text@,
                pattern@,
                from as int,
            ),
        decreases last - at,
    {
        if matches_at(text, pattern, at) {
            return Some(at);
        }
        if at == last {
            assert(first_occurrence(text@, pattern@, at + 1).is_none());
            return None;
        }
        at = at + 1;
    }
}

/// Cuts the trail systems out of the page that lists them: what stands
/// between the first `START_TAG` and the first `END_TAG` after it.
pub fn extract_trail_data(html: &str) -> (json: Result<String, ExtractError>)
    ensures
        match json {
            Ok(found) => between(html@, START_TAG@, END_TAG@) == Ok::<Seq<char>, ExtractError>(
                found@,
            ),
            Err(error) => between(html@, START_TAG@, END_TAG@) == Err::<Seq<char>, ExtractError>(
                error,
            ),
        },
{
    let text = chars_of(html);
    let start_tag = chars_of(START_TAG);
    let end_tag = chars_of(END_TAG);
    let opened = match find(&text, &start_tag, 0) {
        Some(opened) => opened,
        None => {
            return Err(ExtractError::StartTagNotFound);
        },
    };
    proof {
        lemma_occurrence_fits(text@, start_tag@, 0, opened as int);
        assert(occurs_at(text@, start_tag@, opened as int));
        assert(opened + start_tag@.len() <= text@.len());
    }
    let total: usize = text.len();
    assert(opened + start_tag@.len() <= total);
    let start: usize = opened + start_tag.len();
    let closed = match find(&text, &end_tag, start) {
        Some(closed) => closed,
        None => {
            return Err(ExtractError::EndTagNotFound);
        },
    };
    proof {
        lemma_occurrence_fits(text@, end_tag@, start as int, closed as int);
    }
    let mut json = String::new();
    let mut i: usize = start;
    while i < closed
        invariant
            start <= i <= closed <= text.len(),
            json@ == text@.subrange(start as int, i as int),
        decreases closed - i,
    {
        push_char(&mut json, text[i]);
        i = i + 1;
        assert(json@ =~= text@.subrange(start as int, i as int));
    }
    Ok(json)
}

/// A first occurrence lies at or after the place where the search began, and
/// the pattern stands there within the text.
pub proof fn lemma_occurrence_fits(text: Seq<char>, pattern: Seq<char>, from: int, at: int)
    requires
        first_occurrence(text, pattern, from) == Some(at),
    ensures
        from <= at,
        occurs_at(text, pattern, at),
        forall|earlier: int| from <= earlier < at ==> !occurs_at(text, pattern, earlier),
    decreases text.len() as int - from + 1,
{
    if from < 0 || from + pattern.len() as int > text.len() as int {
    } else if occurs_at(text, pattern, from) {
    } else {
        lemma_occurrence_fits(text, pattern, from + 1, at);
    }
}

/// What to do to have the trail systems.
#[derive(Debug)]
pub enum TrailDataStep<'a, T> {
    /// The list was fetched less than five minutes ago: use it.
    Cached(&'a Vec<T>),
    /// The list is stale: fetch it, then call [`TrailDataCache::refreshed`].
    Refresh,
    /// There is no list: fetch it, then call [`TrailDataCache::fetched`].
    Fetch,
}

/// The trail systems as last fetched.
#[derive(Debug)]
pub struct TrailDataCache<T> {
    trail_data: ResponseCache<Vec<T>>,
}

impl<T> TrailDataCache<T> {
    /// The list that is kept and the moment it was fetched.
    pub closed spec fn kept(self) -> ResponseCache<Vec<T>> {
        self.trail_data
    }

    /// A cache that holds no list yet.
    pub fn new() -> (cache: TrailDataCache<T>)
        ensures
            cache.kept().entry().is_none(),
    {
        TrailDataCache { trail_data: ResponseCache::new() }
    }

    /// Says how the trail systems are to be had at `now`.
    pub fn get_data(&self, now: Instant) -> (step: TrailDataStep<'_, T>)
        ensures
            match step {
                TrailDataStep::Cached(list) => self.kept().lookup(now) == Some(*list),
                TrailDataStep::Refresh => self.kept().entry().is_some() && self.kept().lookup(
                    now,
                ).is_none(),
                TrailDataStep::Fetch => self.kept().entry().is_none(),
            },
    {
        match self.trail_data.get(now) {
            Some(list) => TrailDataStep::Cached(list),
            None => if self.trail_data.is_empty() {
                TrailDataStep::Fetch
            } else {
                TrailDataStep::Refresh
            },
        }
    }

    /// Takes what a refresh of a stale list brought at `now`. A list that
    /// holds something replaces the stale one, stamped with `now`, and is
    /// handed back. An empty
    /// one, which a failed fetch counts as, changes nothing and hands back
    /// `None`: the caller fetches once more and calls
    /// [`TrailDataCache::fetched`].
    pub fn refreshed(&mut self, fetched: Vec<T>, now: Instant) -> (stored: Option<&Vec<T>>)
        ensures
            fetched@.len() > 0 ==> stored == Some(&fetched) && final(self).kept().entry() == Some(
                CacheEntry { value: fetched, fetched_at: now },
            ),
            fetched@.len() == 0 ==> stored.is_none() && final(self).kept() == old(self).kept(),
    {
        if fetched.len() == 0 {
            None
        } else {
            Some(self.trail_data.put(fetched, now))
        }
    }

    /// Takes what a fetch brought at `now`, empty or not: it becomes the list
    /// that is kept, stamped with `now`, and is handed back.
    pub fn fetched(&mut self, fetched: Vec<T>, now: Instant) -> (stored: &Vec<T>)
        ensures
            *stored == fetched,
            final(self).kept().entry() == Some(CacheEntry { value: fetched, fetched_at: now }),
    {
        self.trail_data.put(fetched, now)
    }
}

} // verus!
