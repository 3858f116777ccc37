//! Reading a listing page by page: the address of each page, and the
//! bookkeeping that ends the reading at the first empty page.

use vstd::prelude::*;
use vstd::string::{StrSliceExecFns, StringExecFns};
use crate::http::ErrorKind;
use crate::text::{decimal, u64_to_string};

verus! {

/// Items asked for per page.
pub const PER_PAGE: u64 = 200;

/// Characters that an address may have at most.
pub const MAX_URL_CHARS: usize = 262144;

/// Pairs that a query may have at most.
pub const MAX_QUERY_PAIRS: usize = 1024;

/// Characters that a key or a value of a query may have at most.
pub const MAX_PAIR_CHARS: usize = 16384;

/// The pairs of keys and values in the query of an address, decoded, in their
/// order: what `Url::query_pairs` of the `url` crate yields for the address
/// that `Url::parse` makes of a text. `None` where the text is no address.
pub uninterp spec fn query_pairs_of(url: Seq<char>) -> Option<Seq<(Seq<char>, Seq<char>)>>;

/// The address that results when the query of an address is replaced by the
/// given pairs: what `Url::parse` followed by
/// `query_pairs_mut().clear().extend_pairs(..)` of the `url` crate turns a
/// text into. `None` where the text is no address.
pub uninterp spec fn with_query(url: Seq<char>, pairs: Seq<(Seq<char>, Seq<char>)>) -> Option<
    Seq<char>,
>;

/// `Url::parse` and `Url::query_pairs` of the `url` crate: the decoded pairs of
/// the query, or `None` where the text does not parse as an address.
#[verifier::external_body]
fn query_pairs(url: &str) -> (pairs: Option<Vec<(String, String)>>)
    ensures
        pairs.deep_view() == query_pairs_of(url@),
{
    match url::Url::parse(url) {
        Ok(parsed) => Some(parsed.query_pairs().into_owned().collect()),
        Err(_) => None,
    }
}

/// `Url::parse` and `Url::query_pairs_mut` of the `url` crate: the address
/// with its query replaced by `pairs`, encoded as a form, or `None` where the
/// text does not parse as an address. The text parses here exactly where it
/// parses for [`query_pairs`].
///
/// The crate keeps positions in 32 bits and stops the process on an address
/// that outgrows them. A character takes at most four bytes and encoding at
/// most triples them, so the bounds asked for keep the result far below that
/// size.
#[verifier::external_body]
fn replace_query(url: &str, pairs: &Vec<(String, String)>) -> (replaced: Option<String>)
    requires
        url@.len() <= MAX_URL_CHARS,
        pairs.len() <= MAX_QUERY_PAIRS,
        forall|i: int|
            0 <= i < pairs.len() ==> (#[trigger] pairs[i]).0@.len() <= MAX_PAIR_CHARS
                && pairs[i].1@.len() <= MAX_PAIR_CHARS,
    ensures
        replaced.deep_view() == with_query(url@, pairs.deep_view()),
        replaced.is_some() == query_pairs_of(url@).is_some(),
{
    match url::Url::parse(url) {
        Ok(mut parsed) => {
            parsed.query_pairs_mut().clear().extend_pairs(pairs.iter());
            Some(parsed.to_string())
        },
        Err(_) => None,
    }
}

/// Whether a key of a query chooses the page or its size.
pub open spec fn paging_key(key: Seq<char>) -> bool {
    key == "page"@ || key == "per_page"@
}

/// The test that a pair passes unless it chooses the page or its size.
pub open spec fn not_paging() -> spec_fn((Seq<char>, Seq<char>)) -> bool {
    |pair: (Seq<char>, Seq<char>)| !paging_key(pair.0)
}

/// The pairs of a query without those that choose the page or its size.
pub open spec fn without_paging(pairs: Seq<(Seq<char>, Seq<char>)>) -> Seq<(Seq<char>, Seq<char>)> {
    pairs.filter(not_paging())
}

/// The query of a page: what the address asked for besides paging, then the
/// page's size, then its number.
pub open spec fn page_query(pairs: Seq<(Seq<char>, Seq<char>)>, per_page: u64, page: u64) -> Seq<
    (Seq<char>, Seq<char>),
> {
    without_paging(pairs).push(("per_page"@, decimal(per_page as nat))).push(
        ("page"@, decimal(page as nat)),
    )
}

/// Whether a key and its value are short enough to be written into an
/// address.
pub open spec fn pair_fits(pair: (Seq<char>, Seq<char>)) -> bool {
    pair.0.len() <= MAX_PAIR_CHARS && pair.1.len() <= MAX_PAIR_CHARS
}

/// Whether a query is small enough for two more pairs to be added and the
/// whole to be written into an address.
pub open spec fn query_fits(pairs: Seq<(Seq<char>, Seq<char>)>) -> bool {
    &&& pairs.len() + 2 <= MAX_QUERY_PAIRS
    &&& forall|i: int| 0 <= i < pairs.len() ==> pair_fits(#[trigger] pairs[i])
}

/// Whether pages of a listing have addresses: the text is an address of no
/// more than `MAX_URL_CHARS` characters whose query is small enough.
pub open spec fn page_exists(base_url: Seq<char>) -> bool {
    &&& base_url.len() <= MAX_URL_CHARS
    &&& query_pairs_of(base_url) matches Some(pairs)
    &&& query_fits(pairs)
}

/// The address of a page, where it can be written: the text is an address of
/// no more than `MAX_URL_CHARS` characters whose query is small enough.
pub open spec fn page_address(base_url: Seq<char>, per_page: u64, page: u64) -> Option<Seq<char>> {
    if base_url.len() <= MAX_URL_CHARS {
        match query_pairs_of(base_url) {
            Some(pairs) => if query_fits(pairs) {
                with_query(base_url, page_query(pairs, per_page, page))
            } else {
                None
            },
            None => None,
        }
    } else {
        None
    }
}

/// Ten to the power of `digits`.
pub open spec fn pow10(digits: nat) -> nat
    decreases digits,
{
    if digits == 0 {
        1
    } else {
        10 * pow10((digits - 1) as nat)
    }
}

/// A number below ten to the power of `digits` has at most `digits` digits.
proof fn lemma_decimal_len(n: nat, digits: nat)
    requires
        digits >= 1,
        n < pow10(digits),
    ensures
        decimal(n).len() <= digits,
    decreases digits,
{
    reveal_with_fuel(pow10, 2);
    if n >= 10 {
        lemma_decimal_len(n / 10, (digits - 1) as nat);
    }
}

/// A number of 64 bits has at most twenty digits.
proof fn lemma_decimal_is_short(n: u64)
    ensures
        decimal(n as nat).len() <= 20,
{
    assert(pow10(20) == 100000000000000000000nat) by {
        reveal_with_fuel(pow10, 21);
    }
    lemma_decimal_len(n as nat, 20);
}

fn is_paging_key(key: &str) -> (paging: bool)
    ensures
        paging == paging_key(key@),
{
    *key == *"page" || *key == *"per_page"
}

/// Whether every pair is short enough and two more can be added.
fn fits(pairs: &Vec<(String, String)>) -> (fitting: bool)
    ensures
        fitting == query_fits(pairs.deep_view()),
{
    if pairs.len() > MAX_QUERY_PAIRS - 2 {
        return false;
    }
    let ghost all = pairs.deep_view();
    let mut i: usize = 0;
    while i < pairs.len()
        invariant
            i <= pairs.len(),
            all == pairs.deep_view(),
            forall|j: int| 0 <= j < i ==> pair_fits(#[trigger] all[j]),
        decreases pairs.len() - i,
    {
        assert(all[i as int] == (pairs[i as int].0@, pairs[i as int].1@));
        if pairs[i].0.as_str().unicode_len() > MAX_PAIR_CHARS
            || pairs[i].1.as_str().unicode_len() > MAX_PAIR_CHARS {
            assert(!pair_fits(all[i as int]));
            return false;
        }
        i = i + 1;
    }
    true
}

/// The pairs that do not choose the page or its size, in their order.
pub fn strip_paging(pairs: &Vec<(String, String)>) -> (kept: Vec<(String, String)>)
    ensures
        kept.deep_view() == without_paging(pairs.deep_view()),
        kept.len() <= pairs.len(),
        query_fits(pairs.deep_view()) ==> forall|j: int|
            0 <= j < kept.len() ==> pair_fits(#[trigger] kept.deep_view()[j]),
{
    let ghost all = pairs.deep_view();
    let mut kept: Vec<(String, String)> = Vec::new();
    let mut i: usize = 0;
    proof {
        reveal(Seq::filter);
        assert(all.take(0) =~= Seq::empty());
        assert(kept.deep_view() =~= without_paging(all.take(0)));
    }
    while i < pairs.len()
        invariant
            i <= pairs.len(),
            all == pairs.deep_view(),
            kept.deep_view() == without_paging(all.take(i as int)),
            kept.len() <= i,
            query_fits(all) ==> forall|j: int|
                0 <= j < kept.len() ==> pair_fits(#[trigger] kept.deep_view()[j]),
        decreases pairs.len() - i,
    {
        let ghost before = all.take(i as int);
        let ghost pair = all[i as int];
        let ghost earlier = kept.deep_view();
        proof {
            assert(all.take(i + 1) =~= before.push(pair));
            before.lemma_filter_push(pair, not_paging());
            assert(pair == (pairs[i as int].0@, pairs[i as int].1@));
        }
        if !is_paging_key(pairs[i].0.as_str()) {
            kept.push((pairs[i].0.clone(), pairs[i].1.clone()));
            proof {
                assert(kept.deep_view() =~= earlier.push(pair));
                if query_fits(all) {
                    assert forall|j: int| 0 <= j < kept.len() implies pair_fits(
                        #[trigger] kept.deep_view()[j],
                    ) by {
                        if j < earlier.len() {
                            assert(kept.deep_view()[j] == earlier[j]);
                        } else {
                            assert(kept.deep_view()[j] == all[i as int]);
                        }
                    }
                }
            }
        }
        i = i + 1;
    }
    proof {
        assert(all.take(pairs.len() as int) =~= all);
    }
    kept
}

/// The query of a page: the pairs of `pairs` that do not choose the page or
/// its size, then the page's size and its number.
pub fn page_pairs(pairs: &Vec<(String, String)>, per_page: u64, page: u64) -> (query: Vec<
    (String, String),
>)
    ensures
        query.deep_view() == page_query(pairs.deep_view(), per_page, page),
        query_fits(pairs.deep_view()) ==> forall|j: int|
            0 <= j < query.len() - 2 ==> pair_fits(#[trigger] query.deep_view()[j]),
{
    let mut query = strip_paging(pairs);
    let ghost stripped = query.deep_view();
    query.push((String::from_str("per_page"), u64_to_string(per_page)));
    let ghost sized = query.deep_view();
    query.push((String::from_str("page"), u64_to_string(page)));
    proof {
        assert(sized =~= stripped.push(("per_page"@, decimal(per_page as nat))));
        assert(query.deep_view() =~= page_query(pairs.deep_view(), per_page, page));
        if query_fits(pairs.deep_view()) {
            assert forall|j: int| 0 <= j < query.len() - 2 implies pair_fits(
                #[trigger] query.deep_view()[j],
            ) by {
                assert(query.deep_view()[j] == stripped[j]);
            }
        }
    }
    query
}

/// The address of page number `page` of the listing at `base_url`, with
/// `per_page` items to the page.
///
/// Whatever `base_url` says about paging is dropped; the rest of its query is
/// kept in front. `None` where `base_url` is no address, or is too long or
/// asks for too much to be written down again.
pub fn page_url(base_url: &str, per_page: u64, page: u64) -> (url: Option<String>)
    ensures
        url.deep_view() == page_address(base_url@, per_page, page),
        url.is_some() == page_exists(base_url@),
{
    if base_url.unicode_len() > MAX_URL_CHARS {
        return None;
    }
    let pairs = match query_pairs(base_url) {
        Some(pairs) => pairs,
        None => {
            return None;
        },
    };
    if !fits(&pairs) {
        return None;
    }
    let ghost stripped = without_paging(pairs.deep_view());
    proof {
        pairs.deep_view().lemma_filter_len(not_paging());
    }
    let kept = page_pairs(&pairs, per_page, page);
    proof {
        lemma_decimal_is_short(per_page);
        lemma_decimal_is_short(page);
        reveal_strlit("per_page");
        reveal_strlit("page");
        let query = page_query(pairs.deep_view(), per_page, page);
        assert(kept.deep_view().len() == kept.len());
        assert(query.len() == stripped.len() + 2);
        assert(query[stripped.len() as int] == ("per_page"@, decimal(per_page as nat)));
        assert(query[stripped.len() as int + 1] == ("page"@, decimal(page as nat)));
        assert forall|j: int| 0 <= j < kept.len() implies (#[trigger] kept[j]).0@.len()
            <= MAX_PAIR_CHARS && kept[j].1@.len() <= MAX_PAIR_CHARS by {
            assert(kept.deep_view()[j] == (kept[j].0@, kept[j].1@));
            if j < kept.len() - 2 {
                assert(pair_fits(kept.deep_view()[j]));
            }
        }
    }
    replace_query(base_url, &kept)
}

/// The number of the first page.
pub const FIRST_PAGE: u64 = 1;

/// The reading of one listing: the page that is due and what was read so far.
#[derive(Debug)]
pub struct Paginator<T> {
    page: u64,
    items: Vec<T>,
    done: bool,
    failure: Option<ErrorKind>,
}

/// Where a reading stands.
pub struct Reading<T> {
    /// The number of the page that is due, while the reading goes on.
    pub page: nat,
    /// What the pages read so far held, in their order; nothing once the
    /// reading has failed.
    pub items: Seq<T>,
    /// Whether the reading is over.
    pub done: bool,
    /// Why the reading failed, where it did.
    pub failure: Option<ErrorKind>,
}

/// A reading before its first page.
pub open spec fn reading_start<T>() -> Reading<T> {
    Reading { page: FIRST_PAGE as nat, items: Seq::empty(), done: false, failure: None }
}

/// A reading after one more page arrived.
///
/// An empty page ends the reading. Any other page is added behind what was
/// read, and the next page is due; page numbers end at `u64::MAX`, and with
/// them the reading. A reading that is over stays as it is.
pub open spec fn reading_after<T>(reading: Reading<T>, page_items: Seq<T>) -> Reading<T> {
    if reading.done {
        reading
    } else if page_items.len() == 0 {
        Reading { done: true, ..reading }
    } else if reading.page >= u64::MAX {
        Reading { items: reading.items + page_items, done: true, ..reading }
    } else {
        Reading { page: reading.page + 1, items: reading.items + page_items, ..reading }
    }
}

/// A reading after the request for the page that was due came to an end.
///
/// A page that arrived is taken as [`reading_after`] says. A request that
/// failed ends the reading with its error, and what was read before is
/// dropped: a listing is had whole or not at all. A reading that is over
/// stays as it is.
pub open spec fn reading_step<T>(reading: Reading<T>, page: Result<Seq<T>, ErrorKind>) -> Reading<
    T,
> {
    match page {
        Ok(page_items) => reading_after(reading, page_items),
        Err(error) => if reading.done {
            reading
        } else {
            Reading { items: Seq::empty(), done: true, failure: Some(error), ..reading }
        },
    }
}

/// What a reading yields: everything that was read, or the error that ended
/// it.
pub open spec fn reading_outcome<T>(reading: Reading<T>) -> Result<Seq<T>, ErrorKind> {
    match reading.failure {
        Some(error) => Err(error),
        None => Ok(reading.items),
    }
}

/// A page's outcome with its items as a sequence.
pub open spec fn page_view<T>(page: Result<Vec<T>, ErrorKind>) -> Result<Seq<T>, ErrorKind> {
    match page {
        Ok(page_items) => Ok(page_items@),
        Err(error) => Err(error),
    }
}

/// A reading after the pages of `pages` arrived in turn.
pub open spec fn reading_of<T>(reading: Reading<T>, pages: Seq<Seq<T>>) -> Reading<T>
    decreases pages.len(),
{
    if pages.len() == 0 {
        reading
    } else {
        reading_of(reading_after(reading, pages[0]), pages.drop_first())
    }
}

/// The items of the first `count` pages, one page after the other.
pub open spec fn concat_pages<T>(pages: Seq<Seq<T>>, count: nat) -> Seq<T>
    decreases count,
{
    if count == 0 || count > pages.len() {
        Seq::empty()
    } else {
        concat_pages(pages, (count - 1) as nat) + pages[count as int - 1]
    }
}

impl<T> View for Paginator<T> {
    type V = Reading<T>;

    closed spec fn view(&self) -> Reading<T> {
        Reading {
            page: self.page as nat,
            items: self.items@,
            done: self.done,
            failure: self.failure,
        }
    }
}

impl<T> Paginator<T> {
    /// A reading that is about to ask for the first page.
    pub fn new() -> (paginator: Paginator<T>)
        ensures
            paginator@ == reading_start::<T>(),
    {
        Paginator { page: FIRST_PAGE, items: Vec::new(), done: false, failure: None }
    }

    /// The number of the page to ask for, or `None` once the reading is over.
    pub fn next_page(&self) -> (page: Option<u64>)
        ensures
            page == if self@.done {
                None
            } else {
                Some(self@.page as u64)
            },
    {
        if self.done {
            None
        } else {
            Some(self.page)
        }
    }

    /// The address to ask for the page that is due, with `PER_PAGE` items to
    /// the page; `None` once the reading is over.
    ///
    /// Where `base_url` has no pages the reading ends here with `InvalidUrl`,
    /// and nothing is to be sent.
    pub fn next_url(&mut self, base_url: &str) -> (url: Option<String>)
        ensures
            url.deep_view() == if old(self)@.done {
                None
            } else {
                page_address(base_url@, PER_PAGE, old(self)@.page as u64)
            },
            final(self)@ == if old(self)@.done || page_exists(base_url@) {
                old(self)@
            } else {
                reading_step(old(self)@, Err(ErrorKind::InvalidUrl))
            },
    {
        if self.done {
            return None;
        }
        match page_url(base_url, PER_PAGE, self.page) {
            Some(url) => Some(url),
            None => {
                self.on_page(Err(ErrorKind::InvalidUrl));
                None
            },
        }
    }

    /// Takes what the request for the page that was due came to: the items
    /// of the page, or the reason why there are none.
    pub fn on_page(&mut self, page: Result<Vec<T>, ErrorKind>)
        ensures
            final(self)@ == reading_step(old(self)@, page_view(page)),
    {
        if self.done {
            return ;
        }
        match page {
            Err(error) => {
                self.items = Vec::new();
                self.done = true;
                self.failure = Some(error);
            },
            Ok(page_items) => {
                if page_items.len() == 0 {
                    self.done = true;
                    return ;
                }
                let mut page_items = page_items;
                self.items.append(&mut page_items);
                if self.page == u64::MAX {
                    self.done = true;
                } else {
                    self.page = self.page + 1;
                }
            },
        }
    }

    /// What the reading yields: everything that was read, in the order in
    /// which it arrived, or the error that ended the reading.
    pub fn into_items(self) -> (items: Result<Vec<T>, ErrorKind>)
        ensures
            page_view(items) == reading_outcome(self@),
    {
        match self.failure {
            Some(error) => Err(error),
            None => Ok(self.items),
        }
    }
}

/// A listing whose first `full` pages hold something and whose next page is
/// empty is read with `full + 1` requests, numbered from 1 in steps of 1, and
/// yields the items of the `full` pages, one page after the other.
pub proof fn lemma_reading_ends_at_first_empty_page<T>(pages: Seq<Seq<T>>, full: nat)
    requires
        full < pages.len(),
        full < u64::MAX,
        forall|i: int| 0 <= i < full ==> (#[trigger] pages[i]).len() > 0,
        pages[full as int].len() == 0,
    ensures
        forall|sent: nat|
            sent <= full ==> {
                let reading = #[trigger] reading_of(reading_start::<T>(), pages.take(sent as int));
                &&& !reading.done
                &&& reading.page == sent + 1
                &&& reading.items == concat_pages(pages, sent)
            },
        reading_of(reading_start::<T>(), pages.take(full as int + 1)).done,
        reading_of(reading_start::<T>(), pages.take(full as int + 1)).items == concat_pages(pages, full),
        reading_of(reading_start::<T>(), pages).done,
        reading_of(reading_start::<T>(), pages).items == concat_pages(pages, full),
        reading_outcome(reading_of(reading_start::<T>(), pages)) == Ok::<Seq<T>, ErrorKind>(
            concat_pages(pages, full),
        ),
{
    assert forall|sent: nat| sent <= full implies {
        let reading = #[trigger] reading_of(reading_start::<T>(), pages.take(sent as int));
        &&& !reading.done
        &&& reading.page == sent + 1
        &&& reading.items == concat_pages(pages, sent)
    } by {
        lemma_reading_of_full_pages(pages, sent);
    }
    lemma_reading_of_full_pages(pages, full);
    lemma_reading_snoc(reading_start::<T>(), pages.take(full as int), pages[full as int]);
    assert(pages.take(full as int + 1) =~= pages.take(full as int).push(pages[full as int]));
    lemma_reading_split(reading_start::<T>(), pages.take(full as int + 1), pages.skip(full as int + 1));
    assert(pages.take(full as int + 1) + pages.skip(full as int + 1) =~= pages);
    lemma_done_stays(reading_of(reading_start::<T>(), pages.take(full as int + 1)), pages.skip(full as int + 1));
}

/// A failed page ends the reading with its error, and nothing of what was
/// read is handed out.
///
/// Where the first `full` pages hold something and the request for the next
/// one fails, that request was the one for page `full + 1`, the reading is
/// over, it yields the error, and whatever arrives afterwards changes
/// nothing.
pub proof fn lemma_failed_page_ends_reading<T>(
    pages: Seq<Seq<T>>,
    full: nat,
    error: ErrorKind,
    later: Result<Seq<T>, ErrorKind>,
)
    requires
        full <= pages.len(),
        full < u64::MAX,
        forall|i: int| 0 <= i < full ==> (#[trigger] pages[i]).len() > 0,
    ensures
        ({
            let before = reading_of(reading_start::<T>(), pages.take(full as int));
            let failed = reading_step(before, Err(error));
            &&& !before.done
            &&& before.page == full + 1
            &&& failed.done
            &&& reading_outcome(failed) == Err::<Seq<T>, ErrorKind>(error)
            &&& reading_step(failed, later) == failed
        }),
{
    lemma_reading_of_full_pages(pages, full);
}

/// One more page at the end is one more step.
proof fn lemma_reading_snoc<T>(reading: Reading<T>, pages: Seq<Seq<T>>, last: Seq<T>)
    ensures
        reading_of(reading, pages.push(last)) == reading_after(reading_of(reading, pages), last),
    decreases pages.len(),
{
    if pages.len() == 0 {
        assert(pages.push(last).drop_first() =~= Seq::<Seq<T>>::empty());
        assert(reading_of(reading_after(reading, last), Seq::<Seq<T>>::empty()) == reading_after(
            reading,
            last,
        ));
    } else {
        assert(pages.push(last).drop_first() =~= pages.drop_first().push(last));
        lemma_reading_snoc(reading_after(reading, pages[0]), pages.drop_first(), last);
    }
}

/// Reading two runs of pages in turn is reading all of them.
proof fn lemma_reading_split<T>(reading: Reading<T>, first: Seq<Seq<T>>, second: Seq<Seq<T>>)
    ensures
        reading_of(reading, first + second) == reading_of(reading_of(reading, first), second),
    decreases first.len(),
{
    if first.len() == 0 {
        assert(first + second =~= second);
    } else {
        assert((first + second).drop_first() =~= first.drop_first() + second);
        lemma_reading_split(reading_after(reading, first[0]), first.drop_first(), second);
    }
}

/// A reading that is over ignores what arrives.
proof fn lemma_done_stays<T>(reading: Reading<T>, pages: Seq<Seq<T>>)
    requires
        reading.done,
    ensures
        reading_of(reading, pages) == reading,
    decreases pages.len(),
{
    if pages.len() > 0 {
        lemma_done_stays(reading, pages.drop_first());
    }
}

/// While pages hold something the reading goes on and gathers them.
proof fn lemma_reading_of_full_pages<T>(pages: Seq<Seq<T>>, sent: nat)
    requires
        sent <= pages.len(),
        sent < u64::MAX,
        forall|i: int| 0 <= i < sent ==> (#[trigger] pages[i]).len() > 0,
    ensures
        !reading_of(reading_start::<T>(), pages.take(sent as int)).done,
        reading_of(reading_start::<T>(), pages.take(sent as int)).failure.is_none(),
        reading_of(reading_start::<T>(), pages.take(sent as int)).page == sent + 1,
        reading_of(reading_start::<T>(), pages.take(sent as int)).items == concat_pages(
            pages,
            sent,
        ),
    decreases sent,
{
    if sent == 0 {
        assert(pages.take(0) =~= Seq::<Seq<T>>::empty());
    } else {
        lemma_reading_of_full_pages(pages, (sent - 1) as nat);
        assert(pages.take(sent as int) =~= pages.take(sent as int - 1).push(pages[sent as int - 1]));
        lemma_reading_snoc(reading_start::<T>(), pages.take(sent as int - 1), pages[sent as int - 1]);
    }
}

} // verus!
