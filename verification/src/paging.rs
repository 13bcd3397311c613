//! Offset pagination: the structured listing query, the window it resolves
//! to, and the offsets of the neighbouring pages.

use vstd::prelude::*;
use crate::decimal::{decimal_digits, format_u64, parse_u64, parsed_u64};
use crate::error::JobError;
use crate::foreign::pair_views;

verus! {

/// A name/value pair of a query string, as text.
pub type PairModel = (Seq<char>, Seq<char>);

/// The mathematical content of a [`PageQuery`].
pub struct PageQueryModel {
    pub limit: Option<u64>,
    pub offset: Option<u64>,
    pub extra: Seq<PairModel>,
}

/// A listing request: an optional page size, an optional offset, and the
/// other parameters of the request, which the navigation links carry along.
pub struct PageQuery {
    pub limit: Option<u64>,
    pub offset: Option<u64>,
    pub extra: Vec<(String, String)>,
}

impl View for PageQuery {
    type V = PageQueryModel;

    open spec fn view(&self) -> PageQueryModel {
        PageQueryModel { limit: self.limit, offset: self.offset, extra: pair_views(self.extra@) }
    }
}

/// The test for the pairs that carry a given name.
pub open spec fn named(name: Seq<char>) -> spec_fn(PairModel) -> bool {
    |p: PairModel| p.0 == name
}

/// The test for the pairs that are neither `limit` nor `offset`.
pub open spec fn unrelated() -> spec_fn(PairModel) -> bool {
    |p: PairModel| !is_paging_name(p.0)
}

/// The values given for a name, in the order in which they stand.
pub open spec fn values_of(pairs: Seq<PairModel>, name: Seq<char>) -> Seq<Seq<char>> {
    pairs.filter(named(name)).map_values(|p: PairModel| p.1)
}

pub open spec fn is_paging_name(name: Seq<char>) -> bool {
    name == "limit"@ || name == "offset"@
}

/// The pairs that are neither `limit` nor `offset`.
pub open spec fn other_pairs(pairs: Seq<PairModel>) -> Seq<PairModel> {
    pairs.filter(unrelated())
}

/// What the pairs say of a numeric parameter: absent (`Some(None)`), given
/// once as a decimal numeral (`Some(Some(v))`), or unusable (`None`) where
/// it is repeated or is no numeral that fits a `u64`.
pub open spec fn number_of(pairs: Seq<PairModel>, name: Seq<char>) -> Option<Option<u64>> {
    let given = values_of(pairs, name);
    if given.len() == 0 {
        Some(None)
    } else if given.len() == 1 && parsed_u64(given[0]) is Some {
        Some(parsed_u64(given[0]))
    } else {
        None
    }
}

/// What the pairs say of a parameter that may be given once: absent
/// (`Some(None)`), given once (`Some(Some(v))`), or repeated (`None`).
pub open spec fn single_of(pairs: Seq<PairModel>, name: Seq<char>) -> Option<Option<Seq<char>>> {
    let given = values_of(pairs, name);
    if given.len() == 0 {
        Some(None)
    } else if given.len() == 1 {
        Some(Some(given[0]))
    } else {
        None
    }
}

/// The listing query that a list of pairs denotes, if any: `limit` and
/// `offset` each at most once and numeric, `limit` positive.
pub open spec fn query_of(pairs: Seq<PairModel>) -> Option<PageQueryModel> {
    match (number_of(pairs, "limit"@), number_of(pairs, "offset"@)) {
        (Some(limit), Some(offset)) => if limit == Some(0u64) {
            None
        } else {
            Some(PageQueryModel { limit, offset, extra: other_pairs(pairs) })
        },
        _ => None,
    }
}

/// The pairs that a listing query is written as: `limit`, then `offset`,
/// each where present, then the other parameters in their order.
pub open spec fn pairs_of(q: PageQueryModel) -> Seq<PairModel> {
    let limit = match q.limit {
        Some(l) => seq![("limit"@, decimal_digits(l as nat))],
        None => Seq::<PairModel>::empty(),
    };
    let offset = match q.offset {
        Some(o) => seq![("offset"@, decimal_digits(o as nat))],
        None => Seq::<PairModel>::empty(),
    };
    limit + offset + q.extra
}

impl PageQueryModel {
    /// The same query at another offset.
    pub open spec fn at_offset(self, offset: u64) -> PageQueryModel {
        PageQueryModel { offset: Some(offset), ..self }
    }

    /// Whether `extra` holds no `limit` and no `offset` of its own.
    pub open spec fn tidy(self) -> bool {
        forall|i: int| 0 <= i < self.extra.len() ==> !is_paging_name(#[trigger] self.extra[i].0)
    }
}

proof fn filter_prefix<A>(s: Seq<A>, pred: spec_fn(A) -> bool, i: int)
    requires
        0 <= i <= s.len(),
    ensures
        s.filter(pred) == s.take(i).filter(pred) + s.skip(i).filter(pred),
        s.take(i).filter(pred).len() <= s.filter(pred).len(),
{
    assert(s =~= s.take(i) + s.skip(i));
    Seq::filter_distributes_over_add(s.take(i), s.skip(i), pred);
}

proof fn filter_step<A>(s: Seq<A>, pred: spec_fn(A) -> bool, i: int)
    requires
        0 <= i < s.len(),
    ensures
        s.take(i + 1).filter(pred) == if pred(s[i]) {
            s.take(i).filter(pred).push(s[i])
        } else {
            s.take(i).filter(pred)
        },
{
    reveal(Seq::filter);
    assert(s.take(i + 1).drop_last() =~= s.take(i));
    assert(s.take(i + 1).last() == s[i]);
}

/// A value found among the first pairs stays the first value of the whole list.
proof fn values_extend(pairs: Seq<PairModel>, name: Seq<char>, i: int)
    requires
        0 <= i <= pairs.len(),
    ensures
        values_of(pairs.take(i), name).len() <= values_of(pairs, name).len(),
        forall|k: int|
            0 <= k < values_of(pairs.take(i), name).len() ==> values_of(pairs, name)[k]
                == values_of(pairs.take(i), name)[k],
{
    let pred = named(name);
    filter_prefix(pairs, pred, i);
    assert forall|k: int| 0 <= k < values_of(pairs.take(i), name).len() implies values_of(
        pairs,
        name,
    )[k] == values_of(pairs.take(i), name)[k] by {
        assert(pairs.filter(pred)[k] == pairs.take(i).filter(pred)[k]);
    }
}

/// The one value given for a name, `None` where the name is absent, and
/// `ValidationError` where it is given more than once.
pub fn single_value(pairs: &Vec<(String, String)>, name: &str) -> (r: Result<
    Option<String>,
    JobError,
>)
    ensures
        match r {
            Ok(Some(v)) => single_of(pair_views(pairs@), name@) == Some(Some(v@)),
            Ok(None) => single_of(pair_views(pairs@), name@) == Some(None::<Seq<char>>),
            Err(e) => e == JobError::ValidationError && single_of(pair_views(pairs@), name@)
                is None,
        },
{
    let key = String::from_str(name);
    let mut found: Option<String> = None;
    let ghost all = pair_views(pairs@);
    let mut i: usize = 0;
    proof {
        reveal(Seq::filter);
        assert(all.take(0) =~= Seq::<PairModel>::empty());
    }
    while i < pairs.len()
        invariant
            i <= pairs.len(),
            all == pair_views(pairs@),
            key@ == name@,
            match found {
                Some(v) => values_of(all.take(i as int), name@) == seq![v@],
                None => values_of(all.take(i as int), name@).len() == 0,
            },
        decreases pairs.len() - i,
    {
        let ghost before = all.take(i as int);
        let ghost after = all.take(i + 1);
        proof {
            assert(all[i as int] == (pairs@[i as int].0@, pairs@[i as int].1@));
            filter_step(all, named(name@), i as int);
            values_extend(all, name@, i + 1);
        }
        if pairs[i].0 == key {
            proof {
                assert(values_of(after, name@) =~= values_of(before, name@).push(
                    pairs@[i as int].1@,
                ));
            }
            if found.is_some() {
                return Err(JobError::ValidationError);
            }
            found = Some(pairs[i].1.clone());
            proof {
                assert(values_of(after, name@) =~= seq![pairs@[i as int].1@]);
            }
        } else {
            proof {
                assert(values_of(after, name@) =~= values_of(before, name@));
            }
        }
        i += 1;
    }
    proof {
        assert(all.take(i as int) =~= all);
    }
    Ok(found)
}

impl PageQuery {
    /// Reads a listing query from the decoded pairs of a query string.
    /// A repeated, non-numeric or out-of-range `limit` or `offset`, and a
    /// `limit` of zero, are refused as `ValidationError`.
    pub fn from_pairs(pairs: &Vec<(String, String)>) -> (r: Result<PageQuery, JobError>)
        ensures
            match r {
                Ok(q) => query_of(pair_views(pairs@)) == Some(q@),
                Err(e) => e == JobError::ValidationError && query_of(pair_views(pairs@)) is None,
            },
    {
        let limit_name = String::from_str("limit");
        let offset_name = String::from_str("offset");
        let mut limit: Option<u64> = None;
        let mut offset: Option<u64> = None;
        let mut extra: Vec<(String, String)> = Vec::new();
        let ghost all = pair_views(pairs@);
        let mut i: usize = 0;
        while i < pairs.len()
            invariant
                i <= pairs.len(),
                all == pair_views(pairs@),
                all.len() == pairs.len(),
                limit_name@ == "limit"@,
                offset_name@ == "offset"@,
                number_of(all.take(i as int), "limit"@) == Some(limit),
                number_of(all.take(i as int), "offset"@) == Some(offset),
                pair_views(extra@) == other_pairs(all.take(i as int)),
            decreases pairs.len() - i,
        {
            let ghost before = all.take(i as int);
            let ghost after = all.take(i + 1);
            let name = &pairs[i].0;
            let value = &pairs[i].1;
            proof {
                assert(all[i as int] == (name@, value@));
                filter_step(all, named("limit"@), i as int);
                filter_step(all, named("offset"@), i as int);
                filter_step(all, unrelated(), i as int);
                values_extend(all, "limit"@, i + 1);
                values_extend(all, "offset"@, i + 1);
                reveal_strlit("limit");
                reveal_strlit("offset");
                assert("limit"@ != "offset"@) by {
                    assert("limit"@.len() != "offset"@.len());
                }
            }
            if *name == limit_name {
                proof {
                    assert(values_of(after, "limit"@) =~= values_of(before, "limit"@).push(value@));
                    assert(values_of(after, "offset"@) =~= values_of(before, "offset"@));
                }
                if limit.is_some() {
                    return Err(JobError::ValidationError);
                }
                match parse_u64(value.as_str()) {
                    Some(v) => {
                        limit = Some(v);
                    },
                    None => {
                        return Err(JobError::ValidationError);
                    },
                }
            } else if *name == offset_name {
                proof {
                    assert(values_of(after, "offset"@) =~= values_of(before, "offset"@).push(
                        value@,
                    ));
                    assert(values_of(after, "limit"@) =~= values_of(before, "limit"@));
                }
                if offset.is_some() {
                    return Err(JobError::ValidationError);
                }
                match parse_u64(value.as_str()) {
                    Some(v) => {
                        offset = Some(v);
                    },
                    None => {
                        return Err(JobError::ValidationError);
                    },
                }
            } else {
                proof {
                    assert(values_of(after, "offset"@) =~= values_of(before, "offset"@));
                    assert(values_of(after, "limit"@) =~= values_of(before, "limit"@));
                }
                let ghost kept = extra@;
                extra.push((name.clone(), value.clone()));
                proof {
                    assert(pair_views(extra@) =~= pair_views(kept).push((name@, value@)));
                }
            }
            i += 1;
        }
        proof {
            assert(all.take(i as int) =~= all);
        }
        if limit == Some(0) {
            return Err(JobError::ValidationError);
        }
        Ok(PageQuery { limit, offset, extra })
    }

    /// The pairs that this query is written as.
    pub fn to_pairs(&self) -> (r: Vec<(String, String)>)
        ensures
            pair_views(r@) == pairs_of(self@),
    {
        let mut out: Vec<(String, String)> = Vec::new();
        assert(pair_views(out@) =~= Seq::<PairModel>::empty());
        if let Some(l) = self.limit {
            let ghost kept = out@;
            out.push((String::from_str("limit"), format_u64(l)));
            assert(pair_views(out@) =~= pair_views(kept).push(
                ("limit"@, decimal_digits(l as nat)),
            ));
        }
        let ghost head = pair_views(out@);
        if let Some(o) = self.offset {
            let ghost kept = out@;
            out.push((String::from_str("offset"), format_u64(o)));
            assert(pair_views(out@) =~= pair_views(kept).push(
                ("offset"@, decimal_digits(o as nat)),
            ));
        }
        let ghost front = pair_views(out@);
        let mut i: usize = 0;
        while i < self.extra.len()
            invariant
                i <= self.extra.len(),
                pair_views(out@) == front + pair_views(self.extra@).take(i as int),
            decreases self.extra.len() - i,
        {
            let ghost kept = out@;
            out.push((self.extra[i].0.clone(), self.extra[i].1.clone()));
            proof {
                let e = pair_views(self.extra@);
                assert(pair_views(out@) =~= pair_views(kept).push(e[i as int]));
                assert(e.take(i + 1) =~= e.take(i as int).push(e[i as int]));
                assert(front + e.take(i + 1) =~= (front + e.take(i as int)).push(e[i as int]));
            }
            i += 1;
        }
        proof {
            let e = pair_views(self.extra@);
            assert(e.take(i as int) =~= e);
            assert(front + e =~= pairs_of(self@));
        }
        out
    }

    /// The same query at another offset.
    pub fn with_offset(&self, offset: u64) -> (r: PageQuery)
        ensures
            r@ == self@.at_offset(offset),
    {
        let mut extra: Vec<(String, String)> = Vec::new();
        let mut i: usize = 0;
        while i < self.extra.len()
            invariant
                i <= self.extra.len(),
                pair_views(extra@) == pair_views(self.extra@).take(i as int),
            decreases self.extra.len() - i,
        {
            let ghost kept = extra@;
            extra.push((self.extra[i].0.clone(), self.extra[i].1.clone()));
            proof {
                let e = pair_views(self.extra@);
                assert(pair_views(extra@) =~= pair_views(kept).push(e[i as int]));
                assert(e.take(i + 1) =~= e.take(i as int).push(e[i as int]));
            }
            i += 1;
        }
        assert(pair_views(self.extra@).take(i as int) =~= pair_views(self.extra@));
        PageQuery { limit: self.limit, offset: Some(offset), extra }
    }
}

/// The bounds that the service sets on page sizes.
#[derive(Clone, Copy, Debug)]
pub struct PageConfig {
    default_limit: u64,
    max_limit: u64,
}

impl PageConfig {
    #[verifier::type_invariant]
    spec fn bounded(self) -> bool {
        1 <= self.default_limit <= self.max_limit
    }

    /// The page size of a request that names none.
    pub closed spec fn default_size(self) -> u64 {
        self.default_limit
    }

    /// The largest page size that is served.
    pub closed spec fn max_size(self) -> u64 {
        self.max_limit
    }

    /// Bounds with `1 <= default_limit <= max_limit`; other values are refused.
    pub fn new(default_limit: u64, max_limit: u64) -> (r: Option<PageConfig>)
        ensures
            r is Some <==> 1 <= default_limit <= max_limit,
            r matches Some(c) ==> c.default_size() == default_limit && c.max_size() == max_limit,
    {
        if 1 <= default_limit && default_limit <= max_limit {
            Some(PageConfig { default_limit, max_limit })
        } else {
            None
        }
    }

    pub fn default_limit(&self) -> (r: u64)
        ensures
            r == self.default_size(),
            1 <= r <= self.max_size(),
    {
        proof {
            use_type_invariant(self);
        }
        self.default_limit
    }

    pub fn max_limit(&self) -> (r: u64)
        ensures
            r == self.max_size(),
            r >= 1,
    {
        proof {
            use_type_invariant(self);
        }
        self.max_limit
    }

    /// The window that a query asks for under these bounds.
    pub open spec fn window(self, q: PageQueryModel) -> Page {
        let wanted = match q.limit {
            Some(l) => l,
            None => self.default_size(),
        };
        Page {
            limit: if wanted > self.max_size() {
                self.max_size()
            } else {
                wanted
            },
            offset: match q.offset {
                Some(o) => o,
                None => 0u64,
            },
        }
    }

    /// Resolves a query to its window: the default size where none is
    /// named, at most the largest size, from offset zero where none is
    /// named. A `limit` of zero is refused as `ValidationError`.
    pub fn resolve(&self, query: &PageQuery) -> (r: Result<Page, JobError>)
        ensures
            match r {
                Ok(page) => {
                    &&& query.limit != Some(0u64)
                    &&& page == self.window(query@)
                    &&& 1 <= page.limit <= self.max_size()
                },
                Err(e) => e == JobError::ValidationError && query.limit == Some(0u64),
            },
    {
        proof {
            use_type_invariant(self);
        }
        let wanted: u64 = match query.limit {
            Some(l) => l,
            None => self.default_limit,
        };
        if wanted == 0 {
            return Err(JobError::ValidationError);
        }
        let limit: u64 = if wanted > self.max_limit {
            self.max_limit
        } else {
            wanted
        };
        let offset: u64 = match query.offset {
            Some(o) => o,
            None => 0,
        };
        Ok(Page { limit, offset })
    }
}

/// A window over an ordered listing: `limit` items from position `offset`.
#[derive(Clone, Copy, Debug, PartialEq, Eq, Structural)]
pub struct Page {
    pub limit: u64,
    pub offset: u64,
}

impl Page {
    /// A window holds at least one item.
    pub open spec fn valid(self) -> bool {
        self.limit >= 1
    }

    /// A previous page exists where this one does not start the listing.
    pub open spec fn has_prev(self) -> bool {
        self.offset > 0
    }

    /// Where the previous page starts: `limit` back, but not before zero.
    pub open spec fn prev_start(self) -> int {
        if self.offset >= self.limit {
            self.offset - self.limit
        } else {
            0
        }
    }

    /// A next page exists where items lie beyond this window.
    pub open spec fn has_next(self, total: u64) -> bool {
        self.offset + self.limit < total
    }

    /// Where the next page starts.
    pub open spec fn next_start(self) -> int {
        self.offset + self.limit
    }

    /// The first position of a listing of `total` items that the window
    /// covers.
    pub open spec fn first(self, total: int) -> int {
        if self.offset <= total {
            self.offset as int
        } else {
            total
        }
    }

    /// The position after the last that the window covers.
    pub open spec fn end(self, total: int) -> int {
        if self.offset + self.limit <= total {
            self.offset + self.limit
        } else {
            total
        }
    }

    /// The offset of the previous page, if there is one.
    pub fn prev_offset(&self) -> (r: Option<u64>)
        ensures
            r is Some <==> self.has_prev(),
            r matches Some(o) ==> o == self.prev_start(),
    {
        if self.offset == 0 {
            None
        } else if self.offset >= self.limit {
            Some(self.offset - self.limit)
        } else {
            Some(0)
        }
    }

    /// The offset of the next page, if there is one.
    pub fn next_offset(&self, total: u64) -> (r: Option<u64>)
        ensures
            r is Some <==> self.has_next(total),
            r matches Some(o) ==> o == self.next_start(),
    {
        if self.limit < total && self.offset < total - self.limit {
            Some(self.offset + self.limit)
        } else {
            None
        }
    }
}

/// The part of a listing that a window covers.
pub open spec fn window_of<A>(items: Seq<A>, page: Page) -> Seq<A> {
    items.subrange(page.first(items.len() as int), page.end(items.len() as int))
}

/// Following the next link and then the previous link of the page reached
/// leads back to the offset one started from.
pub proof fn next_then_prev_returns(page: Page, total: u64)
    requires
        page.valid(),
        page.has_next(total),
    ensures
        ({
            let next = Page { limit: page.limit, offset: page.next_start() as u64 };
            &&& page.next_start() <= u64::MAX
            &&& next.has_prev()
            &&& next.prev_start() == page.offset
        }),
{
}

/// The next page takes up the listing exactly where this page ends: the
/// two windows, one after the other, are one window of twice the size.
pub proof fn next_page_continues<A>(items: Seq<A>, page: Page)
    requires
        page.offset + 2 * page.limit <= u64::MAX,
    ensures
        ({
            let next = Page { limit: page.limit, offset: page.next_start() as u64 };
            let both = Page { limit: (2 * page.limit) as u64, offset: page.offset };
            window_of(items, page) + window_of(items, next) == window_of(items, both)
        }),
{
    let next = Page { limit: page.limit, offset: page.next_start() as u64 };
    let both = Page { limit: (2 * page.limit) as u64, offset: page.offset };
    assert(window_of(items, page) + window_of(items, next) =~= window_of(items, both));
}

/// Following the previous link and then the next link leads back as well,
/// unless the previous page was cut short at the start of the listing.
pub proof fn prev_then_next_returns(page: Page, total: u64)
    requires
        page.valid(),
        page.offset >= page.limit,
        page.offset < total,
    ensures
        ({
            let prev = Page { limit: page.limit, offset: page.prev_start() as u64 };
            &&& page.has_prev()
            &&& prev.has_next(total)
            &&& prev.next_start() == page.offset
        }),
{
}

/// Reading the pairs that a query is written as gives the query back,
/// provided its page size is not zero and its other parameters are not
/// themselves called `limit` or `offset`.
pub proof fn written_query_reads_back(q: PageQueryModel)
    requires
        q.limit != Some(0u64),
        q.tidy(),
    ensures
        query_of(pairs_of(q)) == Some(q),
{
    reveal_strlit("limit");
    reveal_strlit("offset");
    assert("limit"@ != "offset"@) by {
        assert("limit"@.len() != "offset"@.len());
    }
    let limit = match q.limit {
        Some(l) => seq![("limit"@, decimal_digits(l as nat))],
        None => Seq::<PairModel>::empty(),
    };
    let offset = match q.offset {
        Some(o) => seq![("offset"@, decimal_digits(o as nat))],
        None => Seq::<PairModel>::empty(),
    };
    let all = pairs_of(q);
    assert(all == (limit + offset) + q.extra);
    filter_of_concat(limit, offset, q.extra, named("limit"@));
    filter_of_concat(limit, offset, q.extra, named("offset"@));
    filter_of_concat(limit, offset, q.extra, unrelated());
    filter_all_or_none(q.extra, named("limit"@), false);
    filter_all_or_none(q.extra, named("offset"@), false);
    filter_all_or_none(q.extra, unrelated(), true);
    filter_all_or_none(limit, named("limit"@), true);
    filter_all_or_none(limit, named("offset"@), false);
    filter_all_or_none(limit, unrelated(), false);
    filter_all_or_none(offset, named("limit"@), false);
    filter_all_or_none(offset, named("offset"@), true);
    filter_all_or_none(offset, unrelated(), false);
    assert(all.filter(named("limit"@)) =~= limit);
    assert(all.filter(named("offset"@)) =~= offset);
    assert(all.filter(unrelated()) =~= q.extra);
    if let Some(l) = q.limit {
        crate::decimal::digits_round_trip(l as nat);
    }
    if let Some(o) = q.offset {
        crate::decimal::digits_round_trip(o as nat);
    }
}

proof fn filter_of_concat<A>(a: Seq<A>, b: Seq<A>, c: Seq<A>, pred: spec_fn(A) -> bool)
    ensures
        ((a + b) + c).filter(pred) == (a.filter(pred) + b.filter(pred)) + c.filter(pred),
{
    Seq::filter_distributes_over_add(a + b, c, pred);
    Seq::filter_distributes_over_add(a, b, pred);
}

proof fn filter_all_or_none<A>(s: Seq<A>, pred: spec_fn(A) -> bool, keep: bool)
    requires
        forall|i: int| 0 <= i < s.len() ==> pred(#[trigger] s[i]) == keep,
    ensures
        s.filter(pred) == if keep {
            s
        } else {
            Seq::<A>::empty()
        },
    decreases s.len(),
{
    reveal(Seq::filter);
    if s.len() > 0 {
        filter_all_or_none(s.drop_last(), pred, keep);
        if keep {
            assert(s.drop_last().push(s.last()) =~= s);
        }
    } else {
        assert(s =~= Seq::<A>::empty());
    }
}

} // verus!
