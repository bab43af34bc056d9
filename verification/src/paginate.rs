//! Sequential pagination.
//!
//! A listing returns one page at a time: records plus a continuation cursor.
//! `Paginator` folds pages into a full result set, truncating at the caller's
//! ceiling; `RecordIterator` hands pages out one by one with an explicit
//! exhausted state; `ServerModel` is a deterministic in-library model of the
//! remote table against which the whole pagination loop is verified
//! end to end.

use vstd::prelude::*;

use crate::digits::u32_to_string;
use crate::models::ListRecordsResponse;
use crate::models::Record;
use crate::models::RecordMutation;
use crate::models::RecordView;
use crate::models::record_ids;
use crate::models::records_view;
use crate::query::ListRecordsQuery;
use crate::query::opt_text_view;

verus! {

/// The first `max` records of `s` when a ceiling is set and exceeded;
/// all of `s` otherwise.
pub open spec fn take_up_to(s: Seq<RecordView>, max: Option<u32>) -> Seq<RecordView> {
    match max {
        None => s,
        Some(m) => if s.len() <= m as nat {
            s
        } else {
            s.take(m as int)
        },
    }
}

/// Whether a result of `len` records has reached the ceiling.
pub open spec fn at_ceiling(len: nat, max: Option<u32>) -> bool {
    match max {
        Some(m) => len >= m as nat,
        None => false,
    }
}

/// Accumulates pages into one result set.
///
/// `step` consumes one fetched page: its records are appended, the result is
/// truncated exactly at the ceiling, and pagination stops — `done` — when
/// the page carries no cursor or the ceiling is reached, even if the last
/// page contained more.
pub struct Paginator {
    /// The records accumulated so far, already truncated to the ceiling.
    pub collected: Vec<Record>,
    /// The caller's ceiling on the total records, if any.
    pub max_records: Option<u32>,
    /// The cursor of the last accepted page.
    pub next_offset: Option<String>,
    /// Whether pagination is over: no further page may be requested.
    pub done: bool,
}

impl Paginator {
    /// The accumulated records never exceed the ceiling.
    pub open spec fn wf(&self) -> bool {
        match self.max_records {
            Some(m) => self.collected@.len() <= m as nat,
            None => true,
        }
    }

    /// Begin a pagination run under the given ceiling.
    pub fn new(max_records: Option<u32>) -> (r: Paginator)
        ensures
            r.wf(),
            r.collected@.len() == 0,
            r.max_records == max_records,
            r.next_offset == None::<String>,
            r.done == false,
    {
        Paginator { collected: Vec::new(), max_records, next_offset: None, done: false }
    }

    /// Accept one fetched page: append its records, truncate at the ceiling,
    /// stop when the cursor is absent or the ceiling is reached.
    pub fn step(&mut self, page: ListRecordsResponse)
        requires
            !old(self).done,
            old(self).wf(),
        ensures
            final(self).wf(),
            final(self).max_records == old(self).max_records,
            records_view(final(self).collected@) == take_up_to(
                records_view(old(self).collected@) + records_view(page.records@),
                old(self).max_records,
            ),
            final(self).done == (page@.offset is None || at_ceiling(
                records_view(final(self).collected@).len(),
                old(self).max_records,
            )),
            opt_text_view(final(self).next_offset) == page@.offset,
    {
        let ListRecordsResponse { records, offset } = page;
        let ghost oldc = records_view(self.collected@);
        let ghost inc = records_view(records@);
        match self.max_records {
            None => {
                let mut incoming = records;
                self.collected.append(&mut incoming);
                proof {
                    assert(records_view(self.collected@) =~= oldc + inc);
                }
            },
            Some(m) => {
                let m_us = m as usize;
                let mut j: usize = 0;
                while j < records.len() && self.collected.len() < m_us
                    invariant
                        j <= records@.len(),
                        records_view(records@) == inc,
                        self.max_records == Some(m),
                        m_us == m as usize,
                        self.collected@.len() <= m_us,
                        j as int <= oldc.len() + records@.len(),
                        records_view(self.collected@) == take_up_to(
                            oldc + inc.take(j as int),
                            Some(m),
                        ),
                    decreases records@.len() - j,
                {
                    let ghost prevc = records_view(self.collected@);
                    let d = records[j].duplicate();
                    self.collected.push(d);
                    j = j + 1;
                    proof {
                        assert(records_view(self.collected@) =~= prevc.push(inc[j - 1]));
                        // below the ceiling, the truncation is the identity
                        assert(prevc.len() < m as nat);
                        assert((oldc + inc.take(j as int - 1)).len() < m as nat);
                        assert(prevc =~= oldc + inc.take(j as int - 1));
                        assert(inc.take(j as int) =~= inc.take(j as int - 1).push(
                            inc[j as int - 1],
                        ));
                        assert(records_view(self.collected@) =~= oldc + inc.take(j as int));
                        assert((oldc + inc.take(j as int)).len() <= m as nat);
                        assert(records_view(self.collected@) =~= take_up_to(
                            oldc + inc.take(j as int),
                            Some(m),
                        ));
                    }
                }
                proof {
                    if j == records@.len() {
                        assert(inc.take(j as int) =~= inc);
                    } else {
                        // the ceiling was reached: everything kept so far is
                        // an exact prefix of the combined sequence
                        assert(self.collected@.len() == m_us);
                        assert((oldc + inc).take(m as int) =~= take_up_to(
                            oldc + inc.take(j as int),
                            Some(m),
                        ));
                    }
                    assert(records_view(self.collected@) =~= take_up_to(oldc + inc, Some(m)));
                }
            },
        }
        let reached = match self.max_records {
            Some(m) => self.collected.len() >= m as usize,
            None => false,
        };
        self.done = offset.is_none() || reached;
        self.next_offset = offset;
    }
}

/// Per-page iteration with an explicit exhausted state.
///
/// One-shot and forward-only: after a page without a cursor, a page shorter
/// than the requested page size, or an error, the iterator is exhausted for
/// good and hands out no further query.
#[derive(Debug)]
pub struct RecordIterator {
    /// The table the iteration reads.
    pub table: crate::client::TableHandle,
    /// How many records each page asks for.
    pub page_size: u32,
    /// The fields to return; absent means all fields.
    pub fields: Option<Vec<String>>,
    /// An opaque filter formula, passed through unchanged.
    pub filter_by_formula: Option<String>,
    /// A server-side view to read through.
    pub view: Option<String>,
    /// Opaque sort directives, forwarded to each page's listing.
    pub sort: Option<Vec<String>>,
    /// The cursor the next page starts from.
    pub offset: Option<String>,
    /// Whether iteration is over.
    pub finished: bool,
}

/// Builder for a `RecordIterator`.
#[derive(Debug)]
pub struct RecordIteratorBuilder {
    /// The table the iteration will read.
    pub table: crate::client::TableHandle,
    /// How many records each page asks for; one hundred when unset.
    pub page_size: Option<u32>,
    /// The fields to return; absent means all fields.
    pub fields: Option<Vec<String>>,
    /// An opaque filter formula, passed through unchanged.
    pub filter_by_formula: Option<String>,
    /// A server-side view to read through.
    pub view: Option<String>,
    /// Opaque sort directives, forwarded to each page's listing.
    pub sort: Option<Vec<String>>,
}

impl crate::client::TableHandle {
    /// Begin a page-at-a-time iteration over this table.
    pub fn iterate(&self) -> (r: RecordIteratorBuilder)
        ensures
            crate::config::config_eq(r.table.base.client.config, self.base.client.config),
            r.table.base.base_id@ == self.base.base_id@,
            r.table.table_name@ == self.table_name@,
            r.page_size == None::<u32>,
            r.fields == None::<Vec<String>>,
            r.filter_by_formula == None::<String>,
            r.view == None::<String>,
            r.sort == None::<Vec<String>>,
    {
        RecordIteratorBuilder {
            table: self.duplicate(),
            page_size: None,
            fields: None,
            filter_by_formula: None,
            view: None,
            sort: None,
        }
    }
}

impl RecordIteratorBuilder {
    /// Set the page size.
    pub fn page_size(self, size: u32) -> (r: RecordIteratorBuilder)
        ensures
            r == (RecordIteratorBuilder { page_size: Some(size), ..self }),
    {
        RecordIteratorBuilder { page_size: Some(size), ..self }
    }

    /// Select the fields to return, in order.
    pub fn fields(self, fields: &[&str]) -> (r: RecordIteratorBuilder)
        ensures
            r == (RecordIteratorBuilder { fields: r.fields, ..self }),
            r.fields is Some,
            crate::request::strings_view(r.fields->0@) == Seq::new(
                fields@.len(),
                |i: int| fields@[i]@,
            ),
    {
        RecordIteratorBuilder { fields: Some(crate::query::strs_to_strings(fields)), ..self }
    }

    /// Set the filter formula, passed through unchanged.
    pub fn filter_by_formula(self, formula: &str) -> (r: RecordIteratorBuilder)
        ensures
            r == (RecordIteratorBuilder { filter_by_formula: r.filter_by_formula, ..self }),
            r.filter_by_formula is Some,
            r.filter_by_formula->0@ == formula@,
    {
        RecordIteratorBuilder { filter_by_formula: Some(formula.to_owned()), ..self }
    }

    /// Set the server-side view to read through.
    pub fn view(self, view: &str) -> (r: RecordIteratorBuilder)
        ensures
            r == (RecordIteratorBuilder { view: r.view, ..self }),
            r.view is Some,
            r.view->0@ == view@,
    {
        RecordIteratorBuilder { view: Some(view.to_owned()), ..self }
    }

    /// Finish the builder: the iterator starts active, at the beginning,
    /// with a page size of one hundred unless one was set.
    pub fn build(self) -> (r: RecordIterator)
        ensures
            r.table == self.table,
            r.page_size == match self.page_size {
                Some(s) => s,
                None => 100u32,
            },
            r.fields == self.fields,
            r.filter_by_formula == self.filter_by_formula,
            r.view == self.view,
            r.sort == self.sort,
            r.offset == None::<String>,
            r.finished == false,
    {
        let page_size = match self.page_size {
            Some(s) => s,
            None => 100,
        };
        RecordIterator {
            table: self.table,
            page_size,
            fields: self.fields,
            filter_by_formula: self.filter_by_formula,
            view: self.view,
            sort: self.sort,
            offset: None,
            finished: false,
        }
    }
}

impl RecordIterator {
    /// Whether iteration is over; an exhausted iterator stays exhausted.
    pub fn is_exhausted(&self) -> (r: bool)
        ensures
            r == self.finished,
    {
        self.finished
    }

    /// The listing that fetches the next page, or nothing when the iterator
    /// is exhausted: an exhausted iterator requests no further page.
    pub fn next_page_query(&self) -> (r: Option<ListRecordsQuery>)
        ensures
            r is Some <==> !self.finished,
            match r {
                Some(q) => {
                    &&& crate::config::config_eq(
                        q.table.base.client.config,
                        self.table.base.client.config,
                    )
                    &&& q.table.base.base_id@ == self.table.base.base_id@
                    &&& q.table.table_name@ == self.table.table_name@
                    &&& q.max_records == None::<u32>
                    &&& q.page_size == Some(self.page_size)
                    &&& match (q.fields, self.fields) {
                        (Some(a), Some(b)) => crate::request::strings_view(a@)
                            == crate::request::strings_view(b@),
                        (None, None) => true,
                        _ => false,
                    }
                    &&& opt_text_view(q.filter_by_formula) == opt_text_view(self.filter_by_formula)
                    &&& match (q.sort, self.sort) {
                        (Some(a), Some(b)) => crate::request::strings_view(a@)
                            == crate::request::strings_view(b@),
                        (None, None) => true,
                        _ => false,
                    }
                    &&& opt_text_view(q.view) == opt_text_view(self.view)
                    &&& opt_text_view(q.offset) == opt_text_view(self.offset)
                },
                None => true,
            },
    {
        if self.finished {
            return None;
        }
        Some(
            ListRecordsQuery {
                table: self.table.duplicate(),
                max_records: None,
                page_size: Some(self.page_size),
                fields: crate::query::dup_opt_texts(&self.fields),
                filter_by_formula: crate::query::dup_opt_text(&self.filter_by_formula),
                sort: crate::query::dup_opt_texts(&self.sort),
                view: crate::query::dup_opt_text(&self.view),
                offset: crate::query::dup_opt_text(&self.offset),
            },
        )
    }

    /// Accept the page the last query fetched. Iteration stops — for good —
    /// when the page carries no cursor, or when it is shorter than the
    /// requested page size (the short-page heuristic); the cursor is kept
    /// for the next page otherwise.
    pub fn accept_page(&mut self, records: &Vec<Record>, next_offset: Option<String>)
        requires
            !old(self).finished,
        ensures
            final(self).finished == (next_offset is None || records@.len() < old(
                self,
            ).page_size as nat),
            final(self).offset == next_offset,
            *final(self) == (RecordIterator {
                finished: final(self).finished,
                offset: final(self).offset,
                ..*old(self)
            }),
    {
        if next_offset.is_none() || records.len() < self.page_size as usize {
            self.finished = true;
        }
        self.offset = next_offset;
    }

    /// Accept a transport failure: the error is surfaced once by the caller,
    /// and the iterator is permanently exhausted.
    pub fn accept_error(&mut self)
        ensures
            final(self).finished,
            *final(self) == (RecordIterator { finished: true, ..*old(self) }),
    {
        self.finished = true;
    }
}

/// A deterministic model of a remote table: the full record set, in server
/// order, served page by page. The engine's pagination loop is verified
/// against this model.
pub struct ServerModel {
    /// Every record the server would return, already filtered and ordered.
    pub records: Vec<Record>,
}

/// Whether some record in `s` carries the identifier `id`.
pub open spec fn has_record(s: Seq<RecordView>, id: Seq<char>) -> bool {
    exists|i: int| 0 <= i < s.len() && s[i].id == id
}

impl ServerModel {
    /// Serve the page that starts at `start`: up to `page_size` records, and
    /// the index of the next page as cursor when records remain past it.
    pub fn page_at(&self, start: usize, page_size: usize) -> (r: (Vec<Record>, Option<usize>))
        requires
            start <= self.records@.len(),
            1 <= page_size,
            self.records@.len() + page_size < usize::MAX,
        ensures
            records_view(r.0@) == records_view(self.records@).subrange(
                start as int,
                if start + page_size <= self.records@.len() {
                    start as int + page_size as int
                } else {
                    self.records@.len() as int
                },
            ),
            r.1 == if start + page_size < self.records@.len() {
                Some((start + page_size) as usize)
            } else {
                None::<usize>
            },
    {
        let n = self.records.len();
        let end = if start + page_size <= n {
            start + page_size
        } else {
            n
        };
        let mut out: Vec<Record> = Vec::new();
        let mut i: usize = start;
        while i < end
            invariant
                start <= i <= end <= self.records@.len(),
                out@.len() == i - start,
                forall|j: int| 0 <= j < out@.len() ==> out@[j]@ == #[trigger] self.records@[start
                    + j]@,
            decreases end - i,
        {
            let d = self.records[i].duplicate();
            out.push(d);
            i = i + 1;
        }
        let next = if start + page_size < n {
            Some(start + page_size)
        } else {
            None
        };
        proof {
            assert forall|k: int| 0 <= k < out@.len() implies records_view(out@)[k] == records_view(
                self.records@,
            ).subrange(start as int, end as int)[k] by {
                assert(out@[k]@ == self.records@[start + k]@);
            }
            assert(records_view(out@) =~= records_view(self.records@).subrange(
                start as int,
                end as int,
            ));
        }
        (out, next)
    }
}

/// How many records a run is after: the full set, or the ceiling when one is
/// set and smaller.
pub open spec fn effective_target(n: nat, max: Option<u32>) -> nat {
    match max {
        Some(m) => if (m as nat) < n {
            m as nat
        } else {
            n
        },
        None => n,
    }
}

/// How many pages serving `t` records takes at `ps` records per page: always
/// at least one (the first fetch happens unconditionally), then one per
/// further `ps` records.
pub open spec fn pages_for(t: nat, ps: nat) -> nat
    decreases t,
    when ps >= 1
{
    if t <= ps {
        1
    } else {
        1 + pages_for((t - ps) as nat, ps)
    }
}

/// How many page requests a full run issues.
pub open spec fn pages_needed(n: nat, ps: nat, max: Option<u32>) -> nat {
    pages_for(effective_target(n, max), ps)
}

/// Extending a truncated prefix by the next slice and truncating again gives
/// the truncated longer prefix.
proof fn lemma_take_up_to_extend(s: Seq<RecordView>, a: int, b: int, max: Option<u32>)
    requires
        0 <= a <= b <= s.len(),
    ensures
        take_up_to(take_up_to(s.take(a), max) + s.subrange(a, b), max) == take_up_to(
            s.take(b),
            max,
        ),
{
    match max {
        None => {
            assert(s.take(a) + s.subrange(a, b) =~= s.take(b));
        },
        Some(m) => {
            let mi = m as int;
            if a <= mi {
                assert(take_up_to(s.take(a), max) =~= s.take(a));
                assert(s.take(a) + s.subrange(a, b) =~= s.take(b));
                if b <= mi {
                    assert(take_up_to(s.take(b), max) =~= s.take(b));
                } else {
                    assert(s.take(b).take(mi) =~= s.take(mi));
                    assert(take_up_to(s.take(b), max) =~= s.take(mi));
                }
            } else {
                assert(take_up_to(s.take(a), max) =~= s.take(a).take(mi));
                assert(s.take(a).take(mi) =~= s.take(mi));
                assert((s.take(mi) + s.subrange(a, b)).take(mi) =~= s.take(mi));
                assert(take_up_to(s.take(b), max) =~= s.take(mi));
            }
        },
    }
}

/// Execute a full-pagination run against the model: fetch pages starting at
/// the beginning, follow the cursor, and stop when the cursor is absent or
/// the ceiling is reached. Returns the assembled record set — the full
/// server set, truncated exactly at the ceiling — and how many page
/// requests were issued.
pub fn execute_all(server: &ServerModel, page_size: usize, max_records: Option<u32>) -> (r: (
    Vec<Record>,
    usize,
))
    requires
        1 <= page_size,
        server.records@.len() + page_size < usize::MAX,
        server.records@.len() < u32::MAX,
        pages_needed(server.records@.len() as nat, page_size as nat, max_records) < usize::MAX,
    ensures
        records_view(r.0@) == take_up_to(records_view(server.records@), max_records),
        r.1 == pages_needed(server.records@.len() as nat, page_size as nat, max_records),
{
    let ghost s = records_view(server.records@);
    let ghost n = server.records@.len() as nat;
    let ghost t = effective_target(n, max_records);
    let mut pager = Paginator::new(max_records);
    let mut start: usize = 0;
    let mut requests: usize = 0;
    proof {
        assert(records_view(pager.collected@) =~= take_up_to(s.take(0), max_records));
        assert(s.take(n as int) =~= s);
    }
    while !pager.done
        invariant
            1 <= page_size,
            server.records@.len() + page_size < usize::MAX,
            server.records@.len() < u32::MAX,
            s == records_view(server.records@),
            n == server.records@.len() as nat,
            t == effective_target(n, max_records),
            pager.wf(),
            pager.max_records == max_records,
            !pager.done ==> (start as nat) <= t,
            start <= server.records@.len(),
            records_view(pager.collected@) == take_up_to(s.take(start as int), max_records),
            !pager.done ==> requests as nat + pages_for((t - start as nat) as nat, page_size as nat)
                == pages_for(t, page_size as nat),
            !pager.done ==> (requests as nat) < pages_for(t, page_size as nat),
            pager.done ==> requests as nat == pages_for(t, page_size as nat),
            pager.done ==> records_view(pager.collected@) == take_up_to(s, max_records),
            pages_for(t, page_size as nat) < usize::MAX,
        decreases server.records@.len() - start + (if pager.done {
            0int
        } else {
            1int
        }),
    {
        let ghost start0 = start as int;
        let (records, next) = server.page_at(start, page_size);
        let offset = match next {
            Some(idx) => Some(u32_to_string(idx as u32)),
            None => None,
        };
        let ghost end = if start0 + page_size as int <= n as int {
            start0 + page_size as int
        } else {
            n as int
        };
        requests = requests + 1;
        pager.step(ListRecordsResponse { records, offset });
        proof {
            lemma_take_up_to_extend(s, start0, end, max_records);
            assert(records_view(pager.collected@) == take_up_to(s.take(end), max_records));
        }
        let n_exec = server.records.len();
        start = if start + page_size <= n_exec {
            start + page_size
        } else {
            n_exec
        };
        proof {
            assert(start as int == end);
        }
        if !pager.done {
            proof {
                // the cursor was present and the ceiling is not reached, so
                // the run is still short of its target
                match max_records {
                    Some(m) => {
                        assert(records_view(pager.collected@).len() < m as nat);
                        assert(take_up_to(s.take(end), max_records).len() < m as nat);
                        assert((start as nat) < m as nat);
                    },
                    None => {},
                }
                assert(start0 + page_size < n as int);
                assert((start as nat) < t);
                // one more page consumed, one fewer remaining
                assert(pages_for((t - start0) as nat, page_size as nat) == 1 + pages_for(
                    (t - start0 - page_size) as nat,
                    page_size as nat,
                ));
            }
        } else {
            proof {
                // the run is over: the target fits within the pages fetched
                if end < n as int {
                    // the cursor was present, so the ceiling was reached
                    assert(at_ceiling(records_view(pager.collected@).len(), max_records));
                    match max_records {
                        Some(m) => {
                            assert(take_up_to(s.take(end), max_records).len() >= m as nat);
                            assert(s.take(end).len() >= m as nat);
                            assert(take_up_to(s.take(end), max_records) =~= s.take(m as int));
                            assert(take_up_to(s, max_records) =~= s.take(m as int));
                        },
                        None => {
                            assert(false);
                        },
                    }
                } else {
                    assert(s.take(end) =~= s);
                }
                assert(records_view(pager.collected@) == take_up_to(s, max_records));
                // the target lies within the last page fetched
                assert(t <= start0 as nat + page_size as nat);
                assert(pages_for((t - start0) as nat, page_size as nat) == 1);
            }
        }
    }
    (pager.collected, requests)
}

/// Pagination completeness: a full run without a ceiling returns exactly the
/// record set the server holds for the query, in server order.
pub proof fn lemma_pagination_complete(s: Seq<RecordView>)
    ensures
        take_up_to(s, None) == s,
{
}

/// Truncation: with a ceiling of `k` and more than `k` records available, a
/// full run returns exactly the first `k`; with at most `k` available, it
/// returns all of them untruncated.
pub proof fn lemma_truncation(s: Seq<RecordView>, k: u32)
    ensures
        s.len() > k ==> take_up_to(s, Some(k)) == s.take(k as int) && take_up_to(
            s,
            Some(k),
        ).len() == k,
        s.len() <= k ==> take_up_to(s, Some(k)) == s,
{
}

/// Idempotent read: two full-pagination runs over the same unchanged record
/// set return identical ordered record-id sequences.
pub proof fn lemma_idempotent_read(
    s: Seq<RecordView>,
    max: Option<u32>,
    first: Seq<RecordView>,
    second: Seq<RecordView>,
)
    requires
        first == take_up_to(s, max),
        second == take_up_to(s, max),
    ensures
        record_ids(first) == record_ids(second),
{
}

impl ServerModel {
    /// The first record carrying `id`, if any.
    pub fn find_record_index(&self, id: &str) -> (r: Option<usize>)
        ensures
            match r {
                Some(k) => k < self.records@.len() && records_view(self.records@)[k as int].id
                    == id@ && (forall|j: int|
                    0 <= j < k as int ==> records_view(self.records@)[j].id != id@),
                None => !has_record(records_view(self.records@), id@),
            },
    {
        let n = self.records.len();
        let mut i: usize = 0;
        while i < n
            invariant
                n == self.records@.len(),
                i <= n,
                forall|j: int| 0 <= j < i as int ==> records_view(self.records@)[j].id != id@,
            decreases n - i,
        {
            if crate::value::str_eq(self.records[i].id.as_str(), id) {
                return Some(i);
            }
            i = i + 1;
        }
        None
    }

    /// The records an upsert batch comes back with, in item order: an item
    /// that names an existing record's identifier keeps that identifier (the
    /// service updates the record); an item without one gets the matching
    /// fresh identifier (the service creates a record). The caller supplies
    /// one fresh identifier per item, none of them already in the table.
    pub fn upsert_outcome(
        &self,
        items: Vec<RecordMutation>,
        fresh_ids: Vec<String>,
        now: &str,
    ) -> (r: Vec<Record>)
        requires
            fresh_ids@.len() == items@.len(),
            forall|i: int| 0 <= i < items@.len() ==> (#[trigger] items@[i]@.id matches Some(id)
                ==> has_record(records_view(self.records@), id)),
        ensures
            r@.len() == items@.len(),
            forall|i: int| 0 <= i < items@.len() ==> (#[trigger] records_view(r@)[i]).id == (
            match items@[i]@.id {
                Some(id) => id,
                None => fresh_ids@[i]@,
            }),
            forall|i: int| 0 <= i < items@.len() ==> (#[trigger] records_view(r@)[i]).fields
                == items@[i]@.fields,
    {
        let mut out: Vec<Record> = Vec::new();
        let mut items = items;
        let ghost all = items@;
        let n = items.len();
        let mut i: usize = 0;
        while i < n
            invariant
                items@ == all.skip(i as int),
                n == all.len(),
                fresh_ids@.len() == all.len(),
                i <= n,
                out@.len() == i as int,
                forall|j: int| 0 <= j < all.len() ==> (#[trigger] all[j]@.id matches Some(id)
                    ==> has_record(records_view(self.records@), id)),
                forall|j: int| 0 <= j < i as int ==> (#[trigger] records_view(out@)[j]).id == (
                match all[j]@.id {
                    Some(id) => id,
                    None => fresh_ids@[j]@,
                }),
                forall|j: int| 0 <= j < i as int ==> (#[trigger] records_view(out@)[j]).fields
                    == all[j]@.fields,
            decreases n - i,
        {
            let item = items.remove(0);
            proof {
                assert(item == all[i as int]);
                assert(items@ =~= all.skip(i as int + 1));
            }
            let ghost prev = records_view(out@);
            let rec = match item.id {
                Some(id) => {
                    let found = self.find_record_index(id.as_str());
                    let created_time = match found {
                        Some(k) => self.records[k].created_time.clone(),
                        None => now.to_owned(),
                    };
                    Record { id, created_time, fields: item.fields }
                },
                None => Record {
                    id: fresh_ids[i].clone(),
                    created_time: now.to_owned(),
                    fields: item.fields,
                },
            };
            let ghost rv = rec@;
            proof {
                assert(rv.id == (match all[i as int]@.id {
                    Some(id) => id,
                    None => fresh_ids@[i as int]@,
                }));
                assert(rv.fields == all[i as int]@.fields);
            }
            out.push(rec);
            i = i + 1;
            proof {
                assert forall|j: int| 0 <= j < i as int implies (#[trigger] records_view(
                    out@,
                )[j]).id == (match all[j]@.id {
                    Some(id) => id,
                    None => fresh_ids@[j]@,
                }) && records_view(out@)[j].fields == all[j]@.fields by {
                    if j < i - 1 {
                        assert(records_view(out@)[j] == prev[j]);
                    } else {
                        assert(records_view(out@)[j] == rv);
                    }
                }
            }
        }
        out
    }
}

} // verus!
