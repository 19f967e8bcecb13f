use vstd::prelude::*;
use crate::model::{copy_names, PostModel, PostStatus};

verus! {

/// One condition on the rows of a listing. Every value is a bound parameter
/// of the store's query, never part of its text.
#[derive(Debug)]
pub enum Predicate {
    /// The title's full-text index matches this text query.
    TitleMatches(String),
    /// The author's full-text index matches this text query.
    AuthorMatches(String),
    /// The post was created at or after this time.
    CreatedSince(String),
    StatusIs(PostStatus),
    SlugIn(Vec<String>),
}

/// A listing: rows that meet every predicate, newest first, one page of them.
#[derive(Debug)]
pub struct ListQuery {
    pub predicates: Vec<Predicate>,
    pub limit: u64,
    pub offset: u64,
}

/// The filters and paging of a listing, each optional.
#[derive(Debug)]
pub struct ListFilters {
    pub limit: Option<u64>,
    pub offset: Option<u64>,
    pub title: Option<String>,
    pub author: Option<String>,
    pub add_count: Option<bool>,
    pub creation_time: Option<String>,
    pub status: Option<PostStatus>,
}

pub const DEFAULT_LIMIT: u64 = 20;

/// How the store reads the conditions: `text_match(query, text)` for the
/// full-text indexes, `since(bound, time)` for the creation time.
pub struct Semantics {
    pub text_match: spec_fn(Seq<char>, Seq<char>) -> bool,
    pub since: spec_fn(Seq<char>, i64) -> bool,
}

/// The row meets the condition.
pub open spec fn holds(p: Predicate, row: PostModel, sem: Semantics) -> bool {
    match p {
        Predicate::TitleMatches(t) => (sem.text_match)(t@, row.title),
        Predicate::AuthorMatches(a) => (sem.text_match)(a@, row.author),
        Predicate::CreatedSince(c) => (sem.since)(c@, row.creation_time),
        Predicate::StatusIs(s) => row.post_status == s,
        Predicate::SlugIn(v) => v.deep_view().contains(row.slug),
    }
}

/// The row meets every condition.
pub open spec fn admits(ps: Seq<Predicate>, row: PostModel, sem: Semantics) -> bool {
    forall|i: int| 0 <= i < ps.len() ==> holds(#[trigger] ps[i], row, sem)
}

/// The row meets every filter that is given.
pub open spec fn filters_admit(f: ListFilters, row: PostModel, sem: Semantics) -> bool {
    &&& (f.title is Some ==> (sem.text_match)(f.title->0@, row.title))
    &&& (f.author is Some ==> (sem.text_match)(f.author->0@, row.author))
    &&& (f.creation_time is Some ==> (sem.since)(f.creation_time->0@, row.creation_time))
    &&& (f.status is Some ==> row.post_status == f.status->0)
}

/// `q` is the listing that `f` asks for: a row is listed exactly when it
/// meets all of the given filters together; 20 rows from the first unless
/// told otherwise.
pub open spec fn lists(q: ListQuery, f: ListFilters) -> bool {
    &&& q.limit == or_default(f.limit, DEFAULT_LIMIT)
    &&& q.offset == or_default(f.offset, 0)
    &&& forall|row: PostModel, sem: Semantics|
        admits(q.predicates@, row, sem) <==> filters_admit(f, row, sem)
}

/// The two queries admit the same rows.
pub open spec fn same_rows(a: ListQuery, b: ListQuery) -> bool {
    forall|row: PostModel, sem: Semantics|
        admits(a.predicates@, row, sem) == admits(b.predicates@, row, sem)
}

pub open spec fn or_default(v: Option<u64>, d: u64) -> u64 {
    match v {
        Some(x) => x,
        None => d,
    }
}

proof fn lemma_admits_push(ps: Seq<Predicate>, p: Predicate, row: PostModel, sem: Semantics)
    ensures
        admits(ps.push(p), row, sem) == (admits(ps, row, sem) && holds(p, row, sem)),
{
    let qs = ps.push(p);
    if admits(qs, row, sem) {
        assert forall|i: int| 0 <= i < ps.len() implies holds(#[trigger] ps[i], row, sem) by {
            assert(qs[i] == ps[i]);
            assert(holds(qs[i], row, sem));
        }
        assert(holds(qs[ps.len() as int], row, sem));
    }
    if admits(ps, row, sem) && holds(p, row, sem) {
        assert forall|i: int| 0 <= i < qs.len() implies holds(#[trigger] qs[i], row, sem) by {
            if i < ps.len() {
                assert(qs[i] == ps[i]);
            }
        }
    }
}

impl Predicate {
    pub fn duplicate(&self) -> (r: Predicate)
        ensures
            forall|row: PostModel, sem: Semantics| holds(r, row, sem) == holds(*self, row, sem),
    {
        match self {
            Predicate::TitleMatches(t) => Predicate::TitleMatches(t.clone()),
            Predicate::AuthorMatches(a) => Predicate::AuthorMatches(a.clone()),
            Predicate::CreatedSince(c) => Predicate::CreatedSince(c.clone()),
            Predicate::StatusIs(s) => Predicate::StatusIs(*s),
            Predicate::SlugIn(v) => Predicate::SlugIn(copy_names(v)),
        }
    }
}

impl ListQuery {
    /// The same listing.
    pub fn duplicate(&self) -> (r: ListQuery)
        ensures
            r.limit == self.limit,
            r.offset == self.offset,
            same_rows(r, *self),
    {
        let mut ps: Vec<Predicate> = Vec::new();
        let mut i: usize = 0;
        while i < self.predicates.len()
            invariant
                i <= self.predicates.len(),
                ps.len() == i,
                forall|j: int, row: PostModel, sem: Semantics|
                    0 <= j < i ==> #[trigger] holds(ps@[j], row, sem) == holds(
                        self.predicates@[j],
                        row,
                        sem,
                    ),
            decreases self.predicates.len() - i,
        {
            ps.push(self.predicates[i].duplicate());
            i = i + 1;
        }
        assert forall|row: PostModel, sem: Semantics|
            admits(ps@, row, sem) == admits(self.predicates@, row, sem) by {
            if admits(ps@, row, sem) {
                assert forall|j: int| 0 <= j < self.predicates@.len() implies holds(
                    #[trigger] self.predicates@[j],
                    row,
                    sem,
                ) by {
                    assert(holds(ps@[j], row, sem));
                }
            }
            if admits(self.predicates@, row, sem) {
                assert forall|j: int| 0 <= j < ps@.len() implies holds(#[trigger] ps@[j], row, sem) by {
                    assert(holds(self.predicates@[j], row, sem));
                }
            }
        }
        ListQuery { predicates: ps, limit: self.limit, offset: self.offset }
    }
}

/// The listing that the filters ask for.
pub fn build_list_query(f: &ListFilters) -> (q: ListQuery)
    ensures
        lists(q, *f),
{
    let mut ps: Vec<Predicate> = Vec::new();
    if let Some(t) = &f.title {
        ps.push(Predicate::TitleMatches(t.clone()));
    }
    assert forall|row: PostModel, sem: Semantics|
        admits(ps@, row, sem) == (f.title is Some ==> (sem.text_match)(f.title->0@, row.title)) by {
        if f.title is Some {
            lemma_admits_push(Seq::empty(), ps@[0], row, sem);
            assert(ps@ =~= Seq::<Predicate>::empty().push(ps@[0]));
        }
    }
    let ghost p1 = ps@;
    assert(forall|row: PostModel, sem: Semantics|
        admits(p1, row, sem) == (f.title is Some ==> (sem.text_match)(f.title->0@, row.title)));
    if let Some(a) = &f.author {
        ps.push(Predicate::AuthorMatches(a.clone()));
    }
    let ghost p2 = ps@;
    assert forall|row: PostModel, sem: Semantics|
        admits(p2, row, sem) == (admits(p1, row, sem) && (f.author is Some ==> (sem.text_match)(
            f.author->0@,
            row.author,
        ))) by {
        if f.author is Some {
            lemma_admits_push(p1, ps@.last(), row, sem);
            assert(ps@ =~= p1.push(ps@.last()));
        }
    }
    if let Some(c) = &f.creation_time {
        ps.push(Predicate::CreatedSince(c.clone()));
    }
    let ghost p3 = ps@;
    assert forall|row: PostModel, sem: Semantics|
        admits(p3, row, sem) == (admits(p2, row, sem) && (f.creation_time is Some ==> (sem.since)(
            f.creation_time->0@,
            row.creation_time,
        ))) by {
        if f.creation_time is Some {
            lemma_admits_push(p2, ps@.last(), row, sem);
            assert(ps@ =~= p2.push(ps@.last()));
        }
    }
    if let Some(st) = &f.status {
        ps.push(Predicate::StatusIs(*st));
    }
    let ghost p4 = ps@;
    assert forall|row: PostModel, sem: Semantics|
        admits(p4, row, sem) == (admits(p3, row, sem) && (f.status is Some ==> row.post_status
            == f.status->0)) by {
        if f.status is Some {
            lemma_admits_push(p3, ps@.last(), row, sem);
            assert(ps@ =~= p3.push(ps@.last()));
        }
    }
    let limit = match f.limit {
        Some(l) => l,
        None => DEFAULT_LIMIT,
    };
    let offset = match f.offset {
        Some(o) => o,
        None => 0,
    };
    let q = ListQuery { predicates: ps, limit, offset };
    assert forall|row: PostModel, sem: Semantics|
        admits(q.predicates@, row, sem) <==> filters_admit(*f, row, sem) by {
        assert(admits(p4, row, sem) == (admits(p3, row, sem) && (f.status is Some
            ==> row.post_status == f.status->0)));
        assert(admits(p3, row, sem) == (admits(p2, row, sem) && (f.creation_time is Some ==> (
        sem.since)(f.creation_time->0@, row.creation_time))));
        assert(admits(p2, row, sem) == (admits(p1, row, sem) && (f.author is Some ==> (
        sem.text_match)(f.author->0@, row.author))));
        assert(admits(p1, row, sem) == (f.title is Some ==> (sem.text_match)(
            f.title->0@,
            row.title,
        )));
    }
    q
}

/// Filters are conjunctive: a listed row meets the title filter and the
/// author filter and every other given filter, all at once.
pub proof fn lemma_filters_are_conjunctive(q: ListQuery, f: ListFilters, row: PostModel, sem: Semantics)
    requires
        lists(q, f),
        admits(q.predicates@, row, sem),
    ensures
        f.title is Some ==> (sem.text_match)(f.title->0@, row.title),
        f.author is Some ==> (sem.text_match)(f.author->0@, row.author),
        f.creation_time is Some ==> (sem.since)(f.creation_time->0@, row.creation_time),
        f.status is Some ==> row.post_status == f.status->0,
{
    assert(filters_admit(f, row, sem));
}

} // verus!
