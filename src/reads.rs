use vstd::prelude::*;
use crate::model::{
    fails_with, finds_slug, is_call, GetPostsResponse, Outcome, PostError, PostRow,
    PostWithTags, Reply, Step, StoreCall,
};
use crate::query::{build_list_query, lists, same_rows, ListFilters, ListQuery};

verus! {

/// Where the reading of one post stands.
#[derive(Clone, Copy, Debug, PartialEq, Eq, Structural)]
pub enum GetStage {
    AwaitPost,
    AwaitTags,
    Finished,
}

/// The reading of one post and its tag names.
#[derive(Debug)]
pub struct GetPost {
    pub row: Option<PostRow>,
    pub stage: GetStage,
}

impl GetPost {
    /// How a read opens: the lookup of the slug.
    pub open spec fn opening(slug: Seq<char>, m: GetPost, s: Step) -> bool {
        m.stage == GetStage::AwaitPost && finds_slug(s, slug)
    }

    /// Starts reading the post stored under `slug`.
    pub fn start(slug: &str) -> (r: (GetPost, Step))
        ensures
            GetPost::opening(slug@, r.0, r.1),
    {
        (GetPost { row: None, stage: GetStage::AwaitPost }, Step::Call(StoreCall::FindPostBySlug(String::from_str(slug))))
    }

    /// One move: an absent slug ends in `NotFound`; a found post is returned
    /// with the tag names the store gives for it.
    pub open spec fn next(self, reply: Reply, m: GetPost, s: Step) -> bool {
        match self.stage {
            GetStage::AwaitPost => match reply {
                Reply::Post(row) => m.stage == GetStage::AwaitTags && m.row == Some(row) && is_call(
                    s,
                    StoreCall::FindPostTags(row.id),
                ),
                Reply::Missing => m.stage == GetStage::Finished && fails_with(s, PostError::NotFound),
                _ => m.stage == GetStage::Finished && fails_with(s, PostError::Storage),
            },
            GetStage::AwaitTags => m.stage == GetStage::Finished && match (reply, self.row) {
                (Reply::TagNames(v), Some(row)) => s == Step::Finish(
                    Ok(Outcome::Post(PostWithTags { post: row, tags: v })),
                ),
                _ => fails_with(s, PostError::Storage),
            },
            GetStage::Finished => false,
        }
    }

    /// Takes the store's reply to the last call and says what comes next.
    pub fn resume(&mut self, reply: Reply) -> (s: Step)
        requires
            old(self).stage != GetStage::Finished,
        ensures
            old(self).next(reply, *final(self), s),
    {
        match self.stage {
            GetStage::AwaitPost => match reply {
                Reply::Post(row) => {
                    let id = row.id;
                    self.row = Some(row);
                    self.stage = GetStage::AwaitTags;
                    Step::Call(StoreCall::FindPostTags(id))
                },
                Reply::Missing => {
                    self.stage = GetStage::Finished;
                    Step::Finish(Err(PostError::NotFound))
                },
                _ => {
                    self.stage = GetStage::Finished;
                    Step::Finish(Err(PostError::Storage))
                },
            },
            _ => {
                self.stage = GetStage::Finished;
                let mut row: Option<PostRow> = None;
                std::mem::swap(&mut row, &mut self.row);
                match (reply, row) {
                    (Reply::TagNames(v), Some(row)) => Step::Finish(
                        Ok(Outcome::Post(PostWithTags { post: row, tags: v })),
                    ),
                    _ => Step::Finish(Err(PostError::Storage)),
                }
            },
        }
    }
}

/// Where the reading of several posts stands.
#[derive(Clone, Copy, Debug, PartialEq, Eq, Structural)]
pub enum BulkStage {
    AwaitPosts,
    AwaitTags,
    Finished,
}

/// The reading of the posts stored under a list of slugs, each with its tag names.
#[derive(Debug)]
pub struct BulkGet {
    pub rows: Vec<PostRow>,
    pub done: Vec<PostWithTags>,
    pub stage: BulkStage,
}

impl BulkGet {
    pub open spec fn inv(&self) -> bool {
        self.stage == BulkStage::AwaitTags ==> self.done.len() < self.rows.len()
    }

    /// How a bulk read opens. An empty list is answered at once with no
    /// posts, without asking the store.
    pub open spec fn opening(slugs: Vec<String>, m: BulkGet, s: Step) -> bool {
        &&& m.inv()
        &&& slugs.len() == 0 ==> m.stage == BulkStage::Finished && match s {
            Step::Finish(Ok(Outcome::Posts(v))) => v.len() == 0,
            _ => false,
        }
        &&& slugs.len() > 0 ==> m.stage == BulkStage::AwaitPosts && s == Step::Call(
            StoreCall::FindPostsBySlugs(slugs),
        )
    }

    /// Starts reading the posts stored under `slugs`.
    pub fn start(slugs: Vec<String>) -> (r: (BulkGet, Step))
        ensures
            BulkGet::opening(slugs, r.0, r.1),
    {
        if slugs.len() == 0 {
            (BulkGet { rows: Vec::new(), done: Vec::new(), stage: BulkStage::Finished }, Step::Finish(
                Ok(Outcome::Posts(Vec::new())),
            ))
        } else {
            (BulkGet { rows: Vec::new(), done: Vec::new(), stage: BulkStage::AwaitPosts }, Step::Call(
                StoreCall::FindPostsBySlugs(slugs),
            ))
        }
    }

    /// One move: the found posts are taken one by one, each paired with the
    /// tag names the store gives for it, in the order the store found them.
    pub open spec fn next(self, reply: Reply, m: BulkGet, s: Step) -> bool {
        match self.stage {
            BulkStage::AwaitPosts => match reply {
                Reply::Posts(rows) => if rows.len() == 0 {
                    m.stage == BulkStage::Finished && match s {
                        Step::Finish(Ok(Outcome::Posts(v))) => v.len() == 0,
                        _ => false,
                    }
                } else {
                    m.stage == BulkStage::AwaitTags && m.rows == rows && m.done@.len() == 0
                        && is_call(s, StoreCall::FindPostTags(rows@[0].id))
                },
                _ => m.stage == BulkStage::Finished && fails_with(s, PostError::Storage),
            },
            BulkStage::AwaitTags => match reply {
                Reply::TagNames(v) => {
                    let k = self.done.len() as int;
                    let done = self.done@.push(PostWithTags { post: self.rows@[k], tags: v });
                    if k + 1 < self.rows.len() {
                        m.stage == BulkStage::AwaitTags && m.rows == self.rows && m.done@ == done
                            && is_call(s, StoreCall::FindPostTags(self.rows@[k + 1].id))
                    } else {
                        m.stage == BulkStage::Finished && match s {
                            Step::Finish(Ok(Outcome::Posts(all))) => all@ == done,
                            _ => false,
                        }
                    }
                },
                _ => m.stage == BulkStage::Finished && fails_with(s, PostError::Storage),
            },
            BulkStage::Finished => false,
        }
    }

    /// Takes the store's reply to the last call and says what comes next.
    pub fn resume(&mut self, reply: Reply) -> (s: Step)
        requires
            old(self).inv(),
            old(self).stage != BulkStage::Finished,
        ensures
            final(self).inv(),
            old(self).next(reply, *final(self), s),
    {
        match self.stage {
            BulkStage::AwaitPosts => match reply {
                Reply::Posts(rows) => {
                    if rows.len() == 0 {
                        self.stage = BulkStage::Finished;
                        Step::Finish(Ok(Outcome::Posts(Vec::new())))
                    } else {
                        let id = rows[0].id;
                        self.rows = rows;
                        self.done = Vec::new();
                        self.stage = BulkStage::AwaitTags;
                        Step::Call(StoreCall::FindPostTags(id))
                    }
                },
                _ => {
                    self.stage = BulkStage::Finished;
                    Step::Finish(Err(PostError::Storage))
                },
            },
            _ => match reply {
                Reply::TagNames(v) => {
                    let k = self.done.len();
                    let post = self.rows[k].duplicate();
                    self.done.push(PostWithTags { post, tags: v });
                    if k + 1 < self.rows.len() {
                        Step::Call(StoreCall::FindPostTags(self.rows[k + 1].id))
                    } else {
                        self.stage = BulkStage::Finished;
                        let mut all: Vec<PostWithTags> = Vec::new();
                        std::mem::swap(&mut all, &mut self.done);
                        Step::Finish(Ok(Outcome::Posts(all)))
                    }
                },
                _ => {
                    self.stage = BulkStage::Finished;
                    Step::Finish(Err(PostError::Storage))
                },
            },
        }
    }
}

/// Where a listing stands.
#[derive(Clone, Copy, Debug, PartialEq, Eq, Structural)]
pub enum ListStage {
    AwaitRows,
    AwaitCount,
    Finished,
}

/// The slugs of the rows on a page.
pub open spec fn slugs_of(rows: Seq<PostRow>) -> Seq<Seq<char>> {
    rows.map_values(|r: PostRow| r.slug@)
}

/// A listing of posts, with the total count only when it is asked for.
#[derive(Debug)]
pub struct GetPosts {
    pub query: ListQuery,
    pub add_count: bool,
    pub slugs: Vec<String>,
    pub stage: ListStage,
}

impl GetPosts {
    /// How a listing opens: the query for the page that the filters ask for.
    /// The count is asked for later, and only when `add_count` is true.
    pub open spec fn opening(filters: ListFilters, m: GetPosts, s: Step) -> bool {
        &&& m.stage == ListStage::AwaitRows
        &&& m.add_count == (filters.add_count == Some(true))
        &&& lists(m.query, filters)
        &&& match s {
            Step::Call(StoreCall::ListPosts(q)) => lists(q, filters),
            _ => false,
        }
    }

    /// Starts the listing that the filters ask for.
    pub fn start(filters: &ListFilters) -> (r: (GetPosts, Step))
        ensures
            GetPosts::opening(*filters, r.0, r.1),
    {
        let query = build_list_query(filters);
        let add_count = match filters.add_count {
            Some(b) => b,
            None => false,
        };
        let call = StoreCall::ListPosts(query.duplicate());
        (GetPosts { query, add_count, slugs: Vec::new(), stage: ListStage::AwaitRows }, Step::Call(call))
    }

    /// One move: the page's slugs are kept in the order of the rows; the
    /// count, when asked for, is made over the same rows.
    pub open spec fn next(self, reply: Reply, m: GetPosts, s: Step) -> bool {
        match self.stage {
            ListStage::AwaitRows => match reply {
                Reply::Posts(rows) => if self.add_count {
                    &&& m.stage == ListStage::AwaitCount
                    &&& m.slugs.deep_view() == slugs_of(rows@)
                    &&& m.query == self.query
                    &&& match s {
                        Step::Call(StoreCall::CountPosts(q)) => same_rows(q, self.query),
                        _ => false,
                    }
                } else {
                    m.stage == ListStage::Finished && match s {
                        Step::Finish(Ok(Outcome::Page(p))) => p.posts.deep_view() == slugs_of(rows@)
                            && p.count == None::<u64>,
                        _ => false,
                    }
                },
                _ => m.stage == ListStage::Finished && fails_with(s, PostError::Storage),
            },
            ListStage::AwaitCount => m.stage == ListStage::Finished && match reply {
                Reply::Count(n) => s == Step::Finish(
                    Ok(Outcome::Page(GetPostsResponse { posts: self.slugs, count: Some(n) })),
                ),
                _ => fails_with(s, PostError::Storage),
            },
            ListStage::Finished => false,
        }
    }

    /// Takes the store's reply to the last call and says what comes next.
    pub fn resume(&mut self, reply: Reply) -> (s: Step)
        requires
            old(self).stage != ListStage::Finished,
        ensures
            old(self).next(reply, *final(self), s),
    {
        match self.stage {
            ListStage::AwaitRows => match reply {
                Reply::Posts(rows) => {
                    let slugs = slugs_in(&rows);
                    if self.add_count {
                        self.slugs = slugs;
                        self.stage = ListStage::AwaitCount;
                        Step::Call(StoreCall::CountPosts(self.query.duplicate()))
                    } else {
                        self.stage = ListStage::Finished;
                        Step::Finish(Ok(Outcome::Page(GetPostsResponse { posts: slugs, count: None })))
                    }
                },
                _ => {
                    self.stage = ListStage::Finished;
                    Step::Finish(Err(PostError::Storage))
                },
            },
            _ => {
                self.stage = ListStage::Finished;
                match reply {
                    Reply::Count(n) => {
                        let mut slugs: Vec<String> = Vec::new();
                        std::mem::swap(&mut slugs, &mut self.slugs);
                        Step::Finish(Ok(Outcome::Page(GetPostsResponse { posts: slugs, count: Some(n) })))
                    },
                    _ => Step::Finish(Err(PostError::Storage)),
                }
            },
        }
    }
}

/// The slugs of the rows, in order.
pub fn slugs_in(rows: &Vec<PostRow>) -> (r: Vec<String>)
    ensures
        r.deep_view() == slugs_of(rows@),
{
    let mut r: Vec<String> = Vec::new();
    let mut i: usize = 0;
    while i < rows.len()
        invariant
            i <= rows.len(),
            r.deep_view() == slugs_of(rows@.subrange(0, i as int)),
        decreases rows.len() - i,
    {
        r.push(rows[i].slug.clone());
        assert(slugs_of(rows@.subrange(0, i + 1)) =~= slugs_of(rows@.subrange(0, i as int)).push(
            rows@[i as int].slug@,
        ));
        assert(r.deep_view() =~= slugs_of(rows@.subrange(0, i + 1)));
        i = i + 1;
    }
    assert(rows@.subrange(0, rows.len() as int) =~= rows@);
    r
}

} // verus!
