use vstd::prelude::*;
use vstd::string::*;
use crate::auth::BearerAuthorization;
use crate::ids::{new_id, now_micros, parse_id, uuid_of};
use crate::model::{
    fails_with, finds_slug, is_write, has_min_len, is_call, long_enough, opt_view, InsertPostRequest, Outcome,
    PostError, PostModel, PostRow, PostStatus, Reply, Step, StoreCall,
};
use crate::slug::{canonical_slug, slug_of};
use crate::tags::{LinkStage, TagLinks};

verus! {

pub const MIN_TITLE_LEN: usize = 10;

pub const MIN_AUTHOR_LEN: usize = 3;

pub const MIN_SUBHEADING_LEN: usize = 3;

pub const MIN_HERO_IMAGE_LEN: usize = 5;

/// Every field of a new post meets its minimum length.
pub open spec fn insert_valid(req: InsertPostRequest) -> bool {
    &&& long_enough(req.title@, MIN_TITLE_LEN as nat)
    &&& long_enough(req.author@, MIN_AUTHOR_LEN as nat)
    &&& long_enough(req.subheading@, MIN_SUBHEADING_LEN as nat)
    &&& (req.hero_image is Some ==> long_enough(req.hero_image->0@, MIN_HERO_IMAGE_LEN as nat))
}

pub fn validate_insert(req: &InsertPostRequest) -> (r: bool)
    ensures
        r == insert_valid(*req),
{
    let hero_ok = match &req.hero_image {
        Some(h) => has_min_len(h.as_str(), MIN_HERO_IMAGE_LEN),
        None => true,
    };
    has_min_len(req.title.as_str(), MIN_TITLE_LEN) && has_min_len(req.author.as_str(), MIN_AUTHOR_LEN)
        && has_min_len(req.subheading.as_str(), MIN_SUBHEADING_LEN) && hero_ok
}

/// The path under which a post with this slug is read.
pub open spec fn created_path(slug: Seq<char>) -> Seq<char> {
    seq!['/', 'p', 'o', 's', 't', 's', '/'] + slug
}

pub fn path_of(slug: &String) -> (r: String)
    ensures
        r@ == created_path(slug@),
{
    let prefix = "/posts/";
    proof {
        reveal_strlit("/posts/");
    }
    assert(prefix@ =~= seq!['/', 'p', 'o', 's', 't', 's', '/']);
    String::from_str(prefix).concat(slug.as_str())
}

/// The tag names of a request; none when it gives none.
pub open spec fn names_of(tags: Option<Vec<String>>) -> Seq<String> {
    match tags {
        Some(v) => v@,
        None => Seq::empty(),
    }
}

/// The post that a valid request creates.
pub open spec fn new_post(req: InsertPostRequest, id: u128, now: i64, owner: u128) -> PostModel {
    PostModel {
        id,
        slug: canonical_slug(req.title@),
        title: req.title@,
        hero_image: opt_view(req.hero_image),
        creation_time: now,
        body: req.body@,
        author: req.author@,
        created_by: owner,
        subheading: req.subheading@,
        last_edit: None,
        post_status: PostStatus::Draft,
    }
}

/// Where the creation of a post stands.
#[derive(Clone, Copy, Debug, PartialEq, Eq, Structural)]
pub enum InsertStage {
    AwaitUser,
    AwaitSlug,
    AwaitBegin,
    Linking,
    AwaitPost,
    AwaitCommit,
    AwaitRollback(PostError),
    Finished,
}

/// The creation of a post, as a conversation with the store.
#[derive(Debug)]
pub struct InsertPost {
    pub row: PostRow,
    pub tags: TagLinks,
    pub stage: InsertStage,
}

impl InsertPost {
    pub open spec fn inv(&self) -> bool {
        &&& self.tags.post_id == self.row.id
        &&& match self.stage {
            InsertStage::AwaitUser | InsertStage::AwaitSlug | InsertStage::AwaitBegin => self.tags.ids.len()
                == 0 && self.tags.linked == 0,
            InsertStage::Linking => self.tags.inv() && self.tags.stage != LinkStage::Resolved
                && self.tags.stage != LinkStage::Complete,
            InsertStage::AwaitPost => self.tags.inv() && self.tags.stage == LinkStage::Resolved,
            InsertStage::AwaitCommit => self.tags.inv() && self.tags.stage == LinkStage::Complete,
            _ => true,
        }
    }

    /// No write has been asked for yet.
    pub open spec fn before_transaction(&self) -> bool {
        self.stage == InsertStage::AwaitUser || self.stage == InsertStage::AwaitSlug
            || self.stage == InsertStage::AwaitBegin
    }

    /// How a creation opens: the checks made before the store is asked
    /// anything, then the lookup of the caller's user.
    pub open spec fn opening(
        claims: BearerAuthorization,
        req: InsertPostRequest,
        id: u128,
        now: i64,
        m: InsertPost,
        s: Step,
    ) -> bool {
        if !insert_valid(req) {
            m.stage == InsertStage::Finished && fails_with(s, PostError::Validation)
        } else if !claims.may("create"@, "post"@) {
            m.stage == InsertStage::Finished && fails_with(s, PostError::PermissionDenied)
        } else {
            match uuid_of(claims.0.sub@) {
                None => m.stage == InsertStage::Finished && fails_with(s, PostError::Validation),
                Some(owner) => {
                    &&& m.stage == InsertStage::AwaitUser
                    &&& is_call(s, StoreCall::FindUser(owner))
                    &&& m.row@ == new_post(req, id, now, owner)
                    &&& m.tags.names@ == names_of(req.tags)
                    &&& m.inv()
                },
            }
        }
    }

    /// One move of the conversation: from `self`, on `reply`, to `m`, asking `s`.
    pub open spec fn next(self, reply: Reply, m: InsertPost, s: Step) -> bool {
        match self.stage {
            InsertStage::AwaitUser => match reply {
                Reply::User(_) => m.stage == InsertStage::AwaitSlug && finds_slug(s, self.row.slug@)
                    && m.row == self.row && m.tags == self.tags,
                Reply::Missing => m.stage == InsertStage::Finished && fails_with(
                    s,
                    PostError::Unauthenticated,
                ),
                _ => m.stage == InsertStage::Finished && fails_with(s, PostError::Storage),
            },
            InsertStage::AwaitSlug => match reply {
                Reply::Missing => m.stage == InsertStage::AwaitBegin && is_call(s, StoreCall::Begin)
                    && m.row == self.row && m.tags == self.tags,
                Reply::Post(_) => m.stage == InsertStage::Finished && fails_with(
                    s,
                    PostError::Conflict,
                ),
                _ => m.stage == InsertStage::Finished && fails_with(s, PostError::Storage),
            },
            InsertStage::AwaitBegin => match reply {
                Reply::Done => m.row == self.row && m.tags.names == self.tags.names
                    && m.tags.ids == self.tags.ids && if self.tags.names.len() > 0 {
                    m.stage == InsertStage::Linking && s is Call && m.tags.awaits(s->Call_0)
                } else {
                    m.stage == InsertStage::AwaitPost && is_call(s, StoreCall::InsertPost(self.row))
                },
                _ => m.stage == InsertStage::Finished && fails_with(s, PostError::Storage),
            },
            InsertStage::Linking => if self.tags.accepts(reply) {
                &&& m.row == self.row
                &&& m.tags.names == self.tags.names
                &&& match s {
                    Step::Call(c) => (m.stage == InsertStage::Linking && m.tags.awaits(c)) || (
                    m.stage == InsertStage::AwaitPost && c == StoreCall::InsertPost(self.row)) || (
                    m.stage == InsertStage::AwaitCommit && c == StoreCall::Commit),
                    Step::Finish(_) => false,
                }
            } else {
                m.stage == InsertStage::AwaitRollback(PostError::Storage) && is_call(
                    s,
                    StoreCall::Rollback,
                )
            },
            InsertStage::AwaitPost => match reply {
                Reply::Done => m.row == self.row && m.tags.names == self.tags.names && match s {
                    Step::Call(c) => (m.stage == InsertStage::Linking && m.tags.awaits(c)) || (
                    m.stage == InsertStage::AwaitCommit && c == StoreCall::Commit),
                    Step::Finish(_) => false,
                },
                Reply::Duplicate => m.stage == InsertStage::AwaitRollback(PostError::Conflict)
                    && is_call(s, StoreCall::Rollback),
                _ => m.stage == InsertStage::AwaitRollback(PostError::Storage) && is_call(
                    s,
                    StoreCall::Rollback,
                ),
            },
            InsertStage::AwaitCommit => m.stage == InsertStage::Finished && match reply {
                Reply::Done => match s {
                    Step::Finish(Ok(Outcome::Created(p))) => p@ == created_path(self.row.slug@),
                    _ => false,
                },
                _ => fails_with(s, PostError::Storage),
            },
            InsertStage::AwaitRollback(e) => m.stage == InsertStage::Finished && fails_with(s, e),
            InsertStage::Finished => false,
        }
    }

    fn finished(row: PostRow, tags: TagLinks, e: PostError) -> (r: (InsertPost, Step))
        ensures
            r.0.stage == InsertStage::Finished,
            fails_with(r.1, e),
    {
        (InsertPost { row, tags, stage: InsertStage::Finished }, Step::Finish(Err(e)))
    }

    /// Starts the creation of a post with identifier `id` at time `now`.
    pub fn start(claims: &BearerAuthorization, req: InsertPostRequest, id: u128, now: i64) -> (r: (
        InsertPost,
        Step,
    ))
        ensures
            InsertPost::opening(*claims, req, id, now, r.0, r.1),
    {
        let valid = validate_insert(&req);
        let allowed = claims.has_permission("create", "post");
        let owner = parse_id(claims.0.sub.as_str());
        let ghost names = names_of(req.tags);
        let names = match req.tags {
            Some(v) => v,
            None => Vec::new(),
        };
        let row = PostRow {
            id,
            slug: slug_of(req.title.as_str()),
            title: req.title,
            hero_image: req.hero_image,
            creation_time: now,
            body: req.body,
            author: req.author,
            created_by: 0,
            subheading: req.subheading,
            last_edit: None,
            post_status: PostStatus::Draft,
        };
        let tags = TagLinks::new(id, names);
        if !valid {
            return InsertPost::finished(row, tags, PostError::Validation);
        }
        if !allowed {
            return InsertPost::finished(row, tags, PostError::PermissionDenied);
        }
        match owner {
            None => InsertPost::finished(row, tags, PostError::Validation),
            Some(u) => {
                let mut row = row;
                row.created_by = u;
                (
                    InsertPost { row, tags, stage: InsertStage::AwaitUser },
                    Step::Call(StoreCall::FindUser(u)),
                )
            },
        }
    }

    /// Starts the creation of a post under a fresh identifier, now.
    pub fn open(claims: &BearerAuthorization, req: InsertPostRequest) -> (r: (InsertPost, Step))
        ensures
            exists|id: u128, now: i64| InsertPost::opening(*claims, req, id, now, r.0, r.1),
    {
        let id = new_id();
        let now = now_micros();
        InsertPost::start(claims, req, id, now)
    }

    /// Takes the store's reply to the last call and says what comes next.
    pub fn resume(&mut self, reply: Reply) -> (s: Step)
        requires
            old(self).inv(),
            old(self).stage != InsertStage::Finished,
        ensures
            final(self).inv(),
            old(self).next(reply, *final(self), s),
    {
        match self.stage {
            InsertStage::AwaitUser => match reply {
                Reply::User(_) => {
                    self.stage = InsertStage::AwaitSlug;
                    Step::Call(StoreCall::FindPostBySlug(self.row.slug.clone()))
                },
                Reply::Missing => self.fail(PostError::Unauthenticated),
                _ => self.fail(PostError::Storage),
            },
            InsertStage::AwaitSlug => match reply {
                Reply::Missing => {
                    self.stage = InsertStage::AwaitBegin;
                    Step::Call(StoreCall::Begin)
                },
                Reply::Post(_) => self.fail(PostError::Conflict),
                _ => self.fail(PostError::Storage),
            },
            InsertStage::AwaitBegin => match reply {
                Reply::Done => match self.tags.resolve_next() {
                    Some(c) => {
                        self.stage = InsertStage::Linking;
                        Step::Call(c)
                    },
                    None => {
                        self.stage = InsertStage::AwaitPost;
                        Step::Call(StoreCall::InsertPost(self.row.duplicate()))
                    },
                },
                _ => self.fail(PostError::Storage),
            },
            InsertStage::Linking => match self.tags.advance(reply) {
                Ok(Some(c)) => Step::Call(c),
                Ok(None) => {
                    if self.tags.stage == LinkStage::Resolved {
                        self.stage = InsertStage::AwaitPost;
                        Step::Call(StoreCall::InsertPost(self.row.duplicate()))
                    } else {
                        self.stage = InsertStage::AwaitCommit;
                        Step::Call(StoreCall::Commit)
                    }
                },
                Err(()) => self.roll_back(PostError::Storage),
            },
            InsertStage::AwaitPost => match reply {
                Reply::Done => match self.tags.begin_links() {
                    Some(c) => {
                        self.stage = InsertStage::Linking;
                        Step::Call(c)
                    },
                    None => {
                        self.stage = InsertStage::AwaitCommit;
                        Step::Call(StoreCall::Commit)
                    },
                },
                Reply::Duplicate => self.roll_back(PostError::Conflict),
                _ => self.roll_back(PostError::Storage),
            },
            InsertStage::AwaitCommit => match reply {
                Reply::Done => {
                    self.stage = InsertStage::Finished;
                    Step::Finish(Ok(Outcome::Created(path_of(&self.row.slug))))
                },
                _ => self.fail(PostError::Storage),
            },
            InsertStage::AwaitRollback(e) => self.fail(e),
            InsertStage::Finished => self.fail(PostError::Storage),
        }
    }

    fn fail(&mut self, e: PostError) -> (s: Step)
        ensures
            final(self).stage == InsertStage::Finished,
            final(self).row == old(self).row,
            final(self).tags == old(self).tags,
            fails_with(s, e),
    {
        self.stage = InsertStage::Finished;
        Step::Finish(Err(e))
    }

    fn roll_back(&mut self, e: PostError) -> (s: Step)
        ensures
            final(self).stage == InsertStage::AwaitRollback(e),
            final(self).row == old(self).row,
            final(self).tags == old(self).tags,
            is_call(s, StoreCall::Rollback),
    {
        self.stage = InsertStage::AwaitRollback(e);
        Step::Call(StoreCall::Rollback)
    }
}

/// A valid creation by a permitted caller stores the post as a draft, under
/// the canonical slug of its title, and asks for no write before it has
/// checked that slug.
pub proof fn lemma_created_slug_is_canonical(
    claims: BearerAuthorization,
    req: InsertPostRequest,
    id: u128,
    now: i64,
    m: InsertPost,
    s: Step,
)
    requires
        InsertPost::opening(claims, req, id, now, m, s),
        insert_valid(req),
        claims.may("create"@, "post"@),
        uuid_of(claims.0.sub@) is Some,
    ensures
        m.row.slug@ == canonical_slug(req.title@),
        m.row.post_status == PostStatus::Draft,
        m.before_transaction(),
        !is_write(s),
{
}

/// A creation whose title's slug is already stored looks that slug up, ends
/// in `Conflict`, and asks for no write on the way.
pub proof fn lemma_taken_slug_conflicts(
    claims: BearerAuthorization,
    req: InsertPostRequest,
    id: u128,
    now: i64,
    m0: InsertPost,
    s0: Step,
    user: Reply,
    m1: InsertPost,
    s1: Step,
    taken: Reply,
    m2: InsertPost,
    s2: Step,
)
    requires
        InsertPost::opening(claims, req, id, now, m0, s0),
        m0.stage == InsertStage::AwaitUser,
        user is User,
        m0.next(user, m1, s1),
        taken is Post,
        m1.next(taken, m2, s2),
    ensures
        finds_slug(s1, canonical_slug(req.title@)),
        fails_with(s2, PostError::Conflict),
        m2.stage == InsertStage::Finished,
        !is_write(s0) && !is_write(s1) && !is_write(s2),
{
}

/// When the store's unique constraint refuses the post, the transaction is
/// rolled back and the creation ends in `Conflict`.
pub proof fn lemma_refused_insert_rolls_back(
    m: InsertPost,
    reply: Reply,
    m1: InsertPost,
    s1: Step,
    after: Reply,
    m2: InsertPost,
    s2: Step,
)
    requires
        m.stage == InsertStage::AwaitPost,
        reply is Duplicate,
        m.next(reply, m1, s1),
        m1.next(after, m2, s2),
    ensures
        is_call(s1, StoreCall::Rollback),
        fails_with(s2, PostError::Conflict),
{
}

/// A creation is all or nothing: when a tag or association step fails inside
/// the transaction, the transaction is rolled back and the creation ends in a
/// storage error, so no post, tag or association of it is left behind.
pub proof fn lemma_failed_tag_step_rolls_back(
    m: InsertPost,
    reply: Reply,
    m1: InsertPost,
    s1: Step,
    after: Reply,
    m2: InsertPost,
    s2: Step,
)
    requires
        m.stage == InsertStage::Linking,
        !m.tags.accepts(reply),
        m.next(reply, m1, s1),
        m1.next(after, m2, s2),
    ensures
        is_call(s1, StoreCall::Rollback),
        fails_with(s2, PostError::Storage),
        m2.stage == InsertStage::Finished,
{
}

} // verus!
