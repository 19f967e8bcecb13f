use vstd::prelude::*;
use crate::auth::BearerAuthorization;
use crate::ids::now_micros;
use crate::insert::{MIN_AUTHOR_LEN, MIN_HERO_IMAGE_LEN, MIN_SUBHEADING_LEN, MIN_TITLE_LEN};
use crate::model::{
    fails_with, is_write, finds_slug, has_min_len, is_call, long_enough, updates_post, Outcome,
    PatchPostRequest, PostError, PostModel, PostRow, PostStatus, Reply, Step, StoreCall,
};
use crate::slug::{canonical_slug, slug_of};
use crate::tags::{LinkStage, TagLinks};

verus! {

/// Every supplied field meets its minimum length.
pub open spec fn patch_valid(req: PatchPostRequest) -> bool {
    &&& (req.title is Some ==> long_enough(req.title->0@, MIN_TITLE_LEN as nat))
    &&& (req.author is Some ==> long_enough(req.author->0@, MIN_AUTHOR_LEN as nat))
    &&& (req.subheading is Some ==> long_enough(req.subheading->0@, MIN_SUBHEADING_LEN as nat))
    &&& (req.hero_image is Some ==> long_enough(req.hero_image->0@, MIN_HERO_IMAGE_LEN as nat))
}

fn opt_min_len(s: &Option<String>, min: usize) -> (r: bool)
    ensures
        r == (s is Some ==> long_enough(s->0@, min as nat)),
{
    match s {
        Some(t) => has_min_len(t.as_str(), min),
        None => true,
    }
}

pub fn validate_patch(req: &PatchPostRequest) -> (r: bool)
    ensures
        r == patch_valid(*req),
{
    opt_min_len(&req.title, MIN_TITLE_LEN) && opt_min_len(&req.author, MIN_AUTHOR_LEN)
        && opt_min_len(&req.subheading, MIN_SUBHEADING_LEN) && opt_min_len(
        &req.hero_image,
        MIN_HERO_IMAGE_LEN,
    )
}

pub open spec fn text_or(o: Option<String>, d: Seq<char>) -> Seq<char> {
    match o {
        Some(s) => s@,
        None => d,
    }
}

/// The post with the supplied fields applied; a new title brings its slug along.
pub open spec fn patched(cur: PostModel, req: PatchPostRequest) -> PostModel {
    PostModel {
        id: cur.id,
        slug: match req.title {
            Some(t) => canonical_slug(t@),
            None => cur.slug,
        },
        title: text_or(req.title, cur.title),
        hero_image: match req.hero_image {
            Some(h) => Some(h@),
            None => cur.hero_image,
        },
        creation_time: cur.creation_time,
        body: text_or(req.body, cur.body),
        author: text_or(req.author, cur.author),
        created_by: cur.created_by,
        subheading: text_or(req.subheading, cur.subheading),
        last_edit: cur.last_edit,
        post_status: match req.status {
            Some(s) => s,
            None => cur.post_status,
        },
    }
}

/// `p` with its last-edit time set to `t`.
pub open spec fn edited(p: PostModel, t: Option<i64>) -> PostModel {
    PostModel { last_edit: t, ..p }
}

/// The two lists name the same tags, in any order and with any repeats.
pub open spec fn same_names(a: Seq<Seq<char>>, b: Seq<Seq<char>>) -> bool {
    &&& forall|i: int| 0 <= i < a.len() ==> b.contains(#[trigger] a[i])
    &&& forall|j: int| 0 <= j < b.len() ==> a.contains(#[trigger] b[j])
}

fn contains_name(v: &Vec<String>, s: &String) -> (r: bool)
    ensures
        r == v.deep_view().contains(s@),
{
    let mut i: usize = 0;
    while i < v.len()
        invariant
            i <= v.len(),
            forall|j: int| 0 <= j < i ==> v.deep_view()[j] != s@,
        decreases v.len() - i,
    {
        if v[i] == *s {
            assert(v.deep_view()[i as int] == s@);
            return true;
        }
        i = i + 1;
    }
    false
}

fn all_named_in(a: &Vec<String>, b: &Vec<String>) -> (r: bool)
    ensures
        r == forall|i: int| 0 <= i < a.deep_view().len() ==> b.deep_view().contains(
            #[trigger] a.deep_view()[i],
        ),
{
    let mut i: usize = 0;
    while i < a.len()
        invariant
            i <= a.len(),
            forall|j: int| 0 <= j < i ==> b.deep_view().contains(#[trigger] a.deep_view()[j]),
        decreases a.len() - i,
    {
        if !contains_name(b, &a[i]) {
            assert(!b.deep_view().contains(a.deep_view()[i as int]));
            return false;
        }
        i = i + 1;
    }
    true
}

pub fn same_tag_names(a: &Vec<String>, b: &Vec<String>) -> (r: bool)
    ensures
        r == same_names(a.deep_view(), b.deep_view()),
{
    all_named_in(a, b) && all_named_in(b, a)
}

/// Where a patch stands.
#[derive(Clone, Copy, Debug, PartialEq, Eq, Structural)]
pub enum PatchStage {
    AwaitCurrent,
    AwaitCurrentTags,
    AwaitBegin,
    AwaitSlugOwner,
    Unlinking,
    Linking,
    AwaitUpdate,
    AwaitCommit,
    /// Nothing changes: the transaction is closed and the patch ends in `NoChange`.
    AwaitRelease,
    AwaitRollback(PostError),
    Finished,
}

/// A patch of a post, as a conversation with the store.
#[derive(Debug)]
pub struct PatchPost {
    /// The supplied fields; the tag list is held by `tags`.
    pub fields: PatchPostRequest,
    /// Whether a tag list was supplied.
    pub replace_tags: bool,
    pub current: PostRow,
    pub current_tags: Vec<String>,
    pub updated: PostRow,
    pub tags: TagLinks,
    pub stage: PatchStage,
}

fn blank_row() -> (r: PostRow) {
    PostRow {
        id: 0,
        slug: String::new(),
        title: String::new(),
        hero_image: None,
        creation_time: 0,
        body: String::new(),
        author: String::new(),
        created_by: 0,
        subheading: String::new(),
        last_edit: None,
        post_status: PostStatus::Draft,
    }
}

impl PatchPost {
    pub open spec fn inv(&self) -> bool {
        &&& self.fields.tags is None
        &&& match self.stage {
            PatchStage::AwaitCurrent => self.tags.ids.len() == 0 && self.tags.linked == 0,
            PatchStage::Finished | PatchStage::AwaitRelease | PatchStage::AwaitRollback(_) => true,
            _ => {
                &&& self.tags.post_id == self.current.id
                &&& match self.stage {
                    PatchStage::Linking => self.tags.inv() && self.tags.stage != LinkStage::Resolved
                        && self.tags.stage != LinkStage::Complete,
                    PatchStage::AwaitUpdate | PatchStage::AwaitCommit => true,
                    _ => self.tags.ids.len() == 0 && self.tags.linked == 0,
                }
            },
        }
    }

    /// The patch changes the post: a field differs, or a supplied tag list
    /// names other tags than the post has.
    pub open spec fn changes(&self) -> bool {
        ||| patched(self.current@, self.fields) != self.current@
        ||| (self.replace_tags && !same_names(self.tags.names.deep_view(), self.current_tags.deep_view()))
    }

    /// How a patch opens: the checks made before the store is asked anything,
    /// then the lookup of the post.
    pub open spec fn opening(
        claims: BearerAuthorization,
        slug: Seq<char>,
        req: PatchPostRequest,
        m: PatchPost,
        s: Step,
    ) -> bool {
        if !patch_valid(req) {
            m.stage == PatchStage::Finished && fails_with(s, PostError::Validation)
        } else if !claims.may("update"@, "post"@) {
            m.stage == PatchStage::Finished && fails_with(s, PostError::PermissionDenied)
        } else {
            &&& m.stage == PatchStage::AwaitCurrent
            &&& finds_slug(s, slug)
            &&& m.fields == PatchPostRequest { tags: None, ..req }
            &&& m.replace_tags == req.tags is Some
            &&& m.tags.names@ == (match req.tags {
                Some(v) => v@,
                None => Seq::empty(),
            })
            &&& m.inv()
        }
    }

    /// What the patch does once the slug is settled: close the transaction
    /// when nothing changes, else write the changed post, stamped with an
    /// edit time, after replacing the tags if they change.
    pub open spec fn decided(self, m: PatchPost, s: Step) -> bool {
        &&& m.current == self.current
        &&& m.current_tags == self.current_tags
        &&& m.fields == self.fields
        &&& m.replace_tags == self.replace_tags
        &&& m.tags.names == self.tags.names
        &&& if !self.changes() {
            m.stage == PatchStage::AwaitRelease && is_call(s, StoreCall::Rollback)
        } else {
            &&& m.updated.last_edit is Some
            &&& m.updated@ == edited(patched(self.current@, self.fields), m.updated.last_edit)
            &&& if self.replace_tags && !same_names(
                self.tags.names.deep_view(),
                self.current_tags.deep_view(),
            ) {
                m.stage == PatchStage::Unlinking && is_call(
                    s,
                    StoreCall::DeletePostTags(self.current.id),
                )
            } else {
                m.stage == PatchStage::AwaitUpdate && updates_post(s, m.updated@)
            }
        }
    }

    /// One move of the conversation: from `self`, on `reply`, to `m`, asking `s`.
    pub open spec fn next(self, reply: Reply, m: PatchPost, s: Step) -> bool {
        match self.stage {
            PatchStage::AwaitCurrent => match reply {
                Reply::Post(row) => {
                    &&& m.current == row
                    &&& m.fields == self.fields
                    &&& m.replace_tags == self.replace_tags
                    &&& m.tags.names == self.tags.names
                    &&& if self.replace_tags {
                        m.stage == PatchStage::AwaitCurrentTags && is_call(
                            s,
                            StoreCall::FindPostTags(row.id),
                        )
                    } else {
                        m.stage == PatchStage::AwaitBegin && is_call(s, StoreCall::Begin)
                    }
                },
                Reply::Missing => m.stage == PatchStage::Finished && fails_with(
                    s,
                    PostError::NotFound,
                ),
                _ => m.stage == PatchStage::Finished && fails_with(s, PostError::Storage),
            },
            PatchStage::AwaitCurrentTags => match reply {
                Reply::TagNames(v) => m.stage == PatchStage::AwaitBegin && is_call(
                    s,
                    StoreCall::Begin,
                ) && m.current_tags == v && m.current == self.current && m.fields == self.fields
                    && m.replace_tags == self.replace_tags && m.tags.names == self.tags.names,
                _ => m.stage == PatchStage::Finished && fails_with(s, PostError::Storage),
            },
            PatchStage::AwaitBegin => match reply {
                Reply::Done => match self.fields.title {
                    Some(t) => m.stage == PatchStage::AwaitSlugOwner && finds_slug(
                        s,
                        canonical_slug(t@),
                    ) && m.current == self.current && m.current_tags == self.current_tags
                        && m.fields == self.fields && m.replace_tags == self.replace_tags
                        && m.tags.names == self.tags.names,
                    None => self.decided(m, s),
                },
                _ => m.stage == PatchStage::Finished && fails_with(s, PostError::Storage),
            },
            PatchStage::AwaitSlugOwner => match reply {
                Reply::Missing => self.decided(m, s),
                Reply::Post(p) => if p.id == self.current.id {
                    self.decided(m, s)
                } else {
                    m.stage == PatchStage::AwaitRollback(PostError::Conflict) && is_call(
                        s,
                        StoreCall::Rollback,
                    )
                },
                _ => m.stage == PatchStage::AwaitRollback(PostError::Storage) && is_call(
                    s,
                    StoreCall::Rollback,
                ),
            },
            PatchStage::Unlinking | PatchStage::Linking => if (self.stage == PatchStage::Unlinking
                && reply == Reply::Done) || (self.stage == PatchStage::Linking
                && self.tags.accepts(reply)) {
                &&& m.updated == self.updated
                &&& m.tags.names == self.tags.names
                &&& match s {
                    Step::Call(c) => (m.stage == PatchStage::Linking && m.tags.awaits(c)) || (
                    m.stage == PatchStage::AwaitUpdate && c == StoreCall::UpdatePost(self.updated)),
                    Step::Finish(_) => false,
                }
            } else {
                m.stage == PatchStage::AwaitRollback(PostError::Storage) && is_call(
                    s,
                    StoreCall::Rollback,
                )
            },
            PatchStage::AwaitUpdate => match reply {
                Reply::Done => m.stage == PatchStage::AwaitCommit && is_call(s, StoreCall::Commit)
                    && m.updated == self.updated,
                Reply::Duplicate => m.stage == PatchStage::AwaitRollback(PostError::Conflict)
                    && is_call(s, StoreCall::Rollback),
                _ => m.stage == PatchStage::AwaitRollback(PostError::Storage) && is_call(
                    s,
                    StoreCall::Rollback,
                ),
            },
            PatchStage::AwaitCommit => m.stage == PatchStage::Finished && match reply {
                Reply::Done => match s {
                    Step::Finish(Ok(Outcome::Updated(p))) => p@ == self.updated.slug@,
                    _ => false,
                },
                _ => fails_with(s, PostError::Storage),
            },
            PatchStage::AwaitRelease => m.stage == PatchStage::Finished && s == Step::Finish(
                Ok(Outcome::NoChange),
            ),
            PatchStage::AwaitRollback(e) => m.stage == PatchStage::Finished && fails_with(s, e),
            PatchStage::Finished => false,
        }
    }

    /// Starts a patch of the post stored under `slug`.
    pub fn start(claims: &BearerAuthorization, slug: &str, req: PatchPostRequest) -> (r: (
        PatchPost,
        Step,
    ))
        ensures
            PatchPost::opening(*claims, slug@, req, r.0, r.1),
    {
        let valid = validate_patch(&req);
        let allowed = claims.has_permission("update", "post");
        let replace_tags = req.tags.is_some();
        let PatchPostRequest { title, author, body, subheading, status, tags, hero_image } = req;
        let names = match tags {
            Some(v) => v,
            None => Vec::new(),
        };
        let fields = PatchPostRequest { title, author, body, subheading, status, tags: None, hero_image };
        let mut m = PatchPost {
            fields,
            replace_tags,
            current: blank_row(),
            current_tags: Vec::new(),
            updated: blank_row(),
            tags: TagLinks::new(0, names),
            stage: PatchStage::Finished,
        };
        if !valid {
            return (m, Step::Finish(Err(PostError::Validation)));
        }
        if !allowed {
            return (m, Step::Finish(Err(PostError::PermissionDenied)));
        }
        m.stage = PatchStage::AwaitCurrent;
        (m, Step::Call(StoreCall::FindPostBySlug(String::from_str(slug))))
    }

    /// Applies the supplied fields to the current post.
    pub fn apply(&self) -> (r: PostRow)
        ensures
            r@ == patched(self.current@, self.fields),
    {
        let mut r = self.current.duplicate();
        if let Some(t) = &self.fields.title {
            r.title = t.clone();
            r.slug = slug_of(t.as_str());
        }
        if let Some(a) = &self.fields.author {
            r.author = a.clone();
        }
        if let Some(b) = &self.fields.body {
            r.body = b.clone();
        }
        if let Some(s) = &self.fields.subheading {
            r.subheading = s.clone();
        }
        if let Some(st) = &self.fields.status {
            r.post_status = *st;
        }
        if let Some(h) = &self.fields.hero_image {
            r.hero_image = Some(h.clone());
        }
        r
    }

    fn decide(&mut self) -> (s: Step)
        requires
            old(self).inv(),
            old(self).tags.post_id == old(self).current.id,
            old(self).tags.ids.len() == 0,
            old(self).tags.linked == 0,
        ensures
            final(self).inv(),
            old(self).decided(*final(self), s),
    {
        let updated = self.apply();
        let retag = self.replace_tags && !same_tag_names(&self.tags.names, &self.current_tags);
        if !retag && updated.eq_model(&self.current) {
            self.stage = PatchStage::AwaitRelease;
            return Step::Call(StoreCall::Rollback);
        }
        let mut updated = updated;
        updated.last_edit = Some(now_micros());
        self.updated = updated;
        if retag {
            self.stage = PatchStage::Unlinking;
            Step::Call(StoreCall::DeletePostTags(self.current.id))
        } else {
            self.stage = PatchStage::AwaitUpdate;
            Step::Call(StoreCall::UpdatePost(self.updated.duplicate()))
        }
    }

    /// After the last tag is resolved, or the old associations are gone:
    /// write the new associations, then the post.
    fn link_or_update(&mut self) -> (s: Step)
        requires
            old(self).tags.inv(),
            old(self).tags.stage == LinkStage::Resolved,
            old(self).tags.post_id == old(self).current.id,
            old(self).fields.tags is None,
        ensures
            final(self).inv(),
            final(self).updated == old(self).updated,
            final(self).tags.names == old(self).tags.names,
            match s {
                Step::Call(c) => (final(self).stage == PatchStage::Linking && final(self).tags.awaits(c))
                    || (final(self).stage == PatchStage::AwaitUpdate && c == StoreCall::UpdatePost(
                    old(self).updated,
                )),
                Step::Finish(_) => false,
            },
    {
        match self.tags.begin_links() {
            Some(c) => {
                self.stage = PatchStage::Linking;
                Step::Call(c)
            },
            None => {
                self.stage = PatchStage::AwaitUpdate;
                Step::Call(StoreCall::UpdatePost(self.updated.duplicate()))
            },
        }
    }

    /// Takes the store's reply to the last call and says what comes next.
    pub fn resume(&mut self, reply: Reply) -> (s: Step)
        requires
            old(self).inv(),
            old(self).stage != PatchStage::Finished,
        ensures
            final(self).inv(),
            old(self).next(reply, *final(self), s),
    {
        match self.stage {
            PatchStage::AwaitCurrent => match reply {
                Reply::Post(row) => {
                    self.tags.post_id = row.id;
                    if self.replace_tags {
                        self.stage = PatchStage::AwaitCurrentTags;
                        let id = row.id;
                        self.current = row;
                        Step::Call(StoreCall::FindPostTags(id))
                    } else {
                        self.stage = PatchStage::AwaitBegin;
                        self.current = row;
                        Step::Call(StoreCall::Begin)
                    }
                },
                Reply::Missing => self.fail(PostError::NotFound),
                _ => self.fail(PostError::Storage),
            },
            PatchStage::AwaitCurrentTags => match reply {
                Reply::TagNames(v) => {
                    self.current_tags = v;
                    self.stage = PatchStage::AwaitBegin;
                    Step::Call(StoreCall::Begin)
                },
                _ => self.fail(PostError::Storage),
            },
            PatchStage::AwaitBegin => match reply {
                Reply::Done => match &self.fields.title {
                    Some(t) => {
                        let slug = slug_of(t.as_str());
                        self.stage = PatchStage::AwaitSlugOwner;
                        Step::Call(StoreCall::FindPostBySlug(slug))
                    },
                    None => self.decide(),
                },
                _ => self.fail(PostError::Storage),
            },
            PatchStage::AwaitSlugOwner => match reply {
                Reply::Missing => self.decide(),
                Reply::Post(p) => {
                    if p.id == self.current.id {
                        self.decide()
                    } else {
                        self.roll_back(PostError::Conflict)
                    }
                },
                _ => self.roll_back(PostError::Storage),
            },
            PatchStage::Unlinking => match reply {
                Reply::Done => match self.tags.resolve_next() {
                    Some(c) => {
                        self.stage = PatchStage::Linking;
                        Step::Call(c)
                    },
                    None => self.link_or_update(),
                },
                _ => self.roll_back(PostError::Storage),
            },
            PatchStage::Linking => match self.tags.advance(reply) {
                Ok(Some(c)) => Step::Call(c),
                Ok(None) => {
                    if self.tags.stage == LinkStage::Resolved {
                        self.link_or_update()
                    } else {
                        self.stage = PatchStage::AwaitUpdate;
                        Step::Call(StoreCall::UpdatePost(self.updated.duplicate()))
                    }
                },
                Err(()) => self.roll_back(PostError::Storage),
            },
            PatchStage::AwaitUpdate => match reply {
                Reply::Done => {
                    self.stage = PatchStage::AwaitCommit;
                    Step::Call(StoreCall::Commit)
                },
                Reply::Duplicate => self.roll_back(PostError::Conflict),
                _ => self.roll_back(PostError::Storage),
            },
            PatchStage::AwaitCommit => match reply {
                Reply::Done => {
                    self.stage = PatchStage::Finished;
                    Step::Finish(Ok(Outcome::Updated(self.updated.slug.clone())))
                },
                _ => self.fail(PostError::Storage),
            },
            PatchStage::AwaitRelease => {
                self.stage = PatchStage::Finished;
                Step::Finish(Ok(Outcome::NoChange))
            },
            PatchStage::AwaitRollback(e) => self.fail(e),
            PatchStage::Finished => self.fail(PostError::Storage),
        }
    }

    fn fail(&mut self, e: PostError) -> (s: Step)
        ensures
            final(self).stage == PatchStage::Finished,
            final(self).fields == old(self).fields,
            fails_with(s, e),
    {
        self.stage = PatchStage::Finished;
        Step::Finish(Err(e))
    }

    fn roll_back(&mut self, e: PostError) -> (s: Step)
        requires
            old(self).fields.tags is None,
        ensures
            final(self).stage == PatchStage::AwaitRollback(e),
            final(self).inv(),
            is_call(s, StoreCall::Rollback),
    {
        self.stage = PatchStage::AwaitRollback(e);
        Step::Call(StoreCall::Rollback)
    }
}

/// Every supplied field holds the value the post already has.
pub open spec fn supplies_current(req: PatchPostRequest, cur: PostModel) -> bool {
    &&& (req.title is Some ==> req.title->0@ == cur.title)
    &&& (req.author is Some ==> req.author->0@ == cur.author)
    &&& (req.body is Some ==> req.body->0@ == cur.body)
    &&& (req.subheading is Some ==> req.subheading->0@ == cur.subheading)
    &&& (req.status is Some ==> req.status->0 == cur.post_status)
    &&& (req.hero_image is Some ==> cur.hero_image == Some(req.hero_image->0@))
}

/// Applying fields that hold the values a post already has leaves the post
/// as it is, provided its slug is the canonical slug of its title.
pub proof fn lemma_current_values_change_nothing(cur: PostModel, req: PatchPostRequest)
    requires
        cur.slug == canonical_slug(cur.title),
        supplies_current(req, cur),
    ensures
        patched(cur, req) == cur,
{
}

/// A patch whose supplied fields, and tag list if any, match the post ends
/// in `NoChange`: its transaction is closed without a write, so the post and
/// its last-edit time stay as they were.
pub proof fn lemma_unchanged_patch_writes_nothing(
    m: PatchPost,
    reply: Reply,
    m1: PatchPost,
    s1: Step,
    after: Reply,
    m2: PatchPost,
    s2: Step,
)
    requires
        m.current@.slug == canonical_slug(m.current@.title),
        supplies_current(m.fields, m.current@),
        m.replace_tags ==> same_names(m.tags.names.deep_view(), m.current_tags.deep_view()),
        (m.stage == PatchStage::AwaitBegin && m.fields.title is None && reply is Done) || (m.stage
            == PatchStage::AwaitSlugOwner && (reply is Missing || (reply is Post && reply->Post_0.id
            == m.current.id))),
        m.next(reply, m1, s1),
        m1.next(after, m2, s2),
    ensures
        is_call(s1, StoreCall::Rollback),
        !is_write(s1),
        s2 == Step::Finish(Ok::<Outcome, PostError>(Outcome::NoChange)),
{
    lemma_current_values_change_nothing(m.current@, m.fields);
}

/// Replacing a post's tags is all or nothing: once the old associations are
/// being removed, a failed step is answered with a rollback, and the patch
/// then ends in a storage error without a commit.
pub proof fn lemma_failed_retag_rolls_back(
    m: PatchPost,
    reply: Reply,
    m1: PatchPost,
    s1: Step,
    after: Reply,
    m2: PatchPost,
    s2: Step,
)
    requires
        (m.stage == PatchStage::Unlinking && !(reply is Done)) || (m.stage == PatchStage::Linking
            && !m.tags.accepts(reply)),
        m.next(reply, m1, s1),
        m1.next(after, m2, s2),
    ensures
        is_call(s1, StoreCall::Rollback),
        fails_with(s2, PostError::Storage),
        m2.stage == PatchStage::Finished,
{
}

} // verus!
