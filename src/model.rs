use vstd::prelude::*;
use vstd::string::*;
use crate::query::ListQuery;

verus! {

/// Where a post stands in its life.
#[derive(Clone, Copy, Debug, PartialEq, Eq, Structural)]
pub enum PostStatus {
    Draft,
    Published,
    Archived,
    Removed,
}

/// A stored post. Identifiers are the 128-bit numbers of UUIDs; times are
/// microseconds since the Unix epoch, UTC.
#[derive(Debug)]
pub struct PostRow {
    pub id: u128,
    pub slug: String,
    pub title: String,
    pub hero_image: Option<String>,
    pub creation_time: i64,
    pub body: String,
    pub author: String,
    pub created_by: u128,
    pub subheading: String,
    pub last_edit: Option<i64>,
    pub post_status: PostStatus,
}

/// A post as plain values.
pub struct PostModel {
    pub id: u128,
    pub slug: Seq<char>,
    pub title: Seq<char>,
    pub hero_image: Option<Seq<char>>,
    pub creation_time: i64,
    pub body: Seq<char>,
    pub author: Seq<char>,
    pub created_by: u128,
    pub subheading: Seq<char>,
    pub last_edit: Option<i64>,
    pub post_status: PostStatus,
}

impl View for PostRow {
    type V = PostModel;

    open spec fn view(&self) -> PostModel {
        PostModel {
            id: self.id,
            slug: self.slug@,
            title: self.title@,
            hero_image: opt_view(self.hero_image),
            creation_time: self.creation_time,
            body: self.body@,
            author: self.author@,
            created_by: self.created_by,
            subheading: self.subheading@,
            last_edit: self.last_edit,
            post_status: self.post_status,
        }
    }
}

/// The text of an optional string.
pub open spec fn opt_view(o: Option<String>) -> Option<Seq<char>> {
    match o {
        Some(s) => Some(s@),
        None => None,
    }
}

/// A copy of an optional string.
pub fn copy_text(s: &Option<String>) -> (r: Option<String>)
    ensures
        r == *s,
{
    match s {
        Some(t) => Some(t.clone()),
        None => None,
    }
}

/// A copy of every string of a list.
pub fn copy_names(v: &Vec<String>) -> (r: Vec<String>)
    ensures
        r@ == v@,
        r.deep_view() == v.deep_view(),
{
    let mut r: Vec<String> = Vec::new();
    let mut i: usize = 0;
    while i < v.len()
        invariant
            i <= v.len(),
            r@ == v@.subrange(0, i as int),
        decreases v.len() - i,
    {
        r.push(v[i].clone());
        assert(r@ =~= v@.subrange(0, i + 1));
        i = i + 1;
    }
    assert(v@.subrange(0, v.len() as int) =~= v@);
    assert(r.deep_view() =~= v.deep_view());
    r
}

fn same_text(a: &Option<String>, b: &Option<String>) -> (r: bool)
    ensures
        r == (opt_view(*a) == opt_view(*b)),
{
    match (a, b) {
        (Some(x), Some(y)) => *x == *y,
        (None, None) => true,
        _ => false,
    }
}

impl PostRow {
    /// Whether the two rows hold the same values.
    pub fn eq_model(&self, other: &PostRow) -> (r: bool)
        ensures
            r == (self@ == other@),
    {
        self.id == other.id && self.slug == other.slug && self.title == other.title && same_text(
            &self.hero_image,
            &other.hero_image,
        ) && self.creation_time == other.creation_time && self.body == other.body && self.author
            == other.author && self.created_by == other.created_by && self.subheading
            == other.subheading && self.last_edit == other.last_edit && self.post_status
            == other.post_status
    }

    /// A copy of the row.
    pub fn duplicate(&self) -> (r: PostRow)
        ensures
            r == *self,
    {
        PostRow {
            id: self.id,
            slug: self.slug.clone(),
            title: self.title.clone(),
            hero_image: copy_text(&self.hero_image),
            creation_time: self.creation_time,
            body: self.body.clone(),
            author: self.author.clone(),
            created_by: self.created_by,
            subheading: self.subheading.clone(),
            last_edit: self.last_edit,
            post_status: self.post_status,
        }
    }
}

/// A stored tag; names are unique and matched exactly.
#[derive(Debug)]
pub struct TagRow {
    pub id: u128,
    pub name: String,
}

/// A post together with the names of its tags.
#[derive(Debug)]
pub struct PostWithTags {
    pub post: PostRow,
    pub tags: Vec<String>,
}

/// One page of a post listing: the slugs in order, and the total count when it was asked for.
#[derive(Debug)]
pub struct GetPostsResponse {
    pub posts: Vec<String>,
    pub count: Option<u64>,
}

/// The fields of a new post.
#[derive(Debug)]
pub struct InsertPostRequest {
    pub title: String,
    pub author: String,
    pub body: String,
    pub subheading: String,
    pub tags: Option<Vec<String>>,
    pub hero_image: Option<String>,
}

/// The fields a patch supplies; `None` leaves a field as it is.
#[derive(Debug)]
pub struct PatchPostRequest {
    pub title: Option<String>,
    pub author: Option<String>,
    pub body: Option<String>,
    pub subheading: Option<String>,
    pub status: Option<PostStatus>,
    pub tags: Option<Vec<String>>,
    pub hero_image: Option<String>,
}

/// Why an operation did not succeed.
#[derive(Clone, Copy, Debug, PartialEq, Eq, Structural)]
pub enum PostError {
    /// A field is malformed or too short; found before any storage access.
    Validation,
    /// The caller lacks the permission the operation needs.
    PermissionDenied,
    /// The caller's subject is not a known user.
    Unauthenticated,
    /// No post has the given slug.
    NotFound,
    /// The slug, or another unique value, is taken.
    Conflict,
    /// The store failed or answered out of turn.
    Storage,
}

/// A request to the durable store.
#[derive(Debug)]
pub enum StoreCall {
    FindUser(u128),
    FindPostBySlug(String),
    FindPostsBySlugs(Vec<String>),
    ListPosts(ListQuery),
    CountPosts(ListQuery),
    FindPostTags(u128),
    Begin,
    FindTag(String),
    CreateTag(TagRow),
    InsertPost(PostRow),
    UpdatePost(PostRow),
    DeletePostTags(u128),
    InsertPostTag(u128, u128),
    DeletePost(u128),
    Commit,
    Rollback,
}

/// The store's answer to a call.
#[derive(Debug)]
pub enum Reply {
    /// A write, a begin or a commit went through.
    Done,
    /// A lookup found nothing.
    Missing,
    /// A write broke a unique constraint.
    Duplicate,
    /// Any other storage failure.
    Failed,
    User(u128),
    Post(PostRow),
    Posts(Vec<PostRow>),
    Tag(TagRow),
    TagNames(Vec<String>),
    Count(u64),
}

/// What a finished operation hands back.
#[derive(Debug)]
pub enum Outcome {
    /// A post was created; the path under which it can be read.
    Created(String),
    /// A post was changed; its slug now.
    Updated(String),
    /// The patch changed nothing, and nothing was written.
    NoChange,
    /// A post was deleted; the slug it had.
    Deleted(String),
    Post(PostWithTags),
    Posts(Vec<PostWithTags>),
    Page(GetPostsResponse),
}

/// What the caller does next: make a store call and hand back its reply, or stop.
#[derive(Debug)]
pub enum Step {
    Call(StoreCall),
    Finish(Result<Outcome, PostError>),
}

/// The step that stops with an error.
pub open spec fn fails_with(s: Step, e: PostError) -> bool {
    s == Step::Finish(Err(e))
}

/// The step is exactly this call, which carries no text.
pub open spec fn is_call(s: Step, c: StoreCall) -> bool {
    s == Step::Call(c)
}

/// The step writes to the store, or commits what was written.
pub open spec fn is_write(s: Step) -> bool {
    match s {
        Step::Call(StoreCall::CreateTag(_)) | Step::Call(StoreCall::InsertPost(_))
        | Step::Call(StoreCall::UpdatePost(_)) | Step::Call(StoreCall::DeletePostTags(_))
        | Step::Call(StoreCall::InsertPostTag(_, _)) | Step::Call(StoreCall::DeletePost(_))
        | Step::Call(StoreCall::Commit) => true,
        _ => false,
    }
}

/// The step looks up the post under this slug.
pub open spec fn finds_slug(s: Step, slug: Seq<char>) -> bool {
    match s {
        Step::Call(StoreCall::FindPostBySlug(t)) => t@ == slug,
        _ => false,
    }
}

/// The step looks up the tag of this name.
pub open spec fn finds_tag(s: Step, name: Seq<char>) -> bool {
    match s {
        Step::Call(StoreCall::FindTag(t)) => t@ == name,
        _ => false,
    }
}

/// The step creates a tag of this name.
pub open spec fn creates_tag(s: Step, name: Seq<char>) -> bool {
    match s {
        Step::Call(StoreCall::CreateTag(t)) => t.name@ == name,
        _ => false,
    }
}

/// The step inserts this post.
pub open spec fn inserts_post(s: Step, row: PostModel) -> bool {
    match s {
        Step::Call(StoreCall::InsertPost(r)) => r@ == row,
        _ => false,
    }
}

/// The step writes this post over the stored one.
pub open spec fn updates_post(s: Step, row: PostModel) -> bool {
    match s {
        Step::Call(StoreCall::UpdatePost(r)) => r@ == row,
        _ => false,
    }
}

/// `n` has at least `min` characters.
pub open spec fn long_enough(n: Seq<char>, min: nat) -> bool {
    n.len() >= min
}

/// `s` has at least `min` characters.
pub fn has_min_len(s: &str, min: usize) -> (r: bool)
    ensures
        r == long_enough(s@, min as nat),
{
    s.unicode_len() >= min
}

} // verus!
