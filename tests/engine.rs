use story_time::api::{ApiTags, PostsApi, RootApi};
use story_time::auth::{BearerAuthorization, Claims, Permission};
use story_time::config::{unescape_newlines, AppConfig};
use story_time::delete::DeletePost;
use story_time::insert::{path_of, validate_insert, InsertPost};
use story_time::model::{
    InsertPostRequest, Outcome, PatchPostRequest, PostError, PostRow, PostStatus, Reply, Step,
    StoreCall, TagRow,
};
use story_time::patch::{same_tag_names, validate_patch, PatchPost};
use story_time::query::{build_list_query, ListFilters, ListQuery, Predicate};
use story_time::reads::{BulkGet, GetPost, GetPosts};
use story_time::setup::connector_created;
use story_time::slug::{slug_of, underscore_spaces};
use story_time::tags::{LinkStage, TagLinks};

const USER: &str = "67e55044-10b1-426f-9247-bb680e5fe0c8";
const USER_ID: u128 = 0x67e5504410b1426f9247bb680e5fe0c8;

fn s(x: &str) -> String {
    x.to_string()
}

fn claims(perms: &[(&str, &str)]) -> BearerAuthorization {
    BearerAuthorization(Claims {
        sub: s(USER),
        company: s("acme"),
        exp: 0,
        permissions: perms.iter().map(|(a, r)| Permission::new(a, r)).collect(),
    })
}

fn editor() -> BearerAuthorization {
    claims(&[("create", "post"), ("update", "post"), ("delete", "post")])
}

struct Tables {
    posts: Vec<PostRow>,
    tags: Vec<(u128, String)>,
    links: Vec<(u128, u128)>,
}

fn copy_tables(t: &Tables) -> Tables {
    Tables {
        posts: t.posts.iter().map(|p| p.duplicate()).collect(),
        tags: t.tags.clone(),
        links: t.links.clone(),
    }
}

/// A store in memory with transactions, for driving the conversations.
struct MemStore {
    users: Vec<u128>,
    t: Tables,
    saved: Option<Tables>,
    fail_find_tag_at: Option<usize>,
    find_tag_calls: usize,
    calls: Vec<String>,
}

impl MemStore {
    fn new() -> MemStore {
        MemStore {
            users: vec![USER_ID],
            t: Tables { posts: vec![], tags: vec![], links: vec![] },
            saved: None,
            fail_find_tag_at: None,
            find_tag_calls: 0,
            calls: vec![],
        }
    }

    fn post(&self, slug: &str) -> Option<&PostRow> {
        self.t.posts.iter().find(|p| p.slug == slug)
    }

    fn tag_names_of(&self, id: u128) -> Vec<String> {
        let mut v: Vec<String> = self
            .t
            .links
            .iter()
            .filter(|l| l.0 == id)
            .map(|l| self.t.tags.iter().find(|t| t.0 == l.1).unwrap().1.clone())
            .collect();
        v.sort();
        v
    }

    fn admits(p: &Predicate, row: &PostRow) -> bool {
        match p {
            Predicate::TitleMatches(t) => row.title.to_lowercase().contains(&t.to_lowercase()),
            Predicate::AuthorMatches(a) => row.author.to_lowercase().contains(&a.to_lowercase()),
            Predicate::CreatedSince(c) => row.creation_time >= c.parse::<i64>().unwrap(),
            Predicate::StatusIs(st) => row.post_status == *st,
            Predicate::SlugIn(v) => v.contains(&row.slug),
        }
    }

    fn matching(&self, q: &ListQuery) -> Vec<PostRow> {
        let mut rows: Vec<PostRow> = self
            .t
            .posts
            .iter()
            .filter(|r| q.predicates.iter().all(|p| MemStore::admits(p, r)))
            .map(|r| r.duplicate())
            .collect();
        rows.sort_by(|a, b| b.creation_time.cmp(&a.creation_time));
        rows
    }

    fn answer(&mut self, call: StoreCall) -> Reply {
        self.calls.push(format!("{:?}", call).split('(').next().unwrap().to_string());
        match call {
            StoreCall::FindUser(u) => {
                if self.users.contains(&u) {
                    Reply::User(u)
                } else {
                    Reply::Missing
                }
            }
            StoreCall::FindPostBySlug(slug) => match self.post(&slug) {
                Some(p) => Reply::Post(p.duplicate()),
                None => Reply::Missing,
            },
            StoreCall::FindPostsBySlugs(slugs) => Reply::Posts(
                self.t.posts.iter().filter(|p| slugs.contains(&p.slug)).map(|p| p.duplicate()).collect(),
            ),
            StoreCall::ListPosts(q) => Reply::Posts(
                self.matching(&q)
                    .into_iter()
                    .skip(q.offset as usize)
                    .take(q.limit as usize)
                    .collect(),
            ),
            StoreCall::CountPosts(q) => Reply::Count(self.matching(&q).len() as u64),
            StoreCall::FindPostTags(id) => Reply::TagNames(self.tag_names_of(id)),
            StoreCall::Begin => {
                self.saved = Some(copy_tables(&self.t));
                Reply::Done
            }
            StoreCall::FindTag(name) => {
                let k = self.find_tag_calls;
                self.find_tag_calls += 1;
                if self.fail_find_tag_at == Some(k) {
                    return Reply::Failed;
                }
                match self.t.tags.iter().find(|t| t.1 == name) {
                    Some(t) => Reply::Tag(TagRow { id: t.0, name: t.1.clone() }),
                    None => Reply::Missing,
                }
            }
            StoreCall::CreateTag(t) => {
                if self.t.tags.iter().any(|x| x.1 == t.name) {
                    Reply::Duplicate
                } else {
                    self.t.tags.push((t.id, t.name));
                    Reply::Done
                }
            }
            StoreCall::InsertPost(row) => {
                if self.post(&row.slug).is_some() {
                    Reply::Duplicate
                } else {
                    self.t.posts.push(row);
                    Reply::Done
                }
            }
            StoreCall::UpdatePost(row) => {
                if self.t.posts.iter().any(|p| p.slug == row.slug && p.id != row.id) {
                    return Reply::Duplicate;
                }
                match self.t.posts.iter_mut().find(|p| p.id == row.id) {
                    Some(p) => {
                        *p = row;
                        Reply::Done
                    }
                    None => Reply::Failed,
                }
            }
            StoreCall::DeletePostTags(id) => {
                self.t.links.retain(|l| l.0 != id);
                Reply::Done
            }
            StoreCall::InsertPostTag(p, t) => {
                if self.t.links.contains(&(p, t)) {
                    Reply::Duplicate
                } else {
                    self.t.links.push((p, t));
                    Reply::Done
                }
            }
            StoreCall::DeletePost(id) => {
                if self.t.links.iter().any(|l| l.0 == id) {
                    return Reply::Failed;
                }
                self.t.posts.retain(|p| p.id != id);
                Reply::Done
            }
            StoreCall::Commit => {
                self.saved = None;
                Reply::Done
            }
            StoreCall::Rollback => {
                if let Some(t) = self.saved.take() {
                    self.t = t;
                }
                Reply::Done
            }
        }
    }
}

trait Conversation {
    fn next_step(&mut self, reply: Reply) -> Step;
}

impl Conversation for InsertPost {
    fn next_step(&mut self, reply: Reply) -> Step {
        self.resume(reply)
    }
}

impl Conversation for PatchPost {
    fn next_step(&mut self, reply: Reply) -> Step {
        self.resume(reply)
    }
}

impl Conversation for DeletePost {
    fn next_step(&mut self, reply: Reply) -> Step {
        self.resume(reply)
    }
}

impl Conversation for GetPost {
    fn next_step(&mut self, reply: Reply) -> Step {
        self.resume(reply)
    }
}

impl Conversation for BulkGet {
    fn next_step(&mut self, reply: Reply) -> Step {
        self.resume(reply)
    }
}

impl Conversation for GetPosts {
    fn next_step(&mut self, reply: Reply) -> Step {
        self.resume(reply)
    }
}

fn drive<C: Conversation>(store: &mut MemStore, start: (C, Step)) -> Result<Outcome, PostError> {
    let (mut m, mut step) = start;
    loop {
        match step {
            Step::Finish(r) => return r,
            Step::Call(c) => {
                let reply = store.answer(c);
                step = m.next_step(reply);
            }
        }
    }
}

fn hello_request() -> InsertPostRequest {
    InsertPostRequest {
        title: s("Hello World"),
        author: s("Jane"),
        body: s("..."),
        subheading: s("sub"),
        tags: None,
        hero_image: None,
    }
}

fn empty_patch() -> PatchPostRequest {
    PatchPostRequest {
        title: None,
        author: None,
        body: None,
        subheading: None,
        status: None,
        tags: None,
        hero_image: None,
    }
}

fn insert(store: &mut MemStore, who: &BearerAuthorization, req: InsertPostRequest, id: u128, now: i64) -> Result<Outcome, PostError> {
    drive(store, InsertPost::start(who, req, id, now))
}

fn patch(store: &mut MemStore, who: &BearerAuthorization, slug: &str, req: PatchPostRequest) -> Result<Outcome, PostError> {
    drive(store, PatchPost::start(who, slug, req))
}

fn seeded() -> MemStore {
    let mut store = MemStore::new();
    let r = insert(&mut store, &editor(), hello_request(), 7, 1000);
    assert!(matches!(r, Ok(Outcome::Created(_))));
    store
}

#[test]
fn permission_new_and_text_form() {
    let p = Permission::new("create", "post");
    assert_eq!(p.action, "create");
    assert_eq!(p.resource, "post");
    assert_eq!(p.to_string(), "create:post");
}

#[test]
fn permission_from_string_needs_one_colon() {
    let p = Permission::from_string("delete:post").unwrap();
    assert_eq!(p.action, "delete");
    assert_eq!(p.resource, "post");
    assert!(Permission::from_string("deletepost").is_none());
    assert!(Permission::from_string("a:b:c").is_none());
    let e = Permission::from_string(":").unwrap();
    assert_eq!(e.action, "");
    assert_eq!(e.resource, "");
}

#[test]
fn has_permission_is_exact_pair_match() {
    let c = claims(&[("create", "post"), ("read", "tag")]);
    assert!(c.has_permission("create", "post"));
    assert!(!c.has_permission("create", "tag"));
    assert!(!c.has_permission("read", "post"));
    assert!(!c.has_permission("Create", "post"));
}

#[test]
fn has_any_permission_is_a_disjunction() {
    let c = claims(&[("update", "post")]);
    assert!(c.has_any_permission(&[(s("create"), s("post")), (s("update"), s("post"))]));
    assert!(!c.has_any_permission(&[(s("create"), s("post")), (s("delete"), s("post"))]));
    assert!(!c.has_any_permission(&[]));
}

#[test]
fn slug_lowercases_and_underscores_spaces() {
    assert_eq!(slug_of("Hello World"), "hello_world");
    assert_eq!(slug_of("Ünïcode  Title"), "ünïcode__title");
    assert_eq!(underscore_spaces("a b-c d"), "a_b-c_d");
    assert_eq!(underscore_spaces(""), "");
}

#[test]
fn config_restores_escaped_newlines() {
    assert_eq!(unescape_newlines("a\\nb\\n"), "a\nb\n");
    assert_eq!(unescape_newlines("no escapes\\"), "no escapes\\");
    let c = AppConfig::new(s("postgres://db"), "-----BEGIN-----\\nKEY\\n-----END-----");
    assert_eq!(c.database_url, "postgres://db");
    assert_eq!(c.jwt_public_key, "-----BEGIN-----\nKEY\n-----END-----");
}

#[test]
fn list_query_defaults_and_conjunction() {
    let f = ListFilters {
        limit: None,
        offset: None,
        title: Some(s("alpha")),
        author: Some(s("beta")),
        add_count: None,
        creation_time: None,
        status: None,
    };
    let q = build_list_query(&f);
    assert_eq!(q.limit, 20);
    assert_eq!(q.offset, 0);
    assert_eq!(q.predicates.len(), 2);
    assert!(matches!(&q.predicates[0], Predicate::TitleMatches(t) if t == "alpha"));
    assert!(matches!(&q.predicates[1], Predicate::AuthorMatches(a) if a == "beta"));
}

#[test]
fn list_filters_are_conjunctive() {
    let mut store = MemStore::new();
    let who = editor();
    let mk = |title: &str, author: &str| InsertPostRequest {
        title: s(title),
        author: s(author),
        body: s("b"),
        subheading: s("sub"),
        tags: None,
        hero_image: None,
    };
    insert(&mut store, &who, mk("alpha release notes", "beta writer"), 1, 10).unwrap();
    insert(&mut store, &who, mk("alpha only here", "gamma writer"), 2, 20).unwrap();
    insert(&mut store, &who, mk("something else", "beta writer"), 3, 30).unwrap();
    let f = ListFilters {
        limit: None,
        offset: None,
        title: Some(s("alpha")),
        author: Some(s("beta")),
        add_count: Some(true),
        creation_time: None,
        status: None,
    };
    match drive(&mut store, GetPosts::start(&f)) {
        Ok(Outcome::Page(p)) => {
            assert_eq!(p.posts, vec![s("alpha_release_notes")]);
            assert_eq!(p.count, Some(1));
        }
        other => panic!("{:?}", other),
    }
}

#[test]
fn list_counts_only_when_asked() {
    let mut store = seeded();
    let f = ListFilters {
        limit: Some(5),
        offset: Some(0),
        title: None,
        author: None,
        add_count: None,
        creation_time: None,
        status: Some(PostStatus::Draft),
    };
    match drive(&mut store, PostsApi.get_posts(&f)) {
        Ok(Outcome::Page(p)) => {
            assert_eq!(p.posts, vec![s("hello_world")]);
            assert_eq!(p.count, None);
        }
        other => panic!("{:?}", other),
    }
    assert!(!store.calls.contains(&s("CountPosts")));
}

#[test]
fn insert_scenario_slug_status_and_conflict() {
    let mut store = MemStore::new();
    let who = editor();
    let r = insert(&mut store, &who, hello_request(), 7, 1000);
    match r {
        Ok(Outcome::Created(path)) => assert_eq!(path, "/posts/hello_world"),
        other => panic!("{:?}", other),
    }
    let p = store.post("hello_world").unwrap();
    assert_eq!(p.post_status, PostStatus::Draft);
    assert_eq!(p.created_by, USER_ID);
    assert_eq!(p.creation_time, 1000);
    assert_eq!(p.last_edit, None);
    let again = insert(&mut store, &who, hello_request(), 8, 2000);
    assert_eq!(again.unwrap_err(), PostError::Conflict);
    assert_eq!(store.t.posts.len(), 1);
}

#[test]
fn insert_with_tags_creates_missing_tags() {
    let mut store = MemStore::new();
    store.t.tags.push((99, s("rust")));
    let mut req = hello_request();
    req.tags = Some(vec![s("rust"), s("systems")]);
    insert(&mut store, &editor(), req, 7, 1000).unwrap();
    assert_eq!(store.t.tags.len(), 2);
    assert_eq!(store.tag_names_of(7), vec![s("rust"), s("systems")]);
    assert!(store.t.links.contains(&(7, 99)));
}

#[test]
fn insert_through_api_uses_fresh_v4_identifier() {
    let mut store = MemStore::new();
    let r = drive(&mut store, PostsApi.insert_post(&editor(), hello_request()));
    assert!(r.is_ok());
    let id = store.post("hello_world").unwrap().id;
    assert_eq!((id >> 76) & 15, 4);
}

#[test]
fn insert_errors() {
    let mut store = MemStore::new();
    let mut short = hello_request();
    short.title = s("Short");
    assert!(!validate_insert(&short));
    assert_eq!(insert(&mut store, &editor(), short, 1, 1).unwrap_err(), PostError::Validation);
    let reader = claims(&[("update", "post")]);
    assert_eq!(insert(&mut store, &reader, hello_request(), 1, 1).unwrap_err(), PostError::PermissionDenied);
    let mut bad_sub = editor();
    bad_sub.0.sub = s("not-a-uuid");
    assert_eq!(insert(&mut store, &bad_sub, hello_request(), 1, 1).unwrap_err(), PostError::Validation);
    let mut stranger = editor();
    stranger.0.sub = s("00000000-0000-4000-8000-000000000001");
    assert_eq!(insert(&mut store, &stranger, hello_request(), 1, 1).unwrap_err(), PostError::Unauthenticated);
    assert!(store.calls.iter().all(|c| c == "FindUser"));
    assert!(store.t.posts.is_empty());
}

#[test]
fn insert_parses_subject_identifier() {
    let (_, step) = InsertPost::start(&editor(), hello_request(), 1, 1);
    assert!(matches!(step, Step::Call(StoreCall::FindUser(u)) if u == USER_ID));
}

#[test]
fn insert_tag_failure_leaves_nothing_behind() {
    let mut store = MemStore::new();
    store.fail_find_tag_at = Some(1);
    let mut req = hello_request();
    req.tags = Some(vec![s("new"), s("other")]);
    assert_eq!(insert(&mut store, &editor(), req, 7, 1).unwrap_err(), PostError::Storage);
    assert!(store.t.posts.is_empty());
    assert!(store.t.tags.is_empty());
    assert!(store.t.links.is_empty());
}

#[test]
fn patch_same_title_is_no_change() {
    let mut store = seeded();
    let mut req = empty_patch();
    req.title = Some(s("Hello World"));
    assert!(matches!(patch(&mut store, &editor(), "hello_world", req), Ok(Outcome::NoChange)));
    assert_eq!(store.post("hello_world").unwrap().last_edit, None);
    assert!(!store.calls.contains(&s("UpdatePost")));
}

#[test]
fn patch_all_current_values_is_no_change() {
    let mut store = seeded();
    let req = PatchPostRequest {
        title: Some(s("Hello World")),
        author: Some(s("Jane")),
        body: Some(s("...")),
        subheading: Some(s("sub")),
        status: Some(PostStatus::Draft),
        tags: Some(vec![]),
        hero_image: None,
    };
    assert!(matches!(patch(&mut store, &editor(), "hello_world", req), Ok(Outcome::NoChange)));
    assert_eq!(store.post("hello_world").unwrap().last_edit, None);
}

#[test]
fn patch_tags_adds_two_associations() {
    let mut store = seeded();
    let mut req = empty_patch();
    req.tags = Some(vec![s("rust"), s("systems")]);
    match patch(&mut store, &editor(), "hello_world", req) {
        Ok(Outcome::Updated(slug)) => assert_eq!(slug, "hello_world"),
        other => panic!("{:?}", other),
    }
    assert_eq!(store.t.links.len(), 2);
    assert_eq!(store.t.tags.len(), 2);
    assert_eq!(store.tag_names_of(7), vec![s("rust"), s("systems")]);
    assert!(store.post("hello_world").unwrap().last_edit.is_some());
}

#[test]
fn patch_title_moves_slug_and_stamps_edit() {
    let mut store = seeded();
    let mut req = empty_patch();
    req.title = Some(s("Goodbye World"));
    req.status = Some(PostStatus::Published);
    match patch(&mut store, &editor(), "hello_world", req) {
        Ok(Outcome::Updated(slug)) => assert_eq!(slug, "goodbye_world"),
        other => panic!("{:?}", other),
    }
    assert!(store.post("hello_world").is_none());
    let p = store.post("goodbye_world").unwrap();
    assert_eq!(p.post_status, PostStatus::Published);
    assert!(p.last_edit.is_some());
}

#[test]
fn patch_title_onto_other_post_conflicts() {
    let mut store = seeded();
    let mut other = hello_request();
    other.title = s("Second Post Title");
    insert(&mut store, &editor(), other, 8, 2000).unwrap();
    let mut req = empty_patch();
    req.title = Some(s("Hello World"));
    assert_eq!(patch(&mut store, &editor(), "second_post_title", req).unwrap_err(), PostError::Conflict);
    assert!(store.post("second_post_title").is_some());
}

#[test]
fn patch_errors() {
    let mut store = seeded();
    assert_eq!(patch(&mut store, &editor(), "absent", empty_patch()).unwrap_err(), PostError::NotFound);
    let mut short = empty_patch();
    short.author = Some(s("J"));
    assert!(!validate_patch(&short));
    assert_eq!(patch(&mut store, &editor(), "hello_world", short).unwrap_err(), PostError::Validation);
    let creator = claims(&[("create", "post")]);
    assert_eq!(patch(&mut store, &creator, "hello_world", empty_patch()).unwrap_err(), PostError::PermissionDenied);
}

#[test]
fn failed_tag_replacement_keeps_old_associations() {
    let mut store = seeded();
    let mut first = empty_patch();
    first.tags = Some(vec![s("rust"), s("systems")]);
    patch(&mut store, &editor(), "hello_world", first).unwrap();
    let before = store.tag_names_of(7);
    store.find_tag_calls = 0;
    store.fail_find_tag_at = Some(1);
    let mut second = empty_patch();
    second.tags = Some(vec![s("go"), s("web"), s("cloud")]);
    assert_eq!(patch(&mut store, &editor(), "hello_world", second).unwrap_err(), PostError::Storage);
    assert_eq!(store.tag_names_of(7), before);
    assert_eq!(store.t.tags.len(), 2);
    assert_eq!(store.calls.last().unwrap(), "Rollback");
}

#[test]
fn same_tag_names_ignores_order_and_repeats() {
    assert!(same_tag_names(&vec![s("a"), s("b")], &vec![s("b"), s("a"), s("a")]));
    assert!(!same_tag_names(&vec![s("a")], &vec![s("a"), s("c")]));
    assert!(same_tag_names(&vec![], &vec![]));
}

#[test]
fn delete_without_permission_is_denied() {
    let mut store = seeded();
    let creator = claims(&[("create", "post"), ("update", "post")]);
    let r = drive(&mut store, PostsApi.delete_post(&creator, "hello_world"));
    assert_eq!(r.unwrap_err(), PostError::PermissionDenied);
    assert!(store.post("hello_world").is_some());
}

#[test]
fn delete_removes_post_and_associations() {
    let mut store = seeded();
    let mut req = empty_patch();
    req.tags = Some(vec![s("rust")]);
    patch(&mut store, &editor(), "hello_world", req).unwrap();
    match drive(&mut store, DeletePost::start(&editor(), "hello_world")) {
        Ok(Outcome::Deleted(slug)) => assert_eq!(slug, "hello_world"),
        other => panic!("{:?}", other),
    }
    assert!(store.t.posts.is_empty());
    assert!(store.t.links.is_empty());
    assert_eq!(store.t.tags.len(), 1);
    assert_eq!(drive(&mut store, DeletePost::start(&editor(), "hello_world")).unwrap_err(), PostError::NotFound);
}

#[test]
fn get_post_absent_is_not_found() {
    let mut store = MemStore::new();
    assert_eq!(drive(&mut store, PostsApi.get_post("nothing_here")).unwrap_err(), PostError::NotFound);
}

#[test]
fn get_post_returns_tags() {
    let mut store = seeded();
    let mut req = empty_patch();
    req.tags = Some(vec![s("rust")]);
    patch(&mut store, &editor(), "hello_world", req).unwrap();
    match drive(&mut store, GetPost::start("hello_world")) {
        Ok(Outcome::Post(p)) => {
            assert_eq!(p.post.title, "Hello World");
            assert_eq!(p.tags, vec![s("rust")]);
        }
        other => panic!("{:?}", other),
    }
}

#[test]
fn bulk_get_empty_asks_nothing() {
    let (_, step) = PostsApi.bulk_get(vec![]);
    match step {
        Step::Finish(Ok(Outcome::Posts(v))) => assert!(v.is_empty()),
        other => panic!("{:?}", other),
    }
}

#[test]
fn bulk_get_pairs_each_post_with_tags() {
    let mut store = seeded();
    let mut other = hello_request();
    other.title = s("Second Post Title");
    other.tags = Some(vec![s("x")]);
    insert(&mut store, &editor(), other, 8, 2000).unwrap();
    match drive(&mut store, BulkGet::start(vec![s("hello_world"), s("second_post_title"), s("gone")])) {
        Ok(Outcome::Posts(v)) => {
            assert_eq!(v.len(), 2);
            assert_eq!(v[0].post.slug, "hello_world");
            assert!(v[0].tags.is_empty());
            assert_eq!(v[1].tags, vec![s("x")]);
        }
        other => panic!("{:?}", other),
    }
}

#[test]
fn storage_failure_is_reported() {
    let (mut m, _) = GetPost::start("x");
    assert!(matches!(m.resume(Reply::Failed), Step::Finish(Err(PostError::Storage))));
    let (mut i, _) = InsertPost::start(&editor(), hello_request(), 1, 1);
    assert!(matches!(i.resume(Reply::User(USER_ID)), Step::Call(StoreCall::FindPostBySlug(_))));
    assert!(matches!(i.resume(Reply::Missing), Step::Call(StoreCall::Begin)));
    assert!(matches!(i.resume(Reply::Done), Step::Call(StoreCall::InsertPost(_))));
    assert!(matches!(i.resume(Reply::Duplicate), Step::Call(StoreCall::Rollback)));
    assert!(matches!(i.resume(Reply::Done), Step::Finish(Err(PostError::Conflict))));
}

#[test]
fn tag_links_resolve_then_link() {
    let (mut t, c) = TagLinks::start(5, vec![s("a"), s("b")]);
    assert!(matches!(c, Some(StoreCall::FindTag(ref n)) if n == "a"));
    let c = t.advance(Reply::Tag(TagRow { id: 11, name: s("a") })).unwrap();
    assert!(matches!(c, Some(StoreCall::FindTag(ref n)) if n == "b"));
    let c = t.advance(Reply::Missing).unwrap();
    let pending = t.pending;
    assert!(matches!(c, Some(StoreCall::CreateTag(ref r)) if r.name == "b" && r.id == pending));
    assert_eq!(t.advance(Reply::Done).unwrap().is_none(), true);
    assert_eq!(t.stage, LinkStage::Resolved);
    assert!(matches!(t.begin_links(), Some(StoreCall::InsertPostTag(5, 11))));
    assert!(matches!(t.advance(Reply::Done).unwrap(), Some(StoreCall::InsertPostTag(5, p)) if p == pending));
    assert!(t.advance(Reply::Done).unwrap().is_none());
    assert_eq!(t.stage, LinkStage::Complete);
}

#[test]
fn path_and_api_items() {
    assert_eq!(path_of(&s("a_b")), "/posts/a_b");
    assert_eq!(ApiTags::Posts, ApiTags::Posts);
    RootApi.healthcheck();
}

#[test]
fn entity_columns_get_skip_attributes_once() {
    let lines: Vec<String> = vec![
        s("pub struct Model {"),
        s("    #[sea_orm(column_type = \"custom(\\\"tsvector\\\")\")]"),
        s("    pub title_search: String,"),
        s("    #[sea_orm(column_type = \"custom(\\\"tsvector\\\")\")]"),
        s("    #[sea_orm(ignore)]"),
        s("    pub author_search: String,"),
        s("}"),
    ];
    let (out, changed) = story_time::entity_attrs::patch_column_type_ignore_attr(&lines, &vec![s("tsvector")]);
    assert!(changed);
    assert_eq!(out.len(), lines.len() + 3);
    assert_eq!(out[2], "    #[oai(skip)]");
    assert_eq!(out[3], "    #[serde(skip)]");
    assert_eq!(out[4], "    #[sea_orm(ignore)]");
    assert_eq!(out[5], "    pub title_search: String,");
    assert_eq!(out[7], "    #[sea_orm(ignore)]");
    let (_, other) = story_time::entity_attrs::patch_column_type_ignore_attr(&lines, &vec![s("jsonb")]);
    assert!(!other);
}

#[test]
fn connector_answer_statuses() {
    assert!(connector_created(200));
    assert!(connector_created(201));
    assert!(connector_created(409));
    assert!(!connector_created(500));
    assert!(!connector_created(404));
}

#[test]
fn row_equality_compares_values() {
    let mut store = seeded();
    let a = store.post("hello_world").unwrap().duplicate();
    let mut b = a.duplicate();
    assert!(a.eq_model(&b));
    b.hero_image = Some(s("image.png"));
    assert!(!a.eq_model(&b));
    store.t.posts.clear();
}
