use vstd::prelude::*;
use crate::auth::BearerAuthorization;
use crate::delete::DeletePost;
use crate::insert::InsertPost;
use crate::model::{InsertPostRequest, PatchPostRequest, Step};
use crate::patch::PatchPost;
use crate::query::ListFilters;
use crate::reads::{BulkGet, GetPost, GetPosts};

verus! {

/// The groups the operations are listed under.
#[derive(Clone, Copy, Debug, PartialEq, Eq, Structural)]
pub enum ApiTags {
    Posts,
}

/// The service's own operations.
pub struct RootApi;

impl RootApi {
    /// Answers that the service is up.
    pub fn healthcheck(&self) {
    }
}

/// The operations on posts. Each one opens a conversation with the store:
/// the caller makes the call of each step and hands the reply back to
/// `resume`, until a step finishes.
pub struct PostsApi;

impl PostsApi {
    pub fn get_post(&self, post_slug: &str) -> (r: (GetPost, Step))
        ensures
            GetPost::opening(post_slug@, r.0, r.1),
    {
        GetPost::start(post_slug)
    }

    pub fn get_posts(&self, filters: &ListFilters) -> (r: (GetPosts, Step))
        ensures
            GetPosts::opening(*filters, r.0, r.1),
    {
        GetPosts::start(filters)
    }

    pub fn bulk_get(&self, slugs: Vec<String>) -> (r: (BulkGet, Step))
        ensures
            BulkGet::opening(slugs, r.0, r.1),
    {
        BulkGet::start(slugs)
    }

    /// Creates a post under a fresh identifier, now.
    pub fn insert_post(&self, claims: &BearerAuthorization, request: InsertPostRequest) -> (r: (
        InsertPost,
        Step,
    ))
        ensures
            exists|id: u128, now: i64| InsertPost::opening(*claims, request, id, now, r.0, r.1),
    {
        InsertPost::open(claims, request)
    }

    pub fn delete_post(&self, claims: &BearerAuthorization, post_slug: &str) -> (r: (DeletePost, Step))
        ensures
            DeletePost::opening(*claims, post_slug@, r.0, r.1),
    {
        DeletePost::start(claims, post_slug)
    }

    pub fn patch_post(
        &self,
        claims: &BearerAuthorization,
        post_slug: &str,
        request: PatchPostRequest,
    ) -> (r: (PatchPost, Step))
        ensures
            PatchPost::opening(*claims, post_slug@, request, r.0, r.1),
    {
        PatchPost::start(claims, post_slug, request)
    }
}

} // verus!
