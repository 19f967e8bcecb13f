use vstd::prelude::*;
use crate::auth::BearerAuthorization;
use crate::model::{fails_with, finds_slug, is_call, Outcome, PostError, Reply, Step, StoreCall};

verus! {

/// Where a deletion stands.
#[derive(Clone, Copy, Debug, PartialEq, Eq, Structural)]
pub enum DeleteStage {
    AwaitPost,
    AwaitBegin,
    AwaitUnlink,
    AwaitDelete,
    AwaitCommit,
    AwaitRollback(PostError),
    Finished,
}

/// The deletion of a post and of its tag associations, as a conversation with the store.
#[derive(Debug)]
pub struct DeletePost {
    pub slug: String,
    pub id: u128,
    pub stage: DeleteStage,
}

impl DeletePost {
    /// How a deletion opens: the permission check, then the lookup of the post.
    pub open spec fn opening(claims: BearerAuthorization, slug: Seq<char>, m: DeletePost, s: Step) -> bool {
        if !claims.may("delete"@, "post"@) {
            m.stage == DeleteStage::Finished && fails_with(s, PostError::PermissionDenied)
        } else {
            m.stage == DeleteStage::AwaitPost && finds_slug(s, slug) && m.slug@ == slug
        }
    }

    /// One move of the conversation: from `self`, on `reply`, to `m`, asking `s`.
    /// The associations go before the post, inside one transaction.
    pub open spec fn next(self, reply: Reply, m: DeletePost, s: Step) -> bool {
        match self.stage {
            DeleteStage::AwaitPost => match reply {
                Reply::Post(row) => m.stage == DeleteStage::AwaitBegin && is_call(s, StoreCall::Begin)
                    && m.id == row.id && m.slug == self.slug,
                Reply::Missing => m.stage == DeleteStage::Finished && fails_with(
                    s,
                    PostError::NotFound,
                ),
                _ => m.stage == DeleteStage::Finished && fails_with(s, PostError::Storage),
            },
            DeleteStage::AwaitBegin => match reply {
                Reply::Done => m.stage == DeleteStage::AwaitUnlink && is_call(
                    s,
                    StoreCall::DeletePostTags(self.id),
                ) && m.id == self.id && m.slug == self.slug,
                _ => m.stage == DeleteStage::Finished && fails_with(s, PostError::Storage),
            },
            DeleteStage::AwaitUnlink => match reply {
                Reply::Done => m.stage == DeleteStage::AwaitDelete && is_call(
                    s,
                    StoreCall::DeletePost(self.id),
                ) && m.id == self.id && m.slug == self.slug,
                _ => m.stage == DeleteStage::AwaitRollback(PostError::Storage) && is_call(
                    s,
                    StoreCall::Rollback,
                ),
            },
            DeleteStage::AwaitDelete => match reply {
                Reply::Done => m.stage == DeleteStage::AwaitCommit && is_call(s, StoreCall::Commit)
                    && m.slug == self.slug,
                _ => m.stage == DeleteStage::AwaitRollback(PostError::Storage) && is_call(
                    s,
                    StoreCall::Rollback,
                ),
            },
            DeleteStage::AwaitCommit => m.stage == DeleteStage::Finished && match reply {
                Reply::Done => match s {
                    Step::Finish(Ok(Outcome::Deleted(t))) => t@ == self.slug@,
                    _ => false,
                },
                _ => fails_with(s, PostError::Storage),
            },
            DeleteStage::AwaitRollback(e) => m.stage == DeleteStage::Finished && fails_with(s, e),
            DeleteStage::Finished => false,
        }
    }

    /// Starts the deletion of the post stored under `slug`.
    pub fn start(claims: &BearerAuthorization, slug: &str) -> (r: (DeletePost, Step))
        ensures
            DeletePost::opening(*claims, slug@, r.0, r.1),
    {
        let m = DeletePost { slug: String::from_str(slug), id: 0, stage: DeleteStage::Finished };
        if !claims.has_permission("delete", "post") {
            return (m, Step::Finish(Err(PostError::PermissionDenied)));
        }
        let call = Step::Call(StoreCall::FindPostBySlug(String::from_str(slug)));
        (DeletePost { stage: DeleteStage::AwaitPost, ..m }, call)
    }

    /// Takes the store's reply to the last call and says what comes next.
    pub fn resume(&mut self, reply: Reply) -> (s: Step)
        requires
            old(self).stage != DeleteStage::Finished,
        ensures
            old(self).next(reply, *final(self), s),
    {
        match self.stage {
            DeleteStage::AwaitPost => match reply {
                Reply::Post(row) => {
                    self.id = row.id;
                    self.goto(DeleteStage::AwaitBegin, StoreCall::Begin)
                },
                Reply::Missing => self.goto_end(Err(PostError::NotFound)),
                _ => self.goto_end(Err(PostError::Storage)),
            },
            DeleteStage::AwaitBegin => match reply {
                Reply::Done => {
                    let id = self.id;
                    self.goto(DeleteStage::AwaitUnlink, StoreCall::DeletePostTags(id))
                },
                _ => self.goto_end(Err(PostError::Storage)),
            },
            DeleteStage::AwaitUnlink => match reply {
                Reply::Done => {
                    let id = self.id;
                    self.goto(DeleteStage::AwaitDelete, StoreCall::DeletePost(id))
                },
                _ => self.goto(DeleteStage::AwaitRollback(PostError::Storage), StoreCall::Rollback),
            },
            DeleteStage::AwaitDelete => match reply {
                Reply::Done => self.goto(DeleteStage::AwaitCommit, StoreCall::Commit),
                _ => self.goto(DeleteStage::AwaitRollback(PostError::Storage), StoreCall::Rollback),
            },
            DeleteStage::AwaitCommit => match reply {
                Reply::Done => {
                    let slug = self.slug.clone();
                    self.goto_end(Ok(Outcome::Deleted(slug)))
                },
                _ => self.goto_end(Err(PostError::Storage)),
            },
            DeleteStage::AwaitRollback(e) => self.goto_end(Err(e)),
            DeleteStage::Finished => self.goto_end(Err(PostError::Storage)),
        }
    }

    fn goto(&mut self, stage: DeleteStage, c: StoreCall) -> (s: Step)
        ensures
            final(self).stage == stage,
            final(self).id == old(self).id,
            final(self).slug == old(self).slug,
            s == Step::Call(c),
    {
        self.stage = stage;
        Step::Call(c)
    }

    fn goto_end(&mut self, r: Result<Outcome, PostError>) -> (s: Step)
        ensures
            final(self).stage == DeleteStage::Finished,
            s == Step::Finish(r),
    {
        self.stage = DeleteStage::Finished;
        Step::Finish(r)
    }
}

} // verus!
