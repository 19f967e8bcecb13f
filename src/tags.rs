use vstd::prelude::*;
use crate::ids::new_id;
use crate::model::{Reply, StoreCall, TagRow};

verus! {

/// Where a tag replacement stands.
#[derive(Clone, Copy, Debug, PartialEq, Eq, Structural)]
pub enum LinkStage {
    /// Looking up the tag named `names[ids.len()]`.
    Resolve,
    /// Creating that tag, under the identifier `pending`.
    Create,
    /// Every name has an identifier; no association is written yet.
    Resolved,
    /// Writing the association to `ids[linked]`.
    Link,
    /// One association per name is written.
    Complete,
}

/// Resolves a list of tag names to identifiers, creating the missing tags, and
/// then writes one association row per name for a post.
#[derive(Debug)]
pub struct TagLinks {
    pub post_id: u128,
    pub names: Vec<String>,
    pub ids: Vec<u128>,
    pub pending: u128,
    pub linked: usize,
    pub stage: LinkStage,
}

impl TagLinks {
    pub open spec fn inv(&self) -> bool {
        let k = self.ids.len();
        let n = self.names.len();
        match self.stage {
            LinkStage::Resolve => k < n && self.linked == 0,
            LinkStage::Create => k < n && self.linked == 0,
            LinkStage::Resolved => k == n && self.linked == 0,
            LinkStage::Link => k == n && self.linked < n,
            LinkStage::Complete => k == n && self.linked == n,
        }
    }

    /// `c` is the call this stage waits on.
    pub open spec fn awaits(&self, c: StoreCall) -> bool {
        match self.stage {
            LinkStage::Resolve => match c {
                StoreCall::FindTag(n) => n@ == self.names@[self.ids.len() as int]@,
                _ => false,
            },
            LinkStage::Create => match c {
                StoreCall::CreateTag(t) => t.id == self.pending && t.name@
                    == self.names@[self.ids.len() as int]@,
                _ => false,
            },
            LinkStage::Link => c == StoreCall::InsertPostTag(
                self.post_id,
                self.ids@[self.linked as int],
            ),
            _ => false,
        }
    }

    /// The reply is one this stage goes on from.
    pub open spec fn accepts(&self, reply: Reply) -> bool {
        match (self.stage, reply) {
            (LinkStage::Resolve, Reply::Tag(_)) => true,
            (LinkStage::Resolve, Reply::Missing) => true,
            (LinkStage::Create, Reply::Done) => true,
            (LinkStage::Link, Reply::Done) => true,
            _ => false,
        }
    }

    /// The stage reached, and the call made, once `ids` and `linked` are settled.
    pub open spec fn settled(&self, c: Option<StoreCall>) -> bool {
        &&& self.inv()
        &&& match c {
            Some(call) => self.awaits(call),
            None => self.stage == LinkStage::Resolved || self.stage == LinkStage::Complete,
        }
    }

    /// The replacement of a post's tags by `names`, and its first call.
    pub fn start(post_id: u128, names: Vec<String>) -> (r: (TagLinks, Option<StoreCall>))
        ensures
            r.0.post_id == post_id,
            r.0.names@ == names@,
            r.0.ids@.len() == 0,
            r.0.linked == 0,
            r.0.settled(r.1),
            r.0.stage == LinkStage::Resolve || r.0.stage == LinkStage::Resolved,
    {
        let mut t = TagLinks {
            post_id,
            names,
            ids: Vec::new(),
            pending: 0,
            linked: 0,
            stage: LinkStage::Resolved,
        };
        let c = t.resolve_next();
        (t, c)
    }

    /// A replacement by `names` that has not asked anything yet.
    pub fn new(post_id: u128, names: Vec<String>) -> (r: TagLinks)
        ensures
            r.post_id == post_id,
            r.names@ == names@,
            r.ids@.len() == 0,
            r.linked == 0,
    {
        TagLinks { post_id, names, ids: Vec::new(), pending: 0, linked: 0, stage: LinkStage::Resolved }
    }

    /// Asks for the next unresolved name, or stops at `Resolved`.
    pub fn resolve_next(&mut self) -> (c: Option<StoreCall>)
        requires
            old(self).ids.len() <= old(self).names.len(),
            old(self).linked == 0,
        ensures
            final(self).names == old(self).names,
            final(self).ids == old(self).ids,
            final(self).post_id == old(self).post_id,
            final(self).linked == 0,
            final(self).settled(c),
            final(self).stage == LinkStage::Resolve || final(self).stage == LinkStage::Resolved,
            final(self).stage == LinkStage::Resolve <==> old(self).ids.len() < old(
                self,
            ).names.len(),
    {
        let k = self.ids.len();
        if k < self.names.len() {
            self.stage = LinkStage::Resolve;
            Some(StoreCall::FindTag(self.names[k].clone()))
        } else {
            self.stage = LinkStage::Resolved;
            None
        }
    }

    /// Starts writing the associations, once every name is resolved.
    pub fn begin_links(&mut self) -> (c: Option<StoreCall>)
        requires
            old(self).inv(),
            old(self).stage == LinkStage::Resolved,
        ensures
            final(self).names == old(self).names,
            final(self).ids == old(self).ids,
            final(self).post_id == old(self).post_id,
            final(self).linked == 0,
            final(self).settled(c),
            c is None <==> final(self).stage == LinkStage::Complete,
    {
        if self.ids.len() == 0 {
            self.stage = LinkStage::Complete;
            None
        } else {
            self.stage = LinkStage::Link;
            Some(StoreCall::InsertPostTag(self.post_id, self.ids[0]))
        }
    }

    /// Takes the store's reply to the awaited call. A found tag gives its
    /// identifier; a missing one is created under a fresh identifier; any
    /// other reply is a storage failure.
    pub fn advance(&mut self, reply: Reply) -> (r: Result<Option<StoreCall>, ()>)
        requires
            old(self).inv(),
            old(self).stage != LinkStage::Resolved,
            old(self).stage != LinkStage::Complete,
        ensures
            final(self).names == old(self).names,
            final(self).post_id == old(self).post_id,
            r is Ok <==> old(self).accepts(reply),
            r is Ok ==> final(self).settled(r->Ok_0),
            match (old(self).stage, reply) {
                (LinkStage::Resolve, Reply::Tag(t)) => r is Ok && final(self).ids@ == old(
                    self,
                ).ids@.push(t.id),
                (LinkStage::Resolve, Reply::Missing) => r is Ok && final(self).stage
                    == LinkStage::Create && final(self).ids == old(self).ids,
                (LinkStage::Create, Reply::Done) => r is Ok && final(self).ids@ == old(
                    self,
                ).ids@.push(old(self).pending),
                (LinkStage::Link, Reply::Done) => r is Ok && final(self).ids == old(self).ids
                    && final(self).linked == old(self).linked + 1 && (final(self).stage
                    == LinkStage::Complete <==> final(self).linked == final(self).names.len()),
                _ => r is Err,
            },
    {
        match (self.stage, reply) {
            (LinkStage::Resolve, Reply::Tag(t)) => {
                self.ids.push(t.id);
                Ok(self.resolve_next())
            },
            (LinkStage::Resolve, Reply::Missing) => {
                let k = self.ids.len();
                self.pending = new_id();
                self.stage = LinkStage::Create;
                Ok(Some(StoreCall::CreateTag(TagRow { id: self.pending, name: self.names[k].clone() })))
            },
            (LinkStage::Create, Reply::Done) => {
                self.ids.push(self.pending);
                Ok(self.resolve_next())
            },
            (LinkStage::Link, Reply::Done) => {
                self.linked = self.linked + 1;
                if self.linked < self.ids.len() {
                    Ok(Some(StoreCall::InsertPostTag(self.post_id, self.ids[self.linked])))
                } else {
                    self.stage = LinkStage::Complete;
                    Ok(None)
                }
            },
            _ => Err(()),
        }
    }
}

} // verus!
