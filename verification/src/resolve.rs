//! The community resolution protocol: the owning community of an
//! activity is found by chaining remote-object dereferences. The
//! dereferencing itself (network fetch or cache lookup) belongs to the
//! federation runtime; this module is the decision side of the chain,
//! a step function from the current resolution state and the outcome of
//! the last dereference to the next state. The runtime performs the
//! dereference each non-final state asks for and feeds the outcome back
//! in; within one activity the steps are strictly sequential.

use vstd::prelude::*;

use crate::error::FederationError;
use crate::remote::RemoteRef;
use crate::vote::Vote;

verus! {

/// A remote post or comment, as far as this layer reads it: it knows
/// the community it belongs to.
#[derive(Clone, Debug, PartialEq, Eq)]
pub struct PostOrComment {
    /// The object's own id.
    pub id: RemoteRef,
    /// The community the object is scoped to.
    pub community: RemoteRef,
}

/// The resolved community an activity acts upon. Derived, never stored:
/// computed fresh by the resolution protocol for each activity.
#[derive(Clone, Debug, PartialEq, Eq)]
pub struct Community {
    /// The community's canonical id.
    pub id: RemoteRef,
}

/// The state of the resolution of a vote's owning community: either the
/// reference the runtime must dereference next, or the finished outcome.
/// No state holds a partially built community.
#[derive(Debug, PartialEq, Eq)]
pub enum VoteResolution {
    /// The vote's `object` reference must be dereferenced to a post or
    /// comment.
    FetchingObject {
        /// The reference to dereference.
        object: RemoteRef,
    },
    /// The owning community of the post or comment must be dereferenced.
    FetchingCommunity {
        /// The reference to dereference.
        community: RemoteRef,
    },
    /// Resolution finished: the owning community, or the error of the
    /// step that failed, propagated unchanged.
    Complete {
        /// The outcome.
        result: Result<Community, FederationError>,
    },
}

impl Vote {
    /// Where the resolution of this vote's community starts: with the
    /// vote's `object` reference.
    pub open spec fn spec_community(self) -> VoteResolution {
        VoteResolution::FetchingObject { object: self.object }
    }

    /// Begin resolving the community this vote acts upon.
    pub fn community(&self) -> (r: VoteResolution)
        ensures
            r == self.spec_community(),
    {
        VoteResolution::FetchingObject { object: RemoteRef { url: self.object.url.clone() } }
    }
}

impl VoteResolution {
    /// What the first dereference outcome leads to: a fetched post or
    /// comment directs the chain to its community reference; a failure
    /// ends the resolution with that failure, unchanged.
    pub open spec fn spec_on_object(
        self,
        outcome: Result<PostOrComment, FederationError>,
    ) -> VoteResolution {
        match outcome {
            Ok(object) => VoteResolution::FetchingCommunity { community: object.community },
            Err(e) => VoteResolution::Complete { result: Err(e) },
        }
    }

    /// Feed in the outcome of dereferencing the vote's `object`.
    pub fn on_object(self, outcome: Result<PostOrComment, FederationError>) -> (r: VoteResolution)
        requires
            self is FetchingObject,
        ensures
            r == self.spec_on_object(outcome),
    {
        match outcome {
            Ok(object) => VoteResolution::FetchingCommunity { community: object.community },
            Err(e) => VoteResolution::Complete { result: Err(e) },
        }
    }

    /// What the second dereference outcome leads to: the fetched
    /// community completes the resolution; a failure completes it with
    /// that failure, unchanged.
    pub open spec fn spec_on_community(
        self,
        outcome: Result<Community, FederationError>,
    ) -> VoteResolution {
        VoteResolution::Complete { result: outcome }
    }

    /// Feed in the outcome of dereferencing the owning community.
    pub fn on_community(self, outcome: Result<Community, FederationError>) -> (r: VoteResolution)
        requires
            self is FetchingCommunity,
        ensures
            r == self.spec_on_community(outcome),
    {
        VoteResolution::Complete { result: outcome }
    }
}

/// Failure law of the resolution protocol: a vote whose `object`
/// reference is unresolvable resolves to exactly `Unresolvable` — no
/// state in between holds a community, so no partially built community
/// can ever be returned.
pub proof fn lemma_unresolvable_object_propagates(vote: Vote)
    ensures
        vote.spec_community().spec_on_object(Err(FederationError::Unresolvable)) == (
        VoteResolution::Complete {
            result: Err::<Community, FederationError>(FederationError::Unresolvable),
        }),
{
}

/// Success law of the resolution protocol: when both dereferences
/// succeed, the chain asks first for the vote's `object`, then for that
/// object's community, and completes with exactly the community the
/// runtime handed back.
pub proof fn lemma_resolution_happy_path(vote: Vote, object: PostOrComment, community: Community)
    ensures
        vote.spec_community() == (VoteResolution::FetchingObject { object: vote.object }),
        vote.spec_community().spec_on_object(Ok(object)) == (VoteResolution::FetchingCommunity {
            community: object.community,
        }),
        vote.spec_community().spec_on_object(Ok(object)).spec_on_community(Ok(community)) == (
        VoteResolution::Complete { result: Ok::<Community, FederationError>(community) }),
{
}

} // verus!
