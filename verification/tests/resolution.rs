use apub_verify::error::FederationError;
use apub_verify::remote::RemoteRef;
use apub_verify::resolve::{Community, PostOrComment, VoteResolution};
use apub_verify::vote::Vote;

fn like_vote() -> Vote {
    Vote::from_parts(
        Some("https://a.example/u/alice".to_string()),
        Some("https://b.example/post/1".to_string()),
        Some("Like".to_string()),
        Some("https://a.example/activities/1".to_string()),
    )
    .unwrap()
}

#[test]
fn resolution_starts_at_the_object() {
    let state = like_vote().community();
    assert_eq!(
        state,
        VoteResolution::FetchingObject {
            object: RemoteRef {
                url: "https://b.example/post/1".to_string()
            }
        }
    );
}

#[test]
fn resolution_chains_to_the_owning_community() {
    let object = PostOrComment {
        id: RemoteRef {
            url: "https://b.example/post/1".to_string(),
        },
        community: RemoteRef {
            url: "https://b.example/c/tech".to_string(),
        },
    };
    let state = like_vote().community().on_object(Ok(object));
    assert_eq!(
        state,
        VoteResolution::FetchingCommunity {
            community: RemoteRef {
                url: "https://b.example/c/tech".to_string()
            }
        }
    );
    let community = Community {
        id: RemoteRef {
            url: "https://b.example/c/tech".to_string(),
        },
    };
    let done = state.on_community(Ok(community.clone()));
    assert_eq!(
        done,
        VoteResolution::Complete {
            result: Ok(community)
        }
    );
}

#[test]
fn unresolvable_object_fails_the_whole_resolution() {
    let done = like_vote()
        .community()
        .on_object(Err(FederationError::Unresolvable));
    assert_eq!(
        done,
        VoteResolution::Complete {
            result: Err(FederationError::Unresolvable)
        }
    );
}

#[test]
fn unresolvable_community_fails_the_whole_resolution() {
    let object = PostOrComment {
        id: RemoteRef {
            url: "https://b.example/post/1".to_string(),
        },
        community: RemoteRef {
            url: "https://b.example/c/tech".to_string(),
        },
    };
    let done = like_vote()
        .community()
        .on_object(Ok(object))
        .on_community(Err(FederationError::Unresolvable));
    assert_eq!(
        done,
        VoteResolution::Complete {
            result: Err(FederationError::Unresolvable)
        }
    );
}

#[test]
fn references_compare_by_identifier() {
    let a = RemoteRef {
        url: "https://b.example/post/1".to_string(),
    };
    let b = RemoteRef {
        url: "https://b.example/post/1".to_string(),
    };
    let c = RemoteRef {
        url: "https://b.example/post/2".to_string(),
    };
    assert!(a.same_ref(&b));
    assert!(!a.same_ref(&c));
}
