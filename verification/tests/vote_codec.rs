use apub_verify::error::FederationError;
use apub_verify::vote::{Vote, VoteType};

#[test]
fn decode_one_is_like() {
    assert_eq!(VoteType::try_from(1), Ok(VoteType::Like));
}

#[test]
fn decode_minus_one_is_dislike() {
    assert_eq!(VoteType::try_from(-1), Ok(VoteType::Dislike));
}

#[test]
fn decode_rejects_zero() {
    assert_eq!(
        VoteType::try_from(0),
        Err(FederationError::InvalidVoteMagnitude)
    );
}

#[test]
fn decode_rejects_two() {
    assert_eq!(
        VoteType::try_from(2),
        Err(FederationError::InvalidVoteMagnitude)
    );
}

#[test]
fn decode_rejects_minus_two() {
    assert_eq!(
        VoteType::try_from(-2),
        Err(FederationError::InvalidVoteMagnitude)
    );
}

#[test]
fn decode_rejects_extremes() {
    assert_eq!(
        VoteType::try_from(i16::MAX),
        Err(FederationError::InvalidVoteMagnitude)
    );
    assert_eq!(
        VoteType::try_from(i16::MIN),
        Err(FederationError::InvalidVoteMagnitude)
    );
}

#[test]
fn encode_like_is_one() {
    assert_eq!(i16::from(&VoteType::Like), 1);
}

#[test]
fn encode_dislike_is_minus_one() {
    assert_eq!(i16::from(&VoteType::Dislike), -1);
}

#[test]
fn codec_round_trips_both_kinds() {
    for kind in [VoteType::Like, VoteType::Dislike] {
        assert_eq!(VoteType::try_from(i16::from(&kind)), Ok(kind));
    }
}

#[test]
fn tag_round_trips_both_kinds() {
    for kind in [VoteType::Like, VoteType::Dislike] {
        assert_eq!(VoteType::from_tag(kind.tag()), Some(kind));
    }
}

#[test]
fn unknown_tag_decodes_to_nothing() {
    assert_eq!(VoteType::from_tag("Announce"), None);
    assert_eq!(VoteType::from_tag(""), None);
    assert_eq!(VoteType::from_tag("like"), None);
}

#[test]
fn like_envelope_decodes_and_encodes_to_one() {
    let vote = Vote::from_parts(
        Some("https://a.example/u/alice".to_string()),
        Some("https://b.example/post/1".to_string()),
        Some("Like".to_string()),
        Some("https://a.example/activities/1".to_string()),
    )
    .unwrap();
    assert_eq!(vote.kind, VoteType::Like);
    assert_eq!(i16::from(&vote.kind), 1);
    assert_eq!(vote.actor.url, "https://a.example/u/alice");
    assert_eq!(vote.object.url, "https://b.example/post/1");
    assert_eq!(vote.id.url, "https://a.example/activities/1");
}

#[test]
fn dislike_envelope_encodes_to_minus_one() {
    let vote = Vote::from_parts(
        Some("https://a.example/u/alice".to_string()),
        Some("https://b.example/post/1".to_string()),
        Some("Dislike".to_string()),
        Some("https://a.example/activities/2".to_string()),
    )
    .unwrap();
    assert_eq!(vote.kind, VoteType::Dislike);
    assert_eq!(i16::from(&vote.kind), -1);
}

#[test]
fn vote_envelope_requires_every_field() {
    let actor = Some("https://a.example/u/alice".to_string());
    let object = Some("https://b.example/post/1".to_string());
    let kind = Some("Like".to_string());
    let id = Some("https://a.example/activities/1".to_string());
    assert_eq!(
        Vote::from_parts(None, object.clone(), kind.clone(), id.clone()),
        Err(FederationError::MalformedEnvelope)
    );
    assert_eq!(
        Vote::from_parts(actor.clone(), None, kind.clone(), id.clone()),
        Err(FederationError::MalformedEnvelope)
    );
    assert_eq!(
        Vote::from_parts(actor.clone(), object.clone(), None, id.clone()),
        Err(FederationError::MalformedEnvelope)
    );
    assert_eq!(
        Vote::from_parts(actor.clone(), object.clone(), kind.clone(), None),
        Err(FederationError::MalformedEnvelope)
    );
}

#[test]
fn vote_envelope_rejects_unknown_tag() {
    assert_eq!(
        Vote::from_parts(
            Some("https://a.example/u/alice".to_string()),
            Some("https://b.example/post/1".to_string()),
            Some("Flag".to_string()),
            Some("https://a.example/activities/1".to_string()),
        ),
        Err(FederationError::MalformedEnvelope)
    );
}

#[test]
fn only_unresolvable_is_transient() {
    assert!(FederationError::Unresolvable.is_transient());
    assert!(!FederationError::InvalidVoteMagnitude.is_transient());
    assert!(!FederationError::DomainMismatch.is_transient());
    assert!(!FederationError::ProhibitedContent.is_transient());
    assert!(!FederationError::MalformedEnvelope.is_transient());
    assert!(!FederationError::IdentityRejected.is_transient());
}
