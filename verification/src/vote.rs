//! The vote activity envelope and the codec between wire-level vote kinds
//! and the application's signed score.

use vstd::prelude::*;

use crate::error::FederationError;
use crate::remote::RemoteRef;
use crate::text::{opt_str_view, str_eq};

verus! {

/// The closed set of recognized vote kinds. No other magnitude than the
/// two scores these stand for is representable at the wire boundary.
#[derive(Clone, Copy, Debug, PartialEq, Eq, Structural)]
pub enum VoteType {
    Like,
    Dislike,
}

impl VoteType {
    /// The signed score a vote kind encodes to: `Like` is 1, `Dislike` is -1.
    pub open spec fn spec_score(self) -> int {
        match self {
            VoteType::Like => 1,
            VoteType::Dislike => -1,
        }
    }

    /// What a wire-level integer decodes to: only 1 and -1 are ever
    /// valid, everything else (0 included) is `InvalidVoteMagnitude`.
    pub open spec fn spec_decode(value: int) -> Result<VoteType, FederationError> {
        if value == 1 {
            Ok(VoteType::Like)
        } else if value == -1 {
            Ok(VoteType::Dislike)
        } else {
            Err(FederationError::InvalidVoteMagnitude)
        }
    }

    /// The wire tag a vote kind serializes to.
    pub open spec fn spec_tag(self) -> Seq<char> {
        match self {
            VoteType::Like => "Like"@,
            VoteType::Dislike => "Dislike"@,
        }
    }

    /// The vote kind a wire tag names, if it names one at all.
    pub open spec fn spec_from_tag(tag: Seq<char>) -> Option<VoteType> {
        if tag == "Like"@ {
            Some(VoteType::Like)
        } else if tag == "Dislike"@ {
            Some(VoteType::Dislike)
        } else {
            None
        }
    }

    /// Decode a wire tag into a vote kind; unrecognized tags decode to
    /// nothing rather than to a default vote.
    pub fn from_tag(tag: &str) -> (r: Option<VoteType>)
        ensures
            r == Self::spec_from_tag(tag@),
    {
        if str_eq(tag, "Like") {
            Some(VoteType::Like)
        } else if str_eq(tag, "Dislike") {
            Some(VoteType::Dislike)
        } else {
            None
        }
    }

    /// The wire tag this vote kind serializes to.
    pub fn tag(&self) -> (r: &'static str)
        ensures
            r@ == self.spec_tag(),
    {
        match self {
            VoteType::Like => "Like",
            VoteType::Dislike => "Dislike",
        }
    }
}

/// A vote activity envelope, decoded and typed: who votes, on what,
/// which way, under which activity id. Transient: decoded, resolved,
/// converted to an effect, then discarded.
#[derive(Clone, Debug, PartialEq, Eq)]
pub struct Vote {
    /// The person casting the vote.
    pub actor: RemoteRef,
    /// The post or comment voted on.
    pub object: RemoteRef,
    /// Which way the vote goes.
    pub kind: VoteType,
    /// The activity's own id.
    pub id: RemoteRef,
}

/// The envelope contract of a vote activity: every field is required,
/// and the type tag must name a recognized vote kind.
pub open spec fn spec_vote_envelope_ok(
    actor: Option<Seq<char>>,
    object: Option<Seq<char>>,
    kind: Option<Seq<char>>,
    id: Option<Seq<char>>,
) -> bool {
    &&& actor is Some
    &&& object is Some
    &&& kind matches Some(k) && VoteType::spec_from_tag(k) is Some
    &&& id is Some
}

impl Vote {
    /// Assemble a vote activity from raw wire fields. All four fields
    /// are required and the tag must read `"Like"` or `"Dislike"`;
    /// anything else is a malformed envelope, with no leniency.
    pub fn from_parts(
        actor: Option<String>,
        object: Option<String>,
        kind: Option<String>,
        id: Option<String>,
    ) -> (r: Result<Vote, FederationError>)
        ensures
            r is Ok <==> spec_vote_envelope_ok(
                opt_str_view(actor),
                opt_str_view(object),
                opt_str_view(kind),
                opt_str_view(id),
            ),
            r matches Ok(v) ==> {
                &&& actor matches Some(a) && v.actor@ == a@
                &&& object matches Some(o) && v.object@ == o@
                &&& kind matches Some(k) && VoteType::spec_from_tag(k@) == Some(v.kind)
                &&& id matches Some(i) && v.id@ == i@
            },
            r is Err ==> r == Err::<Vote, FederationError>(FederationError::MalformedEnvelope),
    {
        let actor = match actor {
            Some(a) => RemoteRef { url: a },
            None => {
                return Err(FederationError::MalformedEnvelope);
            },
        };
        let object = match object {
            Some(o) => RemoteRef { url: o },
            None => {
                return Err(FederationError::MalformedEnvelope);
            },
        };
        let kind = match kind {
            Some(k) => match VoteType::from_tag(k.as_str()) {
                Some(kind) => kind,
                None => {
                    return Err(FederationError::MalformedEnvelope);
                },
            },
            None => {
                return Err(FederationError::MalformedEnvelope);
            },
        };
        let id = match id {
            Some(i) => RemoteRef { url: i },
            None => {
                return Err(FederationError::MalformedEnvelope);
            },
        };
        Ok(Vote { actor, object, kind, id })
    }
}

impl TryFrom<i16> for VoteType {
    type Error = FederationError;

    /// Decode a stored or wire-level score into a vote kind.
    fn try_from(value: i16) -> (r: Result<VoteType, FederationError>) {
        match value {
            1 => Ok(VoteType::Like),
            -1 => Ok(VoteType::Dislike),
            _ => Err(FederationError::InvalidVoteMagnitude),
        }
    }
}

impl vstd::std_specs::convert::TryFromSpecImpl<i16> for VoteType {
    open spec fn obeys_try_from_spec() -> bool {
        true
    }

    open spec fn try_from_spec(value: i16) -> Result<VoteType, FederationError> {
        VoteType::spec_decode(value as int)
    }
}

impl<'a> From<&'a VoteType> for i16 {
    /// Encode a vote kind as its signed score.
    fn from(value: &'a VoteType) -> (r: i16) {
        match value {
            VoteType::Like => 1,
            VoteType::Dislike => -1,
        }
    }
}

impl<'a> vstd::std_specs::convert::FromSpecImpl<&'a VoteType> for i16 {
    open spec fn obeys_from_spec() -> bool {
        true
    }

    open spec fn from_spec(value: &'a VoteType) -> i16 {
        value.spec_score() as i16
    }
}

/// Round-trip law of the vote codec: decoding the score a vote kind
/// encodes to gives back exactly that vote kind, for both kinds.
pub proof fn lemma_vote_codec_round_trip(kind: VoteType)
    ensures
        VoteType::spec_decode(kind.spec_score()) == Ok::<VoteType, FederationError>(kind),
{
}

/// The codec is the inverse in the other direction too: each valid wire
/// score decodes to the one kind that encodes back to exactly it.
pub proof fn lemma_vote_codec_inverse(value: int)
    requires
        value == 1 || value == -1,
    ensures
        VoteType::spec_decode(value) matches Ok(k) && k.spec_score() == value,
{
}

/// Round-trip law of the wire tag: the tag a vote kind serializes to
/// names exactly that kind again, for both kinds.
pub proof fn lemma_vote_tag_round_trip(kind: VoteType)
    ensures
        VoteType::spec_from_tag(kind.spec_tag()) == Some(kind),
{
    reveal_strlit("Like");
    reveal_strlit("Dislike");
    assert("Like"@.len() == 4);
    assert("Dislike"@.len() == 7);
    assert("Like"@ != "Dislike"@);
}

/// Completeness of the decode error: every integer outside the two valid
/// scores decodes to `InvalidVoteMagnitude`, never to a clamped vote.
pub proof fn lemma_vote_decode_rejects_other_magnitudes(value: int)
    requires
        value != 1,
        value != -1,
    ensures
        VoteType::spec_decode(value) == Err::<VoteType, FederationError>(
            FederationError::InvalidVoteMagnitude,
        ),
{
}

} // verus!
