//! The remote community actor ("Group") payload: its envelope contract
//! and the verification pipeline that gates acceptance of the payload as
//! the authoritative representation of a community.

use vstd::prelude::*;

use crate::error::FederationError;
use crate::objects::{Endpoints, ImageObject, LanguageTag, MediaTypeHtml, PublicKey, Source};
use crate::policy::{
    check_slurs, check_slurs_opt, spec_matches, IdentityPolicy, ModerationPolicy,
};
use crate::remote::{domain_of, opt_ref_view, opt_str_eq, parse_domain, RemoteRef};
use crate::text::{opt_str_view, str_eq};

verus! {

/// The actor-type tag of a community actor; its only wire value is
/// `"Group"`.
#[derive(Clone, Copy, Debug, PartialEq, Eq, Structural)]
pub struct GroupType;

/// A remote community actor, as decoded from the wire. A value of this
/// type is untrusted until [`Group::verify`] accepts it; acceptance
/// replaces the previously cached actor wholesale, never partially.
#[derive(Clone, Debug, PartialEq, Eq)]
pub struct Group {
    /// The actor-type tag.
    pub kind: GroupType,
    /// The canonical id; doubles as the canonical URL of the community.
    pub id: RemoteRef,
    /// The username, set at creation and stable after that.
    pub preferred_username: String,
    /// Where activities for this community are delivered.
    pub inbox: RemoteRef,
    /// The collection of followers.
    pub followers: Option<RemoteRef>,
    /// The actor's published key material.
    pub public_key: PublicKey,
    /// The display title.
    pub name: Option<String>,
    /// The sidebar text.
    pub content: Option<String>,
    /// The markdown source of the sidebar.
    pub source: Option<Source>,
    /// The media type of the sidebar text.
    pub media_type: Option<MediaTypeHtml>,
    /// The short description.
    pub summary: Option<String>,
    /// The community icon.
    pub icon: Option<ImageObject>,
    /// The community banner.
    pub image: Option<ImageObject>,
    /// Whether the community is marked sensitive.
    pub sensitive: Option<bool>,
    /// The collection of moderators.
    pub attributed_to: Option<RemoteRef>,
    /// Whether only moderators may post.
    pub posting_restricted_to_mods: Option<bool>,
    /// The collection of the community's activities.
    pub outbox: RemoteRef,
    /// Extra delivery endpoints.
    pub endpoints: Option<Endpoints>,
    /// The collection of featured posts.
    pub featured: Option<RemoteRef>,
    /// The languages the community speaks, in order.
    pub language: Vec<LanguageTag>,
    /// Whether follows need manual approval (a private community).
    pub manually_approves_followers: Option<bool>,
    /// When the community was created, as a Unix timestamp.
    pub published: Option<i64>,
    /// When it was last updated, as a Unix timestamp.
    pub updated: Option<i64>,
}

/// The raw fields of a community actor payload, every one optional, as
/// the lenient wire decode hands them over: a malformed optional field
/// has already been dropped to `None` there, while a missing or
/// malformed required field is still visible here and makes the whole
/// envelope malformed.
#[derive(Clone, Debug, PartialEq, Eq)]
pub struct GroupParts {
    /// The actor-type tag text; must be `"Group"`.
    pub kind: Option<String>,
    /// The canonical id URL.
    pub id: Option<String>,
    /// The username.
    pub preferred_username: Option<String>,
    /// The inbox URL.
    pub inbox: Option<String>,
    /// The followers collection id.
    pub followers: Option<String>,
    /// The published key material.
    pub public_key: Option<PublicKey>,
    /// The display title.
    pub name: Option<String>,
    /// The sidebar text.
    pub content: Option<String>,
    /// The markdown source of the sidebar.
    pub source: Option<Source>,
    /// The media-type text; when present it must be `"text/html"`.
    pub media_type: Option<String>,
    /// The short description.
    pub summary: Option<String>,
    /// The community icon.
    pub icon: Option<ImageObject>,
    /// The community banner.
    pub image: Option<ImageObject>,
    /// Whether the community is marked sensitive.
    pub sensitive: Option<bool>,
    /// The moderators collection id.
    pub attributed_to: Option<String>,
    /// Whether only moderators may post.
    pub posting_restricted_to_mods: Option<bool>,
    /// The outbox collection id.
    pub outbox: Option<String>,
    /// Extra delivery endpoints.
    pub endpoints: Option<Endpoints>,
    /// The featured collection id.
    pub featured: Option<String>,
    /// The languages the community speaks.
    pub language: Vec<LanguageTag>,
    /// Whether follows need manual approval.
    pub manually_approves_followers: Option<bool>,
    /// When the community was created, as a Unix timestamp.
    pub published: Option<i64>,
    /// When it was last updated, as a Unix timestamp.
    pub updated: Option<i64>,
}

/// The envelope contract of a community actor payload: every required
/// field is present, the actor-type tag reads `"Group"`, and the
/// media-type tag, when present at all, reads `"text/html"`.
pub open spec fn spec_envelope_ok(parts: GroupParts) -> bool {
    &&& parts.kind matches Some(k) && k@ == "Group"@
    &&& parts.id is Some
    &&& parts.preferred_username is Some
    &&& parts.inbox is Some
    &&& parts.public_key is Some
    &&& parts.outbox is Some
    &&& (parts.media_type matches Some(m) ==> m@ == "text/html"@)
}

/// How a built community actor relates to the raw fields it came from:
/// required fields carried over exactly, optional fields preserved as
/// received, absent ones still absent.
pub open spec fn spec_built_from(parts: GroupParts, g: Group) -> bool {
    &&& parts.id matches Some(id) && g.id@ == id@
    &&& parts.preferred_username matches Some(u) && g.preferred_username == u
    &&& parts.inbox matches Some(ib) && g.inbox@ == ib@
    &&& opt_ref_view(g.followers) == opt_str_view(parts.followers)
    &&& parts.public_key matches Some(pk) && g.public_key == pk
    &&& g.name == parts.name
    &&& g.content == parts.content
    &&& g.source == parts.source
    &&& (g.media_type is Some <==> parts.media_type is Some)
    &&& g.summary == parts.summary
    &&& g.icon == parts.icon
    &&& g.image == parts.image
    &&& g.sensitive == parts.sensitive
    &&& opt_ref_view(g.attributed_to) == opt_str_view(parts.attributed_to)
    &&& g.posting_restricted_to_mods == parts.posting_restricted_to_mods
    &&& parts.outbox matches Some(ob) && g.outbox@ == ob@
    &&& g.endpoints == parts.endpoints
    &&& opt_ref_view(g.featured) == opt_str_view(parts.featured)
    &&& g.language == parts.language
    &&& g.manually_approves_followers == parts.manually_approves_followers
    &&& g.published == parts.published
    &&& g.updated == parts.updated
}

impl Group {
    /// Assemble a community actor from raw wire fields. Required fields
    /// have no leniency: any of them missing or invalid makes the whole
    /// envelope malformed. Optional fields pass through as received.
    pub fn from_parts(parts: GroupParts) -> (r: Result<Group, FederationError>)
        ensures
            r is Ok <==> spec_envelope_ok(parts),
            r matches Ok(g) ==> spec_built_from(parts, g),
            r is Err ==> r == Err::<Group, FederationError>(FederationError::MalformedEnvelope),
    {
        let GroupParts {
            kind,
            id,
            preferred_username,
            inbox,
            followers,
            public_key,
            name,
            content,
            source,
            media_type,
            summary,
            icon,
            image,
            sensitive,
            attributed_to,
            posting_restricted_to_mods,
            outbox,
            endpoints,
            featured,
            language,
            manually_approves_followers,
            published,
            updated,
        } = parts;
        let kind = match kind {
            Some(k) => {
                if !str_eq(k.as_str(), "Group") {
                    return Err(FederationError::MalformedEnvelope);
                }
                GroupType
            },
            None => {
                return Err(FederationError::MalformedEnvelope);
            },
        };
        let id = match id {
            Some(s) => RemoteRef { url: s },
            None => {
                return Err(FederationError::MalformedEnvelope);
            },
        };
        let preferred_username = match preferred_username {
            Some(u) => u,
            None => {
                return Err(FederationError::MalformedEnvelope);
            },
        };
        let inbox = match inbox {
            Some(s) => RemoteRef { url: s },
            None => {
                return Err(FederationError::MalformedEnvelope);
            },
        };
        let public_key = match public_key {
            Some(pk) => pk,
            None => {
                return Err(FederationError::MalformedEnvelope);
            },
        };
        let outbox = match outbox {
            Some(s) => RemoteRef { url: s },
            None => {
                return Err(FederationError::MalformedEnvelope);
            },
        };
        let followers = match followers {
            Some(s) => Some(RemoteRef { url: s }),
            None => None,
        };
        let attributed_to = match attributed_to {
            Some(s) => Some(RemoteRef { url: s }),
            None => None,
        };
        let featured = match featured {
            Some(s) => Some(RemoteRef { url: s }),
            None => None,
        };
        let media_type = match media_type {
            Some(m) => {
                if !str_eq(m.as_str(), "text/html") {
                    return Err(FederationError::MalformedEnvelope);
                }
                Some(MediaTypeHtml)
            },
            None => None,
        };
        Ok(
            Group {
                kind,
                id,
                preferred_username,
                inbox,
                followers,
                public_key,
                name,
                content,
                source,
                media_type,
                summary,
                icon,
                image,
                sensitive,
                attributed_to,
                posting_restricted_to_mods,
                outbox,
                endpoints,
                featured,
                language,
                manually_approves_followers,
                published,
                updated,
            },
        )
    }

    /// The verification pipeline's verdict, as a single specification:
    /// the id must satisfy the acceptance policy, its domain must equal
    /// the expected one, and the moderation policy must match neither
    /// the username nor any present free-text display field. The checks
    /// short-circuit in exactly this order, so a spoofed domain is
    /// rejected before any moderation screen runs.
    pub open spec fn spec_verify(
        self,
        expected_domain: Seq<char>,
        identity: IdentityPolicy,
        moderation: Seq<Seq<char>>,
    ) -> Result<(), FederationError> {
        let id_domain = domain_of(self.id@);
        if !identity.spec_accepts(id_domain) {
            Err(FederationError::IdentityRejected)
        } else if id_domain != domain_of(expected_domain) {
            Err(FederationError::DomainMismatch)
        } else if spec_matches(moderation, self.preferred_username@) {
            Err(FederationError::ProhibitedContent)
        } else if (self.name matches Some(n) && spec_matches(moderation, n@)) {
            Err(FederationError::ProhibitedContent)
        } else if (self.summary matches Some(s) && spec_matches(moderation, s@)) {
            Err(FederationError::ProhibitedContent)
        } else {
            Ok(())
        }
    }

    /// Verify this actor payload before accepting it as authoritative.
    /// `expected_domain` is the URL the payload was retrieved from or
    /// referenced as; `identity` and `moderation` are the caller's
    /// current policy snapshots. Either every check passes and the actor
    /// may replace the cached one, or the first failing check's error is
    /// returned and nothing of the payload is to be kept.
    pub fn verify(
        &self,
        expected_domain: &str,
        identity: &IdentityPolicy,
        moderation: &ModerationPolicy,
    ) -> (r: Result<(), FederationError>)
        ensures
            r == self.spec_verify(expected_domain@, *identity, moderation@),
    {
        let id_domain = parse_domain(self.id.url.as_str());
        proof {
            assert(opt_str_view(id_domain) == domain_of(self.id@));
        }
        if !identity.accepts(&id_domain) {
            return Err(FederationError::IdentityRejected);
        }
        let expected = parse_domain(expected_domain);
        proof {
            assert(opt_str_view(expected) == domain_of(expected_domain@));
        }
        if !opt_str_eq(&id_domain, &expected) {
            return Err(FederationError::DomainMismatch);
        }
        match check_slurs(self.preferred_username.as_str(), moderation) {
            Err(e) => {
                return Err(e);
            },
            Ok(()) => {},
        }
        match check_slurs_opt(&self.name, moderation) {
            Err(e) => {
                return Err(e);
            },
            Ok(()) => {},
        }
        match check_slurs_opt(&self.summary, moderation) {
            Err(e) => {
                return Err(e);
            },
            Ok(()) => {},
        }
        Ok(())
    }
}

/// Anti-spoofing law: an actor whose id passes the acceptance policy but
/// lives on a different domain than expected is rejected with exactly
/// `DomainMismatch`, whatever every other field holds and whatever the
/// moderation policy is — the domain check runs before any moderation
/// screen.
pub proof fn lemma_domain_mismatch_rejected(
    g: Group,
    expected_domain: Seq<char>,
    identity: IdentityPolicy,
    moderation: Seq<Seq<char>>,
)
    requires
        identity.spec_accepts(domain_of(g.id@)),
        domain_of(g.id@) != domain_of(expected_domain),
    ensures
        g.spec_verify(expected_domain, identity, moderation) == Err::<(), FederationError>(
            FederationError::DomainMismatch,
        ),
{
}

/// Moderation law, hit: with identity and domain checks passing, a
/// policy match anywhere in the username is rejected with exactly
/// `ProhibitedContent`.
pub proof fn lemma_prohibited_username(
    g: Group,
    expected_domain: Seq<char>,
    identity: IdentityPolicy,
    moderation: Seq<Seq<char>>,
)
    requires
        identity.spec_accepts(domain_of(g.id@)),
        domain_of(g.id@) == domain_of(expected_domain),
        spec_matches(moderation, g.preferred_username@),
    ensures
        g.spec_verify(expected_domain, identity, moderation) == Err::<(), FederationError>(
            FederationError::ProhibitedContent,
        ),
{
}

/// Moderation law, vacuous: with identity and domain checks passing, a
/// clean username and absent optional display fields, verification
/// succeeds — a policy that would match only inside absent fields
/// rejects nothing.
pub proof fn lemma_absent_fields_vacuous(
    g: Group,
    expected_domain: Seq<char>,
    identity: IdentityPolicy,
    moderation: Seq<Seq<char>>,
)
    requires
        identity.spec_accepts(domain_of(g.id@)),
        domain_of(g.id@) == domain_of(expected_domain),
        !spec_matches(moderation, g.preferred_username@),
        g.name is None,
        g.summary is None,
    ensures
        g.spec_verify(expected_domain, identity, moderation) == Ok::<(), FederationError>(()),
{
}

} // verus!
