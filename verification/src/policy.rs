//! The two injected policy snapshots of the actor verification pipeline:
//! the moderation (slur-pattern) policy applied to free-text fields, and
//! the local acceptance policy applied to actor identities. Both are
//! read-only snapshots supplied by the caller per verification pass;
//! their refresh lifecycle belongs to an external collaborator.

use vstd::prelude::*;

use crate::error::FederationError;
use crate::text::{contains_pattern, opt_str_view, str_contains_pattern, str_eq};

verus! {

/// A string list holds `s` exactly when some entry equals it.
pub open spec fn list_has(list: Seq<Seq<char>>, s: Seq<char>) -> bool {
    exists|i: int| 0 <= i < list.len() && list[i] == s
}

/// The views of a sequence of owned strings.
pub open spec fn strs_view(list: Seq<String>) -> Seq<Seq<char>> {
    list.map_values(|t: String| t@)
}

/// Whether some pattern of the policy occurs as a substring of `text`.
pub open spec fn spec_matches(patterns: Seq<Seq<char>>, text: Seq<char>) -> bool {
    exists|j: int| 0 <= j < patterns.len() && contains_pattern(text, patterns[j])
}

/// The moderation screen's outcome on one required text field: a policy
/// hit is a fatal `ProhibitedContent` rejection.
pub open spec fn spec_check_slurs(patterns: Seq<Seq<char>>, text: Seq<char>) -> Result<
    (),
    FederationError,
> {
    if spec_matches(patterns, text) {
        Err(FederationError::ProhibitedContent)
    } else {
        Ok(())
    }
}

/// The moderation screen's outcome on one optional text field: an absent
/// field is vacuously accepted.
pub open spec fn spec_check_slurs_opt(patterns: Seq<Seq<char>>, text: Option<Seq<char>>) -> Result<
    (),
    FederationError,
> {
    match text {
        Some(t) => spec_check_slurs(patterns, t),
        None => Ok(()),
    }
}

/// A snapshot of the slur-pattern moderation policy: a text is rejected
/// when any pattern occurs in it as a contiguous substring.
#[derive(Clone, Debug, PartialEq, Eq)]
pub struct ModerationPolicy {
    /// The disallowed patterns.
    pub patterns: Vec<String>,
}

impl View for ModerationPolicy {
    type V = Seq<Seq<char>>;

    open spec fn view(&self) -> Seq<Seq<char>> {
        strs_view(self.patterns@)
    }
}

impl ModerationPolicy {
    /// A policy with no patterns, which rejects nothing.
    pub fn empty() -> (r: ModerationPolicy)
        ensures
            r@ =~= Seq::<Seq<char>>::empty(),
    {
        ModerationPolicy { patterns: Vec::new() }
    }

    /// Whether any pattern of this policy occurs in `text`.
    pub fn matches(&self, text: &str) -> (r: bool)
        ensures
            r == spec_matches(self@, text@),
    {
        let mut j: usize = 0;
        while j < self.patterns.len()
            invariant
                j <= self.patterns.len(),
                forall|k: int| 0 <= k < j ==> !contains_pattern(text@, self@[k]),
            decreases self.patterns.len() - j,
        {
            if str_contains_pattern(text, self.patterns[j].as_str()) {
                proof {
                    assert(self@[j as int] == self.patterns@[j as int]@);
                }
                return true;
            }
            j = j + 1;
        }
        false
    }
}

/// Screen one required free-text field against the moderation policy.
pub fn check_slurs(text: &str, policy: &ModerationPolicy) -> (r: Result<(), FederationError>)
    ensures
        r == spec_check_slurs(policy@, text@),
{
    if policy.matches(text) {
        Err(FederationError::ProhibitedContent)
    } else {
        Ok(())
    }
}

/// Screen one optional free-text field; an absent field passes vacuously.
pub fn check_slurs_opt(text: &Option<String>, policy: &ModerationPolicy) -> (r: Result<
    (),
    FederationError,
>)
    ensures
        r == spec_check_slurs_opt(policy@, opt_str_view(*text)),
{
    match text {
        Some(t) => check_slurs(t.as_str(), policy),
        None => Ok(()),
    }
}

/// A snapshot of the local acceptance policy for remote actor
/// identities: an optional strict allowlist of instance domains, and a
/// blocklist that always applies.
#[derive(Clone, Debug, PartialEq, Eq)]
pub struct IdentityPolicy {
    /// When present, only identities on these domains are accepted.
    pub allowed_instances: Option<Vec<String>>,
    /// Identities on these domains are never accepted.
    pub blocked_instances: Vec<String>,
}

impl IdentityPolicy {
    /// The view of the optional allowlist.
    pub open spec fn spec_allowlist(self) -> Option<Seq<Seq<char>>> {
        match self.allowed_instances {
            Some(list) => Some(strs_view(list@)),
            None => None,
        }
    }

    /// The view of the blocklist.
    pub open spec fn spec_blocklist(self) -> Seq<Seq<char>> {
        strs_view(self.blocked_instances@)
    }

    /// An actor identity is acceptable exactly when it has a domain at
    /// all, that domain is on the allowlist (when one is configured),
    /// and it is not on the blocklist.
    pub open spec fn spec_accepts(self, domain: Option<Seq<char>>) -> bool {
        match domain {
            Some(d) => {
                &&& (match self.spec_allowlist() {
                    Some(allow) => list_has(allow, d),
                    None => true,
                })
                &&& !list_has(self.spec_blocklist(), d)
            },
            None => false,
        }
    }

    /// A policy with no allowlist and an empty blocklist, which accepts
    /// every identity that has a domain.
    pub fn permissive() -> (r: IdentityPolicy)
        ensures
            r.spec_allowlist() is None,
            r.spec_blocklist() =~= Seq::<Seq<char>>::empty(),
    {
        IdentityPolicy { allowed_instances: None, blocked_instances: Vec::new() }
    }

    /// Decide whether an actor identity on the given domain (`None` for
    /// an identity without one) satisfies this acceptance policy.
    pub fn accepts(&self, domain: &Option<String>) -> (r: bool)
        ensures
            r == self.spec_accepts(opt_str_view(*domain)),
    {
        let d = match domain {
            Some(d) => d,
            None => {
                return false;
            },
        };
        if list_contains(&self.blocked_instances, d.as_str()) {
            return false;
        }
        match &self.allowed_instances {
            Some(allow) => list_contains(allow, d.as_str()),
            None => true,
        }
    }
}

/// Whether some entry of `list` equals `s`, character for character.
fn list_contains(list: &Vec<String>, s: &str) -> (r: bool)
    ensures
        r == list_has(strs_view(list@), s@),
{
    let mut i: usize = 0;
    while i < list.len()
        invariant
            i <= list.len(),
            forall|k: int| 0 <= k < i ==> #[trigger] strs_view(list@)[k] != s@,
        decreases list.len() - i,
    {
        if str_eq(list[i].as_str(), s) {
            proof {
                assert(strs_view(list@)[i as int] == s@);
            }
            return true;
        }
        i = i + 1;
    }
    false
}

} // verus!
