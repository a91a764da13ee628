//! Shared-secret authentication of mutating requests.
use vstd::prelude::*;
use crate::text::{opt_view, str_eq};

verus! {

/// The outcome of an authentication check.
#[derive(Clone, Copy, Debug, PartialEq, Eq, Structural)]
pub enum AuthDecision {
    Allow,
    Deny,
}

/// Whether `mode` names development mode.
pub open spec fn is_development(mode: Seq<char>) -> bool {
    mode == "development"@
}

/// A request is allowed in development mode, and otherwise exactly when a
/// non-empty key is configured and the request's `x-api-key` value equals it.
pub open spec fn allows(
    header: Option<Seq<char>>,
    expected: Option<Seq<char>>,
    mode: Seq<char>,
) -> bool {
    is_development(mode) || (expected is Some && expected->0.len() > 0 && header == expected)
}

/// Decides whether a request carrying the `x-api-key` value `header` may
/// proceed, given the configured key and the deployment mode.
pub fn authenticate(header: &Option<String>, expected: &Option<String>, mode: &str) -> (r:
    AuthDecision)
    ensures
        (r == AuthDecision::Allow) == allows(opt_view(*header), opt_view(*expected), mode@),
{
    if str_eq(mode, "development") {
        return AuthDecision::Allow;
    }
    match (header, expected) {
        (Some(h), Some(k)) => {
            if k.as_str().unicode_len() > 0 && str_eq(h.as_str(), k.as_str()) {
                AuthDecision::Allow
            } else {
                AuthDecision::Deny
            }
        },
        _ => AuthDecision::Deny,
    }
}

} // verus!
