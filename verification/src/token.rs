//! The claims structure decoded from a verified token payload, and its
//! permission check.
//!
//! The raw permission strings are the authoritative list for every check;
//! the decoded enum lists are projections of the same strings and are never
//! consulted by `check_perm`.

use vstd::prelude::*;
use crate::strutil::{seq_contains_str, contains_string, spec_split, split_at_char};
use crate::perms::{NewAuth0Perms, PermText};
use crate::claims::{
    IsClaims,
    Permissions,
    ClaimsToEnumConstructors,
    project_is_claim_views,
    project_permission_views,
};

verus! {

/// The "aud" claim's identifier half.
pub struct AudienceIdentifier(pub String);

/// The "aud" claim's URI half.
pub struct AudienceUri(pub String);

/// How the "permissions" claim arrived off the wire: as a JSON array of
/// strings, or as the text of a single non-array JSON value.
pub enum PermissionsField {
    List(Vec<String>),
    Text(String),
}

/// The plain fields pulled out of a verified token payload, before any
/// projection into typed claims.
pub struct RawTokenParts {
    pub iss: Option<String>,
    pub sub: Option<String>,
    pub aud: Option<(String, String)>,
    pub azp: Option<String>,
    pub exp: Option<u64>,
    pub iat: Option<u64>,
    pub scope: Option<Vec<String>>,
    pub permissions: Option<PermissionsField>,
    pub role: Option<String>,
}

/// The raw permission strings a "permissions" field yields: an array is
/// taken as is, any other value's text is split on spaces.
pub open spec fn raw_perm_strings_of(field: Option<PermissionsField>) -> Option<Seq<Seq<char>>> {
    match field {
        None => None,
        Some(PermissionsField::List(v)) => Some(v.deep_view()),
        Some(PermissionsField::Text(s)) => Some(spec_split(s@, ' ')),
    }
}

/// The claims carried by a verified token.
pub struct Auth0TokenFields {
    pub iss: Option<String>,
    pub sub: Option<String>,
    pub aud: Option<(AudienceIdentifier, AudienceUri)>,
    pub azp: Option<String>,
    pub exp: Option<u64>,
    pub iat: Option<u64>,
    pub scope: Option<Vec<String>>,
    pub permissions: Option<Vec<Permissions>>,
    pub raw_permissions: Option<Vec<String>>,
    pub is_claims: Option<Vec<IsClaims>>,
    pub role: Option<Vec<String>>,
}

/// A required-capability set over typed claims.
pub enum PermCheckOpt<T> {
    All(Vec<T>),
    Any(Vec<T>),
    NoneOf(Vec<T>),
}

impl Auth0TokenFields {
    /// Build the claims structure from the plain fields of a payload.
    /// The decoded enum lists are projections of the raw permission
    /// strings; the raw strings themselves are kept as ground truth.
    pub fn from_parts(parts: RawTokenParts) -> (r: Auth0TokenFields)
        ensures
            r.iss == parts.iss,
            r.sub == parts.sub,
            r.azp == parts.azp,
            r.exp == parts.exp,
            r.iat == parts.iat,
            r.scope == parts.scope,
            match parts.aud {
                Some(p) => r.aud matches Some(q) && q.0.0 == p.0 && q.1.0 == p.1,
                None => r.aud is None,
            },
            match raw_perm_strings_of(parts.permissions) {
                Some(raw) => {
                    &&& r.raw_permissions matches Some(rv) && rv.deep_view() == raw
                    &&& r.permissions matches Some(ps) && ps@ == project_permission_views(raw)
                    &&& r.is_claims matches Some(cs) && cs@ == project_is_claim_views(raw)
                },
                None => {
                    &&& r.raw_permissions is None
                    &&& r.permissions is None
                    &&& r.is_claims is None
                },
            },
            match parts.role {
                Some(s) => r.role matches Some(rs) && rs.deep_view() == spec_split(s@, ' '),
                None => r.role is None,
            },
    {
        let aud = match parts.aud {
            Some(p) => Some((AudienceIdentifier(p.0), AudienceUri(p.1))),
            None => None,
        };
        let raw_permissions: Option<Vec<String>> = match parts.permissions {
            None => None,
            Some(PermissionsField::List(v)) => Some(v),
            Some(PermissionsField::Text(s)) => Some(split_at_char(s.as_str(), ' ')),
        };
        let permissions: Option<Vec<Permissions>> = match &raw_permissions {
            Some(raw) => Some(Permissions::from_perms(raw)),
            None => None,
        };
        let is_claims: Option<Vec<IsClaims>> = match &raw_permissions {
            Some(raw) => Some(IsClaims::from_perms(raw)),
            None => None,
        };
        let role: Option<Vec<String>> = match parts.role {
            Some(s) => Some(split_at_char(s.as_str(), ' ')),
            None => None,
        };
        Auth0TokenFields {
            iss: parts.iss,
            sub: parts.sub,
            aud,
            azp: parts.azp,
            exp: parts.exp,
            iat: parts.iat,
            scope: parts.scope,
            permissions,
            raw_permissions,
            is_claims,
            role,
        }
    }

    /// What `check_perm` decides, over the raw permission strings alone:
    /// no raw list means no permissions at all; then the bypass claim,
    /// the baseline scope, and the required set, in that order.
    pub open spec fn check_perm_spec<T: PermText>(
        &self,
        req_perm: Option<PermCheckOpt<T>>,
        check_min: bool,
        check_tumex: bool,
    ) -> bool {
        match self.raw_permissions {
            None => false,
            Some(raw) => {
                let rawv = raw.deep_view();
                if check_tumex && seq_contains_str(rawv, "is:tumex"@) {
                    true
                } else if check_min && !seq_contains_str(rawv, "mailer:baseaccess"@) {
                    false
                } else {
                    match req_perm {
                        None => true,
                        Some(PermCheckOpt::All(ps)) => forall|i: int|
                            0 <= i < ps@.len() ==> #[trigger] seq_contains_str(
                                rawv,
                                ps@[i].perm_view(),
                            ),
                        Some(PermCheckOpt::Any(ps)) => exists|i: int|
                            0 <= i < ps@.len() && #[trigger] seq_contains_str(
                                rawv,
                                ps@[i].perm_view(),
                            ),
                        Some(PermCheckOpt::NoneOf(ps)) => forall|i: int|
                            0 <= i < ps@.len() ==> !#[trigger] seq_contains_str(
                                rawv,
                                ps@[i].perm_view(),
                            ),
                    }
                }
            },
        }
    }

    /// Evaluate a required-capability set against this token's raw
    /// permission strings.
    pub fn check_perm<T: NewAuth0Perms + PermText>(
        &self,
        req_perm: Option<PermCheckOpt<T>>,
        check_min: bool,
        check_tumex: bool,
    ) -> (r: bool)
        ensures
            r == self.check_perm_spec(req_perm, check_min, check_tumex),
    {
        let raw_perms = match &self.raw_permissions {
            None => {
                return false;
            },
            Some(raw_perms) => raw_perms,
        };
        if check_tumex && contains_string(raw_perms, "is:tumex") {
            return true;
        }
        if check_min && !contains_string(raw_perms, "mailer:baseaccess") {
            return false;
        }
        match &req_perm {
            None => true,
            Some(PermCheckOpt::All(ps)) => {
                let mut i: usize = 0;
                while i < ps.len()
                    invariant
                        0 <= i <= ps.len(),
                        forall|j: int|
                            0 <= j < i ==> #[trigger] seq_contains_str(
                                self.raw_permissions->0.deep_view(),
                                ps@[j].perm_view(),
                            ),
                    decreases ps.len() - i,
                {
                    if !contains_string(raw_perms, ps[i].as_str()) {
                        return false;
                    }
                    i = i + 1;
                }
                true
            },
            Some(PermCheckOpt::Any(ps)) => {
                let mut i: usize = 0;
                while i < ps.len()
                    invariant
                        0 <= i <= ps.len(),
                        forall|j: int|
                            0 <= j < i ==> !#[trigger] seq_contains_str(
                                self.raw_permissions->0.deep_view(),
                                ps@[j].perm_view(),
                            ),
                    decreases ps.len() - i,
                {
                    if contains_string(raw_perms, ps[i].as_str()) {
                        return true;
                    }
                    i = i + 1;
                }
                false
            },
            Some(PermCheckOpt::NoneOf(ps)) => {
                let mut i: usize = 0;
                while i < ps.len()
                    invariant
                        0 <= i <= ps.len(),
                        forall|j: int|
                            0 <= j < i ==> !#[trigger] seq_contains_str(
                                self.raw_permissions->0.deep_view(),
                                ps@[j].perm_view(),
                            ),
                    decreases ps.len() - i,
                {
                    if contains_string(raw_perms, ps[i].as_str()) {
                        return false;
                    }
                    i = i + 1;
                }
                true
            },
        }
    }
}

/// The bypass claim wins for a token too: raw permissions holding
/// "is:tumex" pass `check_perm` under every required set and baseline
/// flag, whenever the bypass check is on.
pub proof fn lemma_token_bypass_overrides<T: PermText>(
    fields: Auth0TokenFields,
    req_perm: Option<PermCheckOpt<T>>,
    check_min: bool,
)
    requires
        fields.raw_permissions matches Some(raw) && seq_contains_str(raw.deep_view(), "is:tumex"@),
    ensures
        fields.check_perm_spec(req_perm, check_min, true),
{
}

/// The baseline is a floor for a token too: raw permissions without
/// "mailer:baseaccess" and without the bypass claim fail `check_perm`
/// under every required set, when the baseline check is on.
pub proof fn lemma_token_baseline_required<T: PermText>(
    fields: Auth0TokenFields,
    req_perm: Option<PermCheckOpt<T>>,
    check_tumex: bool,
)
    requires
        match fields.raw_permissions {
            Some(raw) => !seq_contains_str(raw.deep_view(), "mailer:baseaccess"@)
                && !seq_contains_str(raw.deep_view(), "is:tumex"@),
            None => true,
        },
    ensures
        !fields.check_perm_spec(req_perm, true, check_tumex),
{
}

} // verus!
