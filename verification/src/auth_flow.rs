//! The token authentication engine: extract the bearer credential, verify
//! it against the cached keys, retry exactly once against freshly fetched
//! keys, then decode and authorize.
//!
//! Signature verification and the key refetch are outside work; the flow
//! that binds them — and in particular the single-retry bound — is the
//! verified state machine here. The caller performs each requested step
//! and reports its outcome back.

use vstd::prelude::*;
use crate::strutil::{str_eq, seq_contains_str};
use crate::perms::{IsPerm, ScopePerm};
use crate::token::{Auth0TokenFields, PermCheckOpt};
use crate::keys::{KeySet, kid_of, has_kid};

verus! {

/// serde_json's JSON value, carried opaquely: a verified token's payload.
#[verifier::external_type_specification]
#[verifier::external_body]
pub struct ExValue(serde_json::Value);

/// An authenticated request: the raw token and its decoded claims.
pub struct Auth {
    pub raw_token: String,
    pub decoded_payload: Auth0TokenFields,
}

/// Why a request was turned away.
#[derive(Debug)]
pub enum AuthOutcomeErr {
    /// No credential, or one of the wrong shape.
    Unauthorized(String),
    /// Signature, expiry or audience failed even after the retry.
    InvalidToken(String),
    /// A valid identity without the needed capability.
    Forbidden(String),
    /// The key endpoint failed; an internal fault, never the caller's.
    Unexpected,
}

/// The bearer token inside an Authorization header value, if the value is
/// well-formed: non-empty, and carrying the fixed "Bearer " scheme prefix.
pub open spec fn bearer_token_of(header: Option<Seq<char>>) -> Option<Seq<char>> {
    match header {
        None => None,
        Some(h) => if h.len() >= 7 && h.subrange(0, 7) == "Bearer "@ {
            Some(h.subrange(7, h.len() as int))
        } else {
            None
        },
    }
}

/// Pull the bearer token out of the Authorization header; a missing, empty
/// or mis-prefixed header is turned away as Unauthorized.
pub fn extract_bearer(header: Option<&str>) -> (r: Result<String, AuthOutcomeErr>)
    ensures
        match r {
            Ok(token) => bearer_token_of(match header {
                Some(h) => Some(h@),
                None => None,
            }) == Some(token@),
            Err(e) => bearer_token_of(
                match header {
                    Some(h) => Some(h@),
                    None => None,
                },
            ) is None && e is Unauthorized,
        },
{
    match header {
        None => Err(
            AuthOutcomeErr::Unauthorized(
                "Either no token is present on the header or is of invalid type!".to_owned(),
            ),
        ),
        Some(h) => {
            let n: usize = h.unicode_len();
            if n >= 7 && str_eq(h.substring_char(0, 7), "Bearer ") {
                proof {
                    reveal_strlit("Bearer ");
                }
                Ok(h.substring_char(7, n).to_owned())
            } else {
                proof {
                    reveal_strlit("Bearer ");
                }
                Err(
                    AuthOutcomeErr::Unauthorized(
                        "Either no token is present on the header or is of invalid type!".to_owned(),
                    ),
                )
            }
        },
    }
}

/// Relies on jsonwebtokens: Algorithm::new_rsa_n_e_b64_verifier builds an
/// RS256 verifier from the key's base64url modulus and exponent and pins
/// the expected kid; Verifier::verify checks the signature, the expiry
/// against the clock, and the audience. The payload comes back only when
/// every check passed; nothing is promised about when that happens, since
/// the outcome depends on the key material and the current time.
#[verifier::external_body]
fn verify_rs256(token: &str, modulus: &str, exponent: &str, kid: &str, audience: &str) -> (r:
    Option<serde_json::Value>)
{
    let mut algorithm = jsonwebtokens::Algorithm::new_rsa_n_e_b64_verifier(
        jsonwebtokens::AlgorithmID::RS256,
        modulus,
        exponent,
    ).ok()?;
    algorithm.set_kid(kid);
    let verifier = jsonwebtokens::Verifier::create().audience(audience).build().ok()?;
    verifier.verify(token, &algorithm).ok()
}

/// One verification attempt against the currently held keys: locate the
/// key the token's header names, then verify signature, expiry and
/// audience against it. A token whose key the cache lacks fails the
/// attempt outright — the caller treats that exactly like a failed
/// verification, which is what arms the rotation retry.
pub fn attempt_verify(keys: &KeySet, token: &str, audience: &str) -> (r: Option<
    serde_json::Value,
>)
    ensures
        kid_of(token@) is None ==> r is None,
        kid_of(token@) matches Some(kid) && !has_kid(keys.view_keys(), kid) ==> r is None,
        r is Some ==> (kid_of(token@) matches Some(kid) && has_kid(keys.view_keys(), kid)),
{
    match keys.get_components_by_kid(token) {
        None => None,
        Some(key) => verify_rs256(
            token,
            key.modulus.0.as_str(),
            key.exponent.0.as_str(),
            key.kid.as_str(),
            audience,
        ),
    }
}

/// Where the engine stands for one request.
#[derive(Clone, Copy, PartialEq, Eq, Structural, Debug)]
pub enum AuthPhase {
    /// Verifying against the keys held when the request arrived.
    FirstAttempt,
    /// The first attempt failed; the keys must be refetched.
    RefreshPending,
    /// Verifying once more, against the freshly fetched keys.
    SecondAttempt,
    /// Verification passed; decode the payload and check permissions.
    Authorizing,
    /// Turned away; the rejection says why.
    Rejected,
}

/// What the caller reports back: the outcome of a verification attempt or
/// of a key refetch.
#[derive(Clone, Copy, PartialEq, Eq, Structural, Debug)]
pub enum AuthEvent {
    Attempt(bool),
    Refresh(bool),
}

/// Which events a phase accepts: attempts only while attempting, a refresh
/// only while one is pending, nothing once the flow has settled.
pub open spec fn valid_step(phase: AuthPhase, event: AuthEvent) -> bool {
    match event {
        AuthEvent::Attempt(_) => phase is FirstAttempt || phase is SecondAttempt,
        AuthEvent::Refresh(_) => phase is RefreshPending,
    }
}

/// The engine's transition relation: a failed first attempt asks for a
/// refresh, a failed second attempt is final, a failed refresh is final.
pub open spec fn next_phase(phase: AuthPhase, event: AuthEvent) -> AuthPhase {
    match event {
        AuthEvent::Attempt(verified) => if verified {
            AuthPhase::Authorizing
        } else if phase is FirstAttempt {
            AuthPhase::RefreshPending
        } else {
            AuthPhase::Rejected
        },
        AuthEvent::Refresh(refreshed) => if refreshed {
            AuthPhase::SecondAttempt
        } else {
            AuthPhase::Rejected
        },
    }
}

/// The flow of one request through the engine.
pub struct AuthFlow {
    pub phase: AuthPhase,
    pub rejection: Option<AuthOutcomeErr>,
}

impl AuthFlow {
    /// A rejection is recorded exactly when the flow stands rejected.
    pub open spec fn wf(&self) -> bool {
        (self.phase is Rejected) <==> (self.rejection is Some)
    }

    /// Begin with the keys already held.
    pub fn start() -> (r: AuthFlow)
        ensures
            r.phase == AuthPhase::FirstAttempt,
            r.wf(),
    {
        AuthFlow { phase: AuthPhase::FirstAttempt, rejection: None }
    }

    /// Report a verification attempt's outcome.
    pub fn on_attempt(&mut self, verified: bool)
        requires
            old(self).wf(),
            valid_step(old(self).phase, AuthEvent::Attempt(verified)),
        ensures
            final(self).wf(),
            final(self).phase == next_phase(old(self).phase, AuthEvent::Attempt(verified)),
            final(self).phase is Rejected ==> (final(self).rejection matches Some(e)
                && e is InvalidToken),
    {
        if verified {
            self.phase = AuthPhase::Authorizing;
        } else if matches!(self.phase, AuthPhase::FirstAttempt) {
            self.phase = AuthPhase::RefreshPending;
        } else {
            self.phase = AuthPhase::Rejected;
            self.rejection = Some(
                AuthOutcomeErr::InvalidToken(
                    "We we unable to verify your identity or your token is invalid!".to_owned(),
                ),
            );
        }
    }

    /// Report a key refetch's outcome. A failed refetch aborts the whole
    /// request as an internal fault rather than skipping the retry.
    pub fn on_refresh(&mut self, refreshed: bool)
        requires
            old(self).wf(),
            valid_step(old(self).phase, AuthEvent::Refresh(refreshed)),
        ensures
            final(self).wf(),
            final(self).phase == next_phase(old(self).phase, AuthEvent::Refresh(refreshed)),
            final(self).phase is Rejected ==> (final(self).rejection matches Some(e)
                && e is Unexpected),
    {
        if refreshed {
            self.phase = AuthPhase::SecondAttempt;
        } else {
            self.phase = AuthPhase::Rejected;
            self.rejection = Some(AuthOutcomeErr::Unexpected);
        }
    }
}

/// Where a sequence of reported outcomes leaves the engine.
pub open spec fn run_phases(phase: AuthPhase, events: Seq<AuthEvent>) -> AuthPhase
    decreases events.len(),
{
    if events.len() == 0 {
        phase
    } else {
        run_phases(next_phase(phase, events[0]), events.drop_first())
    }
}

/// Is every event of the sequence accepted in the phase where it lands?
pub open spec fn valid_run(phase: AuthPhase, events: Seq<AuthEvent>) -> bool
    decreases events.len(),
{
    events.len() == 0 || (valid_step(phase, events[0]) && valid_run(
        next_phase(phase, events[0]),
        events.drop_first(),
    ))
}

/// How many verification attempts a sequence of events reports.
pub open spec fn count_attempts(events: Seq<AuthEvent>) -> nat
    decreases events.len(),
{
    if events.len() == 0 {
        0
    } else {
        (if events[0] is Attempt {
            1nat
        } else {
            0nat
        }) + count_attempts(events.drop_first())
    }
}

/// How many key refetches a sequence of events reports.
pub open spec fn count_refreshes(events: Seq<AuthEvent>) -> nat
    decreases events.len(),
{
    if events.len() == 0 {
        0
    } else {
        (if events[0] is Refresh {
            1nat
        } else {
            0nat
        }) + count_refreshes(events.drop_first())
    }
}

/// How many verification attempts can still follow from a phase.
pub open spec fn attempt_budget(phase: AuthPhase) -> nat {
    match phase {
        AuthPhase::FirstAttempt => 2,
        AuthPhase::RefreshPending => 1,
        AuthPhase::SecondAttempt => 1,
        AuthPhase::Authorizing => 0,
        AuthPhase::Rejected => 0,
    }
}

/// How many key refetches can still follow from a phase.
pub open spec fn refresh_budget(phase: AuthPhase) -> nat {
    match phase {
        AuthPhase::FirstAttempt => 1,
        AuthPhase::RefreshPending => 1,
        AuthPhase::SecondAttempt => 0,
        AuthPhase::Authorizing => 0,
        AuthPhase::Rejected => 0,
    }
}

/// The retry is bounded: however a request plays out, the engine never
/// verifies more than twice and never refetches the keys more than once.
pub proof fn lemma_retry_bound(phase: AuthPhase, events: Seq<AuthEvent>)
    requires
        valid_run(phase, events),
    ensures
        count_attempts(events) <= attempt_budget(phase),
        count_refreshes(events) <= refresh_budget(phase),
    decreases events.len(),
{
    if events.len() > 0 {
        lemma_retry_bound(next_phase(phase, events[0]), events.drop_first());
    }
}

/// The key-rotation path: a failed first attempt, a successful refresh and
/// a verified second attempt reach authorization — after exactly two
/// attempts and one refresh, never more.
pub proof fn lemma_rotation_retry()
    ensures
        ({
            let events = seq![
                AuthEvent::Attempt(false),
                AuthEvent::Refresh(true),
                AuthEvent::Attempt(true),
            ];
            &&& valid_run(AuthPhase::FirstAttempt, events)
            &&& run_phases(AuthPhase::FirstAttempt, events) == AuthPhase::Authorizing
            &&& count_attempts(events) == 2
            &&& count_refreshes(events) == 1
        }),
{
    let events = seq![
        AuthEvent::Attempt(false),
        AuthEvent::Refresh(true),
        AuthEvent::Attempt(true),
    ];
    let e1 = events.drop_first();
    let e2 = e1.drop_first();
    let e3 = e2.drop_first();
    assert(e1 =~= seq![AuthEvent::Refresh(true), AuthEvent::Attempt(true)]);
    assert(e2 =~= seq![AuthEvent::Attempt(true)]);
    assert(e3 =~= Seq::<AuthEvent>::empty());
    assert(valid_run(AuthPhase::Authorizing, e3));
    assert(run_phases(AuthPhase::Authorizing, e3) == AuthPhase::Authorizing);
    assert(count_attempts(e3) == 0 && count_refreshes(e3) == 0);
    assert(valid_run(AuthPhase::SecondAttempt, e2));
    assert(run_phases(AuthPhase::SecondAttempt, e2) == AuthPhase::Authorizing);
    assert(count_attempts(e2) == 1 && count_refreshes(e2) == 0);
    assert(valid_run(AuthPhase::RefreshPending, e1));
    assert(run_phases(AuthPhase::RefreshPending, e1) == AuthPhase::Authorizing);
    assert(count_attempts(e1) == 1 && count_refreshes(e1) == 1);
}

/// Does the token meet the engine's minimum-permission gate? The raw
/// permission strings decide: the bypass claim alone suffices, and so does
/// the baseline scope.
pub open spec fn min_perms_spec(fields: Auth0TokenFields) -> bool {
    match fields.raw_permissions {
        None => false,
        Some(raw) => seq_contains_str(raw.deep_view(), "is:tumex"@) || seq_contains_str(
            raw.deep_view(),
            "mailer:baseaccess"@,
        ),
    }
}

/// The final step: take a verified payload's claims and admit or turn away
/// the request on the engine's minimum-permission gate.
pub fn authorize(token: &str, fields: Auth0TokenFields) -> (r: Result<Auth, AuthOutcomeErr>)
    ensures
        min_perms_spec(fields) ==> (r matches Ok(a) && a.raw_token@ == token@
            && a.decoded_payload == fields),
        !min_perms_spec(fields) ==> (r matches Err(e) && e is Forbidden),
{
    let mut is_req: Vec<IsPerm> = Vec::new();
    is_req.push(IsPerm::SUDO_HIGH);
    let ghost is_reqv = is_req@;
    let is_check = fields.check_perm(Some(PermCheckOpt::All(is_req)), true, true);
    let mut scope_req: Vec<ScopePerm> = Vec::new();
    scope_req.push(ScopePerm::MAILER_BASE_ACCESS);
    let ghost scope_reqv = scope_req@;
    let scope_check = fields.check_perm(Some(PermCheckOpt::All(scope_req)), true, true);
    proof {
        assert(is_reqv =~= seq![IsPerm::SUDO_HIGH]);
        assert(scope_reqv =~= seq![ScopePerm::MAILER_BASE_ACCESS]);
    }
    if is_check || scope_check {
        Ok(Auth { raw_token: token.to_owned(), decoded_payload: fields })
    } else {
        Err(AuthOutcomeErr::Forbidden("User does not have sufficient permissions!".to_owned()))
    }
}

} // verus!
