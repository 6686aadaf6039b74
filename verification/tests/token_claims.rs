//! Decoding token payload fields and the token-level permission check.

use mailgate::token::{Auth0TokenFields, RawTokenParts, PermissionsField, PermCheckOpt};
use mailgate::claims::{IsClaims, Permissions};
use mailgate::perms::{IsPerm, ScopePerm};

fn strings(v: &[&str]) -> Vec<String> {
    v.iter().map(|s| s.to_string()).collect()
}

fn empty_parts() -> RawTokenParts {
    RawTokenParts {
        iss: None,
        sub: None,
        aud: None,
        azp: None,
        exp: None,
        iat: None,
        scope: None,
        permissions: None,
        role: None,
    }
}

fn parts_with_list(perms: &[&str]) -> RawTokenParts {
    RawTokenParts { permissions: Some(PermissionsField::List(strings(perms))), ..empty_parts() }
}

#[test]
fn from_parts_carries_plain_fields_through() {
    let parts = RawTokenParts {
        iss: Some("https://issuer".to_string()),
        sub: Some("caller".to_string()),
        aud: Some(("id".to_string(), "https://aud".to_string())),
        azp: Some("azp".to_string()),
        exp: Some(1000),
        iat: Some(900),
        scope: Some(strings(&["openid"])),
        permissions: None,
        role: Some("admin reader".to_string()),
    };
    let fields = Auth0TokenFields::from_parts(parts);
    assert_eq!(fields.iss.as_deref(), Some("https://issuer"));
    assert_eq!(fields.sub.as_deref(), Some("caller"));
    let (id, uri) = fields.aud.as_ref().unwrap();
    assert_eq!(id.0, "id");
    assert_eq!(uri.0, "https://aud");
    assert_eq!(fields.azp.as_deref(), Some("azp"));
    assert_eq!(fields.exp, Some(1000));
    assert_eq!(fields.iat, Some(900));
    assert_eq!(fields.scope, Some(strings(&["openid"])));
    assert!(fields.permissions.is_none());
    assert!(fields.raw_permissions.is_none());
    assert!(fields.is_claims.is_none());
    assert_eq!(fields.role, Some(strings(&["admin", "reader"])));
}

#[test]
fn from_parts_projects_a_permission_list() {
    let fields = Auth0TokenFields::from_parts(parts_with_list(&[
        "mailer:baseaccess",
        "is:tumex",
        "unrecognized",
    ]));
    assert_eq!(
        fields.raw_permissions,
        Some(strings(&["mailer:baseaccess", "is:tumex", "unrecognized"]))
    );
    assert_eq!(fields.permissions, Some(vec![Permissions::MAILER_BASE_ACCESS]));
    assert_eq!(fields.is_claims, Some(vec![IsClaims::TUMEX]));
}

#[test]
fn from_parts_splits_permission_text_on_spaces() {
    let parts = RawTokenParts {
        permissions: Some(PermissionsField::Text("mailer:baseaccess is:sudo:low".to_string())),
        ..empty_parts()
    };
    let fields = Auth0TokenFields::from_parts(parts);
    assert_eq!(
        fields.raw_permissions,
        Some(strings(&["mailer:baseaccess", "is:sudo:low"]))
    );
    assert_eq!(fields.permissions, Some(vec![Permissions::MAILER_BASE_ACCESS]));
    assert_eq!(fields.is_claims, Some(vec![IsClaims::SUDO_LOW]));
}

#[test]
fn check_perm_without_raw_permissions_is_false() {
    let fields = Auth0TokenFields::from_parts(empty_parts());
    let req: Option<PermCheckOpt<ScopePerm>> = None;
    assert!(!fields.check_perm(req, false, false));
}

#[test]
fn check_perm_all_needs_every_permission() {
    let fields = Auth0TokenFields::from_parts(parts_with_list(&[
        "mailer:baseaccess",
        "mailer:webp:messages:read",
    ]));
    assert!(fields.check_perm(
        Some(PermCheckOpt::All(vec![
            ScopePerm::MAILER_BASE_ACCESS,
            ScopePerm::MAILER_WEBP_MSGS_READ,
        ])),
        false,
        false,
    ));
    assert!(!fields.check_perm(
        Some(PermCheckOpt::All(vec![ScopePerm::MAILER_WEBP_MSGS_DEL])),
        false,
        false,
    ));
}

#[test]
fn check_perm_any_needs_one_permission() {
    let fields = Auth0TokenFields::from_parts(parts_with_list(&["mailer:baseaccess"]));
    assert!(fields.check_perm(
        Some(PermCheckOpt::Any(vec![
            ScopePerm::MAILER_WEBP_MSGS_DEL,
            ScopePerm::MAILER_BASE_ACCESS,
        ])),
        false,
        false,
    ));
    assert!(!fields.check_perm(
        Some(PermCheckOpt::Any(vec![ScopePerm::MAILER_WEBP_MSGS_DEL])),
        false,
        false,
    ));
}

#[test]
fn check_perm_none_of_refuses_held_permissions() {
    let fields = Auth0TokenFields::from_parts(parts_with_list(&["is:sudo:high"]));
    assert!(fields.check_perm(Some(PermCheckOpt::NoneOf(vec![IsPerm::SUDO_LOW])), false, false));
    assert!(!fields.check_perm(Some(PermCheckOpt::NoneOf(vec![IsPerm::SUDO_HIGH])), false, false));
}

#[test]
fn check_perm_bypass_wins_over_policy_and_baseline() {
    let fields = Auth0TokenFields::from_parts(parts_with_list(&["is:tumex"]));
    assert!(fields.check_perm(
        Some(PermCheckOpt::All(vec![ScopePerm::MAILER_WEBP_MSGS_DEL])),
        true,
        true,
    ));
}

#[test]
fn check_perm_baseline_floors_without_bypass() {
    let fields = Auth0TokenFields::from_parts(parts_with_list(&["mailer:webp:messages:read"]));
    assert!(!fields.check_perm(
        Some(PermCheckOpt::All(vec![ScopePerm::MAILER_WEBP_MSGS_READ])),
        true,
        true,
    ));
}

#[test]
fn check_perm_with_no_required_set_is_true_after_checks() {
    let fields = Auth0TokenFields::from_parts(parts_with_list(&["mailer:baseaccess"]));
    let req: Option<PermCheckOpt<ScopePerm>> = None;
    assert!(fields.check_perm(req, true, true));
}
