//! The permission model: vocabulary projections and the policy evaluator.

use mailgate::perms::{IsPerm, ScopePerm, IsPermVec, ScopePermVec, NewAuth0Perms, PermText};
use mailgate::claims::{
    check_perms, PermCheckOptions, IsClaims, Permissions, ClaimsToEnumConstructors,
};

fn strings(v: &[&str]) -> Vec<String> {
    v.iter().map(|s| s.to_string()).collect()
}

#[test]
fn is_perm_strings_round_trip() {
    let all = [
        (IsPerm::TUMEX, "is:tumex"),
        (IsPerm::FRIENDS_NORMAL, "is:friends:normal"),
        (IsPerm::FRIENDS_CLOSE, "is:friends:close"),
        (IsPerm::FRIENDS_BFF, "is:friends:bff"),
        (IsPerm::FAMILY_FIRST, "is:family:first-deg"),
        (IsPerm::FAMILY_SECOND, "is:family:second-deg"),
        (IsPerm::FAMILY_THIRD, "is:family:third-deg"),
        (IsPerm::SUDO_LOW, "is:sudo:low"),
        (IsPerm::SUDO_HIGH, "is:sudo:high"),
    ];
    for (perm, text) in all {
        assert_eq!(perm.as_str(), text);
        assert_eq!(IsPerm::from_perm_string(text), Some(perm));
    }
    assert_eq!(IsPerm::from_perm_string("is:unknown"), None);
    assert_eq!(IsPerm::from_perm_string(""), None);
}

#[test]
fn scope_perm_strings_round_trip() {
    let all = [
        (ScopePerm::MAILER_BASE_ACCESS, "mailer:baseaccess"),
        (ScopePerm::MAILER_WEBP_MSGS_READ, "mailer:webp:messages:read"),
        (ScopePerm::MAILER_WEBP_MSGS_DEL, "mailer:webp:messages:delete"),
    ];
    for (perm, text) in all {
        assert_eq!(perm.as_str(), text);
        assert_eq!(ScopePerm::from_perm_string(text), Some(perm));
    }
    assert_eq!(ScopePerm::from_perm_string("mailer:other"), None);
}

#[test]
fn is_perm_vec_keeps_recognized_pieces() {
    let parsed = IsPermVec::from_perm_string("is:tumex,unknown,is:sudo:low").unwrap();
    assert_eq!(parsed.0, vec![IsPerm::TUMEX, IsPerm::SUDO_LOW]);
    assert_eq!(
        parsed.as_string_vec(),
        strings(&["is:tumex", "is:sudo:low"])
    );
}

#[test]
fn is_perm_vec_of_nothing_recognized_is_none() {
    assert!(IsPermVec::from_perm_string("a,b,c").is_none());
    assert!(IsPermVec::from_perm_string("").is_none());
}

#[test]
fn scope_perm_vec_keeps_recognized_pieces() {
    let parsed =
        ScopePermVec::from_perm_string("mailer:baseaccess,nope,mailer:webp:messages:delete")
            .unwrap();
    assert_eq!(
        parsed.0,
        vec![ScopePerm::MAILER_BASE_ACCESS, ScopePerm::MAILER_WEBP_MSGS_DEL]
    );
    assert_eq!(
        parsed.as_string_vec(),
        strings(&["mailer:baseaccess", "mailer:webp:messages:delete"])
    );
}

#[test]
fn scope_perm_vec_of_nothing_recognized_is_none() {
    assert!(ScopePermVec::from_perm_string("x").is_none());
}

#[test]
fn is_claims_projection_drops_unknown_strings() {
    let claims = IsClaims::from_perms(&strings(&["is:tumex", "who", "is:family:third-deg"]));
    assert_eq!(claims, vec![IsClaims::TUMEX, IsClaims::FAMILY_THIRD]);
}

#[test]
fn permissions_projection_drops_unknown_strings() {
    let perms = Permissions::from_perms(&strings(&[
        "mailer:webp:messages:read",
        "is:tumex",
        "mailer:baseaccess",
    ]));
    assert_eq!(
        perms,
        vec![Permissions::MAILER_WEBP_MSGS_READ, Permissions::MAILER_BASE_ACCESS]
    );
}

#[test]
fn claim_enum_strings_are_exact() {
    assert_eq!(IsClaims::TUMEX.as_string(), "is:tumex");
    assert_eq!(IsClaims::SUDO_HIGH.as_string(), "is:sudo:high");
    assert_eq!(Permissions::MAILER_BASE_ACCESS.as_string(), "mailer:baseaccess");
    assert_eq!(
        Permissions::MAILER_WEBP_MSGS_DEL.as_string(),
        "mailer:webp:messages:delete"
    );
}

#[test]
fn bypass_claim_wins_over_everything() {
    // Any claim set holding "is:tumex" passes, whatever the policy asks.
    let usr = strings(&["is:tumex"]);
    let req = vec!["mailer:webp:messages:delete"];
    assert!(check_perms(&usr, Some(PermCheckOptions::All(&req)), true, true));
    assert!(check_perms(&usr, Some(PermCheckOptions::NoneOf(&vec!["is:tumex"])), true, true));
    assert!(check_perms(&usr, None, true, true));
}

#[test]
fn bypass_needs_the_flag() {
    // Without the bypass check the same set fails the baseline.
    let usr = strings(&["is:tumex"]);
    assert!(!check_perms(&usr, None, true, false));
}

#[test]
fn missing_baseline_fails_every_policy() {
    // No "mailer:baseaccess" and no bypass claim: always false with the
    // baseline check on.
    let usr = strings(&["mailer:webp:messages:read"]);
    let req = vec!["mailer:webp:messages:read"];
    assert!(!check_perms(&usr, Some(PermCheckOptions::All(&req)), true, true));
    assert!(!check_perms(&usr, Some(PermCheckOptions::AtLeastOne(&req)), true, true));
    assert!(!check_perms(&usr, None, true, true));
}

#[test]
fn bypass_is_checked_before_baseline() {
    // The ordering is a hard contract: the bypass claim admits even a set
    // without the baseline scope.
    let usr = strings(&["is:tumex"]);
    let req = vec!["mailer:webp:messages:read"];
    assert!(check_perms(&usr, Some(PermCheckOptions::All(&req)), true, true));
}

#[test]
fn all_policy_requires_every_permission() {
    let usr = strings(&["mailer:baseaccess", "mailer:webp:messages:read"]);
    let both = vec!["mailer:baseaccess", "mailer:webp:messages:read"];
    let more = vec!["mailer:baseaccess", "mailer:webp:messages:delete"];
    assert!(check_perms(&usr, Some(PermCheckOptions::All(&both)), false, false));
    assert!(!check_perms(&usr, Some(PermCheckOptions::All(&more)), false, false));
}

#[test]
fn at_least_one_policy_requires_any_permission() {
    let usr = strings(&["mailer:baseaccess"]);
    let some = vec!["mailer:webp:messages:read", "mailer:baseaccess"];
    let none = vec!["mailer:webp:messages:read", "mailer:webp:messages:delete"];
    assert!(check_perms(&usr, Some(PermCheckOptions::AtLeastOne(&some)), false, false));
    assert!(!check_perms(&usr, Some(PermCheckOptions::AtLeastOne(&none)), false, false));
}

#[test]
fn none_of_policy_refuses_any_held_permission() {
    let usr = strings(&["mailer:baseaccess"]);
    let clear = vec!["mailer:webp:messages:delete"];
    let held = vec!["mailer:baseaccess"];
    assert!(check_perms(&usr, Some(PermCheckOptions::NoneOf(&clear)), false, false));
    assert!(!check_perms(&usr, Some(PermCheckOptions::NoneOf(&held)), false, false));
}

#[test]
fn no_policy_with_no_checks_admits() {
    let usr = strings(&[]);
    assert!(check_perms(&usr, None, false, false));
}

#[test]
fn empty_claim_set_is_just_no_permissions() {
    let usr: Vec<String> = Vec::new();
    let req = vec!["mailer:baseaccess"];
    assert!(!check_perms(&usr, Some(PermCheckOptions::All(&req)), false, false));
    assert!(check_perms(&usr, Some(PermCheckOptions::NoneOf(&req)), false, false));
}
