//! The pure compute behind the message routes, and the fixed responses.

use mailgate::messages::{
    MailAddress, MailMessage, NewMessagePayload, Ids, DateFilter, send_message, prepare_message,
    is_valid_object_id, toggle_request, read_msg_request, del_msg_request, del_msg_outcome,
    ToggleKind,
};
use mailgate::responses;
use mailgate::responses::HeaderFairings;
use mailgate::token::{Auth0TokenFields, RawTokenParts, PermissionsField};

#[test]
fn send_message_renders_the_form() {
    let message = MailMessage {
        from: MailAddress("a@b.com".to_string()),
        name: "Ada".to_string(),
        subject: "Hi".to_string(),
        message: "A note.".to_string(),
    };
    assert_eq!(
        send_message(message),
        "From: a@b.com\nName: Ada\nSubject: Hi\nMessage: A note."
    );
}

#[test]
fn mail_address_accepts_a_plain_address() {
    let parsed = MailAddress::from_form_value("someone@example.com").unwrap();
    assert_eq!(parsed.0, "someone@example.com");
}

#[test]
fn mail_address_refuses_malformed_text() {
    assert!(MailAddress::from_form_value("").is_err());
    assert!(MailAddress::from_form_value("not-an-address").is_err());
    assert!(MailAddress::from_form_value("a@").is_err());
}

#[test]
fn payload_validation_watches_the_sender() {
    let good = NewMessagePayload {
        from: "someone@example.com".to_string(),
        name: "N".to_string(),
        subject: "S".to_string(),
        message: "M".to_string(),
    };
    assert!(good.is_valid().is_ok());
    let bad = NewMessagePayload { from: "nope".to_string(), ..good };
    let err = bad.is_valid().unwrap_err();
    assert_eq!(err.code, 400);
    assert_eq!(err.message, "Invalid email address");
}

#[test]
fn sanitize_gates_long_messages() {
    let short = NewMessagePayload {
        from: "someone@example.com".to_string(),
        name: "N".to_string(),
        subject: "S".to_string(),
        message: "short enough".to_string(),
    };
    let kept = short.sanitize().unwrap();
    assert_eq!(kept.message, "short enough");

    let long = NewMessagePayload {
        from: "someone@example.com".to_string(),
        name: "N".to_string(),
        subject: "S".to_string(),
        message: "x".repeat(1001),
    };
    assert!(long.sanitize().is_err());

    let edge = NewMessagePayload {
        from: "someone@example.com".to_string(),
        name: "N".to_string(),
        subject: "S".to_string(),
        message: "x".repeat(1000),
    };
    assert!(edge.sanitize().is_ok());
}

#[test]
fn ids_parse_splits_on_commas() {
    let ids = Ids::from_param("abc,DEF123,9").unwrap();
    assert_eq!(ids.0, vec!["abc", "DEF123", "9"]);
    let one = Ids::from_param("abc").unwrap();
    assert_eq!(one.0, vec!["abc"]);
}

#[test]
fn ids_parse_refuses_bad_segments() {
    assert!(Ids::from_param("").is_err());
    assert!(Ids::from_param("abc,").is_err());
    assert!(Ids::from_param(",abc").is_err());
    assert!(Ids::from_param("ab-c").is_err());
    assert!(Ids::from_param("abc,d f").is_err());
}

#[test]
fn date_filter_takes_at_most_one_bound() {
    let both = DateFilter {
        before: Some("2023-01-01T00:00:00Z".to_string()),
        after: Some("2023-02-01T00:00:00Z".to_string()),
        within: None,
    };
    let err = both.check_conflict().unwrap_err();
    assert!(!err.unexpected);

    let mixed = DateFilter {
        before: Some("2023-01-01T00:00:00Z".to_string()),
        after: None,
        within: Some(("a".to_string(), "b".to_string())),
    };
    assert!(mixed.check_conflict().is_err());

    let single = DateFilter {
        before: Some("2023-01-01T00:00:00Z".to_string()),
        after: None,
        within: None,
    };
    assert!(single.check_conflict().is_ok());

    let none = DateFilter { before: None, after: None, within: None };
    assert!(none.check_conflict().is_ok());
}

#[test]
fn error_responses_carry_their_statuses() {
    assert_eq!(responses::not_found().status, 404);
    assert_eq!(responses::internal_server_error().status, 500);
    assert_eq!(responses::unauthorized().status, 401);
    assert_eq!(responses::forbidden().status, 403);
    assert_eq!(responses::enhance_calm().status, 429);
    assert_eq!(responses::enhance_calm2().status, 429);
    assert_eq!(responses::bad_request().status, 400);
}

#[test]
fn error_bodies_name_their_cats() {
    assert!(responses::not_found().body.contains("https://http.cat/404"));
    assert!(responses::unauthorized().body.contains("authorized"));
    assert!(responses::enhance_calm().body.contains("rate limited"));
    assert_eq!(
        responses::del_msg_no_id().body,
        "{\"error\":\"Invalid request. You must first specify a message id.\"}"
    );
    assert_eq!(responses::del_msg_no_id().status, 400);
}


fn fields_with(perms: &[&str]) -> Auth0TokenFields {
    Auth0TokenFields::from_parts(RawTokenParts {
        iss: None,
        sub: None,
        aud: None,
        azp: None,
        exp: None,
        iat: None,
        scope: None,
        permissions: Some(PermissionsField::List(
            perms.iter().map(|p| p.to_string()).collect(),
        )),
        role: None,
    })
}

#[test]
fn prepare_message_rejects_a_bad_sender() {
    let payload = NewMessagePayload {
        from: "nope".to_string(),
        name: "N".to_string(),
        subject: "S".to_string(),
        message: "M".to_string(),
    };
    let err = prepare_message(payload).unwrap_err();
    assert_eq!(err.status, 400);
    assert_eq!(err.body, "{\"message\":\"Invalid email address\"}");
}

#[test]
fn prepare_message_rejects_an_overlong_message() {
    let payload = NewMessagePayload {
        from: "someone@example.com".to_string(),
        name: "N".to_string(),
        subject: "S".to_string(),
        message: "y".repeat(1001),
    };
    let err = prepare_message(payload).unwrap_err();
    assert_eq!(err.status, 400);
    assert!(err.body.contains("too long"));
}

#[test]
fn prepare_message_passes_a_clean_payload_through() {
    let payload = NewMessagePayload {
        from: "someone@example.com".to_string(),
        name: "N".to_string(),
        subject: "S".to_string(),
        message: "hello".to_string(),
    };
    let clean = prepare_message(payload).unwrap();
    assert_eq!(clean.message, "hello");
    assert_eq!(clean.from, "someone@example.com");
}

#[test]
fn object_id_shape_is_twenty_four_hex_digits() {
    assert!(is_valid_object_id("0123456789abcdefABCDEF01"));
    assert!(!is_valid_object_id("0123456789abcdefABCDEF0"));
    assert!(!is_valid_object_id("0123456789abcdefABCDEF012"));
    assert!(!is_valid_object_id("0123456789abcdefABCDEFg1"));
    assert!(!is_valid_object_id(""));
}

#[test]
fn toggle_request_wants_all_three_parameters() {
    let fields = fields_with(&["mailer:webp:messages:read"]);
    let err = toggle_request(&fields, None, Some("0".repeat(24)), Some(true)).unwrap_err();
    assert_eq!(err.status, 400);
}

#[test]
fn toggle_request_refuses_unknown_toggle_types() {
    let fields = fields_with(&["mailer:webp:messages:read"]);
    let err = toggle_request(
        &fields,
        Some("hide".to_string()),
        Some("0".repeat(24)),
        Some(true),
    )
    .unwrap_err();
    assert_eq!(err.status, 400);
}

#[test]
fn toggle_request_wants_the_read_scope() {
    let fields = fields_with(&["mailer:baseaccess"]);
    let err = toggle_request(
        &fields,
        Some("read".to_string()),
        Some("0".repeat(24)),
        Some(true),
    )
    .unwrap_err();
    assert_eq!(err.status, 403);
}

#[test]
fn toggle_request_checks_the_id_shape() {
    let fields = fields_with(&["mailer:webp:messages:read"]);
    let err = toggle_request(
        &fields,
        Some("archive".to_string()),
        Some("short".to_string()),
        Some(true),
    )
    .unwrap_err();
    assert_eq!(err.status, 400);
    assert_eq!(err.body, "{\"error\":\"Invalid message id\"}");
}

#[test]
fn toggle_request_builds_the_action() {
    let fields = fields_with(&["mailer:webp:messages:read"]);
    let action = toggle_request(
        &fields,
        Some("archive".to_string()),
        Some("0123456789abcdef01234567".to_string()),
        Some(false),
    )
    .unwrap();
    assert_eq!(action.kind, ToggleKind::Archive);
    assert_eq!(action.id, "0123456789abcdef01234567");
    assert!(!action.value);
}

#[test]
fn read_request_gates_on_scope_then_id() {
    let no_scope = fields_with(&["mailer:baseaccess"]);
    assert_eq!(read_msg_request(&no_scope, "0123456789abcdef01234567").unwrap_err().status, 403);
    let ok = fields_with(&["mailer:webp:messages:read"]);
    assert_eq!(read_msg_request(&ok, "xyz").unwrap_err().status, 400);
    assert!(read_msg_request(&ok, "0123456789abcdef01234567").is_ok());
}

#[test]
fn bypass_claim_opens_the_read_gate() {
    let fields = fields_with(&["is:tumex"]);
    assert!(read_msg_request(&fields, "0123456789abcdef01234567").is_ok());
}

#[test]
fn delete_request_gates_on_scope_then_ids() {
    let no_scope = fields_with(&["mailer:webp:messages:read"]);
    let ids = Ids::from_param("0123456789abcdef01234567").unwrap();
    assert_eq!(del_msg_request(&no_scope, &ids).unwrap_err().status, 403);

    let ok = fields_with(&["mailer:webp:messages:delete"]);
    assert!(del_msg_request(&ok, &ids).is_ok());

    let bad = Ids::from_param("abc").unwrap();
    assert_eq!(del_msg_request(&ok, &bad).unwrap_err().status, 409);
}

#[test]
fn delete_outcome_reports_partial_deletions() {
    assert_eq!(del_msg_outcome(3, 3).status, 200);
    assert_eq!(del_msg_outcome(3, 2).status, 412);
    assert_eq!(del_msg_outcome(0, 0).status, 200);
}

#[test]
fn security_headers_are_fixed() {
    let remove = HeaderFairings::headers_to_remove();
    assert_eq!(remove, vec!["X-Powered-By", "X-Content-Type-Options"]);
    let adjoin = HeaderFairings::headers_to_adjoin();
    assert_eq!(adjoin.len(), 3);
    assert_eq!(adjoin[0], ("X-Content-Type-Options".to_string(), "nosniff".to_string()));
    assert_eq!(
        adjoin[1],
        (
            "Strict-Transport-Security".to_string(),
            "max-age=31536000; includeSubDomains".to_string()
        )
    );
    assert_eq!(adjoin[2], ("X-XSS-Protection".to_string(), "1; mode=block".to_string()));
}
