//! The pure compute behind the message routes: address validation, payload
//! gating, id-list parsing, query-filter rules, and the contact-form text.
//! The database and HTTP work around these stays with the caller.

use vstd::prelude::*;
use crate::strutil::{spec_split, seq_contains_str};
use crate::token::{Auth0TokenFields, PermCheckOpt};
use crate::perms::{ScopePerm, PermText};
use crate::responses::ErrorResponse;

verus! {

/// Does the text match the contact form's address pattern? The result of
/// the fixed regular expression below, a function of the text alone.
pub uninterp spec fn mail_address_matches(s: Seq<char>) -> bool;

/// Relies on regex::Regex::is_match with the contact form's fixed address
/// pattern (local part, "@", then dot-separated alphanumeric labels).
#[verifier::external_body]
fn is_mail_address(s: &str) -> (r: bool)
    ensures
        r == mail_address_matches(s@),
{
    match regex::Regex::new(
        r"^[a-zA-Z0-9.!#$%&'*+/=?^_`{|}~-]+@[a-zA-Z0-9](?:[a-zA-Z0-9-]{0,61}[a-zA-Z0-9])?(?:\.[a-zA-Z0-9](?:[a-zA-Z0-9-]{0,61}[a-zA-Z0-9])?)*$",
    ) {
        Ok(re) => re.is_match(s),
        Err(_) => false,
    }
}

/// Does the text match the message payload's address pattern? The result
/// of the fixed regular expression below, a function of the text alone.
pub uninterp spec fn email_matches(s: Seq<char>) -> bool;

/// Relies on regex::Regex::is_match with the message payload's fixed
/// address pattern (local part, "@", an alphanumeric label, then one or
/// more dot-led labels).
#[verifier::external_body]
fn is_email(s: &str) -> (r: bool)
    ensures
        r == email_matches(s@),
{
    match regex::Regex::new(
        r"^[a-zA-Z0-9.!#$%&'*+/=?^_`{|}~-]+@[a-zA-Z0-9]+(\.[a-zA-Z0-9-]{0,61})+$",
    ) {
        Ok(re) => re.is_match(s),
        Err(_) => false,
    }
}

/// How many extended grapheme clusters the text holds, a function of the
/// text alone.
pub uninterp spec fn grapheme_count(s: Seq<char>) -> nat;

/// Relies on unicode_segmentation::UnicodeSegmentation::graphemes with
/// extended clusters: the number of clusters; empty text holds none.
#[verifier::external_body]
fn count_graphemes(s: &str) -> (r: usize)
    ensures
        r as nat == grapheme_count(s@),
        s@.len() == 0 ==> r == 0,
{
    unicode_segmentation::UnicodeSegmentation::graphemes(s, true).count()
}

/// A validated sender address of the contact form.
pub struct MailAddress(pub String);

impl MailAddress {
    /// Accept a form value as an address only when it is non-empty and
    /// matches the address pattern.
    pub fn from_form_value(form_value: &str) -> (r: Result<MailAddress, ()>)
        ensures
            r matches Ok(a) ==> a.0@ == form_value@ && form_value@.len() > 0 && mail_address_matches(
                form_value@,
            ),
            r is Err <==> !(form_value@.len() > 0 && mail_address_matches(form_value@)),
    {
        if form_value.unicode_len() > 0 && is_mail_address(form_value) {
            Ok(MailAddress(form_value.to_owned()))
        } else {
            Err(())
        }
    }
}

/// The contact form's fields.
pub struct MailMessage {
    pub from: MailAddress,
    pub name: String,
    pub subject: String,
    pub message: String,
}

/// The text a contact-form submission turns into.
pub open spec fn mail_message_text(m: MailMessage) -> Seq<char> {
    "From: "@ + m.from.0@ + "\nName: "@ + m.name@ + "\nSubject: "@ + m.subject@ + "\nMessage: "@
        + m.message@
}

/// Render a contact-form submission as one block of text.
pub fn send_message(message: MailMessage) -> (r: String)
    ensures
        r@ == mail_message_text(message),
{
    let mut out: String = "From: ".to_owned();
    out.append(message.from.0.as_str());
    out.append("\nName: ");
    out.append(message.name.as_str());
    out.append("\nSubject: ");
    out.append(message.subject.as_str());
    out.append("\nMessage: ");
    out.append(message.message.as_str());
    out
}

/// An incoming message payload, before validation.
#[derive(Debug)]
pub struct NewMessagePayload {
    pub from: String,
    pub name: String,
    pub subject: String,
    pub message: String,
}

/// Why a payload was rejected as invalid.
pub struct ValidError {
    pub message: String,
    pub code: u16,
}

/// Why a payload failed the sanitization gate.
#[derive(Debug)]
pub struct SanitizationErr {
    pub message: String,
}

impl NewMessagePayload {
    /// A payload is valid exactly when its sender address matches the
    /// address pattern; anything else is a bad request.
    pub fn is_valid(&self) -> (r: Result<(), ValidError>)
        ensures
            r is Ok <==> email_matches(self.from@),
            r matches Err(e) ==> e.code == 400 && e.message@ == "Invalid email address"@,
    {
        if is_email(self.from.as_str()) {
            Ok(())
        } else {
            Err(ValidError { message: "Invalid email address".to_owned(), code: 400 })
        }
    }

    /// Gate the message length at one thousand grapheme clusters; the
    /// field text itself passes through unchanged.
    pub fn sanitize(self) -> (r: Result<NewMessagePayload, SanitizationErr>)
        ensures
            r is Ok <==> grapheme_count(self.message@) <= 1000,
            r matches Ok(p) ==> p.from == self.from && p.name == self.name && p.subject
                == self.subject && p.message == self.message,
    {
        if count_graphemes(self.message.as_str()) > 1000 {
            Err(
                SanitizationErr {
                    message:
                        "Message is too long! You must limit your message to 1000 characters (UTF-8 Graphemes are considered).".to_owned(),
                },
            )
        } else {
            Ok(self)
        }
    }
}

/// Is the character one of the id alphabet's?
pub open spec fn is_alnum_char(c: char) -> bool {
    ('a' <= c && c <= 'z') || ('A' <= c && c <= 'Z') || ('0' <= c && c <= '9')
}

/// Is the text one or more comma-separated, non-empty, alphanumeric ids?
pub open spec fn valid_ids_text(s: Seq<char>) -> bool {
    forall|i: int|
        0 <= i < spec_split(s, ',').len() ==> {
            let piece = #[trigger] spec_split(s, ',')[i];
            piece.len() > 0 && forall|j: int| 0 <= j < piece.len() ==> is_alnum_char(
                #[trigger] piece[j],
            )
        }
}

/// Message ids named by a request path segment.
pub struct Ids(pub Vec<String>);

impl Ids {
    /// Split a path segment into ids; turn away anything but comma-
    /// separated alphanumeric ids.
    pub fn from_param(param: &str) -> (r: Result<Ids, String>)
        ensures
            r matches Ok(ids) ==> valid_ids_text(param@) && ids.0.deep_view() == spec_split(
                param@,
                ',',
            ),
            r is Err <==> !valid_ids_text(param@),
    {
        let pieces = crate::strutil::split_at_char(param, ',');
        let ghost dv = pieces.deep_view();
        let mut i: usize = 0;
        while i < pieces.len()
            invariant
                0 <= i <= pieces.len(),
                dv == pieces.deep_view(),
                dv =~= spec_split(param@, ','),
                forall|p: int|
                    0 <= p < i ==> {
                        let piece = #[trigger] dv[p];
                        piece.len() > 0 && forall|j: int| 0 <= j < piece.len() ==> is_alnum_char(
                            #[trigger] piece[j],
                        )
                    },
            decreases pieces.len() - i,
        {
            let piece: &str = pieces[i].as_str();
            let n: usize = piece.unicode_len();
            if n == 0 {
                proof {
                    assert(spec_split(param@, ',')[i as int].len() == 0);
                    assert(!valid_ids_text(param@));
                }
                return Err(
                    "{\"error\":\"Invalid request. You must first specify a message id(s) and separate them by commas.\"}".to_owned(),
                );
            }
            let mut j: usize = 0;
            while j < n
                invariant
                    0 <= j <= n == dv[i as int].len(),
                    piece@ == dv[i as int],
                    forall|q: int| 0 <= q < j ==> is_alnum_char(#[trigger] piece@[q]),
                decreases n - j,
            {
                let c = piece.get_char(j);
                let alnum = ('a' <= c && c <= 'z') || ('A' <= c && c <= 'Z') || ('0' <= c && c
                    <= '9');
                if !alnum {
                    return Err(
                        "{\"error\":\"Invalid request. You must first specify a message id(s) and separate them by commas.\"}".to_owned(),
                    );
                }
                j = j + 1;
            }
            i = i + 1;
        }
        Ok(Ids(pieces))
    }
}

/// Keep only messages with this read mark.
pub struct ReadFilter(pub bool);

/// Keep only messages from these senders.
pub struct SenderFilter(pub Vec<String>);

/// Keep only messages with this archived mark.
pub struct ArchivedFilter(pub bool);

/// Keep only messages from a time span: before, after, or within.
pub struct DateFilter {
    pub before: Option<String>,
    pub after: Option<String>,
    pub within: Option<(String, String)>,
}

/// Why a query filter was refused.
#[derive(Debug)]
pub struct FilterErr {
    pub msg: String,
    pub unexpected: bool,
}

impl DateFilter {
    /// At most one of "before", "after" and "within" may be given.
    pub open spec fn conflicting_spec(&self) -> bool {
        (self.before is Some && self.after is Some) || (self.within is Some && (self.before is Some
            || self.after is Some))
    }

    /// Check the one-of-three rule; a conflict is the caller's fault, not
    /// an internal one.
    pub fn check_conflict(&self) -> (r: Result<(), FilterErr>)
        ensures
            r is Err <==> self.conflicting_spec(),
            r matches Err(e) ==> !e.unexpected,
    {
        let conflict = (self.before.is_some() && self.after.is_some()) || (self.within.is_some()
            && (self.before.is_some() || self.after.is_some()));
        if conflict {
            Err(
                FilterErr {
                    msg: "Only one of \"before\" or \"after\" or \"within\" can be specified".to_owned(),
                    unexpected: false,
                },
            )
        } else {
            Ok(())
        }
    }
}

/// Gate and clean an incoming payload: an invalid sender address or an
/// over-long message is answered with a ready error response; anything
/// else passes through unchanged, ready to store.
pub fn prepare_message(payload: NewMessagePayload) -> (r: Result<NewMessagePayload, ErrorResponse>)
    ensures
        !email_matches(payload.from@) ==> (r matches Err(e) && e.status == 400 && e.body@
            == "{\"message\":\"Invalid email address\"}"@),
        email_matches(payload.from@) && grapheme_count(payload.message@) > 1000 ==> (
        r matches Err(e) && e.status == 400),
        email_matches(payload.from@) && grapheme_count(payload.message@) <= 1000 ==> (
        r matches Ok(p) && p.from == payload.from && p.name == payload.name && p.subject
            == payload.subject && p.message == payload.message),
{
    match payload.is_valid() {
        Err(_) => Err(
            ErrorResponse {
                status: 400,
                body: "{\"message\":\"Invalid email address\"}".to_owned(),
            },
        ),
        Ok(()) => match payload.sanitize() {
            Err(gate) => {
                let mut body: String = "{\"message\":\"".to_owned();
                body.append(gate.message.as_str());
                body.append("\"}");
                Err(ErrorResponse { status: 400, body })
            },
            Ok(clean) => Ok(clean),
        },
    }
}

/// Is the character a hexadecimal digit?
pub open spec fn is_hex_char(c: char) -> bool {
    ('0' <= c && c <= '9') || ('a' <= c && c <= 'f') || ('A' <= c && c <= 'F')
}

/// The texts a stored message's object id can take: exactly twenty-four
/// hexadecimal digits.
pub open spec fn is_object_id_text(s: Seq<char>) -> bool {
    s.len() == 24 && forall|i: int| 0 <= i < s.len() ==> is_hex_char(#[trigger] s[i])
}

/// Check a path segment against the object-id shape.
pub fn is_valid_object_id(s: &str) -> (r: bool)
    ensures
        r == is_object_id_text(s@),
{
    let n: usize = s.unicode_len();
    if n != 24 {
        return false;
    }
    let mut i: usize = 0;
    while i < n
        invariant
            0 <= i <= n == s@.len(),
            forall|j: int| 0 <= j < i ==> is_hex_char(#[trigger] s@[j]),
        decreases n - i,
    {
        let c = s.get_char(i);
        let hex = ('0' <= c && c <= '9') || ('a' <= c && c <= 'f') || ('A' <= c && c <= 'F');
        if !hex {
            return false;
        }
        i = i + 1;
    }
    true
}

/// May this token read messages? The bypass claim or the read scope will
/// do; the baseline is not demanded here.
pub open spec fn can_read_msgs_spec(fields: Auth0TokenFields) -> bool {
    match fields.raw_permissions {
        None => false,
        Some(raw) => seq_contains_str(raw.deep_view(), "is:tumex"@) || seq_contains_str(
            raw.deep_view(),
            "mailer:webp:messages:read"@,
        ),
    }
}

/// May this token delete messages? The bypass claim or the delete scope
/// will do; the baseline is not demanded here.
pub open spec fn can_del_msgs_spec(fields: Auth0TokenFields) -> bool {
    match fields.raw_permissions {
        None => false,
        Some(raw) => seq_contains_str(raw.deep_view(), "is:tumex"@) || seq_contains_str(
            raw.deep_view(),
            "mailer:webp:messages:delete"@,
        ),
    }
}

/// What a toggle request asks the store to flip.
#[derive(Clone, Copy, PartialEq, Eq, Structural, Debug)]
pub enum ToggleKind {
    Archive,
    Read,
}

/// A validated toggle request, ready for the store.
#[derive(Debug)]
pub struct ToggleAction {
    pub kind: ToggleKind,
    pub id: String,
    pub value: bool,
}

/// Decide a toggle request: all three parameters must be present, the
/// toggle type must be "archive" or "read", the token must be allowed to
/// read messages, and the id must have the object-id shape — in that
/// order, each failure with its own answer.
pub fn toggle_request(
    fields: &Auth0TokenFields,
    toggle_type: Option<String>,
    id: Option<String>,
    value: Option<bool>,
) -> (r: Result<ToggleAction, ErrorResponse>)
    ensures
        (toggle_type is None || id is None || value is None) ==> (r matches Err(e) && e.status
            == 400),
        toggle_type matches Some(t) ==> id is Some && value is Some ==> {
            &&& (t@ != "archive"@ && t@ != "read"@) ==> (r matches Err(e) && e.status == 400)
            &&& (t@ == "archive"@ || t@ == "read"@) && !can_read_msgs_spec(*fields) ==> (
            r matches Err(e) && e.status == 403)
            &&& (t@ == "archive"@ || t@ == "read"@) && can_read_msgs_spec(*fields)
                && !is_object_id_text(id->0@) ==> (r matches Err(e) && e.status == 400 && e.body@
                == "{\"error\":\"Invalid message id\"}"@)
            &&& (t@ == "archive"@ || t@ == "read"@) && can_read_msgs_spec(*fields)
                && is_object_id_text(id->0@) ==> (r matches Ok(a) && a.id == id->0 && a.value
                == value->0 && a.kind == (if t@ == "archive"@ {
                ToggleKind::Archive
            } else {
                ToggleKind::Read
            }))
        },
{
    let (toggle_type, id, value) = match (toggle_type, id, value) {
        (Some(t), Some(i), Some(v)) => (t, i, v),
        _ => {
            return Err(
                ErrorResponse {
                    status: 400,
                    body: "{\"error\":\"Invalid request. You must first specify a toggle type (archive or read), a message id, and then a set value (true or false).\"}".to_owned(),
                },
            );
        },
    };
    let kind = if crate::strutil::str_eq(toggle_type.as_str(), "archive") {
        ToggleKind::Archive
    } else if crate::strutil::str_eq(toggle_type.as_str(), "read") {
        ToggleKind::Read
    } else {
        return Err(
            ErrorResponse {
                status: 400,
                body: "{\"error\":\"Invalid request. Toggle type must be: 'archive' or 'read'.\"}".to_owned(),
            },
        );
    };
    let mut req_perms: Vec<ScopePerm> = Vec::new();
    req_perms.push(ScopePerm::MAILER_WEBP_MSGS_READ);
    let ghost reqv = req_perms@;
    let req_opt = Some(PermCheckOpt::All(req_perms));
    let ghost reqo = req_opt;
    let allowed = fields.check_perm(req_opt, false, true);
    proof {
        assert(allowed == fields.check_perm_spec(reqo, false, true));
        assert(reqo matches Some(PermCheckOpt::All(ps)) && ps@ == reqv);
        assert(reqv =~= seq![ScopePerm::MAILER_WEBP_MSGS_READ]);
        assert(reqv[0].perm_view() == "mailer:webp:messages:read"@);
        match &fields.raw_permissions {
            Some(raw) => {
                let rawv = raw.deep_view();
                if allowed && !seq_contains_str(rawv, "is:tumex"@) {
                    assert(seq_contains_str(rawv, reqv[0].perm_view()));
                }
            },
            None => {},
        }
        assert(allowed == can_read_msgs_spec(*fields));
    }
    if !allowed {
        return Err(
            ErrorResponse {
                status: 403,
                body: "{\"error\":\"Not authorized: insufficient permissions for this token\"}".to_owned(),
            },
        );
    }
    if !is_valid_object_id(id.as_str()) {
        return Err(
            ErrorResponse {
                status: 400,
                body: "{\"error\":\"Invalid message id\"}".to_owned(),
            },
        );
    }
    Ok(ToggleAction { kind, id, value })
}

/// Decide a single-message read request: the token must be allowed to read
/// messages, and the id must have the object-id shape.
pub fn read_msg_request(fields: &Auth0TokenFields, id: &str) -> (r: Result<(), ErrorResponse>)
    ensures
        !can_read_msgs_spec(*fields) ==> (r matches Err(e) && e.status == 403),
        can_read_msgs_spec(*fields) && !is_object_id_text(id@) ==> (r matches Err(e) && e.status
            == 400 && e.body@ == "{\"error\":\"Invalid message id\"}"@),
        can_read_msgs_spec(*fields) && is_object_id_text(id@) ==> r is Ok,
{
    let mut req_perms: Vec<ScopePerm> = Vec::new();
    req_perms.push(ScopePerm::MAILER_WEBP_MSGS_READ);
    let ghost reqv = req_perms@;
    let req_opt = Some(PermCheckOpt::All(req_perms));
    let ghost reqo = req_opt;
    let allowed = fields.check_perm(req_opt, false, true);
    proof {
        assert(allowed == fields.check_perm_spec(reqo, false, true));
        assert(reqo matches Some(PermCheckOpt::All(ps)) && ps@ == reqv);
        assert(reqv =~= seq![ScopePerm::MAILER_WEBP_MSGS_READ]);
        assert(reqv[0].perm_view() == "mailer:webp:messages:read"@);
        match &fields.raw_permissions {
            Some(raw) => {
                let rawv = raw.deep_view();
                if allowed && !seq_contains_str(rawv, "is:tumex"@) {
                    assert(seq_contains_str(rawv, reqv[0].perm_view()));
                }
            },
            None => {},
        }
        assert(allowed == can_read_msgs_spec(*fields));
    }
    if !allowed {
        return Err(
            ErrorResponse {
                status: 403,
                body: "{\"error\":\"Not authorized: insufficient permissions for this token\"}".to_owned(),
            },
        );
    }
    if !is_valid_object_id(id) {
        return Err(
            ErrorResponse {
                status: 400,
                body: "{\"error\":\"Invalid message id\"}".to_owned(),
            },
        );
    }
    Ok(())
}

/// Decide a delete request: the token must be allowed to delete messages,
/// and every named id must have the object-id shape.
pub fn del_msg_request(fields: &Auth0TokenFields, ids: &Ids) -> (r: Result<(), ErrorResponse>)
    ensures
        !can_del_msgs_spec(*fields) ==> (r matches Err(e) && e.status == 403),
        can_del_msgs_spec(*fields) ==> {
            &&& (r is Ok <==> forall|i: int|
                0 <= i < ids.0.deep_view().len() ==> is_object_id_text(
                    #[trigger] ids.0.deep_view()[i],
                ))
            &&& (r matches Err(e) ==> e.status == 409 || e.status == 403)
        },
{
    let mut req_perms: Vec<ScopePerm> = Vec::new();
    req_perms.push(ScopePerm::MAILER_WEBP_MSGS_DEL);
    let ghost reqv = req_perms@;
    let req_opt = Some(PermCheckOpt::All(req_perms));
    let ghost reqo = req_opt;
    let allowed = fields.check_perm(req_opt, false, true);
    proof {
        assert(allowed == fields.check_perm_spec(reqo, false, true));
        assert(reqo matches Some(PermCheckOpt::All(ps)) && ps@ == reqv);
        assert(reqv =~= seq![ScopePerm::MAILER_WEBP_MSGS_DEL]);
        assert(reqv[0].perm_view() == "mailer:webp:messages:delete"@);
        match &fields.raw_permissions {
            Some(raw) => {
                let rawv = raw.deep_view();
                if allowed && !seq_contains_str(rawv, "is:tumex"@) {
                    assert(seq_contains_str(rawv, reqv[0].perm_view()));
                }
            },
            None => {},
        }
        assert(allowed == can_del_msgs_spec(*fields));
    }
    if !allowed {
        return Err(
            ErrorResponse {
                status: 403,
                body: "{\"error\":\"Not authorized: insufficient permissions for this token\"}".to_owned(),
            },
        );
    }
    let mut i: usize = 0;
    while i < ids.0.len()
        invariant
            0 <= i <= ids.0.len(),
            forall|j: int| 0 <= j < i ==> is_object_id_text(#[trigger] ids.0.deep_view()[j]),
        decreases ids.0.len() - i,
    {
        if !is_valid_object_id(ids.0[i].as_str()) {
            proof {
                assert(!is_object_id_text(ids.0.deep_view()[i as int]));
            }
            return Err(
                ErrorResponse {
                    status: 409,
                    body: "{\"error\":\"Error parsing message id(s)\"}".to_owned(),
                },
            );
        }
        i = i + 1;
    }
    Ok(())
}

/// Answer a finished delete: when the store deleted fewer than asked, some
/// of the named messages did not exist.
pub fn del_msg_outcome(requested: usize, deleted: u64) -> (r: ErrorResponse)
    ensures
        deleted == requested as u64 ==> r.status == 200,
        deleted != requested as u64 ==> r.status == 412,
{
    if deleted != requested as u64 {
        ErrorResponse {
            status: 412,
            body: "{\"error\":\"Some messages could not be deleted as they do not even exist.\"}".to_owned(),
        }
    } else {
        ErrorResponse {
            status: 200,
            body: "{\"success\":\"Messages deleted successfully!\"}".to_owned(),
        }
    }
}

} // verus!
