//! Decoded claim enumerations and the policy evaluator `check_perms`.
//!
//! The evaluator works on raw permission strings; the enums here are
//! presentation-side projections of those strings. Evaluation order is a
//! hard contract: the bypass claim first, the baseline scope second, the
//! route policy last.

use vstd::prelude::*;
use crate::strutil::{seq_contains_str, contains_string};

verus! {

/// Constructors that project a list of raw permission strings into a list
/// of typed claims, silently dropping unrecognized strings.
pub trait ClaimsToEnumConstructors: Sized {
    /// Is `r` the projection of the raw strings `perms`?
    spec fn is_claims_projection(r: Seq<Self>, perms: Seq<Seq<char>>) -> bool;

    fn from_perms(perms: &Vec<String>) -> (r: Vec<Self>)
        ensures
            Self::is_claims_projection(r@, perms.deep_view()),
    ;
}

/// The nine identity claims, as decoded values.
#[allow(non_camel_case_types)]
#[derive(Clone, Copy, PartialEq, Eq, Structural, Debug)]
pub enum IsClaims {
    TUMEX,
    FRIENDS_NORMAL,
    FRIENDS_CLOSE,
    FRIENDS_BFF,
    FAMILY_FIRST,
    FAMILY_SECOND,
    FAMILY_THIRD,
    SUDO_LOW,
    SUDO_HIGH,
}

/// The three scope permissions, as decoded values.
#[allow(non_camel_case_types)]
#[derive(Clone, Copy, PartialEq, Eq, Structural, Debug)]
pub enum Permissions {
    MAILER_BASE_ACCESS,
    MAILER_WEBP_MSGS_READ,
    MAILER_WEBP_MSGS_DEL,
}

/// The identity claim a raw string decodes to, if any.
pub open spec fn is_claim_of(s: Seq<char>) -> Option<IsClaims> {
    if s == "is:tumex"@ {
        Some(IsClaims::TUMEX)
    } else if s == "is:friends:normal"@ {
        Some(IsClaims::FRIENDS_NORMAL)
    } else if s == "is:friends:close"@ {
        Some(IsClaims::FRIENDS_CLOSE)
    } else if s == "is:friends:bff"@ {
        Some(IsClaims::FRIENDS_BFF)
    } else if s == "is:family:first-deg"@ {
        Some(IsClaims::FAMILY_FIRST)
    } else if s == "is:family:second-deg"@ {
        Some(IsClaims::FAMILY_SECOND)
    } else if s == "is:family:third-deg"@ {
        Some(IsClaims::FAMILY_THIRD)
    } else if s == "is:sudo:low"@ {
        Some(IsClaims::SUDO_LOW)
    } else if s == "is:sudo:high"@ {
        Some(IsClaims::SUDO_HIGH)
    } else {
        None
    }
}

/// The scope permission a raw string decodes to, if any.
pub open spec fn permission_of(s: Seq<char>) -> Option<Permissions> {
    if s == "mailer:baseaccess"@ {
        Some(Permissions::MAILER_BASE_ACCESS)
    } else if s == "mailer:webp:messages:read"@ {
        Some(Permissions::MAILER_WEBP_MSGS_READ)
    } else if s == "mailer:webp:messages:delete"@ {
        Some(Permissions::MAILER_WEBP_MSGS_DEL)
    } else {
        None
    }
}

/// The identity claims recognized among raw strings, in order.
pub open spec fn project_is_claim_views(perms: Seq<Seq<char>>) -> Seq<IsClaims>
    decreases perms.len(),
{
    if perms.len() == 0 {
        Seq::empty()
    } else {
        match is_claim_of(perms[0]) {
            Some(c) => seq![c] + project_is_claim_views(perms.drop_first()),
            None => project_is_claim_views(perms.drop_first()),
        }
    }
}

/// The scope permissions recognized among raw strings, in order.
pub open spec fn project_permission_views(perms: Seq<Seq<char>>) -> Seq<Permissions>
    decreases perms.len(),
{
    if perms.len() == 0 {
        Seq::empty()
    } else {
        match permission_of(perms[0]) {
            Some(c) => seq![c] + project_permission_views(perms.drop_first()),
            None => project_permission_views(perms.drop_first()),
        }
    }
}

impl IsClaims {
    /// The raw string this claim stands for.
    pub open spec fn claim_view(&self) -> Seq<char> {
        match self {
            IsClaims::TUMEX => "is:tumex"@,
            IsClaims::FRIENDS_NORMAL => "is:friends:normal"@,
            IsClaims::FRIENDS_CLOSE => "is:friends:close"@,
            IsClaims::FRIENDS_BFF => "is:friends:bff"@,
            IsClaims::FAMILY_FIRST => "is:family:first-deg"@,
            IsClaims::FAMILY_SECOND => "is:family:second-deg"@,
            IsClaims::FAMILY_THIRD => "is:family:third-deg"@,
            IsClaims::SUDO_LOW => "is:sudo:low"@,
            IsClaims::SUDO_HIGH => "is:sudo:high"@,
        }
    }

    pub fn as_string(&self) -> (r: String)
        ensures
            r@ == self.claim_view(),
    {
        match self {
            IsClaims::TUMEX => "is:tumex".to_owned(),
            IsClaims::FRIENDS_NORMAL => "is:friends:normal".to_owned(),
            IsClaims::FRIENDS_CLOSE => "is:friends:close".to_owned(),
            IsClaims::FRIENDS_BFF => "is:friends:bff".to_owned(),
            IsClaims::FAMILY_FIRST => "is:family:first-deg".to_owned(),
            IsClaims::FAMILY_SECOND => "is:family:second-deg".to_owned(),
            IsClaims::FAMILY_THIRD => "is:family:third-deg".to_owned(),
            IsClaims::SUDO_LOW => "is:sudo:low".to_owned(),
            IsClaims::SUDO_HIGH => "is:sudo:high".to_owned(),
        }
    }
}

impl Permissions {
    /// The raw string this permission stands for.
    pub open spec fn claim_view(&self) -> Seq<char> {
        match self {
            Permissions::MAILER_BASE_ACCESS => "mailer:baseaccess"@,
            Permissions::MAILER_WEBP_MSGS_READ => "mailer:webp:messages:read"@,
            Permissions::MAILER_WEBP_MSGS_DEL => "mailer:webp:messages:delete"@,
        }
    }

    pub fn as_string(&self) -> (r: String)
        ensures
            r@ == self.claim_view(),
    {
        match self {
            Permissions::MAILER_BASE_ACCESS => "mailer:baseaccess".to_owned(),
            Permissions::MAILER_WEBP_MSGS_READ => "mailer:webp:messages:read".to_owned(),
            Permissions::MAILER_WEBP_MSGS_DEL => "mailer:webp:messages:delete".to_owned(),
        }
    }
}

impl ClaimsToEnumConstructors for IsClaims {
    open spec fn is_claims_projection(r: Seq<IsClaims>, perms: Seq<Seq<char>>) -> bool {
        r == project_is_claim_views(perms)
    }

    fn from_perms(perms: &Vec<String>) -> (r: Vec<IsClaims>) {
        let ghost dv = perms.deep_view();
        let mut claims: Vec<IsClaims> = Vec::new();
        let mut i: usize = 0;
        proof {
            assert(dv.subrange(0, dv.len() as int) =~= dv);
            assert(claims@ + project_is_claim_views(dv) =~= project_is_claim_views(dv));
        }
        while i < perms.len()
            invariant
                0 <= i <= perms.len(),
                dv == perms.deep_view(),
                dv.len() == perms.len(),
                project_is_claim_views(dv) == claims@ + project_is_claim_views(
                    dv.subrange(i as int, dv.len() as int),
                ),
            decreases perms.len() - i,
        {
            proof {
                assert(dv.subrange(i as int, dv.len() as int).drop_first() =~= dv.subrange(
                    i + 1,
                    dv.len() as int,
                ));
            }
            let ghost prev = claims@;
            match IsClaims::decode(perms[i].as_str()) {
                Some(claim) => {
                    claims.push(claim);
                    proof {
                        assert(claims@ =~= prev + seq![claim]);
                        assert(prev + (seq![claim] + project_is_claim_views(
                            dv.subrange(i + 1, dv.len() as int),
                        )) =~= claims@ + project_is_claim_views(dv.subrange(i + 1, dv.len() as int)));
                    }
                },
                None => {},
            }
            i = i + 1;
        }
        proof {
            assert(dv.subrange(dv.len() as int, dv.len() as int) =~= Seq::<Seq<char>>::empty());
            assert(claims@ + Seq::<IsClaims>::empty() =~= claims@);
        }
        claims
    }
}

impl ClaimsToEnumConstructors for Permissions {
    open spec fn is_claims_projection(r: Seq<Permissions>, perms: Seq<Seq<char>>) -> bool {
        r == project_permission_views(perms)
    }

    fn from_perms(perms: &Vec<String>) -> (r: Vec<Permissions>) {
        let ghost dv = perms.deep_view();
        let mut claims: Vec<Permissions> = Vec::new();
        let mut i: usize = 0;
        proof {
            assert(dv.subrange(0, dv.len() as int) =~= dv);
            assert(claims@ + project_permission_views(dv) =~= project_permission_views(dv));
        }
        while i < perms.len()
            invariant
                0 <= i <= perms.len(),
                dv == perms.deep_view(),
                dv.len() == perms.len(),
                project_permission_views(dv) == claims@ + project_permission_views(
                    dv.subrange(i as int, dv.len() as int),
                ),
            decreases perms.len() - i,
        {
            proof {
                assert(dv.subrange(i as int, dv.len() as int).drop_first() =~= dv.subrange(
                    i + 1,
                    dv.len() as int,
                ));
            }
            let ghost prev = claims@;
            match Permissions::decode(perms[i].as_str()) {
                Some(claim) => {
                    claims.push(claim);
                    proof {
                        assert(claims@ =~= prev + seq![claim]);
                        assert(prev + (seq![claim] + project_permission_views(
                            dv.subrange(i + 1, dv.len() as int),
                        )) =~= claims@ + project_permission_views(
                            dv.subrange(i + 1, dv.len() as int),
                        ));
                    }
                },
                None => {},
            }
            i = i + 1;
        }
        proof {
            assert(dv.subrange(dv.len() as int, dv.len() as int) =~= Seq::<Seq<char>>::empty());
            assert(claims@ + Seq::<Permissions>::empty() =~= claims@);
        }
        claims
    }
}

impl IsClaims {
    /// Decode one raw string into an identity claim.
    pub fn decode(s: &str) -> (r: Option<IsClaims>)
        ensures
            r == is_claim_of(s@),
    {
        if crate::strutil::str_eq(s, "is:tumex") {
            Some(IsClaims::TUMEX)
        } else if crate::strutil::str_eq(s, "is:friends:normal") {
            Some(IsClaims::FRIENDS_NORMAL)
        } else if crate::strutil::str_eq(s, "is:friends:close") {
            Some(IsClaims::FRIENDS_CLOSE)
        } else if crate::strutil::str_eq(s, "is:friends:bff") {
            Some(IsClaims::FRIENDS_BFF)
        } else if crate::strutil::str_eq(s, "is:family:first-deg") {
            Some(IsClaims::FAMILY_FIRST)
        } else if crate::strutil::str_eq(s, "is:family:second-deg") {
            Some(IsClaims::FAMILY_SECOND)
        } else if crate::strutil::str_eq(s, "is:family:third-deg") {
            Some(IsClaims::FAMILY_THIRD)
        } else if crate::strutil::str_eq(s, "is:sudo:low") {
            Some(IsClaims::SUDO_LOW)
        } else if crate::strutil::str_eq(s, "is:sudo:high") {
            Some(IsClaims::SUDO_HIGH)
        } else {
            None
        }
    }
}

impl Permissions {
    /// Decode one raw string into a scope permission.
    pub fn decode(s: &str) -> (r: Option<Permissions>)
        ensures
            r == permission_of(s@),
    {
        if crate::strutil::str_eq(s, "mailer:baseaccess") {
            Some(Permissions::MAILER_BASE_ACCESS)
        } else if crate::strutil::str_eq(s, "mailer:webp:messages:read") {
            Some(Permissions::MAILER_WEBP_MSGS_READ)
        } else if crate::strutil::str_eq(s, "mailer:webp:messages:delete") {
            Some(Permissions::MAILER_WEBP_MSGS_DEL)
        } else {
            None
        }
    }
}

/// A route's required-capability policy over raw permission strings.
pub enum PermCheckOptions<'a> {
    AtLeastOne(&'a Vec<&'a str>),
    All(&'a Vec<&'a str>),
    NoneOf(&'a Vec<&'a str>),
}

/// What `check_perms` decides: the bypass claim first, the baseline scope
/// second, the policy last. With no policy the baseline check alone decides.
pub open spec fn check_perms_spec(
    usr: Seq<Seq<char>>,
    req: Option<PermCheckOptions>,
    check_min: bool,
    check_tumex: bool,
) -> bool {
    if check_tumex && seq_contains_str(usr, "is:tumex"@) {
        true
    } else if check_min && !seq_contains_str(usr, "mailer:baseaccess"@) {
        false
    } else {
        match req {
            Some(PermCheckOptions::All(r)) => forall|i: int|
                0 <= i < r.deep_view().len() ==> #[trigger] seq_contains_str(
                    usr,
                    r.deep_view()[i],
                ),
            Some(PermCheckOptions::AtLeastOne(r)) => exists|i: int|
                0 <= i < r.deep_view().len() && #[trigger] seq_contains_str(
                    usr,
                    r.deep_view()[i],
                ),
            Some(PermCheckOptions::NoneOf(r)) => forall|i: int|
                0 <= i < r.deep_view().len() ==> !#[trigger] seq_contains_str(
                    usr,
                    r.deep_view()[i],
                ),
            None => true,
        }
    }
}

/// Evaluate a permission policy against a user's raw permission strings.
pub fn check_perms(
    usr_perms: &Vec<String>,
    req_perms: Option<PermCheckOptions>,
    check_min: bool,
    check_tumex: bool,
) -> (r: bool)
    ensures
        r == check_perms_spec(usr_perms.deep_view(), req_perms, check_min, check_tumex),
{
    if check_tumex && contains_string(usr_perms, "is:tumex") {
        return true;
    }
    if check_min && !contains_string(usr_perms, "mailer:baseaccess") {
        return false;
    }
    match &req_perms {
        Some(PermCheckOptions::All(req)) => {
            let mut i: usize = 0;
            while i < req.len()
                invariant
                    0 <= i <= req.len(),
                    forall|j: int|
                        0 <= j < i ==> #[trigger] seq_contains_str(
                            usr_perms.deep_view(),
                            req.deep_view()[j],
                        ),
                decreases req.len() - i,
            {
                if !contains_string(usr_perms, req[i]) {
                    proof {
                        assert(req.deep_view()[i as int] == req@[i as int]@);
                        assert(!seq_contains_str(usr_perms.deep_view(), req.deep_view()[i as int]));
                    }
                    return false;
                }
                i = i + 1;
            }
            true
        },
        Some(PermCheckOptions::AtLeastOne(req)) => {
            let mut i: usize = 0;
            while i < req.len()
                invariant
                    0 <= i <= req.len(),
                    forall|j: int|
                        0 <= j < i ==> !#[trigger] seq_contains_str(
                            usr_perms.deep_view(),
                            req.deep_view()[j],
                        ),
                decreases req.len() - i,
            {
                if contains_string(usr_perms, req[i]) {
                    proof {
                        assert(req.deep_view()[i as int] == req@[i as int]@);
                        assert(seq_contains_str(usr_perms.deep_view(), req.deep_view()[i as int]));
                    }
                    return true;
                }
                i = i + 1;
            }
            false
        },
        Some(PermCheckOptions::NoneOf(req)) => {
            let mut i: usize = 0;
            while i < req.len()
                invariant
                    0 <= i <= req.len(),
                    forall|j: int|
                        0 <= j < i ==> !#[trigger] seq_contains_str(
                            usr_perms.deep_view(),
                            req.deep_view()[j],
                        ),
                decreases req.len() - i,
            {
                if contains_string(usr_perms, req[i]) {
                    proof {
                        assert(req.deep_view()[i as int] == req@[i as int]@);
                        assert(seq_contains_str(usr_perms.deep_view(), req.deep_view()[i as int]));
                    }
                    return false;
                }
                i = i + 1;
            }
            true
        },
        None => true,
    }
}

/// The bypass claim wins: a claim set holding "is:tumex" evaluates to
/// true under every policy and baseline flag, whenever the bypass check
/// is on.
pub proof fn lemma_bypass_overrides(
    usr: Seq<Seq<char>>,
    req: Option<PermCheckOptions>,
    check_min: bool,
)
    requires
        seq_contains_str(usr, "is:tumex"@),
    ensures
        check_perms_spec(usr, req, check_min, true),
{
}

/// The baseline is a floor: a claim set without "mailer:baseaccess" and
/// without the bypass claim evaluates to false under every policy, when
/// the baseline check is on.
pub proof fn lemma_baseline_required(
    usr: Seq<Seq<char>>,
    req: Option<PermCheckOptions>,
    check_tumex: bool,
)
    requires
        !seq_contains_str(usr, "mailer:baseaccess"@),
        !seq_contains_str(usr, "is:tumex"@),
    ensures
        !check_perms_spec(usr, req, true, check_tumex),
{
}

/// Every decoded identity claim's raw string decodes back to that claim
/// alone.
pub proof fn lemma_is_claim_round_trip(c: IsClaims)
    ensures
        is_claim_of(c.claim_view()) == Some(c),
{
    reveal_strlit("is:tumex");
    reveal_strlit("is:friends:normal");
    reveal_strlit("is:friends:close");
    reveal_strlit("is:friends:bff");
    reveal_strlit("is:family:first-deg");
    reveal_strlit("is:family:second-deg");
    reveal_strlit("is:family:third-deg");
    reveal_strlit("is:sudo:low");
    reveal_strlit("is:sudo:high");
    assert("is:tumex"@.len() == 8);
    assert("is:friends:normal"@.len() == 17);
    assert("is:friends:close"@.len() == 16);
    assert("is:friends:bff"@.len() == 14);
    assert("is:family:first-deg"@.len() == 19);
    assert("is:family:second-deg"@.len() == 20);
    assert("is:family:third-deg"@.len() == 19);
    assert("is:sudo:low"@.len() == 11);
    assert("is:sudo:high"@.len() == 12);
    assert(("is:family:first-deg"@)[10] == 'f');
    assert(("is:family:third-deg"@)[10] == 't');
}

/// Every decoded scope permission's raw string decodes back to that
/// permission alone.
pub proof fn lemma_permission_round_trip(c: Permissions)
    ensures
        permission_of(c.claim_view()) == Some(c),
{
    reveal_strlit("mailer:baseaccess");
    reveal_strlit("mailer:webp:messages:read");
    reveal_strlit("mailer:webp:messages:delete");
    assert("mailer:baseaccess"@.len() == 17);
    assert("mailer:webp:messages:read"@.len() == 25);
    assert("mailer:webp:messages:delete"@.len() == 27);
}

} // verus!
