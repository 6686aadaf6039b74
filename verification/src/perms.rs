//! The closed claim vocabularies: identity claims ("is:...") and scope
//! permissions ("mailer:..."), with their projections from raw strings.
//! Raw permission strings are the ground truth everywhere; these enums are
//! presentation-side projections of them.

use vstd::prelude::*;
use crate::strutil::{str_eq, spec_split, split_at_char};

verus! {

/// The nine identity claims.
#[allow(non_camel_case_types)]
#[derive(Clone, Copy, PartialEq, Eq, Structural, Debug)]
pub enum IsPerm {
    TUMEX,
    FRIENDS_NORMAL,
    FRIENDS_CLOSE,
    FRIENDS_BFF,
    FAMILY_FIRST,
    FAMILY_SECOND,
    FAMILY_THIRD,
    SUDO_LOW,
    SUDO_HIGH,
}

/// The three scope permissions.
#[allow(non_camel_case_types)]
#[derive(Clone, Copy, PartialEq, Eq, Structural, Debug)]
pub enum ScopePerm {
    MAILER_BASE_ACCESS,
    MAILER_WEBP_MSGS_READ,
    MAILER_WEBP_MSGS_DEL,
}

/// Raw role strings, as they came off a token.
pub struct RawRoles(pub Vec<String>);

/// Raw permission strings, as they came off a token.
pub struct RawPerms(pub Vec<String>);

/// The identity claim a raw string stands for, if any.
pub open spec fn is_perm_of(s: Seq<char>) -> Option<IsPerm> {
    if s == "is:tumex"@ {
        Some(IsPerm::TUMEX)
    } else if s == "is:friends:normal"@ {
        Some(IsPerm::FRIENDS_NORMAL)
    } else if s == "is:friends:close"@ {
        Some(IsPerm::FRIENDS_CLOSE)
    } else if s == "is:friends:bff"@ {
        Some(IsPerm::FRIENDS_BFF)
    } else if s == "is:family:first-deg"@ {
        Some(IsPerm::FAMILY_FIRST)
    } else if s == "is:family:second-deg"@ {
        Some(IsPerm::FAMILY_SECOND)
    } else if s == "is:family:third-deg"@ {
        Some(IsPerm::FAMILY_THIRD)
    } else if s == "is:sudo:low"@ {
        Some(IsPerm::SUDO_LOW)
    } else if s == "is:sudo:high"@ {
        Some(IsPerm::SUDO_HIGH)
    } else {
        None
    }
}

/// The scope permission a raw string stands for, if any.
pub open spec fn scope_perm_of(s: Seq<char>) -> Option<ScopePerm> {
    if s == "mailer:baseaccess"@ {
        Some(ScopePerm::MAILER_BASE_ACCESS)
    } else if s == "mailer:webp:messages:read"@ {
        Some(ScopePerm::MAILER_WEBP_MSGS_READ)
    } else if s == "mailer:webp:messages:delete"@ {
        Some(ScopePerm::MAILER_WEBP_MSGS_DEL)
    } else {
        None
    }
}

/// The identity claims recognized among a sequence of raw strings, in order.
pub open spec fn project_is_perm_views(parts: Seq<Seq<char>>) -> Seq<IsPerm>
    decreases parts.len(),
{
    if parts.len() == 0 {
        Seq::empty()
    } else {
        match is_perm_of(parts[0]) {
            Some(p) => seq![p] + project_is_perm_views(parts.drop_first()),
            None => project_is_perm_views(parts.drop_first()),
        }
    }
}

/// The scope permissions recognized among a sequence of raw strings, in order.
pub open spec fn project_scope_perm_views(parts: Seq<Seq<char>>) -> Seq<ScopePerm>
    decreases parts.len(),
{
    if parts.len() == 0 {
        Seq::empty()
    } else {
        match scope_perm_of(parts[0]) {
            Some(p) => seq![p] + project_scope_perm_views(parts.drop_first()),
            None => project_scope_perm_views(parts.drop_first()),
        }
    }
}

/// Constructors that project raw permission text into typed claims.
/// Unrecognized strings are silently dropped, never an error; `None` comes
/// back only when nothing at all was recognized.
pub trait NewAuth0Perms: Sized {
    /// Does `s` project to some value of this type?
    spec fn projects(s: Seq<char>) -> bool;

    /// Is `self` the projection of `s`?
    spec fn is_projection_of(&self, s: Seq<char>) -> bool;

    fn from_perm_string(perms_string: &str) -> (r: Option<Self>)
        ensures
            match r {
                Some(p) => Self::projects(perms_string@) && p.is_projection_of(perms_string@),
                None => !Self::projects(perms_string@),
            },
    ;
}

/// Typed claims that stand for one fixed raw string.
pub trait PermText {
    /// The raw string this claim stands for.
    spec fn perm_view(&self) -> Seq<char>;

    fn as_str(&self) -> (r: &str)
        ensures
            r@ == self.perm_view(),
    ;
}

impl PermText for IsPerm {
    fn as_str(&self) -> (r: &str)
    {
        match self {
            IsPerm::TUMEX => "is:tumex",
            IsPerm::FRIENDS_NORMAL => "is:friends:normal",
            IsPerm::FRIENDS_CLOSE => "is:friends:close",
            IsPerm::FRIENDS_BFF => "is:friends:bff",
            IsPerm::FAMILY_FIRST => "is:family:first-deg",
            IsPerm::FAMILY_SECOND => "is:family:second-deg",
            IsPerm::FAMILY_THIRD => "is:family:third-deg",
            IsPerm::SUDO_LOW => "is:sudo:low",
            IsPerm::SUDO_HIGH => "is:sudo:high",
        }
    }

    open spec fn perm_view(&self) -> Seq<char> {
        match self {
            IsPerm::TUMEX => "is:tumex"@,
            IsPerm::FRIENDS_NORMAL => "is:friends:normal"@,
            IsPerm::FRIENDS_CLOSE => "is:friends:close"@,
            IsPerm::FRIENDS_BFF => "is:friends:bff"@,
            IsPerm::FAMILY_FIRST => "is:family:first-deg"@,
            IsPerm::FAMILY_SECOND => "is:family:second-deg"@,
            IsPerm::FAMILY_THIRD => "is:family:third-deg"@,
            IsPerm::SUDO_LOW => "is:sudo:low"@,
            IsPerm::SUDO_HIGH => "is:sudo:high"@,
        }
    }
}

impl PermText for ScopePerm {
    fn as_str(&self) -> (r: &str)
    {
        match self {
            ScopePerm::MAILER_BASE_ACCESS => "mailer:baseaccess",
            ScopePerm::MAILER_WEBP_MSGS_READ => "mailer:webp:messages:read",
            ScopePerm::MAILER_WEBP_MSGS_DEL => "mailer:webp:messages:delete",
        }
    }

    open spec fn perm_view(&self) -> Seq<char> {
        match self {
            ScopePerm::MAILER_BASE_ACCESS => "mailer:baseaccess"@,
            ScopePerm::MAILER_WEBP_MSGS_READ => "mailer:webp:messages:read"@,
            ScopePerm::MAILER_WEBP_MSGS_DEL => "mailer:webp:messages:delete"@,
        }
    }
}

impl NewAuth0Perms for IsPerm {
    open spec fn projects(s: Seq<char>) -> bool {
        is_perm_of(s) is Some
    }

    open spec fn is_projection_of(&self, s: Seq<char>) -> bool {
        is_perm_of(s) == Some(*self)
    }

    fn from_perm_string(perms_string: &str) -> (r: Option<IsPerm>) {
        if str_eq(perms_string, "is:tumex") {
            Some(IsPerm::TUMEX)
        } else if str_eq(perms_string, "is:friends:normal") {
            Some(IsPerm::FRIENDS_NORMAL)
        } else if str_eq(perms_string, "is:friends:close") {
            Some(IsPerm::FRIENDS_CLOSE)
        } else if str_eq(perms_string, "is:friends:bff") {
            Some(IsPerm::FRIENDS_BFF)
        } else if str_eq(perms_string, "is:family:first-deg") {
            Some(IsPerm::FAMILY_FIRST)
        } else if str_eq(perms_string, "is:family:second-deg") {
            Some(IsPerm::FAMILY_SECOND)
        } else if str_eq(perms_string, "is:family:third-deg") {
            Some(IsPerm::FAMILY_THIRD)
        } else if str_eq(perms_string, "is:sudo:low") {
            Some(IsPerm::SUDO_LOW)
        } else if str_eq(perms_string, "is:sudo:high") {
            Some(IsPerm::SUDO_HIGH)
        } else {
            None
        }
    }
}

impl NewAuth0Perms for ScopePerm {
    open spec fn projects(s: Seq<char>) -> bool {
        scope_perm_of(s) is Some
    }

    open spec fn is_projection_of(&self, s: Seq<char>) -> bool {
        scope_perm_of(s) == Some(*self)
    }

    fn from_perm_string(perms_string: &str) -> (r: Option<ScopePerm>) {
        if str_eq(perms_string, "mailer:baseaccess") {
            Some(ScopePerm::MAILER_BASE_ACCESS)
        } else if str_eq(perms_string, "mailer:webp:messages:read") {
            Some(ScopePerm::MAILER_WEBP_MSGS_READ)
        } else if str_eq(perms_string, "mailer:webp:messages:delete") {
            Some(ScopePerm::MAILER_WEBP_MSGS_DEL)
        } else {
            None
        }
    }
}

/// A non-empty list of identity claims recognized in a comma-separated string.
pub struct IsPermVec(pub Vec<IsPerm>);

/// A non-empty list of scope permissions recognized in a comma-separated string.
pub struct ScopePermVec(pub Vec<ScopePerm>);

/// The identity claims recognized among the comma-separated pieces of `s`.
pub open spec fn is_perms_in_split(s: Seq<char>) -> Seq<IsPerm> {
    project_is_perm_views(spec_split(s, ','))
}

/// The scope permissions recognized among the comma-separated pieces of `s`.
pub open spec fn scope_perms_in_split(s: Seq<char>) -> Seq<ScopePerm> {
    project_scope_perm_views(spec_split(s, ','))
}

impl NewAuth0Perms for IsPermVec {
    open spec fn projects(s: Seq<char>) -> bool {
        is_perms_in_split(s).len() > 0
    }

    open spec fn is_projection_of(&self, s: Seq<char>) -> bool {
        self.0@ == is_perms_in_split(s)
    }

    fn from_perm_string(perms_string: &str) -> (r: Option<IsPermVec>) {
        let parts = split_at_char(perms_string, ',');
        let mut perms: Vec<IsPerm> = Vec::new();
        let ghost dv = parts.deep_view();
        let mut i: usize = 0;
        proof {
            assert(dv.subrange(0, dv.len() as int) =~= dv);
            assert(perms@ + project_is_perm_views(dv) =~= project_is_perm_views(dv));
        }
        while i < parts.len()
            invariant
                0 <= i <= parts.len(),
                dv == parts.deep_view(),
                dv.len() == parts.len(),
                project_is_perm_views(dv) == perms@ + project_is_perm_views(
                    dv.subrange(i as int, dv.len() as int),
                ),
            decreases parts.len() - i,
        {
            proof {
                assert(dv.subrange(i as int, dv.len() as int).drop_first() =~= dv.subrange(
                    i + 1,
                    dv.len() as int,
                ));
            }
            let ghost perms_prev = perms@;
            match IsPerm::from_perm_string(parts[i].as_str()) {
                Some(perm) => {
                    perms.push(perm);
                    proof {
                        assert(perms@ =~= perms_prev + seq![perm]);
                        assert(perms_prev + (seq![perm] + project_is_perm_views(
                            dv.subrange(i + 1, dv.len() as int),
                        )) =~= perms@ + project_is_perm_views(dv.subrange(i + 1, dv.len() as int)));
                    }
                },
                None => {},
            }
            i = i + 1;
        }
        proof {
            assert(dv.subrange(dv.len() as int, dv.len() as int) =~= Seq::<Seq<char>>::empty());
            assert(perms@ + Seq::<IsPerm>::empty() =~= perms@);
        }
        if perms.len() == 0 {
            None
        } else {
            Some(IsPermVec(perms))
        }
    }
}

impl NewAuth0Perms for ScopePermVec {
    open spec fn projects(s: Seq<char>) -> bool {
        scope_perms_in_split(s).len() > 0
    }

    open spec fn is_projection_of(&self, s: Seq<char>) -> bool {
        self.0@ == scope_perms_in_split(s)
    }

    fn from_perm_string(perms_string: &str) -> (r: Option<ScopePermVec>) {
        let parts = split_at_char(perms_string, ',');
        let mut perms: Vec<ScopePerm> = Vec::new();
        let ghost dv = parts.deep_view();
        let mut i: usize = 0;
        proof {
            assert(dv.subrange(0, dv.len() as int) =~= dv);
            assert(perms@ + project_scope_perm_views(dv) =~= project_scope_perm_views(dv));
        }
        while i < parts.len()
            invariant
                0 <= i <= parts.len(),
                dv == parts.deep_view(),
                dv.len() == parts.len(),
                project_scope_perm_views(dv) == perms@ + project_scope_perm_views(
                    dv.subrange(i as int, dv.len() as int),
                ),
            decreases parts.len() - i,
        {
            proof {
                assert(dv.subrange(i as int, dv.len() as int).drop_first() =~= dv.subrange(
                    i + 1,
                    dv.len() as int,
                ));
            }
            let ghost perms_prev = perms@;
            match ScopePerm::from_perm_string(parts[i].as_str()) {
                Some(perm) => {
                    perms.push(perm);
                    proof {
                        assert(perms@ =~= perms_prev + seq![perm]);
                        assert(perms_prev + (seq![perm] + project_scope_perm_views(
                            dv.subrange(i + 1, dv.len() as int),
                        )) =~= perms@ + project_scope_perm_views(
                            dv.subrange(i + 1, dv.len() as int),
                        ));
                    }
                },
                None => {},
            }
            i = i + 1;
        }
        proof {
            assert(dv.subrange(dv.len() as int, dv.len() as int) =~= Seq::<Seq<char>>::empty());
            assert(perms@ + Seq::<ScopePerm>::empty() =~= perms@);
        }
        if perms.len() == 0 {
            None
        } else {
            Some(ScopePermVec(perms))
        }
    }
}

impl IsPermVec {
    /// The raw strings of the held claims, in order.
    pub fn as_string_vec(&self) -> (r: Vec<String>)
        ensures
            r.deep_view() == self.0@.map_values(|p: IsPerm| p.perm_view()),
    {
        let mut r: Vec<String> = Vec::new();
        let mut i: usize = 0;
        while i < self.0.len()
            invariant
                0 <= i <= self.0.len(),
                r.deep_view() =~= self.0@.subrange(0, i as int).map_values(
                    |p: IsPerm| p.perm_view(),
                ),
            decreases self.0.len() - i,
        {
            let ghost prev = r.deep_view();
            let s: String = self.0[i].as_str().to_owned();
            r.push(s);
            proof {
                assert(r.deep_view() =~= prev.push(s@));
                assert(self.0@.subrange(0, i + 1).map_values(|p: IsPerm| p.perm_view()) =~= self.0@
                    .subrange(0, i as int).map_values(|p: IsPerm| p.perm_view()).push(
                    self.0@[i as int].perm_view(),
                ));
            }
            i = i + 1;
        }
        proof {
            assert(self.0@.subrange(0, self.0@.len() as int) =~= self.0@);
        }
        r
    }
}

impl ScopePermVec {
    /// The raw strings of the held permissions, in order.
    pub fn as_string_vec(&self) -> (r: Vec<String>)
        ensures
            r.deep_view() == self.0@.map_values(|p: ScopePerm| p.perm_view()),
    {
        let mut r: Vec<String> = Vec::new();
        let mut i: usize = 0;
        while i < self.0.len()
            invariant
                0 <= i <= self.0.len(),
                r.deep_view() =~= self.0@.subrange(0, i as int).map_values(
                    |p: ScopePerm| p.perm_view(),
                ),
            decreases self.0.len() - i,
        {
            let ghost prev = r.deep_view();
            let s: String = self.0[i].as_str().to_owned();
            r.push(s);
            proof {
                assert(r.deep_view() =~= prev.push(s@));
                assert(self.0@.subrange(0, i + 1).map_values(|p: ScopePerm| p.perm_view()) =~= self
                    .0@.subrange(0, i as int).map_values(|p: ScopePerm| p.perm_view()).push(
                    self.0@[i as int].perm_view(),
                ));
            }
            i = i + 1;
        }
        proof {
            assert(self.0@.subrange(0, self.0@.len() as int) =~= self.0@);
        }
        r
    }
}

/// Every identity claim's raw string projects back to that claim alone:
/// the enum is a faithful presentation of the vocabulary.
pub proof fn lemma_is_perm_round_trip(p: IsPerm)
    ensures
        is_perm_of(p.perm_view()) == Some(p),
{
    reveal_strlit("is:tumex");
    reveal_strlit("is:friends:normal");
    reveal_strlit("is:friends:close");
    reveal_strlit("is:friends:bff");
    reveal_strlit("is:family:first-deg");
    reveal_strlit("is:family:second-deg");
    reveal_strlit("is:family:third-deg");
    reveal_strlit("is:sudo:low");
    reveal_strlit("is:sudo:high");
    assert("is:tumex"@.len() == 8);
    assert("is:friends:normal"@.len() == 17);
    assert("is:friends:close"@.len() == 16);
    assert("is:friends:bff"@.len() == 14);
    assert("is:family:first-deg"@.len() == 19);
    assert("is:family:second-deg"@.len() == 20);
    assert("is:family:third-deg"@.len() == 19);
    assert("is:sudo:low"@.len() == 11);
    assert("is:sudo:high"@.len() == 12);
    assert(("is:family:first-deg"@)[10] == 'f');
    assert(("is:family:third-deg"@)[10] == 't');
}

/// Every scope permission's raw string projects back to that permission
/// alone.
pub proof fn lemma_scope_perm_round_trip(p: ScopePerm)
    ensures
        scope_perm_of(p.perm_view()) == Some(p),
{
    reveal_strlit("mailer:baseaccess");
    reveal_strlit("mailer:webp:messages:read");
    reveal_strlit("mailer:webp:messages:delete");
    assert("mailer:baseaccess"@.len() == 17);
    assert("mailer:webp:messages:read"@.len() == 25);
    assert("mailer:webp:messages:delete"@.len() == 27);
}

} // verus!
