//! The rules that the bodies of create and update requests must follow,
//! and the violations that a body that breaks them is refused with.

use vstd::prelude::*;
use vstd::string::*;
use crate::models::{CreateUserRequest, UpdateUserRequest};

verus! {

/// Whether `s` is a valid email address as the `validator` crate judges it
/// (the HTML5 form of an address, with a length limit on each part and
/// internationalised domains accepted).
pub uninterp spec fn valid_email(s: Seq<char>) -> bool;

/// Calls `validator::ValidateEmail::validate_email` on `s`. Its source
/// refuses a string without an `@` before anything else; the rest of its
/// judgement is named `valid_email`.
#[verifier::external_body]
fn email_is_valid(s: &str) -> (b: bool)
    ensures
        b == valid_email(s@),
        b ==> s@.contains('@'),
{
    validator::ValidateEmail::validate_email(&s)
}

/// Whether a text of `len` characters lies within the optional bounds.
pub open spec fn length_within(len: nat, min: Option<u64>, max: Option<u64>) -> bool {
    &&& (min matches Some(lo) ==> len >= lo)
    &&& (max matches Some(hi) ==> len <= hi)
}

/// Calls `validator::ValidateLength::validate_length` on `s` with no exact
/// length: its source counts the characters of `s` and compares the count
/// with each bound that is given.
#[verifier::external_body]
fn length_is_within(s: &str, min: Option<u64>, max: Option<u64>) -> (b: bool)
    ensures
        b == length_within(s@.len(), min, max),
{
    validator::ValidateLength::<u64>::validate_length(s, min, max, None)
}

/// A field of a request body.
#[derive(PartialEq, Eq, Structural, Clone, Copy, Debug)]
pub enum UserField {
    Name,
    Email,
    Bio,
}

/// A rule that a field is held to.
#[derive(PartialEq, Eq, Structural, Clone, Copy, Debug)]
pub enum Rule {
    /// The number of characters lies within the bounds that are given.
    Length { min: Option<u64>, max: Option<u64> },
    /// The text is a valid email address.
    Email,
}

/// One broken rule: the field, the rule, the message the rule was given
/// (if any), and the field's value.
pub struct FieldViolation {
    pub field: UserField,
    pub rule: Rule,
    pub message: Option<String>,
    pub value: String,
}

/// A violation, with its texts as character sequences.
pub struct ViolationView {
    pub field: UserField,
    pub rule: Rule,
    pub message: Option<Seq<char>>,
    pub value: Seq<char>,
}

impl View for FieldViolation {
    type V = ViolationView;

    open spec fn view(&self) -> ViolationView {
        ViolationView {
            field: self.field,
            rule: self.rule,
            message: match self.message {
                Some(m) => Some(m@),
                None => None,
            },
            value: self.value@,
        }
    }
}

impl UserField {
    /// The field's name in a request body.
    pub fn name(&self) -> (s: String)
        ensures
            s@ == match self {
                UserField::Name => "name"@,
                UserField::Email => "email"@,
                UserField::Bio => "bio"@,
            },
    {
        match self {
            UserField::Name => String::from_str("name"),
            UserField::Email => String::from_str("email"),
            UserField::Bio => String::from_str("bio"),
        }
    }
}

impl Rule {
    /// The rule's code in an error report.
    pub fn code(&self) -> (s: String)
        ensures
            s@ == match self {
                Rule::Length { .. } => "length"@,
                Rule::Email => "email"@,
            },
    {
        match self {
            Rule::Length { .. } => String::from_str("length"),
            Rule::Email => String::from_str("email"),
        }
    }
}

/// The bounds on a name: 1 to 100 characters.
pub open spec fn name_rule() -> Rule {
    Rule::Length { min: Some(1), max: Some(100) }
}

/// The bound on a bio: at most 500 characters.
pub open spec fn bio_rule() -> Rule {
    Rule::Length { min: None, max: Some(500) }
}

/// The one-element list that `v` gives when `broken`, else the empty list.
pub open spec fn when_broken(broken: bool, v: ViolationView) -> Seq<ViolationView> {
    if broken {
        seq![v]
    } else {
        Seq::empty()
    }
}

/// The violations of a create request, in field order.
pub open spec fn create_violations(name: Seq<char>, email: Seq<char>, bio: Option<Seq<char>>) -> Seq<
    ViolationView,
> {
    when_broken(
        !length_within(name.len(), Some(1), Some(100)),
        ViolationView {
            field: UserField::Name,
            rule: name_rule(),
            message: Some("Name must be 1-100 characters"@),
            value: name,
        },
    ) + when_broken(
        !valid_email(email),
        ViolationView {
            field: UserField::Email,
            rule: Rule::Email,
            message: Some("Invalid email address"@),
            value: email,
        },
    ) + match bio {
        Some(b) => when_broken(
            !length_within(b.len(), None, Some(500)),
            ViolationView {
                field: UserField::Bio,
                rule: bio_rule(),
                message: Some("Bio must be at most 500 characters"@),
                value: b,
            },
        ),
        None => Seq::empty(),
    }
}

/// The violations of an update request, in field order; a field that is
/// left out breaks no rule.
pub open spec fn update_violations(
    name: Option<Seq<char>>,
    email: Option<Seq<char>>,
    bio: Option<Seq<char>>,
) -> Seq<ViolationView> {
    let name_part = match name {
        Some(n) => when_broken(
            !length_within(n.len(), Some(1), Some(100)),
            ViolationView { field: UserField::Name, rule: name_rule(), message: None, value: n },
        ),
        None => Seq::empty(),
    };
    let email_part = match email {
        Some(e) => when_broken(
            !valid_email(e),
            ViolationView { field: UserField::Email, rule: Rule::Email, message: None, value: e },
        ),
        None => Seq::empty(),
    };
    let bio_part = match bio {
        Some(b) => when_broken(
            !length_within(b.len(), None, Some(500)),
            ViolationView { field: UserField::Bio, rule: bio_rule(), message: None, value: b },
        ),
        None => Seq::empty(),
    };
    name_part + email_part + bio_part
}

pub open spec fn opt_view(o: Option<String>) -> Option<Seq<char>> {
    match o {
        Some(s) => Some(s@),
        None => None,
    }
}

pub open spec fn views(v: Seq<FieldViolation>) -> Seq<ViolationView> {
    v.map_values(|x: FieldViolation| x@)
}

fn copy_opt(o: &Option<String>) -> (r: Option<String>)
    ensures
        r == *o,
{
    match o {
        Some(s) => Some(s.clone()),
        None => None,
    }
}

fn push_violation(
    out: &mut Vec<FieldViolation>,
    field: UserField,
    rule: Rule,
    message: Option<&str>,
    value: &String,
)
    ensures
        views(final(out)@) == views(old(out)@).push(
            ViolationView {
                field,
                rule,
                message: match message {
                    Some(m) => Some(m@),
                    None => None,
                },
                value: value@,
            },
        ),
{
    let message = match message {
        Some(m) => Some(String::from_str(m)),
        None => None,
    };
    let v = FieldViolation { field, rule, message, value: value.clone() };
    out.push(v);
    assert(views(out@) =~= views(old(out)@).push(v@));
}

impl CreateUserRequest {
    /// Checks the body against its rules: a name of 1 to 100 characters,
    /// a valid email address, a bio of at most 500 characters. Every broken
    /// rule is reported, in field order.
    pub fn validate(&self) -> (r: Result<(), Vec<FieldViolation>>)
        ensures
            r is Ok <==> create_violations(self.name@, self.email@, opt_view(self.bio)).len() == 0,
            r matches Err(v) ==> views(v@) == create_violations(
                self.name@,
                self.email@,
                opt_view(self.bio),
            ),
    {
        let mut out: Vec<FieldViolation> = Vec::new();
        if !length_is_within(self.name.as_str(), Some(1), Some(100)) {
            push_violation(
                &mut out,
                UserField::Name,
                Rule::Length { min: Some(1), max: Some(100) },
                Some("Name must be 1-100 characters"),
                &self.name,
            );
        }
        if !email_is_valid(self.email.as_str()) {
            push_violation(
                &mut out,
                UserField::Email,
                Rule::Email,
                Some("Invalid email address"),
                &self.email,
            );
        }
        match &self.bio {
            Some(b) => {
                if !length_is_within(b.as_str(), None, Some(500)) {
                    push_violation(
                        &mut out,
                        UserField::Bio,
                        Rule::Length { min: None, max: Some(500) },
                        Some("Bio must be at most 500 characters"),
                        b,
                    );
                }
            },
            None => {},
        }
        assert(views(out@) =~= create_violations(self.name@, self.email@, opt_view(self.bio)));
        if out.len() == 0 {
            Ok(())
        } else {
            Err(out)
        }
    }
}

impl UpdateUserRequest {
    /// Checks the fields that the body gives against the same rules as a
    /// create request's, with no custom messages. Every broken rule is
    /// reported, in field order.
    pub fn validate(&self) -> (r: Result<(), Vec<FieldViolation>>)
        ensures
            r is Ok <==> update_violations(
                opt_view(self.name),
                opt_view(self.email),
                opt_view(self.bio),
            ).len() == 0,
            r matches Err(v) ==> views(v@) == update_violations(
                opt_view(self.name),
                opt_view(self.email),
                opt_view(self.bio),
            ),
    {
        let mut out: Vec<FieldViolation> = Vec::new();
        match &self.name {
            Some(n) => {
                if !length_is_within(n.as_str(), Some(1), Some(100)) {
                    push_violation(
                        &mut out,
                        UserField::Name,
                        Rule::Length { min: Some(1), max: Some(100) },
                        None,
                        n,
                    );
                }
            },
            None => {},
        }
        match &self.email {
            Some(e) => {
                if !email_is_valid(e.as_str()) {
                    push_violation(&mut out, UserField::Email, Rule::Email, None, e);
                }
            },
            None => {},
        }
        match &self.bio {
            Some(b) => {
                if !length_is_within(b.as_str(), None, Some(500)) {
                    push_violation(
                        &mut out,
                        UserField::Bio,
                        Rule::Length { min: None, max: Some(500) },
                        None,
                        b,
                    );
                }
            },
            None => {},
        }
        assert(views(out@) =~= update_violations(
            opt_view(self.name),
            opt_view(self.email),
            opt_view(self.bio),
        ));
        if out.len() == 0 {
            Ok(())
        } else {
            Err(out)
        }
    }
}


/// The create rules, stated on the fields themselves: a create body is
/// accepted exactly when its name has 1 to 100 characters, its email is
/// valid, and its bio (if given) has at most 500 characters (characters,
/// not bytes); each rule that is broken is reported once, with its field,
/// bounds, message and the field's value.
pub proof fn law_create_rules(name: Seq<char>, email: Seq<char>, bio: Option<Seq<char>>)
    ensures
        ({
            let vs = create_violations(name, email, bio);
            &&& vs.len() == 0 <==> (1 <= name.len() <= 100 && valid_email(email) && (bio matches Some(
                b,
            ) ==> b.len() <= 500))
            &&& (exists|i: int| 0 <= i < vs.len() && (#[trigger] vs[i]).field == UserField::Name)
                <==> !(1 <= name.len() <= 100)
            &&& (exists|i: int| 0 <= i < vs.len() && (#[trigger] vs[i]).field == UserField::Email)
                <==> !valid_email(email)
            &&& (exists|i: int| 0 <= i < vs.len() && (#[trigger] vs[i]).field == UserField::Bio)
                <==> (bio matches Some(b) && b.len() > 500)
            &&& forall|i: int|
                0 <= i < vs.len() ==> match (#[trigger] vs[i]).field {
                    UserField::Name => vs[i].rule == (Rule::Length { min: Some(1), max: Some(100) })
                        && vs[i].message == Some("Name must be 1-100 characters"@) && vs[i].value
                        == name,
                    UserField::Email => vs[i].rule == Rule::Email && vs[i].message == Some(
                        "Invalid email address"@,
                    ) && vs[i].value == email,
                    UserField::Bio => vs[i].rule == (Rule::Length { min: None, max: Some(500) })
                        && vs[i].message == Some("Bio must be at most 500 characters"@) && bio
                        == Some(vs[i].value),
                }
            &&& forall|i: int, j: int|
                0 <= i < j < vs.len() ==> (#[trigger] vs[i]).field != (#[trigger] vs[j]).field
        }),
{
    let vs = create_violations(name, email, bio);
    let a = when_broken(
        !length_within(name.len(), Some(1), Some(100)),
        ViolationView {
            field: UserField::Name,
            rule: name_rule(),
            message: Some("Name must be 1-100 characters"@),
            value: name,
        },
    );
    let b = when_broken(
        !valid_email(email),
        ViolationView {
            field: UserField::Email,
            rule: Rule::Email,
            message: Some("Invalid email address"@),
            value: email,
        },
    );
    let c = match bio {
        Some(bb) => when_broken(
            !length_within(bb.len(), None, Some(500)),
            ViolationView {
                field: UserField::Bio,
                rule: bio_rule(),
                message: Some("Bio must be at most 500 characters"@),
                value: bb,
            },
        ),
        None => Seq::empty(),
    };
    lemma_three_parts(vs, a, b, c, UserField::Name, UserField::Email, UserField::Bio);
}

/// The update rules, stated on the fields themselves: the create rules,
/// applied to the fields that the body gives, each reported without a
/// message. A bio longer than 500 characters is refused as on create.
pub proof fn law_update_rules(
    name: Option<Seq<char>>,
    email: Option<Seq<char>>,
    bio: Option<Seq<char>>,
)
    ensures
        ({
            let vs = update_violations(name, email, bio);
            &&& vs.len() == 0 <==> ((name matches Some(n) ==> 1 <= n.len() <= 100) && (email matches Some(
                e,
            ) ==> valid_email(e)) && (bio matches Some(b) ==> b.len() <= 500))
            &&& (exists|i: int| 0 <= i < vs.len() && (#[trigger] vs[i]).field == UserField::Name)
                <==> (name matches Some(n) && !(1 <= n.len() <= 100))
            &&& (exists|i: int| 0 <= i < vs.len() && (#[trigger] vs[i]).field == UserField::Email)
                <==> (email matches Some(e) && !valid_email(e))
            &&& (exists|i: int| 0 <= i < vs.len() && (#[trigger] vs[i]).field == UserField::Bio)
                <==> (bio matches Some(b) && b.len() > 500)
            &&& forall|i: int|
                0 <= i < vs.len() ==> (#[trigger] vs[i]).message is None && match vs[i].field {
                    UserField::Name => vs[i].rule == (Rule::Length { min: Some(1), max: Some(100) })
                        && name == Some(vs[i].value),
                    UserField::Email => vs[i].rule == Rule::Email && email == Some(vs[i].value),
                    UserField::Bio => vs[i].rule == (Rule::Length { min: None, max: Some(500) })
                        && bio == Some(vs[i].value),
                }
            &&& forall|i: int, j: int|
                0 <= i < j < vs.len() ==> (#[trigger] vs[i]).field != (#[trigger] vs[j]).field
        }),
{
    let vs = update_violations(name, email, bio);
    let a = match name {
        Some(n) => when_broken(
            !length_within(n.len(), Some(1), Some(100)),
            ViolationView { field: UserField::Name, rule: name_rule(), message: None, value: n },
        ),
        None => Seq::empty(),
    };
    let b = match email {
        Some(e) => when_broken(
            !valid_email(e),
            ViolationView { field: UserField::Email, rule: Rule::Email, message: None, value: e },
        ),
        None => Seq::empty(),
    };
    let c = match bio {
        Some(bb) => when_broken(
            !length_within(bb.len(), None, Some(500)),
            ViolationView { field: UserField::Bio, rule: bio_rule(), message: None, value: bb },
        ),
        None => Seq::empty(),
    };
    lemma_three_parts(vs, a, b, c, UserField::Name, UserField::Email, UserField::Bio);
}

/// A list made of three parts of at most one violation each, of three
/// distinct fields: which fields occur, where, and that none repeats.
proof fn lemma_three_parts(
    vs: Seq<ViolationView>,
    a: Seq<ViolationView>,
    b: Seq<ViolationView>,
    c: Seq<ViolationView>,
    fa: UserField,
    fb: UserField,
    fc: UserField,
)
    requires
        vs == a + b + c,
        a.len() <= 1,
        b.len() <= 1,
        c.len() <= 1,
        a.len() == 1 ==> a[0].field == fa,
        b.len() == 1 ==> b[0].field == fb,
        c.len() == 1 ==> c[0].field == fc,
        fa != fb && fb != fc && fa != fc,
    ensures
        vs.len() == a.len() + b.len() + c.len(),
        (exists|i: int| 0 <= i < vs.len() && (#[trigger] vs[i]).field == fa) <==> a.len() == 1,
        (exists|i: int| 0 <= i < vs.len() && (#[trigger] vs[i]).field == fb) <==> b.len() == 1,
        (exists|i: int| 0 <= i < vs.len() && (#[trigger] vs[i]).field == fc) <==> c.len() == 1,
        forall|i: int|
            0 <= i < vs.len() ==> (#[trigger] vs[i]) == (if i < a.len() {
                a[0]
            } else if i < a.len() + b.len() {
                b[0]
            } else {
                c[0]
            }),
        forall|i: int, j: int|
            0 <= i < j < vs.len() ==> (#[trigger] vs[i]).field != (#[trigger] vs[j]).field,
{
    let na = a.len() as int;
    let nb = b.len() as int;
    assert forall|i: int|
        0 <= i < vs.len() implies (#[trigger] vs[i]) == (if i < a.len() {
        a[0]
    } else if i < a.len() + b.len() {
        b[0]
    } else {
        c[0]
    }) by {
        if i < na {
            assert(vs[i] == a[i]);
        } else if i < na + nb {
            assert(vs[i] == (a + b)[i]);
            assert((a + b)[i] == b[i - na]);
        } else {
            assert(vs[i] == c[i - na - nb]);
        }
    }
    if a.len() == 1 {
        assert(vs[0].field == fa);
    }
    if b.len() == 1 {
        assert(vs[na].field == fb);
    }
    if c.len() == 1 {
        assert(vs[na + nb].field == fc);
    }
}

} // verus!
