//! The declarative rule set: which checks are bound to which field, and the
//! message that each check reports.

use crate::payload::Field;
use vstd::prelude::*;

verus! {

/// A check that can be bound to a field.
#[derive(Clone, Copy, Debug, PartialEq, Eq, Structural)]
pub enum Check {
    /// The field must be present. An empty string is present.
    Required,
    /// Where the field is present, it must hold at least this many characters.
    MinLength(u64),
}

/// One check together with the message reported when it fails. A rule
/// without a message reports a generic one.
#[derive(Clone, Debug, PartialEq, Eq)]
pub struct Rule {
    pub check: Check,
    pub message: Option<String>,
}

/// The model of a rule.
pub struct RuleModel {
    pub check: Check,
    pub message: Option<Seq<char>>,
}

impl View for Rule {
    type V = RuleModel;

    open spec fn view(&self) -> RuleModel {
        RuleModel { check: self.check, message: self.message.deep_view() }
    }
}

impl DeepView for Rule {
    type V = RuleModel;

    open spec fn deep_view(&self) -> RuleModel {
        self@
    }
}

/// The checks bound to one field, in the order in which they were declared.
#[derive(Clone, Debug, PartialEq, Eq)]
pub struct FieldRules {
    pub field: Field,
    pub rules: Vec<Rule>,
}

/// The model of the rules of one field.
pub struct FieldRulesModel {
    pub field: Field,
    pub rules: Seq<RuleModel>,
}

impl View for FieldRules {
    type V = FieldRulesModel;

    open spec fn view(&self) -> FieldRulesModel {
        FieldRulesModel { field: self.field, rules: self.rules.deep_view() }
    }
}

impl DeepView for FieldRules {
    type V = FieldRulesModel;

    open spec fn deep_view(&self) -> FieldRulesModel {
        self@
    }
}

/// A rule set: the fields that are checked, in declaration order.
#[derive(Clone, Debug, PartialEq, Eq)]
pub struct RuleSet {
    pub fields: Vec<FieldRules>,
}

impl View for RuleSet {
    type V = Seq<FieldRulesModel>;

    open spec fn view(&self) -> Seq<FieldRulesModel> {
        self.fields.deep_view()
    }
}

impl DeepView for RuleSet {
    type V = Seq<FieldRulesModel>;

    open spec fn deep_view(&self) -> Seq<FieldRulesModel> {
        self@
    }
}

/// No field is declared twice.
pub open spec fn distinct_fields(rules: Seq<FieldRulesModel>) -> bool {
    forall|i: int, j: int| 0 <= i < j < rules.len() ==> rules[i].field != rules[j].field
}

/// The message of each rule of the login payload.
pub open spec fn username_required_message() -> Seq<char> {
    "Логин не может быть пустым"@
}

pub open spec fn username_length_message() -> Seq<char> {
    "Логин недостаточной длины (не может быть меньше 1 символов)"@
}

pub open spec fn password_required_message() -> Seq<char> {
    "Пароль не может быть пустым"@
}

pub open spec fn password_length_message() -> Seq<char> {
    "Пароль недостаточной длины (не может быть меньше 10 символов)"@
}

/// The message of the `Required` rule of a field of the login payload.
pub open spec fn required_message(field: Field) -> Seq<char> {
    match field {
        Field::Username => username_required_message(),
        Field::Password => password_required_message(),
    }
}

/// The least number of characters of a username.
pub const USERNAME_MIN_LENGTH: u64 = 1;

/// The least number of characters of a password.
pub const PASSWORD_MIN_LENGTH: u64 = 10;

/// The rules of the login payload: both fields are required, the username
/// holds at least one character and the password at least ten.
pub open spec fn login_rules_model() -> Seq<FieldRulesModel> {
    seq![
        FieldRulesModel {
            field: Field::Username,
            rules: seq![
                RuleModel { check: Check::Required, message: Some(username_required_message()) },
                RuleModel {
                    check: Check::MinLength(USERNAME_MIN_LENGTH),
                    message: Some(username_length_message()),
                },
            ],
        },
        FieldRulesModel {
            field: Field::Password,
            rules: seq![
                RuleModel { check: Check::Required, message: Some(password_required_message()) },
                RuleModel {
                    check: Check::MinLength(PASSWORD_MIN_LENGTH),
                    message: Some(password_length_message()),
                },
            ],
        },
    ]
}

/// A rule with its message.
pub fn rule(check: Check, message: &str) -> (rule: Rule)
    ensures
        rule@ == (RuleModel { check, message: Some(message@) }),
{
    Rule { check, message: Some(message.to_owned()) }
}

/// Builds the rules of the login payload. A server builds them once and
/// hands them to every request by reference.
pub fn login_rules() -> (rules: RuleSet)
    ensures
        rules@ == login_rules_model(),
        distinct_fields(rules@),
{
    let mut username: Vec<Rule> = Vec::new();
    username.push(rule(Check::Required, "Логин не может быть пустым"));
    username.push(
        rule(
            Check::MinLength(USERNAME_MIN_LENGTH),
            "Логин недостаточной длины (не может быть меньше 1 символов)",
        ),
    );
    let mut password: Vec<Rule> = Vec::new();
    password.push(rule(Check::Required, "Пароль не может быть пустым"));
    password.push(
        rule(
            Check::MinLength(PASSWORD_MIN_LENGTH),
            "Пароль недостаточной длины (не может быть меньше 10 символов)",
        ),
    );
    let username_rules = FieldRules { field: Field::Username, rules: username };
    let password_rules = FieldRules { field: Field::Password, rules: password };
    assert(username_rules@.rules =~= login_rules_model()[0].rules);
    assert(password_rules@.rules =~= login_rules_model()[1].rules);
    let mut fields: Vec<FieldRules> = Vec::new();
    fields.push(username_rules);
    fields.push(password_rules);
    let rules = RuleSet { fields };
    assert(rules@ =~= login_rules_model());
    rules
}

} // verus!
