//! The login payload and the names of its fields.

use vstd::prelude::*;

verus! {

/// A field of the login payload that rules can be bound to.
#[derive(Clone, Copy, Debug, PartialEq, Eq, Structural)]
pub enum Field {
    Username,
    Password,
}

impl Field {
    /// The name of the field in the request document.
    pub open spec fn name_spec(self) -> Seq<char> {
        match self {
            Field::Username => "username"@,
            Field::Password => "password"@,
        }
    }

    /// The name of the field in the request document.
    pub fn name(&self) -> (name: &'static str)
        ensures
            name@ == self.name_spec(),
    {
        match self {
            Field::Username => "username",
            Field::Password => "password",
        }
    }
}

/// Two fields with the same name are the same field.
pub proof fn lemma_field_name_injective(a: Field, b: Field)
    requires
        a.name_spec() == b.name_spec(),
    ensures
        a == b,
{
    reveal_strlit("username");
    reveal_strlit("password");
    assert("username"@[0] == 'u');
    assert("password"@[0] == 'p');
}

/// The body of a login request after decoding. A field that the request left
/// out, or gave as null, is `None`; an empty string is `Some`.
#[derive(Clone, Debug, PartialEq, Eq)]
pub struct LoginPayload {
    pub username: Option<String>,
    pub password: Option<String>,
}

/// The model of a login payload: each field as the text it holds.
pub struct PayloadModel {
    pub username: Option<Seq<char>>,
    pub password: Option<Seq<char>>,
}

impl PayloadModel {
    /// The value of one field, `None` where it is absent.
    pub open spec fn value(self, field: Field) -> Option<Seq<char>> {
        match field {
            Field::Username => self.username,
            Field::Password => self.password,
        }
    }
}

impl View for LoginPayload {
    type V = PayloadModel;

    open spec fn view(&self) -> PayloadModel {
        PayloadModel { username: self.username.deep_view(), password: self.password.deep_view() }
    }
}

impl DeepView for LoginPayload {
    type V = PayloadModel;

    open spec fn deep_view(&self) -> PayloadModel {
        self@
    }
}

impl LoginPayload {
    /// The value of one field, `None` where it is absent.
    pub fn value(&self, field: Field) -> (value: &Option<String>)
        ensures
            value.deep_view() == self@.value(field),
    {
        match field {
            Field::Username => &self.username,
            Field::Password => &self.password,
        }
    }
}

} // verus!
