//! The record types of the user resource and the partial-update rule.
//!
//! A user row carries an identifier and two text attributes, `name` and
//! `email`. An update request may supply either attribute, both, or
//! neither; `apply_update` changes exactly the attributes that are
//! supplied and leaves the rest of the row as it was.

use vstd::prelude::*;

verus! {

/// A stored user row: the identifier is issued by the store on insert
/// and never changes; `name` and `email` are free text.
pub struct User {
    pub id: u128,
    pub name: String,
    pub email: String,
}

/// The mathematical value of a [`User`].
pub struct UserView {
    pub id: u128,
    pub name: Seq<char>,
    pub email: Seq<char>,
}

impl View for User {
    type V = UserView;

    open spec fn view(&self) -> UserView {
        UserView { id: self.id, name: self.name@, email: self.email@ }
    }
}

impl User {
    /// An owned copy of the row, equal to it value for value.
    pub fn duplicate(&self) -> (r: User)
        ensures
            r@ == self@,
    {
        User { id: self.id, name: self.name.clone(), email: self.email.clone() }
    }
}

/// The body of a create request: both attributes are required.
pub struct NewUser {
    pub name: String,
    pub email: String,
}

/// The body of an update request: each attribute is optional, and only
/// the attributes that are present are changed.
pub struct UpdateUser {
    pub name: Option<String>,
    pub email: Option<String>,
}

/// The mathematical value of an [`UpdateUser`].
pub struct UpdateUserView {
    pub name: Option<Seq<char>>,
    pub email: Option<Seq<char>>,
}

impl View for UpdateUser {
    type V = UpdateUserView;

    open spec fn view(&self) -> UpdateUserView {
        UpdateUserView {
            name: match self.name {
                Some(n) => Some(n@),
                None => None,
            },
            email: match self.email {
                Some(e) => Some(e@),
                None => None,
            },
        }
    }
}

/// What an update request makes of a row: the identifier is kept, and
/// each attribute is replaced exactly when the request supplies it.
pub open spec fn apply_update_view(u: UserView, d: UpdateUserView) -> UserView {
    UserView {
        id: u.id,
        name: match d.name {
            Some(n) => n,
            None => u.name,
        },
        email: match d.email {
            Some(e) => e,
            None => u.email,
        },
    }
}

/// Applies an update request to a row: attributes supplied by the
/// request replace the row's, attributes left out are kept, and the
/// identifier is never touched.
pub fn apply_update(user: &User, update: &UpdateUser) -> (r: User)
    ensures
        r@ == apply_update_view(user@, update@),
{
    let name = match &update.name {
        Some(n) => n.clone(),
        None => user.name.clone(),
    };
    let email = match &update.email {
        Some(e) => e.clone(),
        None => user.email.clone(),
    };
    User { id: user.id, name, email }
}

/// The partial-update law: an update with only `name` supplied changes
/// `name` and leaves `email` unchanged, and the other way round; one
/// that supplies neither leaves the whole row unchanged; and no update
/// moves the identifier.
pub proof fn lemma_partial_update(u: UserView, d: UpdateUserView)
    ensures
        apply_update_view(u, d).id == u.id,
        d.name is Some ==> apply_update_view(u, d).name == d.name->Some_0,
        d.name is None ==> apply_update_view(u, d).name == u.name,
        d.email is Some ==> apply_update_view(u, d).email == d.email->Some_0,
        d.email is None ==> apply_update_view(u, d).email == u.email,
        d.name is None && d.email is None ==> apply_update_view(u, d) == u,
{
}

} // verus!
