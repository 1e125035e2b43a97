//! The user store: what the service asks of it.
//!
//! The store itself is a document database, reached over the network.
//! [`UserRepository`] builds the requests; [`Users`] states what a store
//! that honours them is taken to hold afterwards and to answer.

use crate::constants::{
    COLLECTION_USERS, FIELD_EMAIL, FIELD_ID, FIELD_IS_ADMIN, FIELD_PASSWORD_HASH,
    FIELD_TOKEN_VERSION, FIELD_USERNAME, OPERATOR_INCREMENT, OPERATOR_SET,
};
use crate::models::user::{User, UserId, UserView};
use vstd::prelude::*;

verus! {

/// Which records a request is about.
#[derive(Debug, Clone, PartialEq, Eq)]
pub enum UserFilter {
    /// The record with this identifier.
    ById(UserId),
    /// A record with this e-mail address.
    ByEmail(String),
}

/// The mathematical value of a [`UserFilter`].
pub enum UserFilterView {
    ById(Seq<char>),
    ByEmail(Seq<char>),
}

impl View for UserFilter {
    type V = UserFilterView;

    open spec fn view(&self) -> UserFilterView {
        match self {
            UserFilter::ById(id) => UserFilterView::ById(id@),
            UserFilter::ByEmail(email) => UserFilterView::ByEmail(email@),
        }
    }
}

/// What a request changes in a record.
#[derive(Debug, Clone, PartialEq, Eq)]
pub enum UserChange {
    SetAdmin(bool),
    SetEmail(String),
    SetUsername(String),
    SetPasswordHash(String),
    /// Raise the session version by one, in one step at the store: no
    /// reader ever sees a version twice.
    NextTokenVersion,
}

/// The mathematical value of a [`UserChange`].
pub enum UserChangeView {
    SetAdmin(bool),
    SetEmail(Seq<char>),
    SetUsername(Seq<char>),
    SetPasswordHash(Seq<char>),
    NextTokenVersion,
}

impl View for UserChange {
    type V = UserChangeView;

    open spec fn view(&self) -> UserChangeView {
        match self {
            UserChange::SetAdmin(b) => UserChangeView::SetAdmin(*b),
            UserChange::SetEmail(s) => UserChangeView::SetEmail(s@),
            UserChange::SetUsername(s) => UserChangeView::SetUsername(s@),
            UserChange::SetPasswordHash(s) => UserChangeView::SetPasswordHash(s@),
            UserChange::NextTokenVersion => UserChangeView::NextTokenVersion,
        }
    }
}

/// A request to the user store.
#[derive(Debug, Clone, PartialEq, Eq)]
pub enum StoreRequest {
    /// One record that matches, if any does.
    FindOne { filter: UserFilter },
    /// Every record.
    FindAll,
    /// Remove one record that matches, if any does.
    DeleteOne { filter: UserFilter },
    /// Change one record that matches, if any does.
    UpdateOne { filter: UserFilter, change: UserChange },
    /// Add a record.
    InsertOne { user: User },
}

/// The mathematical value of a [`StoreRequest`].
pub enum StoreRequestView {
    FindOne { filter: UserFilterView },
    FindAll,
    DeleteOne { filter: UserFilterView },
    UpdateOne { filter: UserFilterView, change: UserChangeView },
    InsertOne { user: UserView },
}

impl View for StoreRequest {
    type V = StoreRequestView;

    open spec fn view(&self) -> StoreRequestView {
        match self {
            StoreRequest::FindOne { filter } => StoreRequestView::FindOne { filter: filter@ },
            StoreRequest::FindAll => StoreRequestView::FindAll,
            StoreRequest::DeleteOne { filter } => StoreRequestView::DeleteOne { filter: filter@ },
            StoreRequest::UpdateOne { filter, change } => StoreRequestView::UpdateOne {
                filter: filter@,
                change: change@,
            },
            StoreRequest::InsertOne { user } => StoreRequestView::InsertOne { user: user@ },
        }
    }
}

impl UserFilterView {
    /// The name of the field that the filter looks at.
    pub open spec fn field(self) -> Seq<char> {
        match self {
            UserFilterView::ById(_) => FIELD_ID@,
            UserFilterView::ByEmail(_) => FIELD_EMAIL@,
        }
    }
}

impl UserChangeView {
    /// The store's operator for the change.
    pub open spec fn operator(self) -> Seq<char> {
        match self {
            UserChangeView::NextTokenVersion => OPERATOR_INCREMENT@,
            _ => OPERATOR_SET@,
        }
    }

    /// The name of the field that the change writes.
    pub open spec fn field(self) -> Seq<char> {
        match self {
            UserChangeView::SetAdmin(_) => FIELD_IS_ADMIN@,
            UserChangeView::SetEmail(_) => FIELD_EMAIL@,
            UserChangeView::SetUsername(_) => FIELD_USERNAME@,
            UserChangeView::SetPasswordHash(_) => FIELD_PASSWORD_HASH@,
            UserChangeView::NextTokenVersion => FIELD_TOKEN_VERSION@,
        }
    }

    /// The record after the change.
    pub open spec fn applied_to(self, user: UserView) -> UserView {
        match self {
            UserChangeView::SetAdmin(is_admin) => UserView { is_admin, ..user },
            UserChangeView::SetEmail(email) => UserView { email, ..user },
            UserChangeView::SetUsername(username) => UserView { username, ..user },
            UserChangeView::SetPasswordHash(password_hash) => UserView { password_hash, ..user },
            UserChangeView::NextTokenVersion => UserView {
                token_version: user.token_version + 1,
                ..user
            },
        }
    }
}

impl UserFilter {
    /// The name of the field that the filter looks at.
    pub fn field(&self) -> (r: &'static str)
        ensures
            r@ == self@.field(),
    {
        match self {
            UserFilter::ById(_) => FIELD_ID,
            UserFilter::ByEmail(_) => FIELD_EMAIL,
        }
    }
}

impl UserChange {
    /// The store's operator for the change.
    pub fn operator(&self) -> (r: &'static str)
        ensures
            r@ == self@.operator(),
    {
        match self {
            UserChange::NextTokenVersion => OPERATOR_INCREMENT,
            _ => OPERATOR_SET,
        }
    }

    /// The name of the field that the change writes.
    pub fn field(&self) -> (r: &'static str)
        ensures
            r@ == self@.field(),
    {
        match self {
            UserChange::SetAdmin(_) => FIELD_IS_ADMIN,
            UserChange::SetEmail(_) => FIELD_EMAIL,
            UserChange::SetUsername(_) => FIELD_USERNAME,
            UserChange::SetPasswordHash(_) => FIELD_PASSWORD_HASH,
            UserChange::NextTokenVersion => FIELD_TOKEN_VERSION,
        }
    }
}

/// What a user store is taken to hold: at most one record under each identifier.
pub struct Users {
    pub records: Map<Seq<char>, UserView>,
}

impl Users {
    /// Whether the record under `id` matches `filter`.
    pub open spec fn matches(self, id: Seq<char>, filter: UserFilterView) -> bool {
        self.records.contains_key(id) && match filter {
            UserFilterView::ById(wanted) => id == wanted,
            UserFilterView::ByEmail(wanted) => self.records[id].email == wanted,
        }
    }

    /// The identifier of the record that a request with `filter` acts on,
    /// if any matches. Where several do, the store picks.
    pub open spec fn found(self, filter: UserFilterView) -> Option<Seq<char>> {
        if exists|id: Seq<char>| self.matches(id, filter) {
            Some(choose|id: Seq<char>| self.matches(id, filter))
        } else {
            None
        }
    }

    /// The record that a request with `filter` is answered with.
    pub open spec fn find_one(self, filter: UserFilterView) -> Option<UserView> {
        match self.found(filter) {
            Some(id) => Some(self.records[id]),
            None => None,
        }
    }

    /// The store after it has carried out `request`.
    pub open spec fn after(self, request: StoreRequestView) -> Users {
        match request {
            StoreRequestView::FindOne { filter } => self,
            StoreRequestView::FindAll => self,
            StoreRequestView::DeleteOne { filter } => match self.found(filter) {
                Some(id) => Users { records: self.records.remove(id) },
                None => self,
            },
            StoreRequestView::UpdateOne { filter, change } => match self.found(filter) {
                Some(id) => Users {
                    records: self.records.insert(id, change.applied_to(self.records[id])),
                },
                None => self,
            },
            StoreRequestView::InsertOne { user } => if self.records.contains_key(user.id) {
                self
            } else {
                Users { records: self.records.insert(user.id, user) }
            },
        }
    }

    /// The session version that the store reports after it has raised the
    /// one of the record under `id`: none if there is no such record.
    pub open spec fn next_version(self, id: Seq<char>) -> Option<int> {
        if self.records.contains_key(id) {
            Some(self.records[id].token_version + 1)
        } else {
            None
        }
    }

    /// A search by identifier finds the record under it.
    pub proof fn lemma_find_by_id(self, id: Seq<char>)
        ensures
            self.found(UserFilterView::ById(id)) == if self.records.contains_key(id) {
                Some(id)
            } else {
                None::<Seq<char>>
            },
    {
        let filter = UserFilterView::ById(id);
        if self.records.contains_key(id) {
            assert(self.matches(id, filter));
        }
    }
}

/// The service's side of the user store.
#[derive(Debug, Clone)]
pub struct UserRepository {
    collection: String,
}

/// The request that raises the session version of the record under `id`.
pub open spec fn version_bump(id: Seq<char>) -> StoreRequestView {
    StoreRequestView::UpdateOne {
        filter: UserFilterView::ById(id),
        change: UserChangeView::NextTokenVersion,
    }
}

/// The request for the record under `id`.
pub open spec fn lookup(id: Seq<char>) -> StoreRequestView {
    StoreRequestView::FindOne { filter: UserFilterView::ById(id) }
}

impl UserRepository {
    /// The name of the collection that holds the records.
    pub closed spec fn collection_name(&self) -> Seq<char> {
        self.collection@
    }

    pub fn new() -> (r: Self)
        ensures
            r.collection_name() == COLLECTION_USERS@,
    {
        UserRepository { collection: COLLECTION_USERS.to_owned() }
    }

    /// The name of the collection that holds the records.
    pub fn collection(&self) -> (r: &str)
        ensures
            r@ == self.collection_name(),
    {
        self.collection.as_str()
    }

    pub fn find_by_email(&self, email: &str) -> (r: StoreRequest)
        ensures
            r@ == (StoreRequestView::FindOne { filter: UserFilterView::ByEmail(email@) }),
    {
        StoreRequest::FindOne { filter: UserFilter::ByEmail(email.to_owned()) }
    }

    pub fn find_by_id(&self, id: &UserId) -> (r: StoreRequest)
        ensures
            r@ == lookup(id@),
    {
        StoreRequest::FindOne { filter: UserFilter::ById(id.clone()) }
    }

    pub fn find_all(&self) -> (r: StoreRequest)
        ensures
            r@ == StoreRequestView::FindAll,
    {
        StoreRequest::FindAll
    }

    pub fn delete_by_id(&self, id: &UserId) -> (r: StoreRequest)
        ensures
            r@ == (StoreRequestView::DeleteOne { filter: UserFilterView::ById(id@) }),
    {
        StoreRequest::DeleteOne { filter: UserFilter::ById(id.clone()) }
    }

    pub fn set_admin(&self, id: &UserId, is_admin: bool) -> (r: StoreRequest)
        ensures
            r@ == (StoreRequestView::UpdateOne {
                filter: UserFilterView::ById(id@),
                change: UserChangeView::SetAdmin(is_admin),
            }),
    {
        StoreRequest::UpdateOne {
            filter: UserFilter::ById(id.clone()),
            change: UserChange::SetAdmin(is_admin),
        }
    }

    pub fn create(&self, user: &User) -> (r: StoreRequest)
        ensures
            r@ == (StoreRequestView::InsertOne { user: user@ }),
    {
        StoreRequest::InsertOne { user: user.clone() }
    }

    pub fn update_email(&self, id: &UserId, new_email: &str) -> (r: StoreRequest)
        ensures
            r@ == (StoreRequestView::UpdateOne {
                filter: UserFilterView::ById(id@),
                change: UserChangeView::SetEmail(new_email@),
            }),
    {
        StoreRequest::UpdateOne {
            filter: UserFilter::ById(id.clone()),
            change: UserChange::SetEmail(new_email.to_owned()),
        }
    }

    pub fn update_username(&self, id: &UserId, new_username: &str) -> (r: StoreRequest)
        ensures
            r@ == (StoreRequestView::UpdateOne {
                filter: UserFilterView::ById(id@),
                change: UserChangeView::SetUsername(new_username@),
            }),
    {
        StoreRequest::UpdateOne {
            filter: UserFilter::ById(id.clone()),
            change: UserChange::SetUsername(new_username.to_owned()),
        }
    }

    pub fn update_password(&self, id: &UserId, password_hash: &str) -> (r: StoreRequest)
        ensures
            r@ == (StoreRequestView::UpdateOne {
                filter: UserFilterView::ById(id@),
                change: UserChangeView::SetPasswordHash(password_hash@),
            }),
    {
        StoreRequest::UpdateOne {
            filter: UserFilter::ById(id.clone()),
            change: UserChange::SetPasswordHash(password_hash.to_owned()),
        }
    }

    /// Asks the store to raise the session version of the record under
    /// `id` by one and to report the new number. The store does both in one
    /// step, so that of two requests for one record each gets a number of
    /// its own.
    pub fn update_token_version(&self, id: &UserId) -> (r: StoreRequest)
        ensures
            r@ == version_bump(id@),
    {
        StoreRequest::UpdateOne {
            filter: UserFilter::ById(id.clone()),
            change: UserChange::NextTokenVersion,
        }
    }
}

/// Two version bumps for one record, in whichever order the store takes
/// them, report two different numbers, each one more than the one before;
/// the record ends with the second of them.
pub proof fn lemma_bumps_are_distinct(users: Users, id: Seq<char>)
    requires
        users.records.contains_key(id),
    ensures
        ({
            let start = users.records[id].token_version;
            let first = users.next_version(id);
            let between = users.after(version_bump(id));
            let second = between.next_version(id);
            let end = between.after(version_bump(id));
            &&& first == Some(start + 1)
            &&& second == Some(start + 2)
            &&& first != second
            &&& between.find_one(UserFilterView::ById(id)) matches Some(u) && Some(u.token_version)
                == first
            &&& end.find_one(UserFilterView::ById(id)) matches Some(u) && Some(u.token_version)
                == second
        }),
{
    users.lemma_find_by_id(id);
    let between = users.after(version_bump(id));
    between.lemma_find_by_id(id);
    let end = between.after(version_bump(id));
    end.lemma_find_by_id(id);
}

/// Whether a request asks for a session version to be raised.
pub open spec fn raises_version(request: StoreRequestView) -> bool {
    request matches StoreRequestView::UpdateOne { change, .. } && change is NextTokenVersion
}

/// The session version of a record never goes down, whatever the store
/// is asked to do; it changes only when the store is asked to raise it,
/// and then by exactly one.
pub proof fn lemma_versions_only_rise(users: Users, request: StoreRequestView, id: Seq<char>)
    requires
        users.records.contains_key(id),
        users.after(request).records.contains_key(id),
    ensures
        users.after(request).records[id].token_version >= users.records[id].token_version,
        users.after(request).records[id].token_version != users.records[id].token_version ==> {
            &&& raises_version(request)
            &&& users.after(request).records[id].token_version == users.records[id].token_version
                + 1
        },
{
}

} // verus!
