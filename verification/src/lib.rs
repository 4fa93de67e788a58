//! A minimal user data model: a `User` identity record, an abstract
//! repository capability for looking records up and persisting them, a thin
//! service facade that delegates lookups, and a closed set of user roles.

use vstd::prelude::*;

verus! {

/// An identity record. An `id` of 0 signals a record that has not yet been
/// assigned an identifier by a store. No format or uniqueness invariants are
/// enforced here; those belong to the external store.
#[derive(Debug, Clone, PartialEq, Eq)]
pub struct User {
    pub id: i64,
    pub name: String,
    pub email: String,
}

/// The mathematical value of a `User`: its identifier and the two text
/// fields as character sequences.
pub ghost struct UserView {
    pub id: int,
    pub name: Seq<char>,
    pub email: Seq<char>,
}

impl View for User {
    type V = UserView;

    open spec fn view(&self) -> UserView {
        UserView { id: self.id as int, name: self.name@, email: self.email@ }
    }
}

/// The value of an optional lookup result: a found record maps to its view,
/// absence to `None`.
pub open spec fn found_view(r: Option<User>) -> Option<UserView> {
    match r {
        Some(u) => Some(u@),
        None => None,
    }
}

/// The repository capability: an abstract store of user records, meant to be
/// supplied externally. `spec_find` is the store's lookup relation, and
/// `find_by_id` must answer exactly according to it.
pub trait UserRepository {
    /// The record, if any, that the store associates with `id`.
    spec fn spec_find(&self, id: i64) -> Option<UserView>;

    /// Looks a record up by its identifier. Absence is an empty result, not
    /// an error.
    fn find_by_id(&self, id: i64) -> (r: Option<User>)
        ensures
            found_view(r) == self.spec_find(id),
    ;

    /// Attempts to persist a record; a failure carries a human-readable
    /// reason. Nothing further (uniqueness of ids, visibility of the record
    /// to later lookups) is promised here: that is the store's own contract.
    fn create(&self, user: &User) -> Result<(), String>;
}

/// A thin facade over exactly one repository instance, which it owns for its
/// lifetime. Lookups are pure delegation: no caching, no retries, no
/// validation.
pub struct UserService<R: UserRepository> {
    repository: R,
}

impl<R: UserRepository> UserService<R> {
    /// The repository instance the service owns.
    pub closed spec fn spec_repository(&self) -> R {
        self.repository
    }

    /// Takes ownership of a repository instance; the service holds no other
    /// state.
    pub fn new(repository: R) -> (s: Self)
        ensures
            s.spec_repository() == repository,
    {
        UserService { repository }
    }

    /// Delegates the lookup to the owned repository: the result is exactly
    /// what the repository's lookup relation gives for `id`.
    pub fn get_user(&self, id: i64) -> (r: Option<User>)
        ensures
            found_view(r) == self.spec_repository().spec_find(id),
    {
        self.repository.find_by_id(id)
    }
}

/// Pure construction of a new, not yet persisted record: the id defaults to
/// 0 ("unassigned") and the given name and email are taken unchanged, with
/// no trimming or normalization. Cannot fail.
pub fn create_user(name: String, email: String) -> (u: User)
    ensures
        u.id == 0,
        u.name@ == name@,
        u.email@ == email@,
{
    User { id: 0, name, email }
}

/// The text carried by the unimplemented-operation failure of `fetch_user`.
pub open spec fn unimplemented_message() -> Seq<char> {
    "fetch_user is not implemented"@
}

/// Remote retrieval of a user record. The operation has no working
/// implementation: every call fails fast with the unimplemented-operation
/// signal and never yields a record.
pub fn fetch_user(id: i64) -> (r: Result<User, String>)
    ensures
        r matches Err(m) && m@ == unimplemented_message(),
{
    Err("fetch_user is not implemented".to_owned())
}

/// A closed set of roles with no associated data and no transition rules.
#[derive(Debug, Clone, Copy, PartialEq, Eq)]
pub enum UserRole {
    Admin,
    Member,
    Guest,
}

/// Law: the three roles are mutually exclusive and exhaustive. Every value
/// is exactly one of `Admin`, `Member` and `Guest`; no fourth state is
/// reachable.
pub proof fn lemma_user_role_exclusive_exhaustive(role: UserRole)
    ensures
        role is Admin || role is Member || role is Guest,
        !(role is Admin && role is Member),
        !(role is Admin && role is Guest),
        !(role is Member && role is Guest),
{
}

/// A repository stub that holds no records: every lookup is empty and every
/// create is accepted.
pub struct EmptyRepository;

impl UserRepository for EmptyRepository {
    open spec fn spec_find(&self, id: i64) -> Option<UserView> {
        None
    }

    fn find_by_id(&self, id: i64) -> (r: Option<User>) {
        None
    }

    fn create(&self, _user: &User) -> Result<(), String> {
        Ok(())
    }
}

/// A repository stub that holds exactly one record, stored under one
/// identifier; every create is accepted.
pub struct SingleUserRepository {
    pub user_id: i64,
    pub user: User,
}

impl UserRepository for SingleUserRepository {
    open spec fn spec_find(&self, id: i64) -> Option<UserView> {
        if id == self.user_id {
            Some(self.user@)
        } else {
            None
        }
    }

    fn find_by_id(&self, id: i64) -> (r: Option<User>) {
        if id == self.user_id {
            Some(
                User {
                    id: self.user.id,
                    name: self.user.name.clone(),
                    email: self.user.email.clone(),
                },
            )
        } else {
            None
        }
    }

    fn create(&self, _user: &User) -> Result<(), String> {
        Ok(())
    }
}

/// Law: against a repository that finds nothing, the service's lookup is
/// empty for every id. The hypothesis is exactly what `get_user` ensures of
/// its result.
pub proof fn lemma_get_user_on_empty_repository(
    service: UserService<EmptyRepository>,
    id: i64,
    r: Option<User>,
)
    requires
        found_view(r) == service.spec_repository().spec_find(id),
    ensures
        r is None,
{
}

/// Law: against a repository that holds exactly one record, the service's
/// lookup returns that record, with the same field values, for the stored
/// identifier, and is empty for every other identifier. The hypothesis is
/// exactly what `get_user` ensures of its result.
pub proof fn lemma_get_user_on_single_repository(
    service: UserService<SingleUserRepository>,
    id: i64,
    r: Option<User>,
)
    requires
        found_view(r) == service.spec_repository().spec_find(id),
    ensures
        id == service.spec_repository().user_id ==> (r matches Some(u)
            && u@ == service.spec_repository().user@),
        id != service.spec_repository().user_id ==> r is None,
{
}

} // verus!
