//! The store interface the user service depends on: creation with a unique
//! email, and lookup by email.

use vstd::prelude::*;

use super::entity::{NewUser, NewUserM, User, UserM};
use crate::errors::{Error, ErrorCode};

verus! {

/// The first user with `email`, if any; under `emails_unique` there is at
/// most one.
pub open spec fn user_for_email(users: Seq<UserM>, email: Seq<char>) -> Option<UserM>
    decreases users.len(),
{
    if users.len() == 0 {
        None
    } else if users[0].email == email {
        Some(users[0])
    } else {
        user_for_email(users.drop_first(), email)
    }
}

/// No two users share an email.
pub open spec fn emails_unique(users: Seq<UserM>) -> bool {
    forall|i: int, j: int| 0 <= i < j < users.len() ==> users[i].email != users[j].email
}

/// The stored row that creating `n` yields, under the id and creation time
/// the store assigns.
pub open spec fn user_of_new(n: NewUserM, id: int, created_at: int) -> UserM {
    UserM {
        id,
        full_name: n.full_name,
        email: n.email,
        password_hash: n.password_hash,
        phone: n.phone,
        role: n.role,
        created_at,
    }
}

/// `user_for_email` finds nothing exactly when no row matches.
pub proof fn lemma_user_for_email_none(users: Seq<UserM>, email: Seq<char>)
    ensures
        user_for_email(users, email) is None <==> (forall|i: int|
            0 <= i < users.len() ==> users[i].email != email),
    decreases users.len(),
{
    if users.len() > 0 {
        lemma_user_for_email_none(users.drop_first(), email);
        if user_for_email(users, email) is None {
            assert forall|i: int| 0 <= i < users.len() implies users[i].email != email by {
                if i > 0 {
                    assert(users.drop_first()[i - 1] == users[i]);
                }
            }
        }
    }
}

/// `user_for_email` finds the first matching position.
pub proof fn lemma_user_for_email_first(users: Seq<UserM>, email: Seq<char>, i: int)
    requires
        0 <= i < users.len(),
        users[i].email == email,
        forall|j: int| 0 <= j < i ==> users[j].email != email,
    ensures
        user_for_email(users, email) == Some(users[i]),
    decreases users.len(),
{
    if i > 0 {
        lemma_user_for_email_first(users.drop_first(), email, i - 1);
    }
}

/// The store interface of the user aggregate.
pub trait Repository: Sized {
    /// The stored users, in insertion order.
    spec fn users(&self) -> Seq<UserM>;

    /// The store's internal invariant.
    spec fn wf(&self) -> bool;

    /// A well-formed store holds at most one row per email.
    proof fn wf_facts(&self)
        requires
            self.wf(),
        ensures
            emails_unique(self.users()),
    ;

    /// Insert a user row; the email column is unique, so a duplicate email
    /// makes the insert fail.
    fn create(&mut self, new_user: NewUser) -> (r: Result<User, Error>)
        requires
            old(self).wf(),
        ensures
            final(self).wf(),
            r matches Err(e) ==> final(self).users() == old(self).users() && e.code
                == ErrorCode::DatabaseError,
            user_for_email(old(self).users(), new_user.email@) is Some ==> r is Err,
            r matches Ok(u) ==> user_for_email(old(self).users(), new_user.email@) is None
                && u.id > 0 && u.deep_view() == user_of_new(
                new_user.deep_view(),
                u.id as int,
                u.created_at as int,
            ) && final(self).users() == old(self).users().push(u.deep_view()),
    ;

    /// Look a user up by exact email.
    fn find_by_email(&self, email: &String) -> (r: Result<Option<User>, Error>)
        requires
            self.wf(),
        ensures
            r matches Ok(opt) ==> match user_for_email(self.users(), email@) {
                Some(m) => opt matches Some(u) && u.deep_view() == m,
                None => opt is None,
            },
            r matches Err(e) ==> e.code == ErrorCode::DatabaseError,
    ;
}

} // verus!
