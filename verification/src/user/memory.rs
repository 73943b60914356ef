//! A verified in-memory implementation of the user store.

use vstd::prelude::*;

use super::entity::{NewUser, User};
use super::repository::{
    emails_unique, lemma_user_for_email_first, lemma_user_for_email_none, Repository,
};
use crate::errors::{Error, ErrorCode};
use crate::strings::str_eq;

verus! {

pub struct MemoryUserRepository {
    users: Vec<User>,
    next_id: i64,
}

impl MemoryUserRepository {
    pub fn new() -> (r: MemoryUserRepository)
        ensures
            r.wf(),
            r.users().len() == 0,
    {
        MemoryUserRepository { users: Vec::new(), next_id: 1 }
    }

    /// The stored users, for inspection from outside.
    pub fn users_vec(&self) -> (r: &Vec<User>)
        ensures
            r.deep_view() == self.users(),
    {
        &self.users
    }
}

impl Repository for MemoryUserRepository {
    closed spec fn users(&self) -> Seq<super::entity::UserM> {
        self.users.deep_view()
    }

    closed spec fn wf(&self) -> bool {
        &&& emails_unique(self.users.deep_view())
        &&& 1 <= self.next_id
    }

    proof fn wf_facts(&self) {
    }

    #[verifier::loop_isolation(false)]
    fn create(&mut self, new_user: NewUser) -> (r: Result<User, Error>) {
        // The email column is unique, so a duplicate insert must fail.
        let n = self.users.len();
        let mut i: usize = 0;
        while i < n
            invariant
                0 <= i <= n,
                n == self.users@.len(),
                forall|j: int| 0 <= j < i ==> self.users.deep_view()[j].email != new_user.email@,
            decreases n - i,
        {
            if str_eq(self.users[i].email.as_str(), new_user.email.as_str()) {
                proof {
                    lemma_user_for_email_first(self.users.deep_view(), new_user.email@, i as int);
                }
                return Err(Error::with_message(
                    ErrorCode::DatabaseError,
                    "Failed to create user: email already stored".to_owned(),
                ));
            }
            i += 1;
        }
        proof {
            lemma_user_for_email_none(self.users.deep_view(), new_user.email@);
        }
        if self.next_id == i64::MAX {
            return Err(Error::with_message(
                ErrorCode::DatabaseError,
                "Failed to create user".to_owned(),
            ));
        }
        let id = self.next_id;
        self.next_id = id + 1;
        let created_at = crate::auth::current_timestamp();
        let user = User {
            id,
            full_name: new_user.full_name,
            email: new_user.email,
            password_hash: new_user.password_hash,
            phone: new_user.phone,
            role: new_user.role,
            created_at,
        };
        let ret = user.duplicate();
        self.users.push(user);
        proof {
            let s0 = old(self).users.deep_view();
            let s1 = self.users.deep_view();
            assert(s1 =~= s0.push(ret.deep_view()));
            assert forall|a: int, b: int|
                0 <= a < b < s1.len() implies s1[a].email != s1[b].email by {
                if b == s0.len() {
                    assert(s0[a].email != ret.deep_view().email);
                }
            }
        }
        Ok(ret)
    }

    #[verifier::loop_isolation(false)]
    fn find_by_email(&self, email: &String) -> (r: Result<Option<User>, Error>) {
        let n = self.users.len();
        let mut i: usize = 0;
        while i < n
            invariant
                0 <= i <= n,
                n == self.users@.len(),
                forall|j: int| 0 <= j < i ==> self.users.deep_view()[j].email != email@,
            decreases n - i,
        {
            if str_eq(self.users[i].email.as_str(), email.as_str()) {
                proof {
                    lemma_user_for_email_first(self.users.deep_view(), email@, i as int);
                }
                return Ok(Some(self.users[i].duplicate()));
            }
            i += 1;
        }
        proof {
            lemma_user_for_email_none(self.users.deep_view(), email@);
        }
        Ok(None)
    }
}

} // verus!
