//! The user aggregate: roles, stored users, and the request and response
//! shapes of registration and login.

use vstd::prelude::*;

verus! {

#[derive(Debug, Clone, Copy, PartialEq, Eq, Structural)]
pub enum Role {
    User,
    Admin,
}

impl Role {
    /// The role's name as it is carried inside a session token payload.
    pub open spec fn spec_name(self) -> Seq<char> {
        match self {
            Role::Admin => "Admin"@,
            Role::User => "User"@,
        }
    }

    /// The role's code as the user store persists it.
    pub open spec fn spec_code(self) -> Seq<char> {
        match self {
            Role::Admin => "ADMIN"@,
            Role::User => "USER"@,
        }
    }

    pub fn name(&self) -> (r: String)
        ensures
            r@ == self.spec_name(),
    {
        match self {
            Role::Admin => "Admin".to_owned(),
            Role::User => "User".to_owned(),
        }
    }

    pub fn code(&self) -> (r: String)
        ensures
            r@ == self.spec_code(),
    {
        match self {
            Role::Admin => "ADMIN".to_owned(),
            Role::User => "USER".to_owned(),
        }
    }

    /// The inverse of `code`: the stored code "ADMIN" names the admin role
    /// and anything else falls back to the ordinary user role.
    pub fn from_code(code: &str) -> (r: Role)
        ensures
            r == (if code@ == "ADMIN"@ {
                Role::Admin
            } else {
                Role::User
            }),
    {
        if crate::strings::str_eq(code, "ADMIN") {
            Role::Admin
        } else {
            Role::User
        }
    }
}

/// A stored user row; `created_at` is a Unix timestamp in seconds.
#[derive(Debug)]
pub struct User {
    pub id: i64,
    pub full_name: String,
    pub email: String,
    pub password_hash: String,
    pub phone: Option<String>,
    pub role: Role,
    pub created_at: i64,
}

/// The mathematical value of a stored user.
pub ghost struct UserM {
    pub id: int,
    pub full_name: Seq<char>,
    pub email: Seq<char>,
    pub password_hash: Seq<char>,
    pub phone: Option<Seq<char>>,
    pub role: Role,
    pub created_at: int,
}

impl DeepView for User {
    type V = UserM;

    open spec fn deep_view(&self) -> UserM {
        UserM {
            id: self.id as int,
            full_name: self.full_name@,
            email: self.email@,
            password_hash: self.password_hash@,
            phone: self.phone.deep_view(),
            role: self.role,
            created_at: self.created_at as int,
        }
    }
}

/// A user as handed to the store for creation; the store assigns the id and
/// the creation time.
#[derive(Debug)]
pub struct NewUser {
    pub full_name: String,
    pub email: String,
    pub password_hash: String,
    pub phone: Option<String>,
    pub role: Role,
}

/// The mathematical value of a user to be created.
pub ghost struct NewUserM {
    pub full_name: Seq<char>,
    pub email: Seq<char>,
    pub password_hash: Seq<char>,
    pub phone: Option<Seq<char>>,
    pub role: Role,
}

impl DeepView for NewUser {
    type V = NewUserM;

    open spec fn deep_view(&self) -> NewUserM {
        NewUserM {
            full_name: self.full_name@,
            email: self.email@,
            password_hash: self.password_hash@,
            phone: self.phone.deep_view(),
            role: self.role,
        }
    }
}

/// The stored user fields that may leave the system: everything except the
/// password hash, the phone and the creation time.
#[derive(Debug)]
pub struct AbstractUser {
    pub id: i64,
    pub full_name: String,
    pub email: String,
    pub role: Role,
}

impl AbstractUser {
    /// Whether this value is the public projection of the stored user `u`.
    pub open spec fn is_abstract_of(&self, u: UserM) -> bool {
        &&& self.id as int == u.id
        &&& self.full_name@ == u.full_name
        &&& self.email@ == u.email
        &&& self.role == u.role
    }

    pub fn of_user(u: &User) -> (r: AbstractUser)
        ensures
            r.is_abstract_of(u.deep_view()),
    {
        AbstractUser {
            id: u.id,
            full_name: crate::strings::clone_string(&u.full_name),
            email: crate::strings::clone_string(&u.email),
            role: u.role,
        }
    }
}

impl User {
    /// A copy that keeps the mathematical value.
    pub fn duplicate(&self) -> (r: User)
        ensures
            r.deep_view() == self.deep_view(),
    {
        User {
            id: self.id,
            full_name: crate::strings::clone_string(&self.full_name),
            email: crate::strings::clone_string(&self.email),
            password_hash: crate::strings::clone_string(&self.password_hash),
            phone: crate::strings::clone_opt_string(&self.phone),
            role: self.role,
            created_at: self.created_at,
        }
    }
}

/// What a caller submits to register an account.
#[derive(Debug)]
pub struct UserRegistration {
    pub full_name: String,
    pub email: String,
    pub password: String,
    pub confirm_password: String,
    pub phone: Option<String>,
}

/// What a caller submits to log in.
#[derive(Debug)]
pub struct LoginRequest {
    pub email: String,
    pub password: String,
}

pub struct RegistrationResponse {
    pub user: AbstractUser,
    pub message: String,
}

pub struct LoginResponse {
    pub user: AbstractUser,
    pub token: String,
    pub message: String,
}

} // verus!
