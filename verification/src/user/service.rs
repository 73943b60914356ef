//! The user service: registration with validation, uniqueness check and
//! password hashing, and login with password verification and token
//! issuance.

use vstd::prelude::*;
use vstd::string::StringSliceAdditionalSpecFns;
use vstd::utf8::encode_utf8;

use super::entity::{
    AbstractUser, LoginRequest, LoginResponse, NewUser, RegistrationResponse, Role,
    UserRegistration,
};
use super::repository::{user_for_email, Repository};
use crate::auth::{token_of, ttl_of, Claims, TokenKeys};
use crate::errors::{Error, ErrorCode};
use crate::strings::{clone_string, is_blank, str_eq, str_is_blank};

verus! {

/// Whether a bcrypt verification of `password` against `hash` succeeds. The
/// hash embeds its salt and cost, so this is a function of the two texts.
pub uninterp spec fn bcrypt_matches(password: Seq<char>, hash: Seq<char>) -> bool;

/// Relies on bcrypt::hash with the default cost: the salt is drawn fresh on
/// every call, so nothing ties two calls together, but bcrypt::verify
/// recomputes the hash from the embedded salt and accepts the password the
/// hash was made from.
#[verifier::external_body]
fn bcrypt_hash(password: &str) -> (r: Option<String>)
    ensures
        r matches Some(h) ==> bcrypt_matches(password@, h@),
{
    bcrypt::hash(password, bcrypt::DEFAULT_COST).ok()
}

/// Relies on bcrypt::verify: a deterministic function of password and hash,
/// failing only on a malformed hash.
#[verifier::external_body]
fn bcrypt_verify(password: &str, hash: &str) -> (r: Option<bool>)
    ensures
        r matches Some(b) ==> b == bcrypt_matches(password@, hash@),
{
    bcrypt::verify(password, hash).ok()
}

/// Acceptable registration input: a non-blank name and email, a password of
/// at least six bytes, and a matching confirmation.
pub open spec fn valid_registration(
    full_name: Seq<char>,
    email: Seq<char>,
    password: Seq<char>,
    confirm_password: Seq<char>,
) -> bool {
    &&& !is_blank(encode_utf8(full_name))
    &&& !is_blank(encode_utf8(email))
    &&& encode_utf8(password).len() >= 6
    &&& password == confirm_password
}

pub struct Service<R: Repository> {
    pub repo: R,
    pub keys: TokenKeys,
}

impl<R: Repository> Service<R> {
    pub fn new(repo: R, keys: TokenKeys) -> (r: Service<R>)
        ensures
            r.repo == repo,
            r.keys == keys,
    {
        Service { repo, keys }
    }

    /// Register an account: validate the input, refuse an email that is
    /// already taken, hash the password, and store the user with the
    /// ordinary role.
    pub fn register(&mut self, registration: UserRegistration) -> (r: Result<
        RegistrationResponse,
        Error,
    >)
        requires
            old(self).repo.wf(),
        ensures
            final(self).repo.wf(),
            final(self).keys == old(self).keys,
            r matches Err(_) ==> final(self).repo.users() == old(self).repo.users(),
            !valid_registration(
                registration.full_name@,
                registration.email@,
                registration.password@,
                registration.confirm_password@,
            ) <==> (r matches Err(e) && e.code == ErrorCode::ValidationError),
            r matches Err(e) && e.code == ErrorCode::ResourceAlreadyExists ==> user_for_email(
                old(self).repo.users(),
                registration.email@,
            ) is Some,
            r matches Err(e) ==> (e.code == ErrorCode::ValidationError || e.code
                == ErrorCode::ResourceAlreadyExists || e.code == ErrorCode::DatabaseError || e.code
                == ErrorCode::InternalError),
            r matches Ok(resp) ==> valid_registration(
                registration.full_name@,
                registration.email@,
                registration.password@,
                registration.confirm_password@,
            ) && user_for_email(old(self).repo.users(), registration.email@) is None
                && resp.message@ == "User registered successfully"@ && (exists|u: crate::user::entity::UserM|
                final(self).repo.users() == old(self).repo.users().push(u) && u.full_name
                    == registration.full_name@ && u.email == registration.email@ && u.role
                    == Role::User && u.phone == registration.phone.deep_view() && bcrypt_matches(
                    registration.password@,
                    u.password_hash,
                ) && resp.user.is_abstract_of(u)),
    {
        if str_is_blank(registration.full_name.as_str()) {
            return Err(Error::with_message(
                ErrorCode::ValidationError,
                "Full name is required".to_owned(),
            ));
        }
        if str_is_blank(registration.email.as_str()) {
            return Err(Error::with_message(
                ErrorCode::ValidationError,
                "Email is required".to_owned(),
            ));
        }
        if registration.password.as_str().as_bytes().len() < 6 {
            return Err(Error::with_message(
                ErrorCode::ValidationError,
                "Password must be at least 6 characters".to_owned(),
            ));
        }
        if !str_eq(registration.password.as_str(), registration.confirm_password.as_str()) {
            return Err(Error::with_message(
                ErrorCode::ValidationError,
                "Passwords do not match".to_owned(),
            ));
        }
        match self.repo.find_by_email(&registration.email) {
            Ok(Some(_)) => {
                return Err(Error::with_message(
                    ErrorCode::ResourceAlreadyExists,
                    "User with this email already exists".to_owned(),
                ));
            },
            _ => (),
        }
        let password_hash = match bcrypt_hash(registration.password.as_str()) {
            Some(h) => h,
            None => {
                return Err(Error::with_message(
                    ErrorCode::InternalError,
                    "Failed to hash password".to_owned(),
                ));
            },
        };
        let new_user = NewUser {
            full_name: registration.full_name,
            email: registration.email,
            password_hash,
            phone: registration.phone,
            role: Role::User,
        };
        let user = match self.repo.create(new_user) {
            Ok(u) => u,
            Err(e) => {
                return Err(e);
            },
        };
        Ok(
            RegistrationResponse {
                user: AbstractUser::of_user(&user),
                message: "User registered successfully".to_owned(),
            },
        )
    }

    /// Log in: validate the input, look the user up by email, verify the
    /// password against the stored hash, and issue a signed session token
    /// whose lifetime depends on the user's role. A wrong email and a wrong
    /// password are indistinguishable to the caller.
    pub fn login(&self, login_request: LoginRequest) -> (r: Result<LoginResponse, Error>)
        requires
            self.repo.wf(),
        ensures
            (is_blank(encode_utf8(login_request.email@)) || is_blank(
                encode_utf8(login_request.password@),
            )) <==> (r matches Err(e) && e.code == ErrorCode::ValidationError),
            r matches Err(e) ==> (e.code == ErrorCode::ValidationError || e.code
                == ErrorCode::InvalidCredentials || e.code == ErrorCode::DatabaseError || e.code
                == ErrorCode::InternalError),
            r matches Err(e) && e.code == ErrorCode::InvalidCredentials ==> (match user_for_email(
                self.repo.users(),
                login_request.email@,
            ) {
                Some(u) => !bcrypt_matches(login_request.password@, u.password_hash),
                None => true,
            }),
            r matches Ok(resp) ==> (match user_for_email(self.repo.users(), login_request.email@) {
                Some(u) => resp.user.is_abstract_of(u) && bcrypt_matches(
                    login_request.password@,
                    u.password_hash,
                ) && resp.message@ == "Login successful"@ && (exists|iat: int, exp: int|
                    resp.token@ == token_of(
                        self.keys.secret@,
                        self.keys.kid@,
                        u.email,
                        u.role.spec_name(),
                        iat,
                        exp,
                    ) && exp == iat + ttl_of(u.role)),
                None => false,
            }),
    {
        if str_is_blank(login_request.email.as_str()) {
            return Err(Error::with_message(
                ErrorCode::ValidationError,
                "Email is required".to_owned(),
            ));
        }
        if str_is_blank(login_request.password.as_str()) {
            return Err(Error::with_message(
                ErrorCode::ValidationError,
                "Password is required".to_owned(),
            ));
        }
        let user = match self.repo.find_by_email(&login_request.email) {
            Ok(Some(u)) => u,
            Ok(None) => {
                return Err(Error::with_message(
                    ErrorCode::InvalidCredentials,
                    "Invalid email or password".to_owned(),
                ));
            },
            Err(e) => {
                return Err(e);
            },
        };
        let verified = match bcrypt_verify(
            login_request.password.as_str(),
            user.password_hash.as_str(),
        ) {
            Some(b) => b,
            None => {
                return Err(Error::with_message(
                    ErrorCode::InternalError,
                    "Failed to verify password".to_owned(),
                ));
            },
        };
        if !verified {
            return Err(Error::with_message(
                ErrorCode::InvalidCredentials,
                "Invalid email or password".to_owned(),
            ));
        }
        let claims = Claims::new(clone_string(&user.email), user.role);
        let token = match claims.jwt(&self.keys) {
            Ok(t) => t,
            Err(_) => {
                return Err(Error::with_message(
                    ErrorCode::InternalError,
                    "Failed to generate JWT token".to_owned(),
                ));
            },
        };
        Ok(
            LoginResponse {
                user: AbstractUser::of_user(&user),
                token,
                message: "Login successful".to_owned(),
            },
        )
    }
}

} // verus!
