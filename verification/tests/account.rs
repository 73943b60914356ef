use storefront::auth::{Claims, TokenKeys};
use storefront::user::entity::{LoginRequest, Role, UserRegistration};
use storefront::user::memory::MemoryUserRepository;
use storefront::user::service::Service;
use storefront::ErrorCode;

fn keys() -> TokenKeys {
    TokenKeys { secret: "account-test-secret".to_string(), kid: "key-7".to_string() }
}

fn service() -> Service<MemoryUserRepository> {
    Service::new(MemoryUserRepository::new(), keys())
}

fn registration(email: &str) -> UserRegistration {
    UserRegistration {
        full_name: "Ada Lovelace".to_string(),
        email: email.to_string(),
        password: "s3cret-pw".to_string(),
        confirm_password: "s3cret-pw".to_string(),
        phone: None,
    }
}

#[test]
fn register_then_login_issues_a_valid_token() {
    let mut s = service();
    let reg = s.register(registration("ada@example.com")).unwrap();
    assert_eq!(reg.message, "User registered successfully");
    assert_eq!(reg.user.full_name, "Ada Lovelace");
    assert_eq!(reg.user.email, "ada@example.com");
    assert_eq!(reg.user.role, Role::User);

    let login = s
        .login(LoginRequest {
            email: "ada@example.com".to_string(),
            password: "s3cret-pw".to_string(),
        })
        .unwrap();
    assert_eq!(login.message, "Login successful");
    assert_eq!(login.user.email, "ada@example.com");

    // The issued token carries the email as its subject; its expiry lies in
    // the future, so validating against time zero accepts it.
    let k = keys();
    let validated = Claims::validate(&k, login.token.as_str(), 0).unwrap();
    assert_eq!(validated.id, "ada@example.com");
    assert_eq!(validated.role, Role::User);
}

#[test]
fn registration_validation_rejects_bad_input() {
    let mut s = service();
    let mut r = registration("a@b.c");
    r.full_name = "   ".to_string();
    assert_eq!(s.register(r).err().unwrap().code, ErrorCode::ValidationError);

    let mut r = registration("a@b.c");
    r.email = "".to_string();
    assert_eq!(s.register(r).err().unwrap().code, ErrorCode::ValidationError);

    let mut r = registration("a@b.c");
    r.password = "short".to_string();
    r.confirm_password = "short".to_string();
    assert_eq!(s.register(r).err().unwrap().code, ErrorCode::ValidationError);

    let mut r = registration("a@b.c");
    r.confirm_password = "different-pw".to_string();
    assert_eq!(s.register(r).err().unwrap().code, ErrorCode::ValidationError);
}

#[test]
fn duplicate_email_is_rejected() {
    let mut s = service();
    s.register(registration("ada@example.com")).unwrap();
    let e = s.register(registration("ada@example.com")).err().unwrap();
    assert_eq!(e.code, ErrorCode::ResourceAlreadyExists);
    assert_eq!(e.message, "User with this email already exists");
}

#[test]
fn login_with_wrong_password_or_unknown_email_is_invalid_credentials() {
    let mut s = service();
    s.register(registration("ada@example.com")).unwrap();
    let e = s
        .login(LoginRequest {
            email: "ada@example.com".to_string(),
            password: "wrong-pw".to_string(),
        })
        .err()
        .unwrap();
    assert_eq!(e.code, ErrorCode::InvalidCredentials);
    assert_eq!(e.message, "Invalid email or password");

    let e = s
        .login(LoginRequest {
            email: "nobody@example.com".to_string(),
            password: "s3cret-pw".to_string(),
        })
        .err()
        .unwrap();
    assert_eq!(e.code, ErrorCode::InvalidCredentials);
}

#[test]
fn login_validation_rejects_blank_fields() {
    let s = service();
    let e = s
        .login(LoginRequest { email: " ".to_string(), password: "pw".to_string() })
        .err()
        .unwrap();
    assert_eq!(e.code, ErrorCode::ValidationError);
    let e = s
        .login(LoginRequest { email: "a@b.c".to_string(), password: "".to_string() })
        .err()
        .unwrap();
    assert_eq!(e.code, ErrorCode::ValidationError);
}

#[test]
fn stored_password_is_hashed_not_plain() {
    let mut s = service();
    s.register(registration("ada@example.com")).unwrap();
    let users = s.repo.users_vec();
    assert_eq!(users.len(), 1);
    assert_ne!(users[0].password_hash, "s3cret-pw");
    assert!(users[0].password_hash.starts_with("$2"));
}
