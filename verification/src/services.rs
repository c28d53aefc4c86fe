//! The decisions of the account, user, credential and authentication
//! services. Each service looks records up in storage, in the order shown
//! here; what those lookups found is handed to these functions, which say
//! whether the operation may go on or with which error it stops.

use vstd::prelude::*;
use vstd::utf8::is_ascii_chars;

use crate::common::{joined_entries, report_entries, report_message, validation_summary};
use crate::errors::ServiceError;
use crate::models::{
    create_account_report, create_credential_report, create_new_user_report, starts_without_letter,
    first_char_not_letter, CreateAccount, CreateCredential, CreateNewUser,
};
use crate::text::{
    chars_of, concat2, contains_text, has_infix, has_prefix, owned, starts_with, str_eq,
    string_of_chars,
};
use crate::validation::{report_view, ValidationErrors};

verus! {

/// The outcome of `bcrypt::verify` for a password and a stored hash: the
/// match, or the text of the error.
pub uninterp spec fn bcrypt_verify_outcome(password: Seq<char>, hash: Seq<char>) -> Result<bool, Seq<char>>;

/// Whether `bcrypt::verify` accepts `password` against `hash`.
pub open spec fn bcrypt_verifies(password: Seq<char>, hash: Seq<char>) -> bool {
    bcrypt_verify_outcome(password, hash) == Ok::<bool, Seq<char>>(true)
}

/// `bcrypt::hash` with the default cost (12). Claims: a hash it gives is
/// 60 ASCII characters long, written in the "$2b$12$" format (version 2b,
/// cost 12), and verifies the password it was made from (`verify`
/// recomputes the hash with the salt and cost it reads from the hash, and
/// truncates the password as `hash` does). The salt is random, so nothing
/// more is claimed of the text. With the default cost it fails only where
/// the operating system's random source fails, which no argument controls,
/// so no case of success is promised.
#[verifier::external_body]
fn bcrypt_hash(password: &str) -> (r: Result<String, String>)
    ensures
        r matches Ok(h) ==> h@.len() == 60,
        r matches Ok(h) ==> is_ascii_chars(h@),
        r matches Ok(h) ==> h@.subrange(0, 7) == "$2b$12$"@,
        r matches Ok(h) ==> bcrypt_verifies(password@, h@),
{
    bcrypt::hash(password, bcrypt::DEFAULT_COST).map_err(|e| e.to_string())
}

/// `bcrypt::verify`. Claims: the named outcome.
#[verifier::external_body]
fn bcrypt_verify(password: &str, hash: &str) -> (r: Result<bool, String>)
    ensures
        match bcrypt_verify_outcome(password@, hash@) {
            Ok(b) => r == Ok::<bool, String>(b),
            Err(m) => r matches Err(e) && e@ == m,
        },
{
    bcrypt::verify(password, hash).map_err(|e| e.to_string())
}

/// Whether `e` is a validation error with message `m`.
pub open spec fn is_validation(e: ServiceError, m: Seq<char>) -> bool {
    e matches ServiceError::Validation { message } && message@ == m
}

/// Whether `e` says that `entity` `id` does not exist.
pub open spec fn is_not_found(e: ServiceError, entity: Seq<char>, id: Seq<char>) -> bool {
    e matches ServiceError::NotFound { entity: en, identifier: i } && en@ == entity && i@ == id
}

/// Whether `e` says that `entity` `id` already exists.
pub open spec fn is_already_exists(e: ServiceError, entity: Seq<char>, id: Seq<char>) -> bool {
    e matches ServiceError::AlreadyExists { entity: en, identifier: i } && en@ == entity && i@ == id
}

/// Hashes a password for storage: a 60-character bcrypt hash in the
/// "$2b$12$" format that verifies the password, so it differs from any
/// password not of that form. A failure is a validation error that tells
/// why.
pub fn hash_password(password: &str) -> (r: Result<String, ServiceError>)
    ensures
        r matches Ok(h) ==> h@.len() == 60 && bcrypt_verifies(password@, h@),
        r matches Ok(h) ==> is_ascii_chars(h@) && has_prefix(h@, "$2b$12$"@),
        r matches Ok(h) ==> (!has_prefix(password@, "$2b$12$"@) || password@.len() != 60 ==> h@
            != password@),
        r matches Err(e) ==> e matches ServiceError::Validation { message } && has_prefix(
            message@,
            "Password hashing failed: "@,
        ),
{
    match bcrypt_hash(password) {
        Ok(h) => Ok(h),
        Err(m) => {
            let message = concat2("Password hashing failed: ", m.as_str());
            proof {
                assert(message@.subrange(0, "Password hashing failed: "@.len() as int)
                    =~= "Password hashing failed: "@);
            }
            Err(ServiceError::Validation { message })
        },
    }
}

/// Checks a password against a stored hash; a failure to check is a
/// validation error that tells why.
pub fn verify_password(password: &str, hash: &str) -> (r: Result<bool, ServiceError>)
    ensures
        match bcrypt_verify_outcome(password@, hash@) {
            Ok(b) => r == Ok::<bool, ServiceError>(b),
            Err(m) => r matches Err(e) && is_validation(e, "Password verification failed: "@ + m),
        },
{
    match bcrypt_verify(password, hash) {
        Ok(b) => Ok(b),
        Err(m) => Err(ServiceError::validation(concat2("Password verification failed: ", m.as_str()).as_str())),
    }
}

/// A validation error that lists the failed fields of a report.
pub fn validation_failure(errors: &ValidationErrors) -> (r: ServiceError)
    ensures
        is_validation(r, joined_entries(report_entries(errors.fields@))),
        is_validation(r, report_message(report_view(*errors))),
{
    let summary = validation_summary(errors);
    ServiceError::Validation { message: summary }
}

/// The rule that an account name starts with a letter.
pub fn account_name_rule(name: &str) -> (r: Result<(), ServiceError>)
    ensures
        !starts_without_letter(name@) ==> r is Ok,
        starts_without_letter(name@) ==> (r matches Err(e) && is_validation(
            e,
            "Account name must start with a letter"@,
        )),
{
    if first_char_not_letter(name) {
        return Err(ServiceError::validation("Account name must start with a letter"));
    }
    Ok(())
}

/// The rule that a user name starts with a letter.
pub fn user_name_rule(name: &str) -> (r: Result<(), ServiceError>)
    ensures
        !starts_without_letter(name@) ==> r is Ok,
        starts_without_letter(name@) ==> (r matches Err(e) && is_validation(
            e,
            "User name must start with a letter"@,
        )),
{
    if first_char_not_letter(name) {
        return Err(ServiceError::validation("User name must start with a letter"));
    }
    Ok(())
}

/// Whether creating an account may go on, given whether its name is
/// taken and whether the administrator role exists. The checks come in
/// order: the fields, the name's uniqueness, the name's first letter, the
/// role.
pub fn account_creation_check(
    request: &CreateAccount,
    name_taken: bool,
    admin_role_exists: bool,
) -> (r: Result<(), ServiceError>)
    ensures
        create_account_report(*request).len() > 0 ==> (r matches Err(e) && is_validation(
            e,
            report_message(create_account_report(*request)),
        )),
        create_account_report(*request).len() == 0 && name_taken ==> (r matches Err(e)
            && is_already_exists(e, "Account"@, request.name@)),
        create_account_report(*request).len() == 0 && !name_taken && starts_without_letter(
            request.name@,
        ) ==> (r matches Err(e) && is_validation(e, "Account name must start with a letter"@)),
        create_account_report(*request).len() == 0 && !name_taken && !starts_without_letter(
            request.name@,
        ) && !admin_role_exists ==> (r matches Err(e) && is_not_found(e, "Role"@, "Admin"@)),
        r is Ok <==> (create_account_report(*request).len() == 0 && !name_taken
            && !starts_without_letter(request.name@) && admin_role_exists),
{
    match request.validate() {
        Ok(()) => {},
        Err(errors) => return Err(validation_failure(&errors)),
    }
    if name_taken {
        return Err(ServiceError::already_exists("Account", request.name.as_str()));
    }
    match account_name_rule(request.name.as_str()) {
        Ok(()) => {},
        Err(e) => return Err(e),
    }
    if !admin_role_exists {
        return Err(ServiceError::not_found("Role", "Admin"));
    }
    Ok(())
}

/// The first problem that stops creating a user, given what the lookups
/// found: whether the username and email are taken, whether the account
/// exists, the name of the role (if it exists) and whether the account
/// already has an administrator.
pub open spec fn user_creation_problem(
    request: CreateNewUser,
    username_taken: bool,
    email_taken: bool,
    account_exists: bool,
    role_name: Option<Seq<char>>,
    admin_exists: bool,
) -> Option<UserCreationProblem> {
    if create_new_user_report(request).len() > 0 {
        Some(UserCreationProblem::Validation)
    } else if username_taken {
        Some(UserCreationProblem::UsernameTaken)
    } else if email_taken {
        Some(UserCreationProblem::EmailTaken)
    } else if !account_exists {
        Some(UserCreationProblem::NoAccount)
    } else if role_name is None {
        Some(UserCreationProblem::NoRole)
    } else if role_name == Some("Admin"@) && admin_exists {
        Some(UserCreationProblem::AdminExists)
    } else if starts_without_letter(request.username@) {
        Some(UserCreationProblem::NameRule)
    } else {
        None
    }
}

/// The problems that can stop creating a user.
pub enum UserCreationProblem {
    Validation,
    UsernameTaken,
    EmailTaken,
    NoAccount,
    NoRole,
    AdminExists,
    NameRule,
}

/// Whether `e` is the error that the problem `k` with `request` gives.
pub open spec fn user_error_of(e: ServiceError, k: UserCreationProblem, request: CreateNewUser) -> bool {
    match k {
        UserCreationProblem::Validation => is_validation(
            e,
            report_message(create_new_user_report(request)),
        ),
        UserCreationProblem::UsernameTaken => is_already_exists(
            e,
            "User with username"@,
            request.username@,
        ),
        UserCreationProblem::EmailTaken => is_already_exists(e, "User with email"@, request.email@),
        UserCreationProblem::NoAccount => is_not_found(e, "Account"@, request.account_id@),
        UserCreationProblem::NoRole => is_not_found(e, "Role"@, request.role_id@),
        UserCreationProblem::AdminExists => is_already_exists(
            e,
            "Admin user for account"@,
            request.account_id@,
        ),
        UserCreationProblem::NameRule => is_validation(e, "User name must start with a letter"@),
    }
}

/// Whether creating a user may go on (see `user_creation_problem`).
pub fn user_creation_check(
    request: &CreateNewUser,
    username_taken: bool,
    email_taken: bool,
    account_exists: bool,
    role_name: Option<&str>,
    admin_exists: bool,
) -> (r: Result<(), ServiceError>)
    ensures
        match user_creation_problem(
            *request,
            username_taken,
            email_taken,
            account_exists,
            match role_name {
                Some(n) => Some(n@),
                None => None,
            },
            admin_exists,
        ) {
            None => r is Ok,
            Some(k) => r matches Err(e) && user_error_of(e, k, *request),
        },
{
    proof {
        reveal_strlit("Admin");
    }
    match request.validate() {
        Ok(()) => {},
        Err(errors) => return Err(validation_failure(&errors)),
    }
    if username_taken {
        return Err(ServiceError::already_exists("User with username", request.username.as_str()));
    }
    if email_taken {
        return Err(ServiceError::already_exists("User with email", request.email.as_str()));
    }
    if !account_exists {
        return Err(ServiceError::not_found("Account", request.account_id.as_str()));
    }
    let name = match role_name {
        Some(n) => n,
        None => return Err(ServiceError::not_found("Role", request.role_id.as_str())),
    };
    if str_eq(name, "Admin") && admin_exists {
        return Err(
            ServiceError::already_exists("Admin user for account", request.account_id.as_str()),
        );
    }
    match user_name_rule(request.username.as_str()) {
        Ok(()) => {},
        Err(e) => return Err(e),
    }
    Ok(())
}

/// What a failure to store a new user means, from the storage layer's
/// description of it: a broken uniqueness rule on the username or the
/// email is reported as that value being taken; anything else is a
/// storage failure.
pub fn user_insert_failure(db_message: &str, username: &str, email: &str) -> (r: ServiceError)
    ensures
        has_infix(db_message@, "UNIQUE constraint failed: users.name"@) ==> is_already_exists(
            r,
            "User with username"@,
            username@,
        ),
        !has_infix(db_message@, "UNIQUE constraint failed: users.name"@) && has_infix(
            db_message@,
            "UNIQUE constraint failed: users.email"@,
        ) ==> is_already_exists(r, "User with email"@, email@),
        !has_infix(db_message@, "UNIQUE constraint failed: users.name"@) && !has_infix(
            db_message@,
            "UNIQUE constraint failed: users.email"@,
        ) ==> (r matches ServiceError::Database { source } && source@ == db_message@),
{
    if contains_text(db_message, "UNIQUE constraint failed: users.name") {
        ServiceError::already_exists("User with username", username)
    } else if contains_text(db_message, "UNIQUE constraint failed: users.email") {
        ServiceError::already_exists("User with email", email)
    } else {
        ServiceError::Database { source: owned(db_message) }
    }
}

/// Whether storing a credential may go on, given whether its account and
/// user exist; the fields are checked first.
pub fn credential_creation_check(
    request: &CreateCredential,
    account_exists: bool,
    user_exists: bool,
) -> (r: Result<(), ServiceError>)
    ensures
        create_credential_report(*request).len() > 0 ==> (r matches Err(e) && is_validation(
            e,
            report_message(create_credential_report(*request)),
        )),
        create_credential_report(*request).len() == 0 && !account_exists ==> (r matches Err(e)
            && is_not_found(e, "Account"@, request.account_id@)),
        create_credential_report(*request).len() == 0 && account_exists && !user_exists ==> (
        r matches Err(e) && is_not_found(e, "User"@, request.user_id@)),
        r is Ok <==> (create_credential_report(*request).len() == 0 && account_exists
            && user_exists),
{
    match request.validate() {
        Ok(()) => {},
        Err(errors) => return Err(validation_failure(&errors)),
    }
    if !account_exists {
        return Err(ServiceError::not_found("Account", request.account_id.as_str()));
    }
    if !user_exists {
        return Err(ServiceError::not_found("User", request.user_id.as_str()));
    }
    Ok(())
}

/// What signing in reads of a stored user.
#[derive(Debug, Clone)]
pub struct UserLogin {
    pub is_active: bool,
    pub password_hash: String,
}

/// Why signing in fails, as a validation message, for the user found
/// under a username (if any) and a password; `None` when it succeeds. An
/// unknown user and a wrong password get the same answer.
pub open spec fn sign_in_problem(user: Option<UserLogin>, password: Seq<char>) -> Option<Seq<char>> {
    match user {
        None => Some("Invalid username or password"@),
        Some(u) => if !u.is_active {
            Some("User account is inactive"@)
        } else {
            match bcrypt_verify_outcome(password, u.password_hash@) {
                Ok(true) => None,
                Ok(false) => Some("Invalid username or password"@),
                Err(m) => Some("Password verification failed: "@ + m),
            }
        },
    }
}

/// Whether the user found under a username (if any) signs in with
/// `password` (see `sign_in_problem`).
pub fn authenticate(user: Option<&UserLogin>, password: &str) -> (r: Result<(), ServiceError>)
    ensures
        match sign_in_problem(
            match user {
                Some(u) => Some(*u),
                None => None,
            },
            password@,
        ) {
            None => r is Ok,
            Some(m) => r matches Err(e) && is_validation(e, m),
        },
{
    let u = match user {
        Some(u) => u,
        None => return Err(ServiceError::validation("Invalid username or password")),
    };
    if !u.is_active {
        return Err(ServiceError::validation("User account is inactive"));
    }
    match verify_password(password, u.password_hash.as_str()) {
        Ok(true) => Ok(()),
        Ok(false) => Err(ServiceError::validation("Invalid username or password")),
        Err(e) => Err(e),
    }
}

/// An active user whose stored hash was made from a password by
/// `hash_password` (which ensures the hash verifies it) signs in with that
/// password.
pub proof fn lemma_sign_in_with_hashed_password(user: UserLogin, password: Seq<char>)
    requires
        user.is_active,
        bcrypt_verifies(password, user.password_hash@),
    ensures
        sign_in_problem(Some(user), password) is None,
{
}

/// Whether signing in may go on once the user's account is looked up: it
/// must exist and be active.
pub fn login_account_check(account_id: &str, account_active: Option<bool>) -> (r: Result<
    (),
    ServiceError,
>)
    ensures
        match account_active {
            None => r matches Err(e) && is_not_found(e, "Account"@, account_id@),
            Some(false) => r matches Err(e) && is_validation(e, "Account is inactive"@),
            Some(true) => r is Ok,
        },
{
    match account_active {
        None => Err(ServiceError::not_found("Account", account_id)),
        Some(false) => Err(ServiceError::validation("Account is inactive")),
        Some(true) => Ok(()),
    }
}

/// Whether refreshing a token may go on: the user must still be active.
pub fn refresh_user_check(is_active: bool) -> (r: Result<(), ServiceError>)
    ensures
        is_active ==> r is Ok,
        !is_active ==> (r matches Err(e) && is_validation(e, "User account is inactive"@)),
{
    if !is_active {
        return Err(ServiceError::validation("User account is inactive"));
    }
    Ok(())
}

/// A record that must exist: the one found, or the error that `entity`
/// `identifier` does not exist.
pub fn required<T>(found: Option<T>, entity: &str, identifier: &str) -> (r: Result<T, ServiceError>)
    ensures
        match found {
            Some(v) => r == Ok::<T, ServiceError>(v),
            None => r matches Err(e) && is_not_found(e, entity@, identifier@),
        },
{
    match found {
        Some(v) => Ok(v),
        None => Err(ServiceError::not_found(entity, identifier)),
    }
}

/// The name of a user's role, which must exist.
pub fn role_name_of(role_id: &str, found: Option<String>) -> (r: Result<String, ServiceError>)
    ensures
        match found {
            Some(n) => r == Ok::<String, ServiceError>(n),
            None => r matches Err(e) && is_not_found(e, "Role"@, role_id@),
        },
{
    match found {
        Some(n) => Ok(n),
        None => Err(ServiceError::not_found("Role", role_id)),
    }
}

/// The decisions of signing in, in order: the user found under the
/// username (if any) signs in with `password` (see `sign_in_problem`); the
/// user's account `account_id`, looked up with `account_active` as the
/// outcome, must exist and be active; the user's role `role_id`, looked up
/// with `role` as the outcome, must exist. On success, the role's name (it
/// goes into the access token).
pub fn login_check(
    user: Option<&UserLogin>,
    password: &str,
    account_id: &str,
    account_active: Option<bool>,
    role_id: &str,
    role: Option<String>,
) -> (r: Result<String, ServiceError>)
    ensures
        match sign_in_problem(
            match user {
                Some(u) => Some(*u),
                None => None,
            },
            password@,
        ) {
            Some(m) => r matches Err(e) && is_validation(e, m),
            None => match account_active {
                None => r matches Err(e) && is_not_found(e, "Account"@, account_id@),
                Some(false) => r matches Err(e) && is_validation(e, "Account is inactive"@),
                Some(true) => match role {
                    Some(n) => r == Ok::<String, ServiceError>(n),
                    None => r matches Err(e) && is_not_found(e, "Role"@, role_id@),
                },
            },
        },
{
    match authenticate(user, password) {
        Ok(()) => {},
        Err(e) => return Err(e),
    }
    match login_account_check(account_id, account_active) {
        Ok(()) => {},
        Err(e) => return Err(e),
    }
    role_name_of(role_id, role)
}

/// The decisions of refreshing an access token, in order: the user
/// `user_id` named by the refresh token, looked up with `user_active` as
/// the outcome, must exist and be active; the user's role `role_id`,
/// looked up with `role` as the outcome, must exist. On success, the
/// role's name.
pub fn refresh_check(
    user_id: &str,
    user_active: Option<bool>,
    role_id: &str,
    role: Option<String>,
) -> (r: Result<String, ServiceError>)
    ensures
        match user_active {
            None => r matches Err(e) && is_not_found(e, "User"@, user_id@),
            Some(false) => r matches Err(e) && is_validation(e, "User account is inactive"@),
            Some(true) => match role {
                Some(n) => r == Ok::<String, ServiceError>(n),
                None => r matches Err(e) && is_not_found(e, "Role"@, role_id@),
            },
        },
{
    let active = match required(user_active, "User", user_id) {
        Ok(a) => a,
        Err(e) => return Err(e),
    };
    match refresh_user_check(active) {
        Ok(()) => {},
        Err(e) => return Err(e),
    }
    role_name_of(role_id, role)
}

/// Whether storing node credentials for a user may go on: the user must
/// not have stored some already.
pub fn store_credentials_check(user_id: &str, already_stored: bool) -> (r: Result<
    (),
    ServiceError,
>)
    ensures
        !already_stored ==> r is Ok,
        already_stored ==> (r matches Err(e) && is_already_exists(
            e,
            "Node credentials for user"@,
            user_id@,
        )),
{
    if already_stored {
        return Err(ServiceError::already_exists("Node credentials for user", user_id));
    }
    Ok(())
}

/// Whether revoking a user's node credentials may go on: the user must
/// have stored some.
pub fn revoke_credentials_check(user_id: &str, stored: bool) -> (r: Result<(), ServiceError>)
    ensures
        stored ==> r is Ok,
        !stored ==> (r matches Err(e) && is_not_found(e, "Node credentials"@, user_id@)),
{
    if !stored {
        return Err(ServiceError::not_found("Node credentials", user_id));
    }
    Ok(())
}

/// The credentials of a user's node, as carried in an access token.
#[derive(Debug, Clone)]
pub struct NodeCredentials {
    pub node_id: String,
    pub node_alias: String,
    /// "lnd" or "cln".
    pub node_type: String,
    pub macaroon: String,
    pub tls_cert: String,
    pub client_cert: Option<String>,
    pub client_key: Option<String>,
    pub ca_cert: Option<String>,
    pub address: String,
}

/// The kind of a stored node, LND where none was stored.
pub open spec fn node_type_or_lnd(t: Option<String>) -> Seq<char> {
    match t {
        Some(s) => s@,
        None => "lnd"@,
    }
}

impl NodeCredentials {
    /// The credentials of a stored node; a node stored without a kind is
    /// taken to be LND.
    pub fn from_stored(
        node_id: String,
        node_alias: String,
        node_type: Option<String>,
        macaroon: String,
        tls_cert: String,
        client_cert: Option<String>,
        client_key: Option<String>,
        ca_cert: Option<String>,
        address: String,
    ) -> (r: NodeCredentials)
        ensures
            r.node_id == node_id,
            r.node_alias == node_alias,
            r.node_type@ == node_type_or_lnd(node_type),
            r.macaroon == macaroon,
            r.tls_cert == tls_cert,
            r.client_cert == client_cert,
            r.client_key == client_key,
            r.ca_cert == ca_cert,
            r.address == address,
    {
        let node_type = match node_type {
            Some(t) => t,
            None => owned("lnd"),
        };
        NodeCredentials {
            node_id,
            node_alias,
            node_type,
            macaroon,
            tls_cert,
            client_cert,
            client_key,
            ca_cert,
            address,
        }
    }
}

/// The token of an `Authorization` header of the form `Bearer <token>`.
pub open spec fn bearer_token_of(header: Seq<char>) -> Option<Seq<char>> {
    if has_prefix(header, "Bearer "@) {
        Some(header.subrange(7, header.len() as int))
    } else {
        None
    }
}

/// Reads the token of a bearer `Authorization` header.
pub fn bearer_token(header: &str) -> (r: Option<String>)
    ensures
        match bearer_token_of(header@) {
            Some(t) => r matches Some(s) && s@ == t,
            None => r is None,
        },
{
    proof {
        reveal_strlit("Bearer ");
    }
    if !starts_with(header, "Bearer ") {
        return None;
    }
    let chars = chars_of(header);
    let mut token: Vec<char> = Vec::new();
    let mut i: usize = 7;
    while i < chars.len()
        invariant
            7 <= i <= chars@.len(),
            chars@ == header@,
            token@ == header@.subrange(7, i as int),
        decreases chars@.len() - i,
    {
        token.push(chars[i]);
        assert(token@ =~= header@.subrange(7, i + 1));
        i = i + 1;
    }
    Some(string_of_chars(&token))
}

/// Whether a notification found under `notification_id` (with the
/// account it belongs to, if found) may be used by `account_id`: one of
/// another account is treated as not found.
pub fn notification_owner_check(
    notification_id: &str,
    owner: Option<&str>,
    account_id: &str,
) -> (r: Result<(), ServiceError>)
    ensures
        (owner matches Some(o) && o@ == account_id@) ==> r is Ok,
        !(owner matches Some(o) && o@ == account_id@) ==> (r matches Err(e) && is_not_found(
            e,
            "Notification"@,
            notification_id@,
        )),
{
    match owner {
        Some(o) => {
            if str_eq(o, account_id) {
                Ok(())
            } else {
                Err(ServiceError::not_found("Notification", notification_id))
            }
        },
        None => Err(ServiceError::not_found("Notification", notification_id)),
    }
}

/// Creating a user goes on exactly when the request is valid, neither its
/// username nor its email is taken, its account and role exist, it would
/// not make a second administrator of the account, and its username starts
/// with a letter. The checks come in that order: the first that fails is
/// the one reported.
pub proof fn law_user_creation_order(
    request: CreateNewUser,
    username_taken: bool,
    email_taken: bool,
    account_exists: bool,
    role_name: Option<Seq<char>>,
    admin_exists: bool,
)
    ensures
        ({
            let p = user_creation_problem(
                request,
                username_taken,
                email_taken,
                account_exists,
                role_name,
                admin_exists,
            );
            let valid = create_new_user_report(request).len() == 0;
            &&& (p is None) == (valid && !username_taken && !email_taken && account_exists
                && role_name is Some && !(role_name == Some("Admin"@) && admin_exists)
                && !starts_without_letter(request.username@))
            &&& !valid ==> p == Some(UserCreationProblem::Validation)
            &&& valid && username_taken ==> p == Some(UserCreationProblem::UsernameTaken)
            &&& valid && !username_taken && email_taken ==> p == Some(UserCreationProblem::EmailTaken)
            &&& valid && !username_taken && !email_taken && !account_exists ==> p == Some(
                UserCreationProblem::NoAccount,
            )
            &&& valid && !username_taken && !email_taken && account_exists && role_name is None ==> p
                == Some(UserCreationProblem::NoRole)
            &&& valid && !username_taken && !email_taken && account_exists && role_name == Some(
                "Admin"@,
            ) && admin_exists ==> p == Some(UserCreationProblem::AdminExists)
            &&& role_name != Some("Admin"@) ==> p != Some(UserCreationProblem::AdminExists)
            &&& !admin_exists ==> p != Some(UserCreationProblem::AdminExists)
        }),
{
}

/// Signing in fails with the same answer for an unknown user as for a wrong
/// password; an inactive user is refused whatever the password; an active
/// user signs in exactly when bcrypt verifies the password against the
/// stored hash.
pub proof fn law_sign_in(user: Option<UserLogin>, password: Seq<char>)
    ensures
        user is None ==> sign_in_problem(user, password) == Some("Invalid username or password"@),
        user matches Some(u) && !u.is_active ==> sign_in_problem(user, password) == Some(
            "User account is inactive"@,
        ),
        user matches Some(u) && u.is_active ==> (sign_in_problem(user, password) is None)
            == bcrypt_verifies(password, user->Some_0.password_hash@),
        user matches Some(u) && u.is_active && bcrypt_verify_outcome(password, u.password_hash@)
            == Ok::<bool, Seq<char>>(false) ==> sign_in_problem(user, password) == Some(
            "Invalid username or password"@,
        ),
{
}

} // verus!
