//! Requests that create stored records, with the validation rules of each
//! field, and the status of an invitation.
//!
//! Times are nanoseconds since the Unix epoch.

use vstd::prelude::*;

use crate::text::{chars_of, concat2, contains_char, owned, str_eq};
use crate::validation::{
    add_field, check_custom, check_email, check_length, custom_problem, email_problem, finish,
    lemma_checks_empty, lemma_checks_list, lemma_contains_concat, lemma_rejects_from_report,
    length_problem, no_errors, no_fields, outcome_matches, rejects_field, report_of_checks,
    validator_email_valid, with_field, ErrorView, FieldErrors, FieldView, ValidationError,
    ValidationErrors,
};

verus! {

/// Whether `char::is_numeric` holds of `c`.
pub uninterp spec fn std_char_numeric(c: char) -> bool;

/// Whether `char::is_alphanumeric` holds of `c`.
pub uninterp spec fn std_char_alphanumeric(c: char) -> bool;

/// `char::is_numeric`. Claims: the named value; ASCII digits are numeric
/// and ASCII letters are not.
#[verifier::external_body]
fn char_is_numeric(c: char) -> (r: bool)
    ensures
        r == std_char_numeric(c),
        ('0' <= c <= '9') ==> r,
        (('a' <= c <= 'z') || ('A' <= c <= 'Z')) ==> !r,
{
    c.is_numeric()
}

/// `char::is_alphanumeric`. Claims: the named value; whatever is numeric is
/// alphanumeric, and so are ASCII letters.
#[verifier::external_body]
fn char_is_alphanumeric(c: char) -> (r: bool)
    ensures
        r == std_char_alphanumeric(c),
        std_char_numeric(c) ==> r,
        (('a' <= c <= 'z') || ('A' <= c <= 'Z')) ==> r,
{
    c.is_alphanumeric()
}

/// Whether a name fails to start with a letter: its first character is
/// numeric or not alphanumeric. An empty name does not fail.
pub open spec fn starts_without_letter(name: Seq<char>) -> bool {
    name.len() > 0 && (std_char_numeric(name[0]) || !std_char_alphanumeric(name[0]))
}

/// Whether a name fails to start with a letter (see `starts_without_letter`).
pub fn first_char_not_letter(name: &str) -> (r: bool)
    ensures
        r == starts_without_letter(name@),
{
    let chars = chars_of(name);
    if chars.len() == 0 {
        return false;
    }
    let c = chars[0];
    char_is_numeric(c) || !char_is_alphanumeric(c)
}

/// A request to create an account with its administrator.
#[derive(Debug, Clone)]
pub struct CreateAccount {
    pub name: String,
    pub username: String,
    pub email: String,
}

/// A request to create an account with its administrator and password.
#[derive(Debug, Clone)]
pub struct CreateNewAccount {
    pub name: String,
    pub username: String,
    pub email: String,
    pub password: String,
}

/// A request to create a user with a password.
#[derive(Debug, Clone)]
pub struct CreateNewUser {
    pub account_id: String,
    pub role_id: String,
    pub username: String,
    pub email: String,
    pub password: String,
}

/// A user record ready to be stored.
#[derive(Debug, Clone)]
pub struct CreateUser {
    pub id: String,
    pub account_id: String,
    pub role_id: String,
    pub username: String,
    pub email: String,
    pub password_hash: String,
}

/// A request to create a role.
#[derive(Debug, Clone)]
pub struct CreateRole {
    pub name: String,
}

/// A node credential record ready to be stored.
#[derive(Debug, Clone)]
pub struct CreateCredential {
    pub id: String,
    pub user_id: String,
    pub account_id: String,
    pub node_id: String,
    pub node_alias: String,
    pub macaroon: String,
    pub tls_cert: String,
    pub address: String,
    pub node_type: Option<String>,
    pub client_cert: Option<String>,
    pub client_key: Option<String>,
    pub ca_cert: Option<String>,
}

/// The status of an invitation.
#[derive(Debug, Clone, Copy, PartialEq, Eq, Structural)]
pub enum InviteStatus {
    Pending,
    Accepted,
}

/// The text of an invitation status.
pub open spec fn invite_status_name(s: InviteStatus) -> Seq<char> {
    match s {
        InviteStatus::Pending => "Pending"@,
        InviteStatus::Accepted => "Accepted"@,
    }
}

/// Reading an invitation status from its exact text.
pub open spec fn invite_status_parse(s: Seq<char>) -> Result<InviteStatus, Seq<char>> {
    if s == "Pending"@ {
        Ok(InviteStatus::Pending)
    } else if s == "Accepted"@ {
        Ok(InviteStatus::Accepted)
    } else {
        Err("Invalid invite status: "@ + s)
    }
}

/// Reading back the text of a status gives the status.
pub proof fn lemma_invite_status_roundtrip(s: InviteStatus)
    ensures
        invite_status_parse(invite_status_name(s)) == Ok::<InviteStatus, Seq<char>>(s),
{
    reveal_strlit("Pending");
    reveal_strlit("Accepted");
    assert("Accepted"@.len() != "Pending"@.len());
}

impl InviteStatus {
    /// The text of the status.
    pub fn name(&self) -> (r: String)
        ensures
            r@ == invite_status_name(*self),
    {
        match self {
            InviteStatus::Pending => owned("Pending"),
            InviteStatus::Accepted => owned("Accepted"),
        }
    }

    /// Reads a status from its exact text.
    pub fn from_str(s: &str) -> (r: Result<InviteStatus, String>)
        ensures
            match invite_status_parse(s@) {
                Ok(v) => r == Ok::<InviteStatus, String>(v),
                Err(m) => r matches Err(e) && e@ == m,
            },
    {
        if str_eq(s, "Pending") {
            Ok(InviteStatus::Pending)
        } else if str_eq(s, "Accepted") {
            Ok(InviteStatus::Accepted)
        } else {
            Err(concat2("Invalid invite status: ", s))
        }
    }
}

/// An invitation ready to be stored.
#[derive(Debug, Clone)]
pub struct CreateInvite {
    pub id: String,
    pub account_id: String,
    pub inviter_id: String,
    pub invitee_email: String,
    pub token: String,
    /// Nanoseconds since the epoch.
    pub expires_at: i128,
    pub invite_status: InviteStatus,
}

/// A request to invite someone by email.
#[derive(Debug, Clone)]
pub struct CreateInviteRequest {
    pub email: String,
}

/// A request to accept an invitation.
#[derive(Debug, Clone)]
pub struct AcceptInviteRequest {
    pub token: String,
    pub username: String,
    pub password: String,
}

/// The code of the rule that an address names a port.
pub open spec fn socket_address_code() -> Seq<char> {
    "Address must contain port (format: host:port)"@
}

/// The code of the rule that an invitation expires in the future.
pub open spec fn expiry_code() -> Seq<char> {
    "expires_at must be in the future"@
}

/// Whether a text is required (at least one character).
pub open spec fn required(s: Seq<char>, message: Seq<char>) -> Seq<(Seq<char>, Option<Seq<char>>)> {
    length_problem(s, Some(1u64), None::<u64>, message)
}

/// Whether a text has between 1 and 255 characters.
pub open spec fn short_text(s: Seq<char>, message: Seq<char>) -> Seq<(Seq<char>, Option<Seq<char>>)> {
    length_problem(s, Some(1u64), Some(255u64), message)
}

/// An email address that is valid and at most 255 characters long.
pub open spec fn email_field(s: Seq<char>) -> Seq<(Seq<char>, Option<Seq<char>>)> {
    email_problem(s, "Must be a valid email"@) + length_problem(
        s,
        None::<u64>,
        Some(255u64),
        "Email too long"@,
    )
}

/// What validating a `CreateAccount` reports.
pub open spec fn create_account_report(c: CreateAccount) -> Seq<FieldView> {
    let r0 = Seq::empty();
    let r1 = with_field(
        r0,
        "name"@,
        short_text(c.name@, "Account name must be between 1-255 characters"@),
    );
    let r2 = with_field(
        r1,
        "username"@,
        short_text(c.username@, "User's name must be between 1-255 characters"@),
    );
    with_field(r2, "email"@, email_field(c.email@))
}

/// What validating a `CreateNewAccount` reports.
pub open spec fn create_new_account_report(c: CreateNewAccount) -> Seq<FieldView> {
    let r0 = Seq::empty();
    let r1 = with_field(
        r0,
        "name"@,
        short_text(c.name@, "Account name must be between 1-255 characters"@),
    );
    let r2 = with_field(
        r1,
        "username"@,
        short_text(c.username@, "User's name must be between 1-255 characters"@),
    );
    let r3 = with_field(r2, "email"@, email_field(c.email@));
    with_field(r3, "password"@, required(c.password@, "Password is required"@))
}

/// What validating a `CreateNewUser` reports.
pub open spec fn create_new_user_report(c: CreateNewUser) -> Seq<FieldView> {
    let r0 = Seq::empty();
    let r1 = with_field(r0, "account_id"@, required(c.account_id@, "Account ID is required"@));
    let r2 = with_field(r1, "role_id"@, required(c.role_id@, "Role ID is required"@));
    let r3 = with_field(
        r2,
        "username"@,
        short_text(c.username@, "Username must be between 1-255 characters"@),
    );
    with_field(r3, "password"@, required(c.password@, "Password is required"@))
}

/// What validating a `CreateUser` reports.
pub open spec fn create_user_report(c: CreateUser) -> Seq<FieldView> {
    let r0 = Seq::empty();
    let r1 = with_field(r0, "id"@, required(c.id@, "User ID is required"@));
    let r2 = with_field(r1, "account_id"@, required(c.account_id@, "Account ID is required"@));
    let r3 = with_field(r2, "role_id"@, required(c.role_id@, "Role ID is required"@));
    let r4 = with_field(
        r3,
        "username"@,
        short_text(c.username@, "Username must be between 1-255 characters"@),
    );
    let r5 = with_field(r4, "email"@, email_field(c.email@));
    with_field(r5, "password_hash"@, required(c.password_hash@, "Password hash is required"@))
}

/// What validating a `CreateRole` reports.
pub open spec fn create_role_report(c: CreateRole) -> Seq<FieldView> {
    with_field(
        Seq::empty(),
        "name"@,
        short_text(c.name@, "Name must be between 1-255 characters"@),
    )
}

/// What validating a `CreateCredential` reports.
pub open spec fn create_credential_report(c: CreateCredential) -> Seq<FieldView> {
    let r0 = Seq::empty();
    let r1 = with_field(r0, "id"@, required(c.id@, "Credential ID is required"@));
    let r2 = with_field(r1, "user_id"@, required(c.user_id@, "User ID is required"@));
    let r3 = with_field(r2, "account_id"@, required(c.account_id@, "Account ID is required"@));
    let r4 = with_field(r3, "node_id"@, required(c.node_id@, "Node ID is required"@));
    let r5 = with_field(
        r4,
        "node_alias"@,
        short_text(c.node_alias@, "Node alias must be 1-255 characters"@),
    );
    let r6 = with_field(r5, "macaroon"@, required(c.macaroon@, "Macaroon is required"@));
    let r7 = with_field(r6, "tls_cert"@, required(c.tls_cert@, "TLS certificate is required"@));
    with_field(
        r7,
        "address"@,
        short_text(c.address@, "Address must be 1-255 characters"@) + custom_problem(
            !c.address@.contains(':'),
            socket_address_code(),
        ),
    )
}

/// What validating a `CreateInvite` at time `now` reports.
pub open spec fn create_invite_report(c: CreateInvite, now: i128) -> Seq<FieldView> {
    let r0 = Seq::empty();
    let r1 = with_field(r0, "id"@, required(c.id@, "Invite ID is required"@));
    let r2 = with_field(r1, "account_id"@, required(c.account_id@, "Account ID is required"@));
    let r3 = with_field(r2, "inviter_id"@, required(c.inviter_id@, "Inviter ID is required"@));
    let r4 = with_field(
        r3,
        "invitee_email"@,
        email_problem(c.invitee_email@, "Must be a valid email"@),
    );
    let r5 = with_field(r4, "token"@, required(c.token@, "Token is required"@));
    with_field(r5, "expires_at"@, custom_problem(c.expires_at <= now, expiry_code()))
}

/// What validating a `CreateInviteRequest` reports.
pub open spec fn create_invite_request_report(c: CreateInviteRequest) -> Seq<FieldView> {
    with_field(Seq::empty(), "email"@, email_field(c.email@))
}

/// What validating an `AcceptInviteRequest` reports.
pub open spec fn accept_invite_request_report(c: AcceptInviteRequest) -> Seq<FieldView> {
    let r0 = Seq::empty();
    let r1 = with_field(r0, "token"@, required(c.token@, "Token is required"@));
    let r2 = with_field(
        r1,
        "username"@,
        short_text(c.username@, "Username must be between 1-255 characters"@),
    );
    with_field(r2, "password"@, required(c.password@, "Password is required"@))
}

fn check_required(fields: &mut Vec<FieldErrors>, field: &str, s: &str, message: &str)
    ensures
        crate::validation::fields_view(final(fields)@) == with_field(
            crate::validation::fields_view(old(fields)@),
            field@,
            required(s@, message@),
        ),
{
    let mut errs = no_errors();
    check_length(&mut errs, s, Some(1), None, message);
    add_field(fields, field, errs);
}

fn check_short_text(fields: &mut Vec<FieldErrors>, field: &str, s: &str, message: &str)
    ensures
        crate::validation::fields_view(final(fields)@) == with_field(
            crate::validation::fields_view(old(fields)@),
            field@,
            short_text(s@, message@),
        ),
{
    let mut errs = no_errors();
    check_length(&mut errs, s, Some(1), Some(255), message);
    add_field(fields, field, errs);
}

fn check_email_field(fields: &mut Vec<FieldErrors>, field: &str, s: &str)
    ensures
        crate::validation::fields_view(final(fields)@) == with_field(
            crate::validation::fields_view(old(fields)@),
            field@,
            email_field(s@),
        ),
{
    let mut errs = no_errors();
    check_email(&mut errs, s, "Must be a valid email");
    check_length(&mut errs, s, None, Some(255), "Email too long");
    add_field(fields, field, errs);
}

impl CreateAccount {
    /// Checks each field against its rules.
    pub fn validate(&self) -> (r: Result<(), ValidationErrors>)
        ensures
            outcome_matches(r, create_account_report(*self)),
    {
        let mut fields = no_fields();
        check_short_text(
            &mut fields,
            "name",
            self.name.as_str(),
            "Account name must be between 1-255 characters",
        );
        check_short_text(
            &mut fields,
            "username",
            self.username.as_str(),
            "User's name must be between 1-255 characters",
        );
        check_email_field(&mut fields, "email", self.email.as_str());
        finish(fields)
    }
}

impl CreateNewAccount {
    /// Checks each field against its rules.
    pub fn validate(&self) -> (r: Result<(), ValidationErrors>)
        ensures
            outcome_matches(r, create_new_account_report(*self)),
    {
        let mut fields = no_fields();
        check_short_text(
            &mut fields,
            "name",
            self.name.as_str(),
            "Account name must be between 1-255 characters",
        );
        check_short_text(
            &mut fields,
            "username",
            self.username.as_str(),
            "User's name must be between 1-255 characters",
        );
        check_email_field(&mut fields, "email", self.email.as_str());
        check_required(&mut fields, "password", self.password.as_str(), "Password is required");
        finish(fields)
    }
}

impl CreateNewUser {
    /// Checks each field against its rules (the email is not checked).
    pub fn validate(&self) -> (r: Result<(), ValidationErrors>)
        ensures
            outcome_matches(r, create_new_user_report(*self)),
    {
        let mut fields = no_fields();
        check_required(
            &mut fields,
            "account_id",
            self.account_id.as_str(),
            "Account ID is required",
        );
        check_required(&mut fields, "role_id", self.role_id.as_str(), "Role ID is required");
        check_short_text(
            &mut fields,
            "username",
            self.username.as_str(),
            "Username must be between 1-255 characters",
        );
        check_required(&mut fields, "password", self.password.as_str(), "Password is required");
        finish(fields)
    }
}

impl CreateUser {
    /// Checks each field against its rules.
    pub fn validate(&self) -> (r: Result<(), ValidationErrors>)
        ensures
            outcome_matches(r, create_user_report(*self)),
    {
        let mut fields = no_fields();
        check_required(&mut fields, "id", self.id.as_str(), "User ID is required");
        check_required(
            &mut fields,
            "account_id",
            self.account_id.as_str(),
            "Account ID is required",
        );
        check_required(&mut fields, "role_id", self.role_id.as_str(), "Role ID is required");
        check_short_text(
            &mut fields,
            "username",
            self.username.as_str(),
            "Username must be between 1-255 characters",
        );
        check_email_field(&mut fields, "email", self.email.as_str());
        check_required(
            &mut fields,
            "password_hash",
            self.password_hash.as_str(),
            "Password hash is required",
        );
        finish(fields)
    }
}

impl CreateRole {
    /// Checks the name against its rule.
    pub fn validate(&self) -> (r: Result<(), ValidationErrors>)
        ensures
            outcome_matches(r, create_role_report(*self)),
    {
        let mut fields = no_fields();
        check_short_text(
            &mut fields,
            "name",
            self.name.as_str(),
            "Name must be between 1-255 characters",
        );
        finish(fields)
    }
}

/// Whether an address names a port: it must contain a colon.
pub fn validate_socket_address(address: &str) -> (r: Result<(), ValidationError>)
    ensures
        address@.contains(':') ==> r is Ok,
        !address@.contains(':') ==> (r matches Err(e) && e.code@ == socket_address_code()
            && e.message is None),
{
    if !contains_char(address, ':') {
        return Err(
            ValidationError {
                code: owned("Address must contain port (format: host:port)"),
                message: None,
            },
        );
    }
    Ok(())
}

/// Whether an invitation expires after `now`.
pub fn validate_expiry_time(expires_at: i128, now: i128) -> (r: Result<(), ValidationError>)
    ensures
        expires_at > now ==> r is Ok,
        expires_at <= now ==> (r matches Err(e) && e.code@ == expiry_code() && e.message is None),
{
    if expires_at <= now {
        return Err(
            ValidationError { code: owned("expires_at must be in the future"), message: None },
        );
    }
    Ok(())
}

impl CreateCredential {
    /// Checks each field against its rules; the address must also name a
    /// port.
    pub fn validate(&self) -> (r: Result<(), ValidationErrors>)
        ensures
            outcome_matches(r, create_credential_report(*self)),
    {
        let mut fields = no_fields();
        check_required(&mut fields, "id", self.id.as_str(), "Credential ID is required");
        check_required(&mut fields, "user_id", self.user_id.as_str(), "User ID is required");
        check_required(
            &mut fields,
            "account_id",
            self.account_id.as_str(),
            "Account ID is required",
        );
        check_required(&mut fields, "node_id", self.node_id.as_str(), "Node ID is required");
        check_short_text(
            &mut fields,
            "node_alias",
            self.node_alias.as_str(),
            "Node alias must be 1-255 characters",
        );
        check_required(&mut fields, "macaroon", self.macaroon.as_str(), "Macaroon is required");
        check_required(
            &mut fields,
            "tls_cert",
            self.tls_cert.as_str(),
            "TLS certificate is required",
        );
        let mut errs = no_errors();
        check_length(
            &mut errs,
            self.address.as_str(),
            Some(1),
            Some(255),
            "Address must be 1-255 characters",
        );
        let no_port = validate_socket_address(self.address.as_str()).is_err();
        check_custom(&mut errs, no_port, "Address must contain port (format: host:port)");
        add_field(&mut fields, "address", errs);
        finish(fields)
    }
}

impl CreateInvite {
    /// Checks each field against its rules at time `now`; the invitation
    /// must expire after `now`.
    pub fn validate(&self, now: i128) -> (r: Result<(), ValidationErrors>)
        ensures
            outcome_matches(r, create_invite_report(*self, now)),
    {
        let mut fields = no_fields();
        check_required(&mut fields, "id", self.id.as_str(), "Invite ID is required");
        check_required(
            &mut fields,
            "account_id",
            self.account_id.as_str(),
            "Account ID is required",
        );
        check_required(
            &mut fields,
            "inviter_id",
            self.inviter_id.as_str(),
            "Inviter ID is required",
        );
        let mut errs = no_errors();
        check_email(&mut errs, self.invitee_email.as_str(), "Must be a valid email");
        add_field(&mut fields, "invitee_email", errs);
        check_required(&mut fields, "token", self.token.as_str(), "Token is required");
        let mut errs = no_errors();
        let expired = validate_expiry_time(self.expires_at, now).is_err();
        check_custom(&mut errs, expired, "expires_at must be in the future");
        add_field(&mut fields, "expires_at", errs);
        finish(fields)
    }
}

impl CreateInviteRequest {
    /// Checks the email against its rules.
    pub fn validate(&self) -> (r: Result<(), ValidationErrors>)
        ensures
            outcome_matches(r, create_invite_request_report(*self)),
    {
        let mut fields = no_fields();
        check_email_field(&mut fields, "email", self.email.as_str());
        finish(fields)
    }
}

impl AcceptInviteRequest {
    /// Checks each field against its rules.
    pub fn validate(&self) -> (r: Result<(), ValidationErrors>)
        ensures
            outcome_matches(r, accept_invite_request_report(*self)),
    {
        let mut fields = no_fields();
        check_required(&mut fields, "token", self.token.as_str(), "Token is required");
        check_short_text(
            &mut fields,
            "username",
            self.username.as_str(),
            "Username must be between 1-255 characters",
        );
        check_required(&mut fields, "password", self.password.as_str(), "Password is required");
        finish(fields)
    }
}

/// Validating a `CreateAccount` succeeds exactly when each of its rules holds, and
/// each rule that fails is reported on its field with its code and message.
pub proof fn law_create_account_validation(c: CreateAccount, r: Result<(), ValidationErrors>)
    requires
        outcome_matches(r, create_account_report(c)),
    ensures
        (r is Ok) == (1 <= c.name@.len() <= 255
            && 1 <= c.username@.len() <= 255
            && validator_email_valid(c.email@)
            && c.email@.len() <= 255),
        (c.name@.len() == 0 || c.name@.len() > 255) ==> rejects_field(
            r, "name"@, "length"@, Some("Account name must be between 1-255 characters"@)
        ),
        (c.username@.len() == 0 || c.username@.len() > 255) ==> rejects_field(
            r, "username"@, "length"@, Some("User's name must be between 1-255 characters"@)
        ),
        !validator_email_valid(c.email@) ==> rejects_field(
            r, "email"@, "email"@, Some("Must be a valid email"@)
        ),
        c.email@.len() > 255 ==> rejects_field(r, "email"@, "length"@, Some("Email too long"@)),
{
    let checks = seq![
        ("name"@, short_text(c.name@, "Account name must be between 1-255 characters"@)),
        ("username"@, short_text(c.username@, "User's name must be between 1-255 characters"@)),
        ("email"@, email_field(c.email@)),
    ];
    let report = create_account_report(c);
    reveal_with_fuel(report_of_checks, 4);
    assert(report =~= report_of_checks(checks));
    lemma_checks_empty(checks);
    if c.name@.len() == 0 || c.name@.len() > 255 {
        let err: ErrorView = ("length"@, Some("Account name must be between 1-255 characters"@));
        assert(checks[0].1[0] == err);
        lemma_checks_list(checks, 0, err);
        lemma_rejects_from_report(r, report, "name"@, err);
    }
    if c.username@.len() == 0 || c.username@.len() > 255 {
        let err: ErrorView = ("length"@, Some("User's name must be between 1-255 characters"@));
        assert(checks[1].1[0] == err);
        lemma_checks_list(checks, 1, err);
        lemma_rejects_from_report(r, report, "username"@, err);
    }
    if !validator_email_valid(c.email@) {
        let err: ErrorView = ("email"@, Some("Must be a valid email"@));
        assert(checks[2].1[0] == err);
        lemma_checks_list(checks, 2, err);
        lemma_rejects_from_report(r, report, "email"@, err);
    }
    if c.email@.len() > 255 {
        let err: ErrorView = ("length"@, Some("Email too long"@));
        let rule = length_problem(c.email@, None::<u64>, Some(255u64), "Email too long"@);
        assert(rule[0] == err);
        lemma_contains_concat(email_problem(c.email@, "Must be a valid email"@), rule, err);
        lemma_checks_list(checks, 2, err);
        lemma_rejects_from_report(r, report, "email"@, err);
    }
}

/// Validating a `CreateNewAccount` succeeds exactly when each of its rules holds, and
/// each rule that fails is reported on its field with its code and message.
pub proof fn law_create_new_account_validation(c: CreateNewAccount, r: Result<(), ValidationErrors>)
    requires
        outcome_matches(r, create_new_account_report(c)),
    ensures
        (r is Ok) == (1 <= c.name@.len() <= 255
            && 1 <= c.username@.len() <= 255
            && validator_email_valid(c.email@)
            && c.email@.len() <= 255
            && c.password@.len() > 0),
        (c.name@.len() == 0 || c.name@.len() > 255) ==> rejects_field(
            r, "name"@, "length"@, Some("Account name must be between 1-255 characters"@)
        ),
        (c.username@.len() == 0 || c.username@.len() > 255) ==> rejects_field(
            r, "username"@, "length"@, Some("User's name must be between 1-255 characters"@)
        ),
        !validator_email_valid(c.email@) ==> rejects_field(
            r, "email"@, "email"@, Some("Must be a valid email"@)
        ),
        c.email@.len() > 255 ==> rejects_field(r, "email"@, "length"@, Some("Email too long"@)),
        c.password@.len() == 0 ==> rejects_field(
            r, "password"@, "length"@, Some("Password is required"@)
        ),
{
    let checks = seq![
        ("name"@, short_text(c.name@, "Account name must be between 1-255 characters"@)),
        ("username"@, short_text(c.username@, "User's name must be between 1-255 characters"@)),
        ("email"@, email_field(c.email@)),
        ("password"@, required(c.password@, "Password is required"@)),
    ];
    let report = create_new_account_report(c);
    reveal_with_fuel(report_of_checks, 5);
    assert(report =~= report_of_checks(checks));
    lemma_checks_empty(checks);
    if c.name@.len() == 0 || c.name@.len() > 255 {
        let err: ErrorView = ("length"@, Some("Account name must be between 1-255 characters"@));
        assert(checks[0].1[0] == err);
        lemma_checks_list(checks, 0, err);
        lemma_rejects_from_report(r, report, "name"@, err);
    }
    if c.username@.len() == 0 || c.username@.len() > 255 {
        let err: ErrorView = ("length"@, Some("User's name must be between 1-255 characters"@));
        assert(checks[1].1[0] == err);
        lemma_checks_list(checks, 1, err);
        lemma_rejects_from_report(r, report, "username"@, err);
    }
    if !validator_email_valid(c.email@) {
        let err: ErrorView = ("email"@, Some("Must be a valid email"@));
        assert(checks[2].1[0] == err);
        lemma_checks_list(checks, 2, err);
        lemma_rejects_from_report(r, report, "email"@, err);
    }
    if c.email@.len() > 255 {
        let err: ErrorView = ("length"@, Some("Email too long"@));
        let rule = length_problem(c.email@, None::<u64>, Some(255u64), "Email too long"@);
        assert(rule[0] == err);
        lemma_contains_concat(email_problem(c.email@, "Must be a valid email"@), rule, err);
        lemma_checks_list(checks, 2, err);
        lemma_rejects_from_report(r, report, "email"@, err);
    }
    if c.password@.len() == 0 {
        let err: ErrorView = ("length"@, Some("Password is required"@));
        assert(checks[3].1[0] == err);
        lemma_checks_list(checks, 3, err);
        lemma_rejects_from_report(r, report, "password"@, err);
    }
}

/// Validating a `CreateNewUser` succeeds exactly when each of its rules holds, and
/// each rule that fails is reported on its field with its code and message.
pub proof fn law_create_new_user_validation(c: CreateNewUser, r: Result<(), ValidationErrors>)
    requires
        outcome_matches(r, create_new_user_report(c)),
    ensures
        (r is Ok) == (c.account_id@.len() > 0
            && c.role_id@.len() > 0
            && 1 <= c.username@.len() <= 255
            && c.password@.len() > 0),
        c.account_id@.len() == 0 ==> rejects_field(
            r, "account_id"@, "length"@, Some("Account ID is required"@)
        ),
        c.role_id@.len() == 0 ==> rejects_field(
            r, "role_id"@, "length"@, Some("Role ID is required"@)
        ),
        (c.username@.len() == 0 || c.username@.len() > 255) ==> rejects_field(
            r, "username"@, "length"@, Some("Username must be between 1-255 characters"@)
        ),
        c.password@.len() == 0 ==> rejects_field(
            r, "password"@, "length"@, Some("Password is required"@)
        ),
{
    let checks = seq![
        ("account_id"@, required(c.account_id@, "Account ID is required"@)),
        ("role_id"@, required(c.role_id@, "Role ID is required"@)),
        ("username"@, short_text(c.username@, "Username must be between 1-255 characters"@)),
        ("password"@, required(c.password@, "Password is required"@)),
    ];
    let report = create_new_user_report(c);
    reveal_with_fuel(report_of_checks, 5);
    assert(report =~= report_of_checks(checks));
    lemma_checks_empty(checks);
    if c.account_id@.len() == 0 {
        let err: ErrorView = ("length"@, Some("Account ID is required"@));
        assert(checks[0].1[0] == err);
        lemma_checks_list(checks, 0, err);
        lemma_rejects_from_report(r, report, "account_id"@, err);
    }
    if c.role_id@.len() == 0 {
        let err: ErrorView = ("length"@, Some("Role ID is required"@));
        assert(checks[1].1[0] == err);
        lemma_checks_list(checks, 1, err);
        lemma_rejects_from_report(r, report, "role_id"@, err);
    }
    if c.username@.len() == 0 || c.username@.len() > 255 {
        let err: ErrorView = ("length"@, Some("Username must be between 1-255 characters"@));
        assert(checks[2].1[0] == err);
        lemma_checks_list(checks, 2, err);
        lemma_rejects_from_report(r, report, "username"@, err);
    }
    if c.password@.len() == 0 {
        let err: ErrorView = ("length"@, Some("Password is required"@));
        assert(checks[3].1[0] == err);
        lemma_checks_list(checks, 3, err);
        lemma_rejects_from_report(r, report, "password"@, err);
    }
}

/// Validating a `CreateUser` succeeds exactly when each of its rules holds, and
/// each rule that fails is reported on its field with its code and message.
pub proof fn law_create_user_validation(c: CreateUser, r: Result<(), ValidationErrors>)
    requires
        outcome_matches(r, create_user_report(c)),
    ensures
        (r is Ok) == (c.id@.len() > 0
            && c.account_id@.len() > 0
            && c.role_id@.len() > 0
            && 1 <= c.username@.len() <= 255
            && validator_email_valid(c.email@)
            && c.email@.len() <= 255
            && c.password_hash@.len() > 0),
        c.id@.len() == 0 ==> rejects_field(r, "id"@, "length"@, Some("User ID is required"@)),
        c.account_id@.len() == 0 ==> rejects_field(
            r, "account_id"@, "length"@, Some("Account ID is required"@)
        ),
        c.role_id@.len() == 0 ==> rejects_field(
            r, "role_id"@, "length"@, Some("Role ID is required"@)
        ),
        (c.username@.len() == 0 || c.username@.len() > 255) ==> rejects_field(
            r, "username"@, "length"@, Some("Username must be between 1-255 characters"@)
        ),
        !validator_email_valid(c.email@) ==> rejects_field(
            r, "email"@, "email"@, Some("Must be a valid email"@)
        ),
        c.email@.len() > 255 ==> rejects_field(r, "email"@, "length"@, Some("Email too long"@)),
        c.password_hash@.len() == 0 ==> rejects_field(
            r, "password_hash"@, "length"@, Some("Password hash is required"@)
        ),
{
    let checks = seq![
        ("id"@, required(c.id@, "User ID is required"@)),
        ("account_id"@, required(c.account_id@, "Account ID is required"@)),
        ("role_id"@, required(c.role_id@, "Role ID is required"@)),
        ("username"@, short_text(c.username@, "Username must be between 1-255 characters"@)),
        ("email"@, email_field(c.email@)),
        ("password_hash"@, required(c.password_hash@, "Password hash is required"@)),
    ];
    let report = create_user_report(c);
    reveal_with_fuel(report_of_checks, 7);
    assert(report =~= report_of_checks(checks));
    lemma_checks_empty(checks);
    if c.id@.len() == 0 {
        let err: ErrorView = ("length"@, Some("User ID is required"@));
        assert(checks[0].1[0] == err);
        lemma_checks_list(checks, 0, err);
        lemma_rejects_from_report(r, report, "id"@, err);
    }
    if c.account_id@.len() == 0 {
        let err: ErrorView = ("length"@, Some("Account ID is required"@));
        assert(checks[1].1[0] == err);
        lemma_checks_list(checks, 1, err);
        lemma_rejects_from_report(r, report, "account_id"@, err);
    }
    if c.role_id@.len() == 0 {
        let err: ErrorView = ("length"@, Some("Role ID is required"@));
        assert(checks[2].1[0] == err);
        lemma_checks_list(checks, 2, err);
        lemma_rejects_from_report(r, report, "role_id"@, err);
    }
    if c.username@.len() == 0 || c.username@.len() > 255 {
        let err: ErrorView = ("length"@, Some("Username must be between 1-255 characters"@));
        assert(checks[3].1[0] == err);
        lemma_checks_list(checks, 3, err);
        lemma_rejects_from_report(r, report, "username"@, err);
    }
    if !validator_email_valid(c.email@) {
        let err: ErrorView = ("email"@, Some("Must be a valid email"@));
        assert(checks[4].1[0] == err);
        lemma_checks_list(checks, 4, err);
        lemma_rejects_from_report(r, report, "email"@, err);
    }
    if c.email@.len() > 255 {
        let err: ErrorView = ("length"@, Some("Email too long"@));
        let rule = length_problem(c.email@, None::<u64>, Some(255u64), "Email too long"@);
        assert(rule[0] == err);
        lemma_contains_concat(email_problem(c.email@, "Must be a valid email"@), rule, err);
        lemma_checks_list(checks, 4, err);
        lemma_rejects_from_report(r, report, "email"@, err);
    }
    if c.password_hash@.len() == 0 {
        let err: ErrorView = ("length"@, Some("Password hash is required"@));
        assert(checks[5].1[0] == err);
        lemma_checks_list(checks, 5, err);
        lemma_rejects_from_report(r, report, "password_hash"@, err);
    }
}

/// Validating a `CreateRole` succeeds exactly when each of its rules holds, and
/// each rule that fails is reported on its field with its code and message.
pub proof fn law_create_role_validation(c: CreateRole, r: Result<(), ValidationErrors>)
    requires
        outcome_matches(r, create_role_report(c)),
    ensures
        (r is Ok) == (1 <= c.name@.len() <= 255),
        (c.name@.len() == 0 || c.name@.len() > 255) ==> rejects_field(
            r, "name"@, "length"@, Some("Name must be between 1-255 characters"@)
        ),
{
    let checks = seq![
        ("name"@, short_text(c.name@, "Name must be between 1-255 characters"@)),
    ];
    let report = create_role_report(c);
    reveal_with_fuel(report_of_checks, 2);
    assert(report =~= report_of_checks(checks));
    lemma_checks_empty(checks);
    if c.name@.len() == 0 || c.name@.len() > 255 {
        let err: ErrorView = ("length"@, Some("Name must be between 1-255 characters"@));
        assert(checks[0].1[0] == err);
        lemma_checks_list(checks, 0, err);
        lemma_rejects_from_report(r, report, "name"@, err);
    }
}

/// Validating a `CreateCredential` succeeds exactly when each of its rules holds, and
/// each rule that fails is reported on its field with its code and message.
pub proof fn law_create_credential_validation(c: CreateCredential, r: Result<(), ValidationErrors>)
    requires
        outcome_matches(r, create_credential_report(c)),
    ensures
        (r is Ok) == (c.id@.len() > 0
            && c.user_id@.len() > 0
            && c.account_id@.len() > 0
            && c.node_id@.len() > 0
            && 1 <= c.node_alias@.len() <= 255
            && c.macaroon@.len() > 0
            && c.tls_cert@.len() > 0
            && 1 <= c.address@.len() <= 255
            && c.address@.contains(':')),
        c.id@.len() == 0 ==> rejects_field(r, "id"@, "length"@, Some("Credential ID is required"@)),
        c.user_id@.len() == 0 ==> rejects_field(
            r, "user_id"@, "length"@, Some("User ID is required"@)
        ),
        c.account_id@.len() == 0 ==> rejects_field(
            r, "account_id"@, "length"@, Some("Account ID is required"@)
        ),
        c.node_id@.len() == 0 ==> rejects_field(
            r, "node_id"@, "length"@, Some("Node ID is required"@)
        ),
        (c.node_alias@.len() == 0 || c.node_alias@.len() > 255) ==> rejects_field(
            r, "node_alias"@, "length"@, Some("Node alias must be 1-255 characters"@)
        ),
        c.macaroon@.len() == 0 ==> rejects_field(
            r, "macaroon"@, "length"@, Some("Macaroon is required"@)
        ),
        c.tls_cert@.len() == 0 ==> rejects_field(
            r, "tls_cert"@, "length"@, Some("TLS certificate is required"@)
        ),
        (c.address@.len() == 0 || c.address@.len() > 255) ==> rejects_field(
            r, "address"@, "length"@, Some("Address must be 1-255 characters"@)
        ),
        !c.address@.contains(':') ==> rejects_field(
            r, "address"@, "Address must contain port (format: host:port)"@, None::<Seq<char>>
        ),
{
    let checks = seq![
        ("id"@, required(c.id@, "Credential ID is required"@)),
        ("user_id"@, required(c.user_id@, "User ID is required"@)),
        ("account_id"@, required(c.account_id@, "Account ID is required"@)),
        ("node_id"@, required(c.node_id@, "Node ID is required"@)),
        ("node_alias"@, short_text(c.node_alias@, "Node alias must be 1-255 characters"@)),
        ("macaroon"@, required(c.macaroon@, "Macaroon is required"@)),
        ("tls_cert"@, required(c.tls_cert@, "TLS certificate is required"@)),
        (
            "address"@,
            short_text(c.address@, "Address must be 1-255 characters"@) + custom_problem(
                !c.address@.contains(':'),
                socket_address_code(),
            ),
        ),
    ];
    let report = create_credential_report(c);
    reveal_with_fuel(report_of_checks, 9);
    assert(report =~= report_of_checks(checks));
    lemma_checks_empty(checks);
    if c.id@.len() == 0 {
        let err: ErrorView = ("length"@, Some("Credential ID is required"@));
        assert(checks[0].1[0] == err);
        lemma_checks_list(checks, 0, err);
        lemma_rejects_from_report(r, report, "id"@, err);
    }
    if c.user_id@.len() == 0 {
        let err: ErrorView = ("length"@, Some("User ID is required"@));
        assert(checks[1].1[0] == err);
        lemma_checks_list(checks, 1, err);
        lemma_rejects_from_report(r, report, "user_id"@, err);
    }
    if c.account_id@.len() == 0 {
        let err: ErrorView = ("length"@, Some("Account ID is required"@));
        assert(checks[2].1[0] == err);
        lemma_checks_list(checks, 2, err);
        lemma_rejects_from_report(r, report, "account_id"@, err);
    }
    if c.node_id@.len() == 0 {
        let err: ErrorView = ("length"@, Some("Node ID is required"@));
        assert(checks[3].1[0] == err);
        lemma_checks_list(checks, 3, err);
        lemma_rejects_from_report(r, report, "node_id"@, err);
    }
    if c.node_alias@.len() == 0 || c.node_alias@.len() > 255 {
        let err: ErrorView = ("length"@, Some("Node alias must be 1-255 characters"@));
        assert(checks[4].1[0] == err);
        lemma_checks_list(checks, 4, err);
        lemma_rejects_from_report(r, report, "node_alias"@, err);
    }
    if c.macaroon@.len() == 0 {
        let err: ErrorView = ("length"@, Some("Macaroon is required"@));
        assert(checks[5].1[0] == err);
        lemma_checks_list(checks, 5, err);
        lemma_rejects_from_report(r, report, "macaroon"@, err);
    }
    if c.tls_cert@.len() == 0 {
        let err: ErrorView = ("length"@, Some("TLS certificate is required"@));
        assert(checks[6].1[0] == err);
        lemma_checks_list(checks, 6, err);
        lemma_rejects_from_report(r, report, "tls_cert"@, err);
    }
    if c.address@.len() == 0 || c.address@.len() > 255 {
        let err: ErrorView = ("length"@, Some("Address must be 1-255 characters"@));
        assert(checks[7].1[0] == err);
        lemma_checks_list(checks, 7, err);
        lemma_rejects_from_report(r, report, "address"@, err);
    }
    if !c.address@.contains(':') {
        let err: ErrorView = ("Address must contain port (format: host:port)"@, None::<Seq<char>>);
        let rule = custom_problem(!c.address@.contains(':'), socket_address_code());
        assert(rule[0] == err);
        lemma_contains_concat(
            length_problem(
                c.address@,
                Some(1u64),
                Some(255u64),
                "Address must be 1-255 characters"@,
            ),
            rule,
            err,
        );
        lemma_checks_list(checks, 7, err);
        lemma_rejects_from_report(r, report, "address"@, err);
    }
}

/// Validating a `CreateInvite` succeeds exactly when each of its rules holds, and
/// each rule that fails is reported on its field with its code and message.
pub proof fn law_create_invite_validation(
    c: CreateInvite,
    now: i128,
    r: Result<(), ValidationErrors>,
)
    requires
        outcome_matches(r, create_invite_report(c, now)),
    ensures
        (r is Ok) == (c.id@.len() > 0
            && c.account_id@.len() > 0
            && c.inviter_id@.len() > 0
            && validator_email_valid(c.invitee_email@)
            && c.token@.len() > 0
            && c.expires_at > now),
        c.id@.len() == 0 ==> rejects_field(r, "id"@, "length"@, Some("Invite ID is required"@)),
        c.account_id@.len() == 0 ==> rejects_field(
            r, "account_id"@, "length"@, Some("Account ID is required"@)
        ),
        c.inviter_id@.len() == 0 ==> rejects_field(
            r, "inviter_id"@, "length"@, Some("Inviter ID is required"@)
        ),
        !validator_email_valid(c.invitee_email@) ==> rejects_field(
            r, "invitee_email"@, "email"@, Some("Must be a valid email"@)
        ),
        c.token@.len() == 0 ==> rejects_field(r, "token"@, "length"@, Some("Token is required"@)),
        c.expires_at <= now ==> rejects_field(
            r, "expires_at"@, "expires_at must be in the future"@, None::<Seq<char>>
        ),
{
    let checks = seq![
        ("id"@, required(c.id@, "Invite ID is required"@)),
        ("account_id"@, required(c.account_id@, "Account ID is required"@)),
        ("inviter_id"@, required(c.inviter_id@, "Inviter ID is required"@)),
        ("invitee_email"@, email_problem(c.invitee_email@, "Must be a valid email"@)),
        ("token"@, required(c.token@, "Token is required"@)),
        ("expires_at"@, custom_problem(c.expires_at <= now, expiry_code())),
    ];
    let report = create_invite_report(c, now);
    reveal_with_fuel(report_of_checks, 7);
    assert(report =~= report_of_checks(checks));
    lemma_checks_empty(checks);
    if c.id@.len() == 0 {
        let err: ErrorView = ("length"@, Some("Invite ID is required"@));
        assert(checks[0].1[0] == err);
        lemma_checks_list(checks, 0, err);
        lemma_rejects_from_report(r, report, "id"@, err);
    }
    if c.account_id@.len() == 0 {
        let err: ErrorView = ("length"@, Some("Account ID is required"@));
        assert(checks[1].1[0] == err);
        lemma_checks_list(checks, 1, err);
        lemma_rejects_from_report(r, report, "account_id"@, err);
    }
    if c.inviter_id@.len() == 0 {
        let err: ErrorView = ("length"@, Some("Inviter ID is required"@));
        assert(checks[2].1[0] == err);
        lemma_checks_list(checks, 2, err);
        lemma_rejects_from_report(r, report, "inviter_id"@, err);
    }
    if !validator_email_valid(c.invitee_email@) {
        let err: ErrorView = ("email"@, Some("Must be a valid email"@));
        assert(checks[3].1[0] == err);
        lemma_checks_list(checks, 3, err);
        lemma_rejects_from_report(r, report, "invitee_email"@, err);
    }
    if c.token@.len() == 0 {
        let err: ErrorView = ("length"@, Some("Token is required"@));
        assert(checks[4].1[0] == err);
        lemma_checks_list(checks, 4, err);
        lemma_rejects_from_report(r, report, "token"@, err);
    }
    if c.expires_at <= now {
        let err: ErrorView = ("expires_at must be in the future"@, None::<Seq<char>>);
        assert(checks[5].1[0] == err);
        lemma_checks_list(checks, 5, err);
        lemma_rejects_from_report(r, report, "expires_at"@, err);
    }
}

/// Validating a `CreateInviteRequest` succeeds exactly when each of its rules holds, and
/// each rule that fails is reported on its field with its code and message.
pub proof fn law_create_invite_request_validation(
    c: CreateInviteRequest,
    r: Result<(), ValidationErrors>,
)
    requires
        outcome_matches(r, create_invite_request_report(c)),
    ensures
        (r is Ok) == (validator_email_valid(c.email@) && c.email@.len() <= 255),
        !validator_email_valid(c.email@) ==> rejects_field(
            r, "email"@, "email"@, Some("Must be a valid email"@)
        ),
        c.email@.len() > 255 ==> rejects_field(r, "email"@, "length"@, Some("Email too long"@)),
{
    let checks = seq![
        ("email"@, email_field(c.email@)),
    ];
    let report = create_invite_request_report(c);
    reveal_with_fuel(report_of_checks, 2);
    assert(report =~= report_of_checks(checks));
    lemma_checks_empty(checks);
    if !validator_email_valid(c.email@) {
        let err: ErrorView = ("email"@, Some("Must be a valid email"@));
        assert(checks[0].1[0] == err);
        lemma_checks_list(checks, 0, err);
        lemma_rejects_from_report(r, report, "email"@, err);
    }
    if c.email@.len() > 255 {
        let err: ErrorView = ("length"@, Some("Email too long"@));
        let rule = length_problem(c.email@, None::<u64>, Some(255u64), "Email too long"@);
        assert(rule[0] == err);
        lemma_contains_concat(email_problem(c.email@, "Must be a valid email"@), rule, err);
        lemma_checks_list(checks, 0, err);
        lemma_rejects_from_report(r, report, "email"@, err);
    }
}

/// Validating a `AcceptInviteRequest` succeeds exactly when each of its rules holds, and
/// each rule that fails is reported on its field with its code and message.
pub proof fn law_accept_invite_request_validation(
    c: AcceptInviteRequest,
    r: Result<(), ValidationErrors>,
)
    requires
        outcome_matches(r, accept_invite_request_report(c)),
    ensures
        (r is Ok) == (c.token@.len() > 0 && 1 <= c.username@.len() <= 255 && c.password@.len() > 0),
        c.token@.len() == 0 ==> rejects_field(r, "token"@, "length"@, Some("Token is required"@)),
        (c.username@.len() == 0 || c.username@.len() > 255) ==> rejects_field(
            r, "username"@, "length"@, Some("Username must be between 1-255 characters"@)
        ),
        c.password@.len() == 0 ==> rejects_field(
            r, "password"@, "length"@, Some("Password is required"@)
        ),
{
    let checks = seq![
        ("token"@, required(c.token@, "Token is required"@)),
        ("username"@, short_text(c.username@, "Username must be between 1-255 characters"@)),
        ("password"@, required(c.password@, "Password is required"@)),
    ];
    let report = accept_invite_request_report(c);
    reveal_with_fuel(report_of_checks, 4);
    assert(report =~= report_of_checks(checks));
    lemma_checks_empty(checks);
    if c.token@.len() == 0 {
        let err: ErrorView = ("length"@, Some("Token is required"@));
        assert(checks[0].1[0] == err);
        lemma_checks_list(checks, 0, err);
        lemma_rejects_from_report(r, report, "token"@, err);
    }
    if c.username@.len() == 0 || c.username@.len() > 255 {
        let err: ErrorView = ("length"@, Some("Username must be between 1-255 characters"@));
        assert(checks[1].1[0] == err);
        lemma_checks_list(checks, 1, err);
        lemma_rejects_from_report(r, report, "username"@, err);
    }
    if c.password@.len() == 0 {
        let err: ErrorView = ("length"@, Some("Password is required"@));
        assert(checks[2].1[0] == err);
        lemma_checks_list(checks, 2, err);
        lemma_rejects_from_report(r, report, "password"@, err);
    }
}

} // verus!
