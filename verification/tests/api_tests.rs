use nodegaze::common::{
    channel_id_argument, event_by_id, events_listing, node_kind, service_error_to_http, validation_error_response,
    validation_errors_to_field_errors, validation_summary, ApiResponse, NodeKind,
};
use nodegaze::config::Config;
use nodegaze::errors::ServiceError;
use nodegaze::events::{
    event_responses, find_event, Event, EventListResponse, EventResponse, EventSeverity, EventType,
};
use nodegaze::models::{
    first_char_not_letter, validate_expiry_time, validate_socket_address, AcceptInviteRequest,
    CreateAccount, CreateCredential, CreateInvite, CreateInviteRequest, CreateNewAccount,
    CreateNewUser, CreateRole, CreateUser, InviteStatus,
};
use nodegaze::notify::{
    active_targets, discord_color, discord_node_label, NotificationTarget, NotificationType,
};
use nodegaze::payments::{filter_payments, NumericOperator, PaymentEntry, PaymentFilter, PaymentStatus};
use nodegaze::services::{
    account_creation_check, account_name_rule, authenticate, bearer_token,
    credential_creation_check, hash_password, login_account_check, login_check, refresh_check, notification_owner_check,
    refresh_user_check, required, revoke_credentials_check, role_name_of, store_credentials_check,
    user_creation_check, user_name_rule, verify_password, NodeCredentials, UserLogin,
};
use nodegaze::node::{node_id_from_text, normalize_address, NodeId, PubKey};
use nodegaze::records::NodePolicy;
use nodegaze::services::user_insert_failure;
use nodegaze::text::contains_text;
use nodegaze::validation::ValidationErrors;

fn account(name: &str, username: &str, email: &str) -> CreateAccount {
    CreateAccount { name: name.to_string(), username: username.to_string(), email: email.to_string() }
}

fn field_names(e: &ValidationErrors) -> Vec<String> {
    e.fields.iter().map(|f| f.field.clone()).collect()
}

#[test]
fn create_account_validation() {
    assert!(account("Acme", "alice", "alice@example.com").validate().is_ok());
    let e = account("", "alice", "not-an-email").validate().unwrap_err();
    assert_eq!(field_names(&e), vec!["name", "email"]);
    assert_eq!(e.fields[0].errors[0].code, "length");
    assert_eq!(
        e.fields[0].errors[0].message.as_deref(),
        Some("Account name must be between 1-255 characters")
    );
    assert_eq!(e.fields[1].errors[0].code, "email");
    let long = "a".repeat(256);
    let e = account(&long, "alice", "alice@example.com").validate().unwrap_err();
    assert_eq!(field_names(&e), vec!["name"]);
    // Length counts characters, not bytes.
    let wide = "é".repeat(255);
    assert!(account(&wide, "alice", "alice@example.com").validate().is_ok());
}

#[test]
fn long_email_fails_both_rules() {
    let email = format!("{}@example.com", "a".repeat(300));
    let e = account("Acme", "alice", &email).validate().unwrap_err();
    assert_eq!(e.fields.len(), 1);
    let codes: Vec<&str> = e.fields[0].errors.iter().map(|x| x.code.as_str()).collect();
    assert_eq!(codes, vec!["email", "length"]);
    assert_eq!(e.fields[0].errors[1].message.as_deref(), Some("Email too long"));
}

#[test]
fn other_request_validations() {
    let na = CreateNewAccount {
        name: "Acme".to_string(),
        username: "alice".to_string(),
        email: "alice@example.com".to_string(),
        password: String::new(),
    };
    assert_eq!(field_names(&na.validate().unwrap_err()), vec!["password"]);
    let nu = CreateNewUser {
        account_id: String::new(),
        role_id: "r".to_string(),
        username: "bob".to_string(),
        email: "whatever".to_string(),
        password: "pw".to_string(),
    };
    assert_eq!(field_names(&nu.validate().unwrap_err()), vec!["account_id"]);
    let u = CreateUser {
        id: "1".to_string(),
        account_id: "a".to_string(),
        role_id: "r".to_string(),
        username: "bob".to_string(),
        email: "bob@example.com".to_string(),
        password_hash: String::new(),
    };
    assert_eq!(field_names(&u.validate().unwrap_err()), vec!["password_hash"]);
    assert!(CreateRole { name: "Admin".to_string() }.validate().is_ok());
    assert!(CreateRole { name: String::new() }.validate().is_err());
    assert!(CreateInviteRequest { email: "x@y.io".to_string() }.validate().is_ok());
    let accept = AcceptInviteRequest {
        token: String::new(),
        username: String::new(),
        password: String::new(),
    };
    assert_eq!(field_names(&accept.validate().unwrap_err()), vec!["token", "username", "password"]);
}

fn credential(address: &str) -> CreateCredential {
    CreateCredential {
        id: "c1".to_string(),
        user_id: "u1".to_string(),
        account_id: "a1".to_string(),
        node_id: "n1".to_string(),
        node_alias: "alias".to_string(),
        macaroon: "mac".to_string(),
        tls_cert: "cert".to_string(),
        address: address.to_string(),
        node_type: None,
        client_cert: None,
        client_key: None,
        ca_cert: None,
    }
}

#[test]
fn credential_address_needs_port() {
    assert!(credential("127.0.0.1:10009").validate().is_ok());
    let e = credential("localhost").validate().unwrap_err();
    assert_eq!(field_names(&e), vec!["address"]);
    assert_eq!(e.fields[0].errors[0].code, "Address must contain port (format: host:port)");
    assert_eq!(e.fields[0].errors[0].message, None);
    let e = credential("").validate().unwrap_err();
    let codes: Vec<&str> = e.fields[0].errors.iter().map(|x| x.code.as_str()).collect();
    assert_eq!(codes, vec!["length", "Address must contain port (format: host:port)"]);
    assert!(validate_socket_address("h:1").is_ok());
    assert!(validate_socket_address("h").is_err());
}

#[test]
fn invitation_expiry_and_status() {
    assert!(validate_expiry_time(10, 5).is_ok());
    assert_eq!(validate_expiry_time(5, 5).unwrap_err().code, "expires_at must be in the future");
    let invite = CreateInvite {
        id: "i".to_string(),
        account_id: "a".to_string(),
        inviter_id: "u".to_string(),
        invitee_email: "friend@example.com".to_string(),
        token: "t".to_string(),
        expires_at: 100,
        invite_status: InviteStatus::Pending,
    };
    assert!(invite.validate(50).is_ok());
    assert_eq!(field_names(&invite.validate(100).unwrap_err()), vec!["expires_at"]);
    assert_eq!(InviteStatus::Pending.name(), "Pending");
    assert_eq!(InviteStatus::from_str("Accepted"), Ok(InviteStatus::Accepted));
    assert_eq!(
        InviteStatus::from_str(&InviteStatus::Pending.name()),
        Ok(InviteStatus::Pending)
    );
    assert_eq!(
        InviteStatus::from_str("accepted"),
        Err("Invalid invite status: accepted".to_string())
    );
}

#[test]
fn service_errors_become_responses() {
    let (status, r) = service_error_to_http(ServiceError::not_found("User", "42"));
    assert_eq!(status, 404);
    assert!(!r.success);
    assert!(r.data.is_none());
    assert_eq!(r.message, "User '42' not found");
    assert_eq!(r.error.as_ref().unwrap().error_type, "not_found");
    let (status, r) = service_error_to_http(ServiceError::already_exists("Account", "acme"));
    assert_eq!(status, 409);
    assert_eq!(r.message, "Account 'acme' already exists");
    let (status, r) = service_error_to_http(ServiceError::Database { source: "disk".to_string() });
    assert_eq!(status, 500);
    assert_eq!(r.message, "Internal server error");
    assert_eq!(r.error.unwrap().error_type, "database_error");
    assert_eq!(service_error_to_http(ServiceError::validation("v")).0, 400);
    assert_eq!(service_error_to_http(ServiceError::permission_denied("p")).0, 403);
    assert_eq!(service_error_to_http(ServiceError::invalid_operation("o")).0, 400);
    let (status, r) = service_error_to_http(ServiceError::external_service("x"));
    assert_eq!(status, 502);
    assert_eq!(r.error.unwrap().error_type, "external_service_error");
}

#[test]
fn ok_and_success_responses() {
    let r = ApiResponse::ok(5u32);
    assert!(r.success);
    assert_eq!(r.data, Some(5));
    assert_eq!(r.message, "Request successful");
    assert!(r.error.is_none());
    assert!(!r.timestamp.is_empty());
    let r = ApiResponse::success("x", "Done");
    assert_eq!(r.message, "Done");
}

#[test]
fn response_timestamps_are_utc_rfc3339() {
    let r = ApiResponse::ok(7u32);
    assert!(r.timestamp.len() >= 25);
    assert!(r.timestamp.ends_with("+00:00"));
    assert_eq!(&r.timestamp[4..5], "-");
    assert_eq!(&r.timestamp[10..11], "T");
    let e = ApiResponse::<()>::error("m", "k", None);
    assert!(e.timestamp.ends_with("+00:00"));
}

fn stored_event(id: &str, data: &str) -> Event {
    Event {
        id: id.to_string(),
        account_id: "acc".to_string(),
        user_id: "u".to_string(),
        node_id: "n".to_string(),
        node_alias: "alias".to_string(),
        event_type: EventType::InvoiceSettled,
        severity: EventSeverity::Info,
        title: "Invoice Settled".to_string(),
        description: "paid".to_string(),
        data: data.to_string(),
        timestamp: "2024-01-01T00:00:00+00:00".to_string(),
        created_at: "2024-01-01T00:00:01+00:00".to_string(),
    }
}

#[test]
fn event_responses_keep_fields_and_repair_data() {
    let events = vec![stored_event("e1", "{\"amount\":5}"), stored_event("e2", "not json")];
    let r = event_responses(&events);
    assert_eq!(r.len(), 2);
    assert_eq!(r[0].id, "e1");
    assert_eq!(r[0].data, "{\"amount\":5}");
    assert_eq!(r[0].event_type, EventType::InvoiceSettled);
    assert_eq!(r[0].created_at, "2024-01-01T00:00:01+00:00");
    assert_eq!(r[1].id, "e2");
    assert_eq!(r[1].data, "{}");
    let one = EventResponse::from_event(&stored_event("e3", "[1,2]"));
    assert_eq!(one.data, "[1,2]");
    assert_eq!(one.title, "Invoice Settled");
}

#[test]
fn events_are_listed_and_found_by_id() {
    let listing = events_listing(&vec![stored_event("e1", "{}"), stored_event("e2", "{}")]);
    assert!(listing.success);
    assert_eq!(listing.message, "Events retrieved successfully");
    let list: EventListResponse = listing.data.unwrap();
    assert_eq!(list.events.len(), 2);
    assert_eq!(list.events[1].id, "e2");

    let mut first = EventResponse::from_event(&stored_event("e2", "{}"));
    first.title = "first".to_string();
    let second = EventResponse::from_event(&stored_event("e2", "{}"));
    let other = EventResponse::from_event(&stored_event("e1", "{}"));
    let found = find_event(vec![other.clone(), first.clone(), second.clone()], "e2").unwrap();
    assert_eq!(found.title, "first");
    assert!(find_event(vec![other.clone()], "e9").is_none());

    let ok = event_by_id(vec![other.clone(), second.clone()], "e2").unwrap();
    assert!(ok.success);
    assert_eq!(ok.message, "Event retrieved successfully");
    assert_eq!(ok.data.unwrap().id, "e2");
    let (status, resp) = event_by_id(vec![other], "missing").unwrap_err();
    assert_eq!(status, 404);
    assert!(!resp.success);
    assert_eq!(resp.message, "Event not found");
    assert_eq!(resp.error.unwrap().error_type, "not_found");
}

#[test]
fn validation_errors_become_field_errors() {
    let e = account("", "", "bad").validate().unwrap_err();
    let fields = validation_errors_to_field_errors(&e);
    let pairs: Vec<(String, String)> =
        fields.iter().map(|f| (f.field.clone(), f.message.clone())).collect();
    assert_eq!(
        pairs,
        vec![
            ("name".to_string(), "Account name must be between 1-255 characters".to_string()),
            ("username".to_string(), "User's name must be between 1-255 characters".to_string()),
            ("email".to_string(), "Must be a valid email".to_string()),
        ]
    );
    let summary = validation_summary(&e);
    assert_eq!(
        summary,
        "name: Account name must be between 1-255 characters, username: User's name must be between 1-255 characters, email: Must be a valid email"
    );
    let (status, r) = validation_error_response(&e);
    assert_eq!(status, 400);
    assert_eq!(r.message, "Validation failed");
    let details = r.error.unwrap().details.unwrap();
    assert_eq!(details.len(), 3);
    // A rule without a message shows "Invalid value".
    let e = credential("nohost").validate().unwrap_err();
    assert_eq!(validation_summary(&e), "address: Invalid value");
}

#[test]
fn node_kinds_and_channel_ids() {
    assert_eq!(node_kind("lnd").unwrap(), NodeKind::Lnd);
    assert_eq!(node_kind("cln").unwrap(), NodeKind::Cln);
    let (status, r) = node_kind("eclair").unwrap_err();
    assert_eq!(status, 400);
    assert_eq!(r.message, "Unsupported node type");
    assert_eq!(channel_id_argument("123").unwrap().to_u64(), 123);
    let (status, r) = channel_id_argument("12x").unwrap_err();
    assert_eq!(status, 400);
    assert_eq!(r.message, "Invalid channel ID format: invalid digit found in string");
    assert_eq!(r.error.unwrap().error_type, "invalid_channel_id");
}

fn s(v: &str) -> Option<String> {
    Some(v.to_string())
}

#[test]
fn config_defaults_and_errors() {
    let c = Config::from_values(s("sqlite://db"), None, None, s("secret"), None, None).unwrap();
    assert_eq!(c.database_url, "sqlite://db");
    assert_eq!(c.max_connections, 5);
    assert_eq!(c.acquire_timeout_seconds, 3);
    assert_eq!(c.jwt_expires_in_seconds, 86400);
    assert_eq!(c.server_port, 3000);
    let c = Config::from_values(s("u"), s("7"), s("9"), s("k"), s("60"), s("8080")).unwrap();
    assert_eq!((c.max_connections, c.acquire_timeout_seconds), (7, 9));
    assert_eq!((c.jwt_expires_in_seconds, c.server_port), (60, 8080));
    assert_eq!(
        Config::from_values(None, None, None, s("k"), None, None).unwrap_err(),
        "DATABASE_URL not set"
    );
    assert_eq!(
        Config::from_values(s("u"), s("many"), None, s("k"), None, None).unwrap_err(),
        "DB_MAX_CONNECTIONS must be a valid number"
    );
    assert_eq!(
        Config::from_values(s("u"), None, None, None, None, None).unwrap_err(),
        "JWT_SECRET not set"
    );
    assert_eq!(
        Config::from_values(s("u"), None, None, s("k"), None, s("70000")).unwrap_err(),
        "SERVER_PORT must be a valid number"
    );
}

#[test]
fn payment_status_names() {
    for st in [
        PaymentStatus::Pending,
        PaymentStatus::Processing,
        PaymentStatus::Completed,
        PaymentStatus::Failed,
    ] {
        assert_eq!(PaymentStatus::from_str(&st.name()), Ok(st));
    }
    assert_eq!(PaymentStatus::from_str("  Completed "), Ok(PaymentStatus::Completed));
    assert_eq!(
        PaymentStatus::from_str("done"),
        Err("Unknown payment status: done".to_string())
    );
    assert_eq!(PaymentStatus::default(), PaymentStatus::Pending);
    assert!(NumericOperator::Gte.holds(5, 5));
    assert!(!NumericOperator::Gt.holds(5, 5));
    assert!(NumericOperator::Lt.holds(4, 5));
}

fn entry(amount: i64, status: PaymentStatus, created_at: i128) -> PaymentEntry {
    PaymentEntry { amount, status, created_at }
}

fn no_filter() -> PaymentFilter {
    PaymentFilter {
        states: None,
        operator: None,
        value: None,
        from: None,
        to: None,
        page: None,
        per_page: None,
    }
}

#[test]
fn payments_filter_and_page() {
    let ps = vec![
        entry(100, PaymentStatus::Completed, 10),
        entry(200, PaymentStatus::Pending, 20),
        entry(50, PaymentStatus::Failed, 30),
        entry(300, PaymentStatus::Processing, 40),
        entry(150, PaymentStatus::Completed, 50),
    ];
    assert_eq!(filter_payments(&ps, &no_filter()), (vec![0, 1, 2, 3, 4], 5));
    let mut f = no_filter();
    f.states = Some(vec![PaymentStatus::Completed]);
    assert_eq!(filter_payments(&ps, &f), (vec![0, 4], 2));
    let mut f = no_filter();
    f.operator = Some(NumericOperator::Gte);
    f.value = Some(150);
    assert_eq!(filter_payments(&ps, &f), (vec![1, 3, 4], 3));
    let mut f = no_filter();
    f.operator = Some(NumericOperator::Gte);
    assert_eq!(filter_payments(&ps, &f).1, 5);
    let mut f = no_filter();
    f.from = Some(20);
    f.to = Some(40);
    assert_eq!(filter_payments(&ps, &f), (vec![1, 2, 3], 3));
    let mut f = no_filter();
    f.page = Some(2);
    f.per_page = Some(2);
    assert_eq!(filter_payments(&ps, &f), (vec![2, 3], 5));
    f.page = Some(3);
    assert_eq!(filter_payments(&ps, &f), (vec![4], 5));
    f.page = Some(4);
    assert_eq!(filter_payments(&ps, &f), (vec![], 5));
}

#[test]
fn account_and_user_checks() {
    assert!(account_creation_check(&account("Acme", "alice", "a@b.io"), false, true).is_ok());
    assert!(matches!(
        account_creation_check(&account("", "alice", "a@b.io"), false, true),
        Err(ServiceError::Validation { .. })
    ));
    assert_eq!(
        account_creation_check(&account("Acme", "alice", "a@b.io"), true, true),
        Err(ServiceError::already_exists("Account", "Acme"))
    );
    assert_eq!(
        account_creation_check(&account("9lives", "alice", "a@b.io"), false, true),
        Err(ServiceError::validation("Account name must start with a letter"))
    );
    assert_eq!(
        account_creation_check(&account("Acme", "alice", "a@b.io"), false, false),
        Err(ServiceError::not_found("Role", "Admin"))
    );
    assert!(first_char_not_letter("_x"));
    assert!(!first_char_not_letter(""));
    assert!(account_name_rule("Zeta").is_ok());
    assert!(user_name_rule("1bob").is_err());

    let nu = CreateNewUser {
        account_id: "acc".to_string(),
        role_id: "role".to_string(),
        username: "bob".to_string(),
        email: "bob@example.com".to_string(),
        password: "pw".to_string(),
    };
    assert!(user_creation_check(&nu, false, false, true, Some("Viewer"), true).is_ok());
    assert_eq!(
        user_creation_check(&nu, true, true, true, Some("Viewer"), false),
        Err(ServiceError::already_exists("User with username", "bob"))
    );
    assert_eq!(
        user_creation_check(&nu, false, true, true, Some("Viewer"), false),
        Err(ServiceError::already_exists("User with email", "bob@example.com"))
    );
    assert_eq!(
        user_creation_check(&nu, false, false, false, None, false),
        Err(ServiceError::not_found("Account", "acc"))
    );
    assert_eq!(
        user_creation_check(&nu, false, false, true, None, false),
        Err(ServiceError::not_found("Role", "role"))
    );
    assert_eq!(
        user_creation_check(&nu, false, false, true, Some("Admin"), true),
        Err(ServiceError::already_exists("Admin user for account", "acc"))
    );
    assert!(user_creation_check(&nu, false, false, true, Some("Admin"), false).is_ok());
    let bad = CreateNewUser {
        account_id: String::new(),
        role_id: String::new(),
        username: "bob".to_string(),
        email: "bob@example.com".to_string(),
        password: "pw".to_string(),
    };
    assert_eq!(
        user_creation_check(&bad, false, false, true, Some("Viewer"), false),
        Err(ServiceError::validation(
            "account_id: Account ID is required, role_id: Role ID is required"
        ))
    );
    assert_eq!(
        account_creation_check(&account("", "alice", "a@b.io"), false, true),
        Err(ServiceError::validation("name: Account name must be between 1-255 characters"))
    );
    assert_eq!(
        credential_creation_check(&credential("h:1"), false, true),
        Err(ServiceError::not_found("Account", "a1"))
    );
    assert_eq!(
        credential_creation_check(&credential("h:1"), true, false),
        Err(ServiceError::not_found("User", "u1"))
    );
    assert!(credential_creation_check(&credential("h:1"), true, true).is_ok());
}

#[test]
fn passwords_and_sign_in() {
    let hash = hash_password("hunter2").unwrap();
    assert_eq!(hash.len(), 60);
    assert!(hash.starts_with("$2b$12$"));
    assert!(hash.is_ascii());
    assert_ne!(hash, "hunter2");
    assert_eq!(verify_password("hunter2", &hash), Ok(true));
    assert_eq!(verify_password("wrong", &hash), Ok(false));
    assert!(matches!(
        verify_password("x", "not a hash"),
        Err(ServiceError::Validation { message }) if message.starts_with("Password verification failed: ")
    ));
    let user = UserLogin { is_active: true, password_hash: hash.clone() };
    assert!(authenticate(Some(&user), "hunter2").is_ok());
    assert_eq!(
        authenticate(Some(&user), "nope"),
        Err(ServiceError::validation("Invalid username or password"))
    );
    assert_eq!(
        authenticate(None, "hunter2"),
        Err(ServiceError::validation("Invalid username or password"))
    );
    let inactive = UserLogin { is_active: false, password_hash: hash };
    assert_eq!(
        authenticate(Some(&inactive), "hunter2"),
        Err(ServiceError::validation("User account is inactive"))
    );
}

#[test]
fn login_and_refresh_decisions() {
    let hash = hash_password("s3cret").unwrap();
    assert_ne!(hash, "s3cret");
    assert_eq!(verify_password("s3cret", &hash), Ok(true));
    let user = UserLogin { is_active: true, password_hash: hash };
    let admin = Some("Admin".to_string());
    assert_eq!(
        login_check(Some(&user), "s3cret", "acc", Some(true), "r1", admin.clone()),
        Ok("Admin".to_string())
    );
    assert_eq!(
        login_check(Some(&user), "wrong", "acc", None, "r1", None),
        Err(ServiceError::validation("Invalid username or password"))
    );
    assert_eq!(
        login_check(None, "s3cret", "acc", Some(true), "r1", admin.clone()),
        Err(ServiceError::validation("Invalid username or password"))
    );
    assert_eq!(
        login_check(Some(&user), "s3cret", "acc", None, "r1", None),
        Err(ServiceError::not_found("Account", "acc"))
    );
    assert_eq!(
        login_check(Some(&user), "s3cret", "acc", Some(false), "r1", admin.clone()),
        Err(ServiceError::validation("Account is inactive"))
    );
    assert_eq!(
        login_check(Some(&user), "s3cret", "acc", Some(true), "r1", None),
        Err(ServiceError::not_found("Role", "r1"))
    );
    assert_eq!(refresh_check("u1", Some(true), "r1", admin.clone()), Ok("Admin".to_string()));
    assert_eq!(refresh_check("u1", None, "r1", admin.clone()), Err(ServiceError::not_found("User", "u1")));
    assert_eq!(
        refresh_check("u1", Some(false), "r1", admin),
        Err(ServiceError::validation("User account is inactive"))
    );
    assert_eq!(refresh_check("u1", Some(true), "r1", None), Err(ServiceError::not_found("Role", "r1")));
}

#[test]
fn session_checks() {
    assert_eq!(
        login_account_check("acc", None),
        Err(ServiceError::not_found("Account", "acc"))
    );
    assert_eq!(
        login_account_check("acc", Some(false)),
        Err(ServiceError::validation("Account is inactive"))
    );
    assert!(login_account_check("acc", Some(true)).is_ok());
    assert!(refresh_user_check(true).is_ok());
    assert!(refresh_user_check(false).is_err());
    assert_eq!(role_name_of("r1", Some("Admin".to_string())), Ok("Admin".to_string()));
    assert_eq!(role_name_of("r1", None), Err(ServiceError::not_found("Role", "r1")));
    assert_eq!(
        store_credentials_check("u", true),
        Err(ServiceError::already_exists("Node credentials for user", "u"))
    );
    assert!(store_credentials_check("u", false).is_ok());
    assert_eq!(
        revoke_credentials_check("u", false),
        Err(ServiceError::not_found("Node credentials", "u"))
    );
    assert_eq!(bearer_token("Bearer abc.def"), Some("abc.def".to_string()));
    assert_eq!(bearer_token("Bearer "), Some(String::new()));
    assert_eq!(bearer_token("Basic xyz"), None);
    assert_eq!(bearer_token("bearer abc"), None);
    assert!(notification_owner_check("n", Some("acc"), "acc").is_ok());
    assert_eq!(
        notification_owner_check("n", Some("other"), "acc"),
        Err(ServiceError::not_found("Notification", "n"))
    );
    let creds = NodeCredentials::from_stored(
        "id".to_string(),
        "alias".to_string(),
        None,
        "m".to_string(),
        "c".to_string(),
        None,
        None,
        None,
        "h:1".to_string(),
    );
    assert_eq!(creds.node_type, "lnd");
}

#[test]
fn notifications() {
    let targets = vec![
        NotificationTarget {
            notification_type: NotificationType::Webhook,
            url: "a".to_string(),
            is_active: false,
        },
        NotificationTarget {
            notification_type: NotificationType::Discord,
            url: "b".to_string(),
            is_active: true,
        },
    ];
    assert_eq!(active_targets(&targets), vec![1]);
    assert_eq!(discord_color(EventSeverity::Info), 0x00ff00);
    assert_eq!(discord_color(EventSeverity::Warning), 0xffff00);
    assert_eq!(discord_color(EventSeverity::Critical), 0xff0000);
    assert_eq!(discord_node_label("", "02abcdef0123"), "02abcdef0123");
    assert_eq!(discord_node_label("alice", "02abcdef0123"), "alice (02abcdef)");
}

#[test]
fn storage_failures_on_new_users() {
    assert_eq!(
        user_insert_failure("UNIQUE constraint failed: users.name", "bob", "b@x.io"),
        ServiceError::already_exists("User with username", "bob")
    );
    assert_eq!(
        user_insert_failure("UNIQUE constraint failed: users.username", "bob", "b@x.io"),
        ServiceError::Database {
            source: "UNIQUE constraint failed: users.username".to_string()
        }
    );
    assert_eq!(
        user_insert_failure("error: UNIQUE constraint failed: users.email (2067)", "bob", "b@x.io"),
        ServiceError::already_exists("User with email", "b@x.io")
    );
    assert_eq!(
        user_insert_failure("disk I/O error", "bob", "b@x.io"),
        ServiceError::Database { source: "disk I/O error".to_string() }
    );
}

#[test]
fn text_search_and_addresses() {
    assert!(contains_text("hello world", "lo w"));
    assert!(contains_text("abc", ""));
    assert!(!contains_text("abc", "abcd"));
    assert!(!contains_text("abc", "ac"));
    assert_eq!(normalize_address("127.0.0.1:10009"), "https://127.0.0.1:10009");
    assert_eq!(normalize_address("http://node:8080"), "http://node:8080");
    assert_eq!(normalize_address("https://node"), "https://node");
    assert!(matches!(node_id_from_text("alice"), NodeId::Alias(a) if a == "alice"));
    assert!(matches!(
        node_id_from_text("0279be667ef9dcbbac55a06295ce870b07029bfcdb2dce28d959f2815b16f81798"),
        NodeId::PublicKey(_)
    ));
}

#[test]
fn policy_text_shows_fees_and_limits() {
    let key = "0279be667ef9dcbbac55a06295ce870b07029bfcdb2dce28d959f2815b16f81798";
    let p = NodePolicy {
        pubkey: PubKey::from_hex(key).unwrap(),
        fee_base_msat: 1000,
        fee_rate_milli_msat: 1,
        min_htlc_msat: 1,
        max_htlc_msat: Some(990_000_000),
        time_lock_delta: 40,
        disabled: false,
        last_update: None,
    };
    assert_eq!(
        p.to_text(),
        format!("Policy(pubkey: {}, fee: 1000+1ppm, min_htlc: 1msat, max_htlc: 990000000msat)", key)
    );
    let q = NodePolicy { max_htlc_msat: None, ..p };
    assert_eq!(
        q.to_text(),
        format!("Policy(pubkey: {}, fee: 1000+1ppm, min_htlc: 1msat)", key)
    );
}

#[test]
fn required_records() {
    assert_eq!(required(Some(7), "Account", "a1"), Ok(7));
    assert_eq!(
        required::<u8>(None, "Credential", "c9"),
        Err(ServiceError::not_found("Credential", "c9"))
    );
}
