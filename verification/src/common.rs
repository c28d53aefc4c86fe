//! The common shape of API responses, and how service errors and
//! validation errors become error responses with an HTTP status.

use vstd::prelude::*;

use crate::errors::ServiceError;
use crate::events::{
    event_responses, find_event, first_with_id, has_event_id, is_response_of, Event,
    EventListResponse, EventResponse,
};
use crate::node::ShortChannelID;
use crate::text::{concat2, int_error_message, owned, push_str, spec_parse_uint, str_eq};
use crate::validation::{
    errors_view, field_view, fields_view, report_view, ErrorView, FieldErrors, FieldView,
    ValidationErrors,
};

verus! {

/// The standard wrapper of every API response.
#[derive(Debug)]
pub struct ApiResponse<T> {
    /// Whether the request succeeded.
    pub success: bool,
    /// The response data, on success.
    pub data: Option<T>,
    /// A human-readable message.
    pub message: String,
    /// What went wrong, on failure.
    pub error: Option<ErrorDetails>,
    /// When the response was made (RFC 3339).
    pub timestamp: String,
}

/// What went wrong in a failed request.
#[derive(Debug)]
pub struct ErrorDetails {
    /// A machine-readable kind of error.
    pub error_type: String,
    /// The fields that failed validation, where that is the error.
    pub details: Option<Vec<FieldError>>,
}

/// A field that failed validation, with what was wrong with it.
#[derive(Debug)]
pub struct FieldError {
    pub field: String,
    pub message: String,
}

/// The shape of an RFC 3339 time written in UTC by `to_rfc3339`: at least
/// the 25 characters of `YYYY-MM-DDTHH:MM:SS+00:00`, ending in the offset
/// `+00:00`.
pub open spec fn utc_rfc3339_shape(s: Seq<char>) -> bool {
    s.len() >= 25 && s.subrange(s.len() - 6, s.len() as int) == "+00:00"@
}

/// `chrono::Utc::now().to_rfc3339()`. Claims only the shape of the text
/// (`utc_rfc3339_shape`): the zero offset is written `+00:00`, and the
/// date and time before it take at least 19 characters. Which time it
/// holds is left unsaid: it is the clock's.
#[verifier::external_body]
fn now_rfc3339() -> (r: String)
    ensures
        utc_rfc3339_shape(r@),
{
    chrono::Utc::now().to_rfc3339()
}

impl<T> ApiResponse<T> {
    /// A successful response carrying `data`.
    pub fn success(data: T, message: &str) -> (r: Self)
        ensures
            r.success,
            r.data == Some(data),
            r.message@ == message@,
            r.error is None,
            utc_rfc3339_shape(r.timestamp@),
    {
        ApiResponse {
            success: true,
            data: Some(data),
            message: owned(message),
            error: None,
            timestamp: now_rfc3339(),
        }
    }

    /// A successful response carrying `data`, with the default message.
    pub fn ok(data: T) -> (r: Self)
        ensures
            r.success,
            r.data == Some(data),
            r.message@ == "Request successful"@,
            r.error is None,
            utc_rfc3339_shape(r.timestamp@),
    {
        Self::success(data, "Request successful")
    }

    /// A failed response: no data, the message, and the kind of error with
    /// any field details.
    pub fn error(message: &str, error_type: &str, details: Option<Vec<FieldError>>) -> (r:
        ApiResponse<()>)
        ensures
            !r.success,
            r.data is None,
            r.message@ == message@,
            r.error matches Some(e) && e.error_type@ == error_type@ && e.details == details,
            utc_rfc3339_shape(r.timestamp@),
    {
        ApiResponse {
            success: false,
            data: None,
            message: owned(message),
            error: Some(ErrorDetails { error_type: owned(error_type), details }),
            timestamp: now_rfc3339(),
        }
    }
}

/// The HTTP status, kind and message with which a service error is
/// answered. A storage failure is not described to the caller.
pub open spec fn http_error(e: ServiceError) -> (u16, Seq<char>, Seq<char>) {
    match e {
        ServiceError::Validation { message } => (400, "validation_error"@, message@),
        ServiceError::NotFound { entity, identifier } => (
            404,
            "not_found"@,
            entity@ + " '"@ + identifier@ + "' not found"@,
        ),
        ServiceError::AlreadyExists { entity, identifier } => (
            409,
            "already_exists"@,
            entity@ + " '"@ + identifier@ + "' already exists"@,
        ),
        ServiceError::PermissionDenied { message } => (403, "permission_denied"@, message@),
        ServiceError::InvalidOperation { message } => (400, "invalid_operation"@, message@),
        ServiceError::Database { .. } => (500, "database_error"@, "Internal server error"@),
        ServiceError::ExternalService { message } => (502, "external_service_error"@, message@),
    }
}

fn quoted(entity: &str, identifier: &str, tail: &str) -> (r: String)
    ensures
        r@ == entity@ + " '"@ + identifier@ + tail@,
{
    let mut r = concat2(entity, " '");
    push_str(&mut r, identifier);
    push_str(&mut r, tail);
    r
}

/// Answers a service error: its HTTP status and a failed response with its
/// kind and message.
pub fn service_error_to_http(error: ServiceError) -> (r: (u16, ApiResponse<()>))
    ensures
        r.0 == http_error(error).0,
        !r.1.success,
        r.1.data is None,
        r.1.message@ == http_error(error).2,
        r.1.error matches Some(e) && e.error_type@ == http_error(error).1 && e.details is None,
{
    let (status, error_type, message): (u16, &str, String) = match error {
        ServiceError::Validation { message } => (400, "validation_error", message),
        ServiceError::NotFound { entity, identifier } => (
            404,
            "not_found",
            quoted(entity.as_str(), identifier.as_str(), "' not found"),
        ),
        ServiceError::AlreadyExists { entity, identifier } => (
            409,
            "already_exists",
            quoted(entity.as_str(), identifier.as_str(), "' already exists"),
        ),
        ServiceError::PermissionDenied { message } => (403, "permission_denied", message),
        ServiceError::InvalidOperation { message } => (400, "invalid_operation", message),
        ServiceError::Database { .. } => (500, "database_error", owned("Internal server error")),
        ServiceError::ExternalService { message } => (502, "external_service_error", message),
    };
    (status, ApiResponse::<()>::error(message.as_str(), error_type, None))
}

/// The message a failed rule shows: its own, or "Invalid value".
pub open spec fn shown_message(m: Option<String>) -> Seq<char> {
    match m {
        Some(t) => t@,
        None => "Invalid value"@,
    }
}

/// The field errors of one failed field, one per failed rule.
pub open spec fn field_entries(f: FieldErrors) -> Seq<(Seq<char>, Seq<char>)> {
    f.errors@.map_values(|e: crate::validation::ValidationError| (f.field@, shown_message(e.message)))
}

/// The field errors of a report, field by field.
pub open spec fn report_entries(fields: Seq<FieldErrors>) -> Seq<(Seq<char>, Seq<char>)>
    decreases fields.len(),
{
    if fields.len() == 0 {
        Seq::empty()
    } else {
        report_entries(fields.drop_last()) + field_entries(fields.last())
    }
}

/// The message a failed rule shows, as a value.
pub open spec fn shown_view(m: Option<Seq<char>>) -> Seq<char> {
    match m {
        Some(t) => t,
        None => "Invalid value"@,
    }
}

/// The field errors of a report given as values, field by field.
pub open spec fn view_entries(report: Seq<FieldView>) -> Seq<(Seq<char>, Seq<char>)>
    decreases report.len(),
{
    if report.len() == 0 {
        Seq::empty()
    } else {
        let f = report.last();
        view_entries(report.drop_last()) + f.1.map_values(|e: ErrorView| (f.0, shown_view(e.1)))
    }
}

/// The one-line message that lists the failed rules of a report: "field:
/// message" for each, separated by ", ".
pub open spec fn report_message(report: Seq<FieldView>) -> Seq<char> {
    joined_entries(view_entries(report))
}

/// Listing the failed rules of the fields gives the same entries as
/// listing those of the report they make.
pub proof fn lemma_report_entries(fields: Seq<FieldErrors>)
    ensures
        report_entries(fields) == view_entries(fields_view(fields)),
    decreases fields.len(),
{
    if fields.len() > 0 {
        lemma_report_entries(fields.drop_last());
        assert(fields_view(fields).drop_last() =~= fields_view(fields.drop_last()));
        let f = fields.last();
        assert(fields_view(fields).last() == field_view(f));
        assert(field_entries(f) =~= errors_view(f.errors@).map_values(
            |e: ErrorView| (f.field@, shown_view(e.1)),
        ));
    }
}

pub open spec fn field_error_view(e: FieldError) -> (Seq<char>, Seq<char>) {
    (e.field@, e.message@)
}

/// Lists the failed rules of a validation report as field errors, field
/// by field and rule by rule.
pub fn validation_errors_to_field_errors(errors: &ValidationErrors) -> (r: Vec<FieldError>)
    ensures
        r@.map_values(|e: FieldError| field_error_view(e)) == report_entries(errors.fields@),
{
    let mut out: Vec<FieldError> = Vec::new();
    let mut i: usize = 0;
    while i < errors.fields.len()
        invariant
            i <= errors.fields@.len(),
            out@.map_values(|e: FieldError| field_error_view(e)) == report_entries(
                errors.fields@.subrange(0, i as int),
            ),
        decreases errors.fields@.len() - i,
    {
        let f = &errors.fields[i];
        let ghost base = out@.map_values(|e: FieldError| field_error_view(e));
        let mut j: usize = 0;
        while j < f.errors.len()
            invariant
                j <= f.errors@.len(),
                out@.map_values(|e: FieldError| field_error_view(e)) == base + field_entries(
                    *f,
                ).subrange(0, j as int),
            decreases f.errors@.len() - j,
        {
            let message = match &f.errors[j].message {
                Some(m) => m.clone(),
                None => owned("Invalid value"),
            };
            let ghost prev = out@.map_values(|e: FieldError| field_error_view(e));
            let field = f.field.clone();
            assert(field@ == f.field@ && message@ == shown_message(f.errors@[j as int].message));
            out.push(FieldError { field, message });
            assert(out@.map_values(|e: FieldError| field_error_view(e)) =~= prev.push(
                field_error_view(out@.last()),
            ));
            assert(field_error_view(out@.last()) == field_entries(*f)[j as int]);
            assert(out@.map_values(|e: FieldError| field_error_view(e)) =~= base + field_entries(
                *f,
            ).subrange(0, j + 1));
            j = j + 1;
        }
        assert(field_entries(*f).subrange(0, f.errors@.len() as int) =~= field_entries(*f));
        assert(errors.fields@.subrange(0, i + 1).drop_last() =~= errors.fields@.subrange(
            0,
            i as int,
        ));
        i = i + 1;
    }
    assert(errors.fields@.subrange(0, errors.fields@.len() as int) =~= errors.fields@);
    out
}

/// Answers a failed validation: status 400 and a failed response listing
/// the failed fields.
pub fn validation_error_response(errors: &ValidationErrors) -> (r: (u16, ApiResponse<()>))
    ensures
        r.0 == 400,
        !r.1.success,
        r.1.data is None,
        r.1.message@ == "Validation failed"@,
        r.1.error matches Some(e) && e.error_type@ == "validation_error"@ && (e.details matches Some(
            d,
        ) && d@.map_values(|x: FieldError| field_error_view(x)) == report_entries(errors.fields@)),
{
    let field_errors = validation_errors_to_field_errors(errors);
    (400, ApiResponse::<()>::error("Validation failed", "validation_error", Some(field_errors)))
}

/// The entries of a report joined into one line: "field: message" for
/// each, separated by ", ".
pub open spec fn joined_entries(entries: Seq<(Seq<char>, Seq<char>)>) -> Seq<char>
    decreases entries.len(),
{
    if entries.len() == 0 {
        Seq::empty()
    } else if entries.len() == 1 {
        entries[0].0 + ": "@ + entries[0].1
    } else {
        joined_entries(entries.drop_last()) + ", "@ + entries.last().0 + ": "@ + entries.last().1
    }
}

/// The one-line summary of a validation report that services give as a
/// validation error.
pub fn validation_summary(errors: &ValidationErrors) -> (r: String)
    ensures
        r@ == joined_entries(report_entries(errors.fields@)),
        r@ == report_message(report_view(*errors)),
{
    proof {
        lemma_report_entries(errors.fields@);
    }
    let entries = validation_errors_to_field_errors(errors);
    let ghost ev = entries@.map_values(|e: FieldError| field_error_view(e));
    let mut out = String::new();
    let mut i: usize = 0;
    while i < entries.len()
        invariant
            i <= entries@.len(),
            ev == entries@.map_values(|e: FieldError| field_error_view(e)),
            out@ == joined_entries(ev.subrange(0, i as int)),
        decreases entries@.len() - i,
    {
        assert(ev.subrange(0, i + 1).drop_last() =~= ev.subrange(0, i as int));
        if i > 0 {
            push_str(&mut out, ", ");
        }
        push_str(&mut out, entries[i].field.as_str());
        push_str(&mut out, ": ");
        push_str(&mut out, entries[i].message.as_str());
        proof {
            if i == 0 {
                assert(out@ =~= ev.subrange(0, 1)[0].0 + ": "@ + ev.subrange(0, 1)[0].1);
            }
        }
        i = i + 1;
    }
    assert(ev.subrange(0, entries@.len() as int) =~= ev);
    out
}

/// The node implementations the API can talk to.
#[derive(Debug, Clone, Copy, PartialEq, Eq, Structural)]
pub enum NodeKind {
    Lnd,
    Cln,
}

/// Picks the node implementation named by a stored node type: "lnd" or
/// "cln"; any other is answered with status 400.
pub fn node_kind(node_type: &str) -> (r: Result<NodeKind, (u16, ApiResponse<()>)>)
    ensures
        node_type@ == "lnd"@ ==> r == Ok::<NodeKind, (u16, ApiResponse<()>)>(NodeKind::Lnd),
        node_type@ == "cln"@ ==> r == Ok::<NodeKind, (u16, ApiResponse<()>)>(NodeKind::Cln),
        node_type@ != "lnd"@ && node_type@ != "cln"@ ==> (r matches Err((status, resp)) && status
            == 400 && !resp.success && resp.message@ == "Unsupported node type"@ && (
        resp.error matches Some(e) && e.error_type@ == "unsupported_node_type"@ && e.details is None)),
{
    proof {
        reveal_strlit("lnd");
        reveal_strlit("cln");
        assert("cln"@[0] != "lnd"@[0]);
    }
    if str_eq(node_type, "lnd") {
        Ok(NodeKind::Lnd)
    } else if str_eq(node_type, "cln") {
        Ok(NodeKind::Cln)
    } else {
        Err((400, ApiResponse::<()>::error("Unsupported node type", "unsupported_node_type", None)))
    }
}

/// Reads a channel id given in a request path (a decimal number); one that
/// does not read is answered with status 400 and why.
pub fn channel_id_argument(text: &str) -> (r: Result<ShortChannelID, (u16, ApiResponse<()>)>)
    ensures
        match spec_parse_uint(text@, u64::MAX as nat) {
            Ok(v) => r == Ok::<ShortChannelID, (u16, ApiResponse<()>)>(ShortChannelID(v as u64)),
            Err(k) => r matches Err((status, resp)) && status == 400 && !resp.success
                && resp.message@ == "Invalid channel ID format: "@ + int_error_message(k) && (
            resp.error matches Some(e) && e.error_type@ == "invalid_channel_id"@ && e.details is None),
        },
{
    match ShortChannelID::from_str(text) {
        Ok(id) => Ok(id),
        Err(k) => {
            let message = concat2("Invalid channel ID format: ", k.message().as_str());
            Err((400, ApiResponse::<()>::error(message.as_str(), "invalid_channel_id", None)))
        },
    }
}

/// The answer to a request for an account's events: each stored event as a
/// response, in order, with the message "Events retrieved successfully".
pub fn events_listing(events: &Vec<Event>) -> (r: ApiResponse<EventListResponse>)
    ensures
        r.success,
        r.error is None,
        r.message@ == "Events retrieved successfully"@,
        r.data matches Some(list) && list.events@.len() == events@.len() && forall|i: int|
            0 <= i < events@.len() ==> is_response_of(#[trigger] list.events@[i], events@[i]),
{
    let list = EventListResponse { events: event_responses(events) };
    ApiResponse::success(list, "Events retrieved successfully")
}

/// The answer to a request for one event of an account: the first listed
/// event with the id, or status 404 with "Event not found" where none has it.
pub fn event_by_id(events: Vec<EventResponse>, id: &str) -> (r: Result<
    ApiResponse<EventResponse>,
    (u16, ApiResponse<()>),
>)
    ensures
        (r is Ok) == has_event_id(events@, id@),
        r matches Ok(resp) ==> resp.success && resp.error is None && resp.message@
            == "Event retrieved successfully"@ && exists|k: int|
            #[trigger] first_with_id(events@, id@, k) && resp.data == Some(events@[k]),
        r matches Err((status, resp)) ==> status == 404 && !resp.success && resp.message@
            == "Event not found"@ && (resp.error matches Some(e) && e.error_type@ == "not_found"@
            && e.details is None),
{
    match find_event(events, id) {
        Some(e) => Ok(ApiResponse::success(e, "Event retrieved successfully")),
        None => Err((404, ApiResponse::<()>::error("Event not found", "not_found", None))),
    }
}

/// A service error is answered with the HTTP status of its kind: 400 for
/// a validation failure or an invalid operation, 403 for a refused
/// permission, 404 for a missing entity, 409 for an existing one, 500 for
/// a storage failure (whose details are not shown) and 502 for a failing
/// outside service.
pub proof fn law_http_error_status(e: ServiceError)
    ensures
        e is Validation ==> http_error(e).0 == 400,
        e is InvalidOperation ==> http_error(e).0 == 400,
        e is PermissionDenied ==> http_error(e).0 == 403,
        e is NotFound ==> http_error(e).0 == 404,
        e is AlreadyExists ==> http_error(e).0 == 409,
        e is Database ==> http_error(e).0 == 500 && http_error(e).2 == "Internal server error"@,
        e is ExternalService ==> http_error(e).0 == 502,
{
}

} // verus!
