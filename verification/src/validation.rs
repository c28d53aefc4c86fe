//! Field validation of request data: the rules a field can carry (a length
//! range, an email address), the errors they report, and how those errors
//! are grouped by field.
//!
//! An error has a code and, for the rules that carry one, a message. The
//! errors of a request are listed field by field, in the order in which the
//! request declares its fields; a field without errors is not listed.

use vstd::prelude::*;

use crate::text::owned;

verus! {

/// Whether the email check of the `validator` crate accepts `s`.
pub uninterp spec fn validator_email_valid(s: Seq<char>) -> bool;

/// `ValidateLength::validate_length` of the `validator` crate on a string,
/// with no exact length asked for. Claims: the length counted is the number
/// of characters, and it passes exactly when it is at least `min` and at
/// most `max`, each where given.
#[verifier::external_body]
fn validator_length(s: &str, min: Option<u64>, max: Option<u64>) -> (r: bool)
    ensures
        r == length_within(s@, min, max),
{
    validator::ValidateLength::<u64>::validate_length(s, min, max, None)
}

/// `ValidateEmail::validate_email` of the `validator` crate on a string.
/// Claims: the result is the named value, and an empty string or one
/// without an `@` is refused.
#[verifier::external_body]
fn validator_email(s: &str) -> (r: bool)
    ensures
        r == validator_email_valid(s@),
        (s@.len() == 0 || !s@.contains('@')) ==> !r,
{
    validator::ValidateEmail::validate_email(&s)
}

/// Whether the number of characters of `s` lies within the given bounds.
pub open spec fn length_within(s: Seq<char>, min: Option<u64>, max: Option<u64>) -> bool {
    &&& (min matches Some(lo) ==> s.len() >= lo)
    &&& (max matches Some(hi) ==> s.len() <= hi)
}

/// One failed rule: a code and, where the rule carries one, a message.
#[derive(Debug)]
pub struct ValidationError {
    pub code: String,
    pub message: Option<String>,
}

/// The failed rules of one field, in the order in which they are checked.
#[derive(Debug)]
pub struct FieldErrors {
    pub field: String,
    pub errors: Vec<ValidationError>,
}

/// The fields of a request that failed, in declaration order.
#[derive(Debug)]
pub struct ValidationErrors {
    pub fields: Vec<FieldErrors>,
}

/// A failed rule as a value: its code and message.
pub type ErrorView = (Seq<char>, Option<Seq<char>>);

/// A failed field as a value: its name and failed rules.
pub type FieldView = (Seq<char>, Seq<ErrorView>);

pub open spec fn error_view(e: ValidationError) -> ErrorView {
    (
        e.code@,
        match e.message {
            Some(m) => Some(m@),
            None => None,
        },
    )
}

pub open spec fn errors_view(v: Seq<ValidationError>) -> Seq<ErrorView> {
    v.map_values(|e: ValidationError| error_view(e))
}

pub open spec fn field_view(f: FieldErrors) -> FieldView {
    (f.field@, errors_view(f.errors@))
}

pub open spec fn fields_view(v: Seq<FieldErrors>) -> Seq<FieldView> {
    v.map_values(|f: FieldErrors| field_view(f))
}

/// The failed fields that a validation reports, as values.
pub open spec fn report_view(e: ValidationErrors) -> Seq<FieldView> {
    fields_view(e.fields@)
}

/// What a length rule reports of `s`.
pub open spec fn length_problem(
    s: Seq<char>,
    min: Option<u64>,
    max: Option<u64>,
    message: Seq<char>,
) -> Seq<ErrorView> {
    if length_within(s, min, max) {
        Seq::empty()
    } else {
        seq![("length"@, Some(message))]
    }
}

/// What an email rule reports of `s`.
pub open spec fn email_problem(s: Seq<char>, message: Seq<char>) -> Seq<ErrorView> {
    if validator_email_valid(s) {
        Seq::empty()
    } else {
        seq![("email"@, Some(message))]
    }
}

/// What a rule of the library's own reports: its code, without a message,
/// when it fails.
pub open spec fn custom_problem(fails: bool, code: Seq<char>) -> Seq<ErrorView> {
    if fails {
        seq![(code, None::<Seq<char>>)]
    } else {
        Seq::empty()
    }
}

/// The report after a field with the given failed rules is checked.
pub open spec fn with_field(acc: Seq<FieldView>, field: Seq<char>, errs: Seq<ErrorView>) -> Seq<
    FieldView,
> {
    if errs.len() == 0 {
        acc
    } else {
        acc.push((field, errs))
    }
}

/// The outcome of a validation with the given report.
pub open spec fn outcome_matches(r: Result<(), ValidationErrors>, report: Seq<FieldView>) -> bool {
    match r {
        Ok(()) => report.len() == 0,
        Err(e) => report.len() > 0 && report_view(e) == report,
    }
}

/// Checks a length rule, recording its error.
pub(crate) fn check_length(
    errs: &mut Vec<ValidationError>,
    s: &str,
    min: Option<u64>,
    max: Option<u64>,
    message: &str,
)
    ensures
        errors_view(final(errs)@) == errors_view(old(errs)@) + length_problem(
            s@,
            min,
            max,
            message@,
        ),
{
    let ghost before = errs@;
    if !validator_length(s, min, max) {
        errs.push(ValidationError { code: owned("length"), message: Some(owned(message)) });
        proof {
            reveal_strlit("length");
            assert(errors_view(errs@) =~= errors_view(before) + length_problem(
                s@,
                min,
                max,
                message@,
            ));
        }
    } else {
        assert(errors_view(errs@) =~= errors_view(before) + length_problem(s@, min, max, message@));
    }
}

/// Checks an email rule, recording its error.
pub(crate) fn check_email(errs: &mut Vec<ValidationError>, s: &str, message: &str)
    ensures
        errors_view(final(errs)@) == errors_view(old(errs)@) + email_problem(s@, message@),
{
    let ghost before = errs@;
    if !validator_email(s) {
        errs.push(ValidationError { code: owned("email"), message: Some(owned(message)) });
        proof {
            reveal_strlit("email");
            assert(errors_view(errs@) =~= errors_view(before) + email_problem(s@, message@));
        }
    } else {
        assert(errors_view(errs@) =~= errors_view(before) + email_problem(s@, message@));
    }
}

/// Records the failure of a rule of the library's own, under `code`.
pub(crate) fn check_custom(errs: &mut Vec<ValidationError>, fails: bool, code: &str)
    ensures
        errors_view(final(errs)@) == errors_view(old(errs)@) + custom_problem(fails, code@),
{
    let ghost before = errs@;
    if fails {
        errs.push(ValidationError { code: owned(code), message: None });
        assert(errors_view(errs@) =~= errors_view(before) + custom_problem(fails, code@));
    } else {
        assert(errors_view(errs@) =~= errors_view(before) + custom_problem(fails, code@));
    }
}

/// An empty list of failed rules.
pub(crate) fn no_errors() -> (v: Vec<ValidationError>)
    ensures
        errors_view(v@) == Seq::<ErrorView>::empty(),
{
    let v: Vec<ValidationError> = Vec::new();
    assert(errors_view(v@) =~= Seq::<ErrorView>::empty());
    v
}

/// An empty list of failed fields.
pub(crate) fn no_fields() -> (v: Vec<FieldErrors>)
    ensures
        fields_view(v@) == Seq::<FieldView>::empty(),
{
    let v: Vec<FieldErrors> = Vec::new();
    assert(fields_view(v@) =~= Seq::<FieldView>::empty());
    v
}

/// Lists a field with its failed rules, if any failed.
pub(crate) fn add_field(fields: &mut Vec<FieldErrors>, field: &str, errs: Vec<ValidationError>)
    ensures
        fields_view(final(fields)@) == with_field(fields_view(old(fields)@), field@, errors_view(errs@)),
{
    let ghost before = fields@;
    if errs.len() > 0 {
        let ghost ev = errors_view(errs@);
        fields.push(FieldErrors { field: owned(field), errors: errs });
        assert(fields_view(fields@) =~= fields_view(before).push((field@, ev)));
    } else {
        assert(errors_view(errs@) =~= Seq::<ErrorView>::empty());
    }
}

/// The outcome of a validation: success when no field failed.
pub(crate) fn finish(fields: Vec<FieldErrors>) -> (r: Result<(), ValidationErrors>)
    ensures
        outcome_matches(r, fields_view(fields@)),
{
    if fields.len() == 0 {
        Ok(())
    } else {
        Err(ValidationErrors { fields })
    }
}

/// Whether the report lists `field` with the failed rule `err`.
pub open spec fn lists_error(report: Seq<FieldView>, field: Seq<char>, err: ErrorView) -> bool {
    exists|k: int| 0 <= k < report.len() && #[trigger] report[k].0 == field && report[k].1.contains(err)
}

/// Whether a validation failed and reported `field` with the failed rule of
/// code `code` and message `message`.
pub open spec fn rejects_field(
    r: Result<(), ValidationErrors>,
    field: Seq<char>,
    code: Seq<char>,
    message: Option<Seq<char>>,
) -> bool {
    r matches Err(e) && lists_error(report_view(e), field, (code, message))
}

/// Adding a field to a report keeps what it listed, and lists the field
/// with each of its failed rules.
pub proof fn lemma_with_field_lists(
    acc: Seq<FieldView>,
    field: Seq<char>,
    errs: Seq<ErrorView>,
    other: Seq<char>,
    err: ErrorView,
)
    ensures
        lists_error(acc, other, err) ==> lists_error(with_field(acc, field, errs), other, err),
        errs.contains(err) ==> lists_error(with_field(acc, field, errs), field, err),
{
    let out = with_field(acc, field, errs);
    if lists_error(acc, other, err) {
        let k = choose|k: int|
            0 <= k < acc.len() && #[trigger] acc[k].0 == other && acc[k].1.contains(err);
        if errs.len() > 0 {
            assert(out[k] == acc[k]);
        }
        assert(out[k].0 == other);
    }
    if errs.contains(err) {
        let k = acc.len() as int;
        assert(out[k] == (field, errs));
        assert(out[k].0 == field && out[k].1.contains(err));
    }
}

/// A failed validation lists a field only where its report does.
pub proof fn lemma_rejects_from_report(
    r: Result<(), ValidationErrors>,
    report: Seq<FieldView>,
    field: Seq<char>,
    err: ErrorView,
)
    requires
        outcome_matches(r, report),
        lists_error(report, field, err),
    ensures
        rejects_field(r, field, err.0, err.1),
{
    let k = choose|k: int|
        0 <= k < report.len() && #[trigger] report[k].0 == field && report[k].1.contains(err);
    assert(report.len() > 0);
}

/// The report made by checking the fields in order, each with its failed
/// rules.
pub open spec fn report_of_checks(checks: Seq<FieldView>) -> Seq<FieldView>
    decreases checks.len(),
{
    if checks.len() == 0 {
        Seq::empty()
    } else {
        with_field(report_of_checks(checks.drop_last()), checks.last().0, checks.last().1)
    }
}

/// A field checked with a failed rule is listed with that rule.
pub proof fn lemma_checks_list(checks: Seq<FieldView>, i: int, err: ErrorView)
    requires
        0 <= i < checks.len(),
        checks[i].1.contains(err),
    ensures
        lists_error(report_of_checks(checks), checks[i].0, err),
    decreases checks.len(),
{
    let last = checks.last();
    let rest = checks.drop_last();
    if i == checks.len() - 1 {
        lemma_with_field_lists(report_of_checks(rest), last.0, last.1, last.0, err);
    } else {
        assert(rest[i] == checks[i]);
        lemma_checks_list(rest, i, err);
        lemma_with_field_lists(report_of_checks(rest), last.0, last.1, checks[i].0, err);
    }
}

/// The report is empty exactly when no checked field has a failed rule.
pub proof fn lemma_checks_empty(checks: Seq<FieldView>)
    ensures
        (report_of_checks(checks).len() == 0) == (forall|i: int|
            0 <= i < checks.len() ==> (#[trigger] checks[i]).1.len() == 0),
    decreases checks.len(),
{
    if checks.len() > 0 {
        let rest = checks.drop_last();
        lemma_checks_empty(rest);
        assert forall|i: int| 0 <= i < rest.len() implies (#[trigger] rest[i]) == checks[i] by {}
        if report_of_checks(checks).len() == 0 {
            assert forall|i: int| 0 <= i < checks.len() implies (#[trigger] checks[i]).1.len()
                == 0 by {
                if i < rest.len() {
                    assert(rest[i] == checks[i]);
                }
            }
        }
    }
}

/// A rule failed in either part of a field's rules is among them.
pub proof fn lemma_contains_concat(a: Seq<ErrorView>, b: Seq<ErrorView>, err: ErrorView)
    requires
        a.contains(err) || b.contains(err),
    ensures
        (a + b).contains(err),
{
    if a.contains(err) {
        let k = choose|k: int| 0 <= k < a.len() && a[k] == err;
        assert((a + b)[k] == err);
    } else {
        let k = choose|k: int| 0 <= k < b.len() && b[k] == err;
        assert((a + b)[a.len() + k] == err);
    }
}

} // verus!
