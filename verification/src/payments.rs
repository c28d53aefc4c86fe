//! Listing payments through the API: their status as the API names it, and
//! how a list of payments is filtered and paged.
//!
//! Times are nanoseconds since the Unix epoch. A payment's amount takes
//! part in filtering as a whole number (its amount with any fraction
//! dropped).

use vstd::prelude::*;

use crate::text::{concat2, owned, str_eq};

verus! {

/// `str::trim` of `s`: without leading and trailing whitespace.
pub uninterp spec fn std_trim(s: Seq<char>) -> Seq<char>;

/// `str::to_lowercase` of `s`.
pub uninterp spec fn std_to_lowercase(s: Seq<char>) -> Seq<char>;

/// Whether a character is an ASCII letter or digit.
pub open spec fn ascii_alnum(c: char) -> bool {
    ('a' <= c <= 'z') || ('A' <= c <= 'Z') || ('0' <= c <= '9')
}

/// `str::trim`. Claims: the named value; a string that begins and ends
/// with an ASCII letter or digit has nothing to trim.
#[verifier::external_body]
fn str_trim<'a>(s: &'a str) -> (r: &'a str)
    ensures
        r@ == std_trim(s@),
        (s@.len() > 0 && ascii_alnum(s@[0]) && ascii_alnum(s@.last())) ==> r@ == s@,
{
    s.trim()
}

/// `str::to_lowercase`. Claims: the named value; a string of ASCII
/// lowercase letters is its own lowercase.
#[verifier::external_body]
fn str_to_lowercase(s: &str) -> (r: String)
    ensures
        r@ == std_to_lowercase(s@),
        (forall|i: int| 0 <= i < s@.len() ==> 'a' <= #[trigger] s@[i] <= 'z') ==> r@ == s@,
{
    s.to_lowercase()
}

/// The status of a payment, as the API reports it.
#[derive(Debug, Clone, Copy, PartialEq, Eq, Structural)]
pub enum PaymentStatus {
    Pending,
    Processing,
    Completed,
    Failed,
}

/// The API's name of a payment status.
pub open spec fn payment_status_name(s: PaymentStatus) -> Seq<char> {
    match s {
        PaymentStatus::Pending => "pending"@,
        PaymentStatus::Processing => "processing"@,
        PaymentStatus::Completed => "completed"@,
        PaymentStatus::Failed => "failed"@,
    }
}

/// The status named by a text, read without surrounding whitespace and
/// case.
pub open spec fn payment_status_parse(s: Seq<char>) -> Option<PaymentStatus> {
    let t = std_to_lowercase(std_trim(s));
    if t == "pending"@ {
        Some(PaymentStatus::Pending)
    } else if t == "processing"@ {
        Some(PaymentStatus::Processing)
    } else if t == "completed"@ {
        Some(PaymentStatus::Completed)
    } else if t == "failed"@ {
        Some(PaymentStatus::Failed)
    } else {
        None
    }
}

impl Default for PaymentStatus {
    /// The status a payment has when none is given: pending.
    fn default() -> (r: PaymentStatus)
        ensures
            r == PaymentStatus::Pending,
    {
        PaymentStatus::Pending
    }
}

impl PaymentStatus {
    /// The API's name of the status.
    pub fn name(&self) -> (r: String)
        ensures
            r@ == payment_status_name(*self),
    {
        match self {
            PaymentStatus::Pending => owned("pending"),
            PaymentStatus::Processing => owned("processing"),
            PaymentStatus::Completed => owned("completed"),
            PaymentStatus::Failed => owned("failed"),
        }
    }

    /// Reads a status from text, ignoring surrounding whitespace and case.
    /// Reading the name of a status gives that status.
    pub fn from_str(s: &str) -> (r: Result<PaymentStatus, String>)
        ensures
            match payment_status_parse(s@) {
                Some(v) => r == Ok::<PaymentStatus, String>(v),
                None => r matches Err(e) && e@ == "Unknown payment status: "@ + s@,
            },
            forall|p: PaymentStatus| s@ == payment_status_name(p) ==> r == Ok::<
                PaymentStatus,
                String,
            >(p),
    {
        proof {
            reveal_strlit("pending");
            reveal_strlit("processing");
            reveal_strlit("completed");
            reveal_strlit("failed");
        }
        let t = str_to_lowercase(str_trim(s));
        let r = if str_eq(t.as_str(), "pending") {
            Ok(PaymentStatus::Pending)
        } else if str_eq(t.as_str(), "processing") {
            Ok(PaymentStatus::Processing)
        } else if str_eq(t.as_str(), "completed") {
            Ok(PaymentStatus::Completed)
        } else if str_eq(t.as_str(), "failed") {
            Ok(PaymentStatus::Failed)
        } else {
            Err(concat2("Unknown payment status: ", s))
        };
        r
    }
}

/// A comparison of an amount with a value.
#[derive(Debug, Clone, Copy, PartialEq, Eq, Structural)]
pub enum NumericOperator {
    Gte,
    Lte,
    Eq,
    Gt,
    Lt,
}

/// Whether `amount` compares with `value` as the operator asks.
pub open spec fn operator_holds(op: NumericOperator, amount: i64, value: i64) -> bool {
    match op {
        NumericOperator::Gte => amount >= value,
        NumericOperator::Lte => amount <= value,
        NumericOperator::Eq => amount == value,
        NumericOperator::Gt => amount > value,
        NumericOperator::Lt => amount < value,
    }
}

impl NumericOperator {
    /// Compares `amount` with `value`.
    pub fn holds(&self, amount: i64, value: i64) -> (r: bool)
        ensures
            r == operator_holds(*self, amount, value),
    {
        match self {
            NumericOperator::Gte => amount >= value,
            NumericOperator::Lte => amount <= value,
            NumericOperator::Eq => amount == value,
            NumericOperator::Gt => amount > value,
            NumericOperator::Lt => amount < value,
        }
    }
}

/// What the filter reads of one payment.
#[derive(Debug, Clone, Copy, PartialEq, Eq, Structural)]
pub struct PaymentEntry {
    /// The amount, any fraction dropped.
    pub amount: i64,
    pub status: PaymentStatus,
    /// Nanoseconds since the epoch.
    pub created_at: i128,
}

/// Which payments to list, and which page of them.
#[derive(Debug, Clone)]
pub struct PaymentFilter {
    /// Only payments in one of these states.
    pub states: Option<Vec<PaymentStatus>>,
    /// With `value`, only payments whose amount compares so with it.
    pub operator: Option<NumericOperator>,
    pub value: Option<i64>,
    /// Only payments made at or after this time.
    pub from: Option<i128>,
    /// Only payments made at or before this time.
    pub to: Option<i128>,
    /// The page, counted from 1 (default 1).
    pub page: Option<u32>,
    /// Payments per page (default 20).
    pub per_page: Option<u32>,
}

/// Whether the filter keeps a payment.
pub open spec fn payment_kept(p: PaymentEntry, f: PaymentFilter) -> bool {
    &&& (f.states matches Some(s) ==> s@.contains(p.status))
    &&& ((f.operator is Some && f.value is Some) ==> operator_holds(
        f.operator->Some_0,
        p.amount,
        f.value->Some_0,
    ))
    &&& (f.from matches Some(t) ==> p.created_at >= t)
    &&& (f.to matches Some(t) ==> p.created_at <= t)
}

/// The positions of the payments the filter keeps, in order.
pub open spec fn kept_positions(ps: Seq<PaymentEntry>, f: PaymentFilter) -> Seq<int>
    decreases ps.len(),
{
    if ps.len() == 0 {
        Seq::empty()
    } else if payment_kept(ps.last(), f) {
        kept_positions(ps.drop_last(), f).push(ps.len() - 1)
    } else {
        kept_positions(ps.drop_last(), f)
    }
}

/// The filter lists exactly the payments it keeps, each once, in order.
pub proof fn lemma_kept_positions(ps: Seq<PaymentEntry>, f: PaymentFilter)
    ensures
        kept_positions(ps, f).len() <= ps.len(),
        forall|k: int|
            0 <= k < kept_positions(ps, f).len() ==> 0 <= #[trigger] kept_positions(ps, f)[k]
                < ps.len() && payment_kept(ps[kept_positions(ps, f)[k]], f),
        forall|k: int, l: int|
            0 <= k < l < kept_positions(ps, f).len() ==> #[trigger] kept_positions(ps, f)[k]
                < #[trigger] kept_positions(ps, f)[l],
        forall|i: int| 0 <= i < ps.len() && payment_kept(ps[i], f) ==> kept_positions(ps, f).contains(i),
    decreases ps.len(),
{
    if ps.len() > 0 {
        let rest = ps.drop_last();
        lemma_kept_positions(rest, f);
        let prev = kept_positions(rest, f);
        assert forall|k: int| 0 <= k < prev.len() implies ps[prev[k]] == rest[prev[k]] by {}
        assert forall|i: int| 0 <= i < ps.len() && payment_kept(ps[i], f) implies kept_positions(
            ps,
            f,
        ).contains(i) by {
            if i < ps.len() - 1 {
                assert(rest[i] == ps[i]);
                assert(prev.contains(i));
                let k = choose|k: int| 0 <= k < prev.len() && prev[k] == i;
                assert(kept_positions(ps, f)[k] == i);
            } else {
                assert(kept_positions(ps, f)[kept_positions(ps, f).len() - 1] == i);
            }
        }
    }
}

pub open spec fn page_number(f: PaymentFilter) -> int {
    match f.page {
        Some(p) => p as int,
        None => 1,
    }
}

pub open spec fn page_size(f: PaymentFilter) -> int {
    match f.per_page {
        Some(p) => p as int,
        None => 20,
    }
}

/// The part of `s` that page `page` of size `size` shows.
pub open spec fn page_of(s: Seq<int>, page: int, size: int) -> Seq<int> {
    let start = (page - 1) * size;
    if start >= s.len() {
        Seq::empty()
    } else if start + size >= s.len() {
        s.subrange(start, s.len() as int)
    } else {
        s.subrange(start, start + size)
    }
}

/// The pages the filter asks for start within reach of a `u32`.
pub open spec fn page_in_range(f: PaymentFilter) -> bool {
    page_number(f) >= 1 && (page_number(f) - 1) * page_size(f) <= u32::MAX
}

fn status_listed(states: &Vec<PaymentStatus>, s: PaymentStatus) -> (r: bool)
    ensures
        r == states@.contains(s),
{
    let mut i: usize = 0;
    while i < states.len()
        invariant
            i <= states@.len(),
            forall|j: int| 0 <= j < i ==> states@[j] != s,
        decreases states@.len() - i,
    {
        if states[i] == s {
            return true;
        }
        i = i + 1;
    }
    false
}

fn kept(p: &PaymentEntry, f: &PaymentFilter) -> (r: bool)
    ensures
        r == payment_kept(*p, *f),
{
    let by_state = match &f.states {
        Some(s) => status_listed(s, p.status),
        None => true,
    };
    let by_amount = match (f.operator, f.value) {
        (Some(op), Some(v)) => op.holds(p.amount, v),
        _ => true,
    };
    let by_from = match f.from {
        Some(t) => p.created_at >= t,
        None => true,
    };
    let by_to = match f.to {
        Some(t) => p.created_at <= t,
        None => true,
    };
    by_state && by_amount && by_from && by_to
}

/// Filters the payments and picks the asked page: the positions of the
/// payments shown, in order, and how many payments the filter keeps in
/// all.
pub fn filter_payments(payments: &Vec<PaymentEntry>, filter: &PaymentFilter) -> (r: (
    Vec<usize>,
    u64,
))
    requires
        page_in_range(*filter),
    ensures
        r.0@.map_values(|i: usize| i as int) == page_of(
            kept_positions(payments@, *filter),
            page_number(*filter),
            page_size(*filter),
        ),
        r.1 == kept_positions(payments@, *filter).len(),
{
    let mut all: Vec<usize> = Vec::new();
    let mut i: usize = 0;
    while i < payments.len()
        invariant
            i <= payments@.len(),
            all@.map_values(|k: usize| k as int) == kept_positions(
                payments@.subrange(0, i as int),
                *filter,
            ),
            all@.len() <= i,
        decreases payments@.len() - i,
    {
        let ghost prev = all@.map_values(|k: usize| k as int);
        assert(payments@.subrange(0, i + 1).drop_last() =~= payments@.subrange(0, i as int));
        if kept(&payments[i], filter) {
            all.push(i);
            assert(all@.map_values(|k: usize| k as int) =~= prev.push(i as int));
        }
        i = i + 1;
    }
    assert(payments@.subrange(0, payments@.len() as int) =~= payments@);
    let ghost ks = all@.map_values(|k: usize| k as int);
    let page: u32 = match filter.page {
        Some(p) => p,
        None => 1,
    };
    let per_page: u32 = match filter.per_page {
        Some(p) => p,
        None => 20,
    };
    assert((page - 1) * per_page <= u32::MAX);
    let offset: u32 = (page - 1) * per_page;
    let total = all.len();
    let mut shown: Vec<usize> = Vec::new();
    let start: usize = if offset as usize >= total {
        total
    } else {
        offset as usize
    };
    let end: usize = if total - start <= per_page as usize {
        total
    } else {
        start + per_page as usize
    };
    let mut j: usize = start;
    assert(shown@.map_values(|k: usize| k as int) =~= ks.subrange(start as int, start as int));
    while j < end
        invariant
            start <= j <= end,
            end <= total,
            total == all@.len(),
            ks == all@.map_values(|k: usize| k as int),
            shown@.map_values(|k: usize| k as int) == ks.subrange(start as int, j as int),
        decreases end - j,
    {
        let ghost prev = shown@.map_values(|k: usize| k as int);
        let k = all[j];
        assert(k as int == ks[j as int]);
        shown.push(k);
        assert(shown@.map_values(|k: usize| k as int) =~= prev.push(k as int));
        assert(shown@.map_values(|k: usize| k as int) =~= ks.subrange(start as int, j + 1));
        j = j + 1;
    }
    proof {
        if offset as usize >= total {
            assert(ks.subrange(start as int, start as int) =~= Seq::<int>::empty());
        }
    }
    (shown, total as u64)
}

/// Each comparison keeps the amounts its name says: at least, at most,
/// equal to, more than and less than the value.
pub proof fn law_operator_comparisons(amount: i64, value: i64)
    ensures
        operator_holds(NumericOperator::Gte, amount, value) == (amount >= value),
        operator_holds(NumericOperator::Lte, amount, value) == (amount <= value),
        operator_holds(NumericOperator::Eq, amount, value) == (amount == value),
        operator_holds(NumericOperator::Gt, amount, value) == (amount > value),
        operator_holds(NumericOperator::Lt, amount, value) == (amount < value),
{
}

/// A payment passes the filter exactly when it is in one of the asked
/// states, its amount compares with the value as the operator asks (where
/// both are given), and it was made within the asked time range (bounds
/// included).
pub proof fn law_payment_kept(p: PaymentEntry, f: PaymentFilter)
    ensures
        payment_kept(p, f) == ({
            &&& (f.states matches Some(s) ==> s@.contains(p.status))
            &&& match (f.operator, f.value) {
                (Some(NumericOperator::Gte), Some(v)) => p.amount >= v,
                (Some(NumericOperator::Lte), Some(v)) => p.amount <= v,
                (Some(NumericOperator::Eq), Some(v)) => p.amount == v,
                (Some(NumericOperator::Gt), Some(v)) => p.amount > v,
                (Some(NumericOperator::Lt), Some(v)) => p.amount < v,
                _ => true,
            }
            &&& (f.from matches Some(t) ==> t <= p.created_at)
            &&& (f.to matches Some(t) ==> p.created_at <= t)
        }),
{
}

/// Where the filter keeps every payment, it keeps them all, in order.
pub proof fn lemma_all_kept(ps: Seq<PaymentEntry>, f: PaymentFilter)
    requires
        forall|i: int| 0 <= i < ps.len() ==> payment_kept(#[trigger] ps[i], f),
    ensures
        kept_positions(ps, f) == Seq::new(ps.len(), |i: int| i),
    decreases ps.len(),
{
    if ps.len() > 0 {
        let rest = ps.drop_last();
        assert forall|i: int| 0 <= i < rest.len() implies payment_kept(#[trigger] rest[i], f) by {
            assert(rest[i] == ps[i]);
        }
        lemma_all_kept(rest, f);
        assert(payment_kept(ps[ps.len() - 1], f));
        assert(kept_positions(ps, f) =~= Seq::new(ps.len(), |i: int| i));
    }
}

/// What a filtered page shows (`shown`, with `total` kept in all, as
/// `filter_payments` gives them): positions of payments that pass the
/// filter, in increasing order, at most a page of them; where nothing is
/// filtered out, all payments count; and the first page, when all kept
/// payments fit on it, shows every payment that passes.
pub proof fn law_filtered_page(
    ps: Seq<PaymentEntry>,
    f: PaymentFilter,
    shown: Seq<int>,
    total: int,
)
    requires
        page_in_range(f),
        shown == page_of(kept_positions(ps, f), page_number(f), page_size(f)),
        total == kept_positions(ps, f).len(),
    ensures
        forall|k: int|
            0 <= k < shown.len() ==> 0 <= #[trigger] shown[k] < ps.len() && payment_kept(
                ps[shown[k]],
                f,
            ),
        forall|k: int, l: int| 0 <= k < l < shown.len() ==> #[trigger] shown[k] < #[trigger] shown[l],
        shown.len() <= page_size(f),
        total <= ps.len(),
        (forall|i: int| 0 <= i < ps.len() ==> payment_kept(#[trigger] ps[i], f)) ==> total == ps.len(),
        page_number(f) == 1 && total <= page_size(f) ==> forall|i: int|
            0 <= i < ps.len() && payment_kept(#[trigger] ps[i], f) ==> shown.contains(i),
{
    let all = kept_positions(ps, f);
    lemma_kept_positions(ps, f);
    let start = (page_number(f) - 1) * page_size(f);
    assert(start >= 0) by (nonlinear_arith)
        requires
            page_number(f) >= 1,
            page_size(f) >= 0,
            start == (page_number(f) - 1) * page_size(f),
    ;
    assert forall|k: int| 0 <= k < shown.len() implies all[start + k] == #[trigger] shown[k] by {}
    assert forall|k: int| 0 <= k < shown.len() implies 0 <= #[trigger] shown[k] < ps.len()
        && payment_kept(ps[shown[k]], f) by {
        assert(all[start + k] == shown[k]);
    }
    assert forall|k: int, l: int| 0 <= k < l < shown.len() implies #[trigger] shown[k]
        < #[trigger] shown[l] by {
        assert(all[start + k] == shown[k]);
        assert(all[start + l] == shown[l]);
    }
    if forall|i: int| 0 <= i < ps.len() ==> payment_kept(#[trigger] ps[i], f) {
        lemma_all_kept(ps, f);
    }
    if page_number(f) == 1 && total <= page_size(f) {
        assert(start == 0) by (nonlinear_arith)
            requires
                page_number(f) == 1,
                start == (page_number(f) - 1) * page_size(f),
        ;
        if all.len() > 0 {
            assert(shown == all.subrange(0, all.len() as int));
        }
        assert(shown =~= all);
    }
}

/// Each payment status goes by its lowercase name.
pub proof fn law_payment_status_names(s: PaymentStatus)
    ensures
        s is Pending ==> payment_status_name(s) == "pending"@,
        s is Processing ==> payment_status_name(s) == "processing"@,
        s is Completed ==> payment_status_name(s) == "completed"@,
        s is Failed ==> payment_status_name(s) == "failed"@,
{
}

/// Without a page the first is shown, and without a page size twenty
/// payments make a page; the page shown is the run of kept payments that
/// starts after the earlier pages, as long as a page or as what is left.
pub proof fn law_page_window(ps: Seq<PaymentEntry>, f: PaymentFilter, shown: Seq<int>)
    requires
        page_in_range(f),
        shown == page_of(kept_positions(ps, f), page_number(f), page_size(f)),
    ensures
        f.page is None ==> page_number(f) == 1,
        f.page matches Some(p) ==> page_number(f) == p,
        f.per_page is None ==> page_size(f) == 20,
        f.per_page matches Some(n) ==> page_size(f) == n,
        ({
            let all = kept_positions(ps, f);
            let start = (page_number(f) - 1) * page_size(f);
            &&& shown.len() == (if start >= all.len() {
                0
            } else if all.len() - start <= page_size(f) {
                all.len() - start
            } else {
                page_size(f)
            })
            &&& forall|k: int| 0 <= k < shown.len() ==> #[trigger] shown[k] == all[start + k]
        }),
{
    let start = (page_number(f) - 1) * page_size(f);
    assert(start >= 0) by (nonlinear_arith)
        requires
            page_number(f) >= 1,
            page_size(f) >= 0,
            start == (page_number(f) - 1) * page_size(f),
    ;
}

} // verus!
