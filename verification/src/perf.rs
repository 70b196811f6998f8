//! Lightweight operation timing and error-context formatting.
//!
//! Wall-clock instants are opaque: nothing is assumed of their values, so
//! the timer's contracts speak only of the operation name it carries.

use vstd::prelude::*;
use vstd::string::StringExecFns;

use crate::text::views_of;

verus! {

/// Declares `std::time::Instant` as an opaque type: a timestamp the
/// library carries but never inspects.
#[verifier::external_type_specification]
#[verifier::external_body]
pub struct ExInstant(std::time::Instant);

/// Relies on `std::time::Instant::now`: an opaque timestamp of the moment
/// of the call; nothing is assumed of its value.
#[verifier::external_body]
fn instant_now() -> std::time::Instant {
    std::time::Instant::now()
}

/// Relies on `std::time::Instant::elapsed`: the opaque span since the
/// instant; nothing is assumed of its value.
#[verifier::external_body]
fn instant_elapsed(i: &std::time::Instant) -> core::time::Duration {
    i.elapsed()
}

/// A simple wall-clock timer for an operation.
pub struct Timer {
    start: std::time::Instant,
    /// What is being timed.
    pub operation: String,
}

impl Timer {
    /// Starts timing an operation.
    pub fn new(operation: &str) -> (r: Self)
    {
        Timer { start: instant_now(), operation: operation.to_owned() }
    }

    /// The time spent since the timer started; the span itself is opaque.
    pub fn elapsed(&self) -> core::time::Duration {
        instant_elapsed(&self.start)
    }
}

/// Context collected around an operation for richer error reports.
pub struct OperationContext {
    /// What was being attempted.
    pub operation: String,
    /// Details gathered along the way.
    pub details: Vec<String>,
}

/// The detail lines of an error report from index `k` on.
pub open spec fn spec_detail_lines(ds: Seq<Seq<char>>, k: int) -> Seq<char>
    decreases ds.len() - k,
{
    if k < 0 || k >= ds.len() {
        Seq::empty()
    } else {
        "\n   \u{2022} "@ + ds[k] + spec_detail_lines(ds, k + 1)
    }
}

/// The full error report: the failed operation, the error, and the
/// collected context when there is any.
pub open spec fn spec_format_error(op: Seq<char>, details: Seq<Seq<char>>, error: Seq<char>)
    -> Seq<char> {
    "\u{274c} Failed to "@ + op + ": "@ + error + if details.len() == 0 {
        Seq::<char>::empty()
    } else {
        "\n   Context:"@ + spec_detail_lines(details, 0)
    }
}

fn detail_lines_from(ds: &Vec<String>, k: usize) -> (r: String)
    ensures
        r@ == spec_detail_lines(views_of(ds@), k as int),
    decreases ds@.len() - k,
{
    if k >= ds.len() {
        String::new()
    } else {
        let mut s = "\n   \u{2022} ".to_owned();
        s.append(ds[k].as_str());
        let rest = detail_lines_from(ds, k + 1);
        s.append(rest.as_str());
        proof {
            assert(views_of(ds@)[k as int] == ds@[k as int]@);
        }
        s
    }
}

impl OperationContext {
    /// Opens a context for an operation.
    pub fn new(operation: &str) -> (r: Self)
        ensures
            r.operation@ == operation@,
            r.details@.len() == 0,
    {
        OperationContext { operation: operation.to_owned(), details: Vec::new() }
    }

    /// Records one detail.
    pub fn add_detail(&mut self, detail: &str)
        ensures
            final(self).operation == old(self).operation,
            views_of(final(self).details@) == views_of(old(self).details@).push(detail@),
    {
        self.details.push(detail.to_owned());
        proof {
            assert(views_of(self.details@) =~= views_of(old(self).details@).push(detail@));
        }
    }

    /// Renders the full error report for a failure of this operation.
    pub fn format_error(&self, error: &str) -> (r: String)
        ensures
            r@ == spec_format_error(self.operation@, views_of(self.details@), error@),
    {
        let mut s = "\u{274c} Failed to ".to_owned();
        s.append(self.operation.as_str());
        s.append(": ");
        s.append(error);
        if self.details.len() > 0 {
            s.append("\n   Context:");
            let lines = detail_lines_from(&self.details, 0);
            s.append(lines.as_str());
        } else {
            proof {
                assert(views_of(self.details@).len() == 0);
                assert(s@ + Seq::<char>::empty() =~= s@);
            }
        }
        s
    }
}

} // verus!
