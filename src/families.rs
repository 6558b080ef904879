//! Two error families, each laid out as a family declaration expands: a
//! detail enum with one tag per variant in declaration order, one record per
//! variant (with a `source` field exactly where the variant has a cause), a
//! message per variant and one for the family that dispatches on the tag, and
//! one constructor per variant.
use vstd::prelude::*;
use vstd::string::StringExecFns;
use crate::decimal::{decimal_spec, push_decimal};
use crate::report::ErrorReport;
use crate::source::DisplayError;
use crate::tracer::{ErrorMessage, ErrorMessageTracer, StringTracer};

verus! {

/// Errors of the storage layer.
pub type FooError = ErrorReport<FooErrorDetail, StringTracer>;

pub enum FooErrorDetail {
    Bar(BarSubdetail),
    Baz(BazSubdetail),
}

/// A failure with a code, caused by an error known only by its message.
pub struct BarSubdetail {
    pub code: u32,
    pub source: String,
}

/// A failure with no cause and some extra text.
pub struct BazSubdetail {
    pub extra: String,
}

/// The detail of a `Bar` error.
pub open spec fn bar_detail(code: u32, source: String) -> FooErrorDetail {
    FooErrorDetail::Bar(BarSubdetail { code, source })
}

pub open spec fn bar_message(code: u32) -> Seq<char> {
    "Bar error with code "@ + decimal_spec(code as nat)
}

pub open spec fn baz_message(extra: Seq<char>) -> Seq<char> {
    "General Baz error with extra detail: "@ + extra
}

impl ErrorMessage for BarSubdetail {
    open spec fn message_view(&self) -> Seq<char> {
        bar_message(self.code)
    }

    fn message(&self) -> (r: String) {
        let mut s = String::from_str("Bar error with code ");
        push_decimal(&mut s, self.code);
        s
    }
}

impl ErrorMessage for BazSubdetail {
    open spec fn message_view(&self) -> Seq<char> {
        baz_message(self.extra@)
    }

    fn message(&self) -> (r: String) {
        String::from_str("General Baz error with extra detail: ").concat(self.extra.as_str())
    }
}

impl ErrorMessage for FooErrorDetail {
    open spec fn message_view(&self) -> Seq<char> {
        match self {
            FooErrorDetail::Bar(e) => e.message_view(),
            FooErrorDetail::Baz(e) => e.message_view(),
        }
    }

    fn message(&self) -> (r: String) {
        match self {
            FooErrorDetail::Bar(e) => e.message(),
            FooErrorDetail::Baz(e) => e.message(),
        }
    }
}

/// A `Bar` error caused by `source`, whose message does not enter the trace.
pub fn bar_error(code: u32, source: String) -> (r: FooError)
    ensures
        r.detail == FooErrorDetail::Bar(BarSubdetail { code, source }),
        r.trace.history() == seq![bar_message(code)],
{
    ErrorReport::trace_from::<DisplayError<String>, _>(
        source,
        (move |source_detail: String| -> (d: FooErrorDetail)
            ensures
                d == bar_detail(code, source_detail),
            { FooErrorDetail::Bar(BarSubdetail { code, source: source_detail }) }),
    )
}

/// A `Baz` error, with no cause.
pub fn baz_error(extra: String) -> (r: FooError)
    ensures
        r.detail == FooErrorDetail::Baz(BazSubdetail { extra }),
        r.trace.history() == seq![baz_message(extra@)],
{
    ErrorReport::new(FooErrorDetail::Baz(BazSubdetail { extra }))
}

/// Errors of the synchronisation layer, built on those of the storage layer.
pub type QuuxError = ErrorReport<QuuxErrorDetail, StringTracer>;

pub enum QuuxErrorDetail {
    Foo(FooSubdetail),
    Interrupted(InterruptedSubdetail),
}

/// A failure during some action, caused by a storage error.
pub struct FooSubdetail {
    pub action: String,
    pub source: FooErrorDetail,
}

/// A failure with neither fields nor cause.
pub struct InterruptedSubdetail {}

/// The detail of a `Foo` error.
pub open spec fn foo_detail(action: String, source: FooErrorDetail) -> QuuxErrorDetail {
    QuuxErrorDetail::Foo(FooSubdetail { action, source })
}

pub open spec fn foo_message(action: Seq<char>) -> Seq<char> {
    "error arose from Foo during "@ + action
}

pub open spec fn interrupted_message() -> Seq<char> {
    "operation interrupted"@
}

impl ErrorMessage for FooSubdetail {
    open spec fn message_view(&self) -> Seq<char> {
        foo_message(self.action@)
    }

    fn message(&self) -> (r: String) {
        String::from_str("error arose from Foo during ").concat(self.action.as_str())
    }
}

impl ErrorMessage for InterruptedSubdetail {
    open spec fn message_view(&self) -> Seq<char> {
        interrupted_message()
    }

    fn message(&self) -> (r: String) {
        String::from_str("operation interrupted")
    }
}

impl ErrorMessage for QuuxErrorDetail {
    open spec fn message_view(&self) -> Seq<char> {
        match self {
            QuuxErrorDetail::Foo(e) => e.message_view(),
            QuuxErrorDetail::Interrupted(e) => e.message_view(),
        }
    }

    fn message(&self) -> (r: String) {
        match self {
            QuuxErrorDetail::Foo(e) => e.message(),
            QuuxErrorDetail::Interrupted(e) => e.message(),
        }
    }
}

/// A `Foo` error caused by the storage error `source`: its trace is that of
/// `source` with this error's message recorded last.
pub fn foo_error(action: String, source: FooError) -> (r: QuuxError)
    ensures
        r.detail == QuuxErrorDetail::Foo(FooSubdetail { action, source: source.detail }),
        r.trace.history() == source.trace.history().push(foo_message(action@)),
{
    ErrorReport::trace_from::<FooError, _>(
        source,
        (move |source_detail: FooErrorDetail| -> (d: QuuxErrorDetail)
            ensures
                d == foo_detail(action, source_detail),
            { QuuxErrorDetail::Foo(FooSubdetail { action, source: source_detail }) }),
    )
}

/// An `Interrupted` error, with no fields and no cause.
pub fn interrupted_error() -> (r: QuuxError)
    ensures
        r.detail == QuuxErrorDetail::Interrupted(InterruptedSubdetail {}),
        r.trace.history() == seq![interrupted_message()],
{
    ErrorReport::new(QuuxErrorDetail::Interrupted(InterruptedSubdetail {}))
}

} // verus!
