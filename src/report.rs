use vstd::prelude::*;
use crate::source::ErrorSource;
use crate::tracer::{ErrorMessage, ErrorMessageTracer};

verus! {

/// A structured error detail together with the trace of messages behind it.
pub struct ErrorReport<Detail, Trace> {
    pub detail: Detail,
    pub trace: Trace,
}

/// A report absorbed as a cause yields its own detail and its own trace.
impl<Detail, Trace> ErrorSource<Trace> for ErrorReport<Detail, Trace> {
    type Source = Self;

    type Detail = Detail;

    open spec fn details_of(source: Self) -> (Detail, Option<Trace>) {
        (source.detail, Some(source.trace))
    }

    fn error_details(source: Self) -> (r: (Detail, Option<Trace>)) {
        (source.detail, Some(source.trace))
    }
}

/// The history a new report builds on: the cause's trace where it brought one,
/// else nothing.
pub open spec fn prior_history<Trace: ErrorMessageTracer>(t: Option<Trace>) -> Seq<Seq<char>> {
    match t {
        Some(trace) => trace.history(),
        None => Seq::empty(),
    }
}

impl<Detail, Trace> ErrorReport<Detail, Trace> {
    /// The underlying cause that this report hands to error-chain tooling:
    /// its trace, which narrates the whole history, not its detail.
    pub fn source(&self) -> (r: &Trace)
        ensures
            *r == self.trace,
    {
        &self.trace
    }

    /// A report for an error with no cause: its trace is freshly seeded with
    /// the message of `detail`.
    pub fn new(detail: Detail) -> (r: Self)
        where
            Detail: ErrorMessage,
            Trace: ErrorMessageTracer,
        ensures
            r.detail == detail,
            r.trace.history() == Trace::extend(Seq::empty(), detail.message_view()),
    {
        let trace = Trace::new_message(&detail);
        ErrorReport { detail, trace }
    }

    /// A report that absorbs `source` as its cause.
    ///
    /// The cause is taken apart by `E`; `cont` wraps the cause's detail into
    /// the new detail. Where the cause brought a trace, the new detail's
    /// message is recorded after that trace's history; otherwise a fresh trace
    /// is seeded with it.
    pub fn trace_from<E, Cont>(source: E::Source, cont: Cont) -> (r: Self)
        where
            Detail: ErrorMessage,
            E: ErrorSource<Trace>,
            Trace: ErrorMessageTracer,
            Cont: FnOnce(E::Detail) -> Detail,
        requires
            cont.requires((E::details_of(source).0,)),
        ensures
            cont.ensures((E::details_of(source).0,), r.detail),
            r.trace.history() == Trace::extend(
                prior_history(E::details_of(source).1),
                r.detail.message_view(),
            ),
    {
        let (detail1, m_trace1) = E::error_details(source);
        let detail2 = cont(detail1);
        match m_trace1 {
            Some(trace1) => {
                let trace2 = trace1.add_message(&detail2);
                ErrorReport { detail: detail2, trace: trace2 }
            },
            None => {
                let trace2 = Trace::new_message(&detail2);
                ErrorReport { detail: detail2, trace: trace2 }
            },
        }
    }
}

} // verus!
