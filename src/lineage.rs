//! What the contract of `ErrorReport::trace_from` and `ErrorReport::new` comes
//! to for a report traced by `StringTracer`.
use vstd::prelude::*;
use crate::report::{prior_history, ErrorReport};
use crate::source::{DisplayError, ErrorSource};
use crate::tracer::{ErrorMessageTracer, StringTracer};

verus! {

/// A report with no cause has a trace of exactly one message: its own.
pub proof fn seeded_trace_holds_own_message(m: Seq<char>)
    ensures
        StringTracer::extend(Seq::empty(), m) == seq![m],
        StringTracer::extend(Seq::empty(), m).len() == 1,
{
    assert(Seq::<Seq<char>>::empty().push(m) =~= seq![m]);
}

/// A report that absorbs an earlier report `cause` has the cause's history
/// `[m1, ..., mn]` followed by its own message: `[m1, ..., mn, m]`. The
/// cause's messages keep their order, none is repeated, and the new message
/// comes last.
pub proof fn absorbed_report_extends_its_trace<D>(cause: ErrorReport<D, StringTracer>, m: Seq<char>)
    ensures
        ({
            let h = StringTracer::extend(
                prior_history(
                    <ErrorReport<D, StringTracer> as ErrorSource<StringTracer>>::details_of(cause).1,
                ),
                m,
            );
            &&& h == cause.trace.history().push(m)
            &&& h.len() == cause.trace.history().len() + 1
            &&& h.subrange(0, cause.trace.history().len() as int) == cause.trace.history()
            &&& h.last() == m
        }),
{
    let p = cause.trace.history();
    assert(p.push(m).subrange(0, p.len() as int) =~= p);
}

/// A report that absorbs an error known only by its message has a trace of
/// exactly one message, its own: the cause's text is not recorded.
pub proof fn absorbed_display_error_seeds_trace<E>(cause: E, m: Seq<char>)
    ensures
        StringTracer::extend(
            prior_history(<DisplayError<E> as ErrorSource<StringTracer>>::details_of(cause).1),
            m,
        ) == seq![m],
{
    assert(Seq::<Seq<char>>::empty().push(m) =~= seq![m]);
}

} // verus!
