use vstd::prelude::*;

verus! {

/// How a value of some error type is taken apart when it is absorbed as the
/// cause of a newer error: into its structured detail and, where it carries
/// one, its trace.
pub trait ErrorSource<Trace>: Sized {
    /// The value handed over as the cause.
    type Source;

    /// The structured detail kept from the cause.
    type Detail;

    /// The detail and the trace, if any, that `source` yields.
    spec fn details_of(source: Self::Source) -> (Self::Detail, Option<Trace>);

    fn error_details(source: Self::Source) -> (r: (Self::Detail, Option<Trace>))
        ensures
            r == Self::details_of(source),
    ;
}

/// An error type known only by the message it renders: absorbed as a cause,
/// its detail is the value itself and it brings no trace.
pub struct DisplayError<E> {
    pub error: E,
}

impl<E, Trace> ErrorSource<Trace> for DisplayError<E> {
    type Source = E;

    type Detail = E;

    open spec fn details_of(source: E) -> (E, Option<Trace>) {
        (source, None)
    }

    fn error_details(source: E) -> (r: (E, Option<Trace>)) {
        (source, None)
    }
}

} // verus!
