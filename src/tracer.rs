use vstd::prelude::*;

verus! {

/// A value that renders as a human-readable error message.
pub trait ErrorMessage {
    /// The text this value renders to.
    spec fn message_view(&self) -> Seq<char>;

    fn message(&self) -> (r: String)
        ensures
            r@ == self.message_view(),
    ;
}

impl ErrorMessage for String {
    open spec fn message_view(&self) -> Seq<char> {
        self@
    }

    fn message(&self) -> (r: String) {
        self.clone()
    }
}

/// A strategy for keeping the history of messages behind a report.
///
/// The history is a single lineage, oldest message first. A strategy says in
/// `extend` what recording one more message does to it; a fresh trace is the
/// empty history extended once.
pub trait ErrorMessageTracer: Sized {
    /// The messages this trace holds, oldest first.
    spec fn history(&self) -> Seq<Seq<char>>;

    /// The history after recording message `m` on top of history `h`.
    spec fn extend(h: Seq<Seq<char>>, m: Seq<char>) -> Seq<Seq<char>>;

    /// A fresh trace seeded with the message of `detail`.
    fn new_message<M: ErrorMessage>(detail: &M) -> (r: Self)
        ensures
            r.history() == Self::extend(Seq::empty(), detail.message_view()),
    ;

    /// This trace with the message of `detail` recorded after what it holds.
    fn add_message<M: ErrorMessage>(self, detail: &M) -> (r: Self)
        ensures
            r.history() == Self::extend(self.history(), detail.message_view()),
    ;
}

/// A tracer that keeps every message as text, oldest first.
#[derive(Clone)]
pub struct StringTracer {
    messages: Vec<String>,
}

pub open spec fn texts(v: Seq<String>) -> Seq<Seq<char>> {
    v.map_values(|s: String| s@)
}

impl ErrorMessageTracer for StringTracer {
    closed spec fn history(&self) -> Seq<Seq<char>> {
        texts(self.messages@)
    }

    open spec fn extend(h: Seq<Seq<char>>, m: Seq<char>) -> Seq<Seq<char>> {
        h.push(m)
    }

    fn new_message<M: ErrorMessage>(detail: &M) -> (r: Self) {
        let mut messages: Vec<String> = Vec::new();
        messages.push(detail.message());
        proof {
            assert(texts(messages@) =~= seq![detail.message_view()]);
        }
        StringTracer { messages }
    }

    fn add_message<M: ErrorMessage>(self, detail: &M) -> (r: Self) {
        let mut messages = self.messages;
        let ghost before = messages@;
        messages.push(detail.message());
        proof {
            assert(texts(messages@) =~= texts(before).push(detail.message_view()));
        }
        StringTracer { messages }
    }
}

impl StringTracer {
    /// The recorded messages, oldest first.
    pub fn messages(&self) -> (r: Vec<String>)
        ensures
            texts(r@) == self.history(),
    {
        let mut out: Vec<String> = Vec::new();
        let mut i: usize = 0;
        while i < self.messages.len()
            invariant
                i <= self.messages@.len(),
                texts(out@) == texts(self.messages@.subrange(0, i as int)),
            decreases self.messages@.len() - i,
        {
            out.push(self.messages[i].clone());
            proof {
                assert(texts(self.messages@.subrange(0, i + 1)) =~= texts(
                    self.messages@.subrange(0, i as int),
                ).push(self.messages@[i as int]@));
                assert(texts(out@) =~= texts(self.messages@.subrange(0, i + 1)));
            }
            i = i + 1;
        }
        proof {
            assert(self.messages@.subrange(0, i as int) =~= self.messages@);
        }
        out
    }

    /// The number of recorded messages.
    pub fn len(&self) -> (r: usize)
        ensures
            r == self.history().len(),
    {
        self.messages.len()
    }
}

/// A tracer that records nothing, for callers that want no tracing cost.
#[derive(Clone, Copy)]
pub struct NoTracer;

impl ErrorMessageTracer for NoTracer {
    open spec fn history(&self) -> Seq<Seq<char>> {
        Seq::empty()
    }

    open spec fn extend(h: Seq<Seq<char>>, m: Seq<char>) -> Seq<Seq<char>> {
        h
    }

    fn new_message<M: ErrorMessage>(detail: &M) -> (r: Self) {
        NoTracer
    }

    fn add_message<M: ErrorMessage>(self, detail: &M) -> (r: Self) {
        self
    }
}

} // verus!
