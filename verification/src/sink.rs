use vstd::prelude::*;

use crate::errors::SinkError;

verus! {

/// Output sink capability: a destination that accepts text writes and may
/// reject one.
///
/// `out()` is the text accepted so far; `reliable()` marks sinks whose writes
/// never fail. A rejected write leaves the accepted text unchanged.
pub trait Sink: Sized {
    /// The text this sink has accepted so far.
    spec fn out(&self) -> Seq<char>;

    /// True of sinks whose writes always succeed.
    spec fn reliable(&self) -> bool;

    /// Append `s` to the accepted text, or reject the write and change nothing.
    fn write_str(&mut self, s: &str) -> (r: Result<(), SinkError>)
        ensures
            final(self).reliable() == old(self).reliable(),
            r is Ok ==> final(self).out() == old(self).out() + s@,
            r is Err ==> final(self).out() == old(self).out(),
            old(self).reliable() ==> r is Ok,
    ;
}

/// A sink that gathers every write into an owned string and never fails.
pub struct StringSink {
    text: String,
}

impl StringSink {
    /// An empty sink.
    pub fn new() -> (r: StringSink)
        ensures
            r.out() == Seq::<char>::empty(),
            r.reliable(),
    {
        StringSink { text: String::new() }
    }

    /// Hands the gathered text out.
    pub fn into_string(self) -> (r: String)
        ensures
            r@ == self.out(),
    {
        self.text
    }
}

impl Sink for StringSink {
    closed spec fn out(&self) -> Seq<char> {
        self.text@
    }

    closed spec fn reliable(&self) -> bool {
        true
    }

    fn write_str(&mut self, s: &str) -> (r: Result<(), SinkError>) {
        self.text.append(s);
        Ok(())
    }
}

/// A sink that accepts a fixed number of writes and rejects every one after
/// that, the way a closed transport would.
pub struct LimitedSink {
    text: String,
    remaining: usize,
}

impl LimitedSink {
    /// An empty sink that will accept `limit` writes.
    pub fn new(limit: usize) -> (r: LimitedSink)
        ensures
            r.out() == Seq::<char>::empty(),
            r.writes_left() == limit,
    {
        LimitedSink { text: String::new(), remaining: limit }
    }

    /// How many more writes this sink will accept.
    pub closed spec fn writes_left(&self) -> nat {
        self.remaining as nat
    }

    /// Hands the accepted text out.
    pub fn into_string(self) -> (r: String)
        ensures
            r@ == self.out(),
    {
        self.text
    }
}

impl Sink for LimitedSink {
    closed spec fn out(&self) -> Seq<char> {
        self.text@
    }

    closed spec fn reliable(&self) -> bool {
        false
    }

    fn write_str(&mut self, s: &str) -> (r: Result<(), SinkError>)
        ensures
            old(self).writes_left() > 0 ==> r is Ok && final(self).writes_left() == old(
                self,
            ).writes_left() - 1,
            old(self).writes_left() == 0 ==> r is Err && final(self).writes_left() == 0,
    {
        if self.remaining == 0 {
            Err(SinkError { message: String::from_str("sink rejected the write") })
        } else {
            self.remaining = self.remaining - 1;
            self.text.append(s);
            Ok(())
        }
    }
}

} // verus!
