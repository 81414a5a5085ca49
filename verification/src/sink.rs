//! The write-sink capability and an in-memory sink.
//!
//! A [`TextSink`] accepts appended text fragments and may reject one with a
//! [`WriteError`]. Each append is atomic: on success the whole fragment is at
//! the end of the sink, on failure the sink is unchanged. [`StringSink`]
//! keeps the text in memory and never fails.

use vstd::prelude::*;

use vstd::string::StringExecFns;

verus! {

/// The sink rejected an append.
#[derive(Clone, Copy, PartialEq, Eq, Structural, Debug)]
pub struct WriteError;

/// A destination for appended text.
///
/// Implementations decide for themselves when an append fails; the contract
/// only fixes what each outcome means for the sink's contents.
pub trait TextSink {
    /// The text held so far.
    spec fn contents(&self) -> Seq<char>;

    /// Appends one text fragment atomically: on success the fragment stands
    /// whole at the end of the contents, on failure the contents are
    /// unchanged.
    fn append(&mut self, s: &str) -> (r: Result<(), WriteError>)
        ensures
            r is Ok ==> final(self).contents() == old(self).contents() + s@,
            r is Err ==> final(self).contents() == old(self).contents(),
    ;
}

/// An in-memory sink backed by a `String`. Appends never fail.
pub struct StringSink {
    buf: String,
}

impl StringSink {
    /// An empty sink.
    pub fn new() -> (s: StringSink)
        ensures
            s.contents() == Seq::<char>::empty(),
    {
        StringSink { buf: String::new() }
    }

    /// The text held so far, as a borrowed string.
    pub fn as_str(&self) -> (s: &str)
        ensures
            s@ == self.contents(),
    {
        self.buf.as_str()
    }

    /// The text held so far, surrendering the sink.
    pub fn into_string(self) -> (s: String)
        ensures
            s@ == self.contents(),
    {
        self.buf
    }
}

/// A sink that rejects every append, as a closed or failed device would.
/// Its contents stay empty forever.
pub struct RejectingSink;

impl RejectingSink {
    /// A sink that will never accept anything.
    pub fn new() -> (s: RejectingSink)
        ensures
            s.contents() == Seq::<char>::empty(),
    {
        RejectingSink
    }
}

impl TextSink for RejectingSink {
    closed spec fn contents(&self) -> Seq<char> {
        Seq::empty()
    }

    fn append(&mut self, s: &str) -> (r: Result<(), WriteError>)
        ensures
            r is Err,
    {
        Err(WriteError)
    }
}

impl TextSink for StringSink {
    closed spec fn contents(&self) -> Seq<char> {
        self.buf@
    }

    fn append(&mut self, s: &str) -> (r: Result<(), WriteError>)
        ensures
            r is Ok,
    {
        self.buf.append(s);
        Ok(())
    }
}

} // verus!
