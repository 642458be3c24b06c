//! Human-readable causes carried through the engine.
use vstd::prelude::*;
use vstd::string::*;

verus! {

/// A message for the user; the empty message means "nothing went wrong".
#[derive(Debug, PartialEq, Eq)]
pub struct ErrInfo {
    info: String,
}

impl View for ErrInfo {
    type V = Seq<char>;

    closed spec fn view(&self) -> Seq<char> {
        self.info@
    }
}

impl ErrInfo {
    /// The empty message.
    pub fn empty() -> (e: ErrInfo)
        ensures
            e@ == Seq::<char>::empty(),
    {
        ErrInfo { info: String::new() }
    }

    /// A message holding exactly `info`.
    pub fn new(info: &str) -> (e: ErrInfo)
        ensures
            e@ == info@,
    {
        ErrInfo { info: String::from_str(info) }
    }

    /// Whether there is nothing to report.
    pub fn is_empty(&self) -> (b: bool)
        ensures
            b == (self@.len() == 0),
    {
        self.info.as_str().is_empty()
    }

    /// The text of the message.
    pub fn text(&self) -> (s: &str)
        ensures
            s@ == self@,
    {
        self.info.as_str()
    }
}

} // verus!
