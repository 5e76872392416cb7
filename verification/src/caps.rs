//! Capability interfaces over which the capture engine runs.
//!
//! Each trait carries a ghost view of the resource it stands for — the keys a
//! terminal will deliver, what is visible on it, the line an input source
//! holds — and a `reliable` flag. A reliable resource is one whose operations
//! never fail: the in-memory doubles in [`crate::mocks`] are reliable, a real
//! terminal or stream is not, and the engine's contracts promise success
//! exactly on reliable resources.

use vstd::prelude::*;

use crate::keys::{Key, ReadError};

verus! {

/// A raw-mode terminal: delivers one key event at a time and shows a sequence
/// of characters that can be appended to and erased from the end.
pub trait Terminal {
    /// The key events this terminal will deliver, in order.
    spec fn keys(&self) -> Seq<Key>;

    /// The characters currently visible on the terminal.
    spec fn screen(&self) -> Seq<char>;

    /// Whether this terminal's operations never fail.
    spec fn reliable(&self) -> bool;

    /// Blocks until the next key event arrives and returns it. `Exhausted`
    /// may only be reported when no key is pending, and a reliable terminal
    /// reports it whenever that is so.
    fn read_key(&mut self) -> (r: Result<Key, ReadError>)
        ensures
            final(self).reliable() == old(self).reliable(),
            final(self).screen() == old(self).screen(),
            r matches Ok(k) ==> {
                &&& old(self).keys().len() > 0
                &&& k == old(self).keys()[0]
                &&& final(self).keys() == old(self).keys().skip(1)
            },
            r is Err ==> final(self).keys() == old(self).keys(),
            r == Err::<Key, ReadError>(ReadError::Exhausted) ==> old(self).keys().len() == 0,
            old(self).reliable() ==> (r is Ok <==> old(self).keys().len() > 0),
            old(self).reliable() && old(self).keys().len() == 0 ==> r == Err::<
                Key,
                ReadError,
            >(ReadError::Exhausted),
    ;

    /// Shows one character at the end of the visible output.
    fn write_char(&mut self, c: char) -> (r: Result<(), ReadError>)
        ensures
            final(self).reliable() == old(self).reliable(),
            final(self).keys() == old(self).keys(),
            r is Ok ==> final(self).screen() == old(self).screen().push(c),
            old(self).reliable() ==> r is Ok,
    ;

    /// Erases the last `n` visible characters, or everything when fewer than
    /// `n` are visible.
    fn clear_chars(&mut self, n: usize) -> (r: Result<(), ReadError>)
        ensures
            final(self).reliable() == old(self).reliable(),
            final(self).keys() == old(self).keys(),
            r is Ok ==> final(self).screen() == old(self).screen().take(
                if n <= old(self).screen().len() {
                    old(self).screen().len() - n
                } else {
                    0
                },
            ),
            old(self).reliable() ==> r is Ok,
    ;

    /// Shows `s` followed by a newline at the end of the visible output.
    fn write_line(&mut self, s: &str) -> (r: Result<(), ReadError>)
        ensures
            final(self).reliable() == old(self).reliable(),
            final(self).keys() == old(self).keys(),
            r is Ok ==> final(self).screen() == old(self).screen() + s@ + seq!['\n'],
            old(self).reliable() ==> r is Ok,
    ;
}

/// A buffered input source: knows whether it is a live terminal device and
/// can deliver one full line of text.
pub trait InputSource {
    /// The line this source will deliver, trailing terminator included when
    /// the source data holds one.
    spec fn line(&self) -> Seq<char>;

    /// Whether this source is attached to a live terminal device.
    spec fn terminal(&self) -> bool;

    /// Whether this source's operations never fail.
    spec fn reliable(&self) -> bool;

    /// Reports whether this source is attached to a live terminal device.
    fn is_terminal(&self) -> (r: bool)
        ensures
            r == self.terminal(),
    ;

    /// Performs exactly one buffered read of a full line, appending it to
    /// `buf` as delivered, terminator included.
    fn read_line(&mut self, buf: &mut String) -> (r: Result<usize, ReadError>)
        ensures
            final(self).terminal() == old(self).terminal(),
            final(self).reliable() == old(self).reliable(),
            r is Ok ==> final(buf)@ == old(buf)@ + old(self).line(),
            old(self).reliable() ==> r is Ok,
    ;
}

/// An output sink: accumulates written text.
pub trait OutputSink {
    /// The text written to this sink so far.
    spec fn out(&self) -> Seq<char>;

    /// Whether this sink's operations never fail.
    spec fn reliable(&self) -> bool;

    /// Appends `s` to the sink.
    fn write_str(&mut self, s: &str) -> (r: Result<(), ReadError>)
        ensures
            final(self).reliable() == old(self).reliable(),
            r is Ok ==> final(self).out() == old(self).out() + s@,
            old(self).reliable() ==> r is Ok,
    ;

    /// Makes everything written so far visible to the reader of the sink.
    fn flush(&mut self) -> (r: Result<(), ReadError>)
        ensures
            final(self).reliable() == old(self).reliable(),
            final(self).out() == old(self).out(),
            old(self).reliable() ==> r is Ok,
    ;
}

} // verus!
