//! Deterministic in-memory doubles for the capability interfaces.
//!
//! Each double owns its whole state — a scripted key queue, captured output
//! buffers, an interactivity flag — so tests construct exactly the situation
//! they need and can run in parallel without sharing anything. Every double
//! is reliable: none of its operations ever fails.

use vstd::prelude::*;

use crate::caps::{InputSource, OutputSink, Terminal};
use crate::keys::{Key, ReadError};
use crate::strbuf::{pop_char, push_char};

verus! {

/// A scripted raw-mode terminal: delivers a fixed queue of key events and
/// records what becomes visible on it.
pub struct TermMock {
    keys: Vec<Key>,
    output: String,
}

impl TermMock {
    /// A fresh terminal double with no pending keys and a blank screen.
    pub fn stdout() -> (t: TermMock)
        ensures
            t.keys() == Seq::<Key>::empty(),
            t.screen() == Seq::<char>::empty(),
            t.reliable(),
    {
        TermMock { keys: Vec::new(), output: String::new() }
    }

    /// Replaces the pending key events with `keys`.
    pub fn setup_keys(&mut self, keys: Vec<Key>)
        ensures
            final(self).keys() == keys@,
            final(self).screen() == old(self).screen(),
            final(self).reliable(),
    {
        self.keys = keys;
    }

    /// The characters currently visible on the terminal.
    pub fn get_output(&self) -> (r: String)
        ensures
            r@ == self.screen(),
    {
        self.output.clone()
    }
}

impl Terminal for TermMock {
    closed spec fn keys(&self) -> Seq<Key> {
        self.keys@
    }

    closed spec fn screen(&self) -> Seq<char> {
        self.output@
    }

    closed spec fn reliable(&self) -> bool {
        true
    }

    fn read_key(&mut self) -> (r: Result<Key, ReadError>) {
        if self.keys.len() == 0 {
            Err(ReadError::Exhausted)
        } else {
            let k = self.keys.remove(0);
            proof {
                assert(self.keys@ =~= old(self).keys@.skip(1));
            }
            Ok(k)
        }
    }

    fn write_char(&mut self, c: char) -> (r: Result<(), ReadError>) {
        push_char(&mut self.output, c);
        Ok(())
    }

    fn clear_chars(&mut self, n: usize) -> (r: Result<(), ReadError>) {
        let ghost start = self.output@;
        let mut i: usize = 0;
        while i < n
            invariant
                i <= n,
                self.keys@ == old(self).keys@,
                self.output@ == (if i as int <= start.len() {
                    start.take(start.len() - i as int)
                } else {
                    Seq::<char>::empty()
                }),
            decreases n - i,
        {
            let ghost before = self.output@;
            let _ = pop_char(&mut self.output);
            proof {
                if before.len() > 0 {
                    assert(before.drop_last() =~= start.take(start.len() - (i + 1)));
                }
            }
            i += 1;
        }
        proof {
            if n as int > start.len() {
                assert(start.take(0) =~= Seq::<char>::empty());
            }
        }
        Ok(())
    }

    fn write_line(&mut self, s: &str) -> (r: Result<(), ReadError>) {
        self.output.append(s);
        push_char(&mut self.output, '\n');
        proof {
            assert(self.output@ =~= old(self).output@ + s@ + seq!['\n']);
        }
        Ok(())
    }
}

/// A scripted input source: reports a configurable interactivity verdict and
/// delivers a configurable line of text.
pub struct StdinMock {
    is_term: bool,
    input: String,
}

/// A fresh input double: counts as a terminal and holds no input.
pub fn stdin() -> (r: StdinMock)
    ensures
        r.terminal(),
        r.line() == Seq::<char>::empty(),
        r.reliable(),
{
    StdinMock { is_term: true, input: String::new() }
}

impl StdinMock {
    /// Sets the interactivity verdict this source reports.
    pub fn set_is_terminal(&mut self, is_terminal: bool)
        ensures
            final(self).terminal() == is_terminal,
            final(self).line() == old(self).line(),
            final(self).reliable(),
    {
        self.is_term = is_terminal;
    }

    /// Sets the line of text this source delivers.
    pub fn set_input(&mut self, input: &str)
        ensures
            final(self).line() == input@,
            final(self).terminal() == old(self).terminal(),
            final(self).reliable(),
    {
        self.input = input.to_owned();
    }
}

impl InputSource for StdinMock {
    closed spec fn line(&self) -> Seq<char> {
        self.input@
    }

    closed spec fn terminal(&self) -> bool {
        self.is_term
    }

    closed spec fn reliable(&self) -> bool {
        true
    }

    fn is_terminal(&self) -> (r: bool) {
        self.is_term
    }

    fn read_line(&mut self, buf: &mut String) -> (r: Result<usize, ReadError>)
        ensures
            final(self).line() == old(self).line(),
            r matches Ok(n) ==> n == old(self).line().len(),
    {
        buf.append(self.input.as_str());
        Ok(self.input.as_str().unicode_len())
    }
}

/// A scripted output sink: records everything written to it.
pub struct StdOutMock {
    output: String,
}

/// A fresh output double with nothing written yet.
pub fn stdout() -> (r: StdOutMock)
    ensures
        r.out() == Seq::<char>::empty(),
        r.reliable(),
{
    StdOutMock { output: String::new() }
}

impl StdOutMock {
    /// The text written to this sink so far.
    pub fn get_output(&self) -> (r: String)
        ensures
            r@ == self.out(),
    {
        self.output.clone()
    }
}

impl OutputSink for StdOutMock {
    closed spec fn out(&self) -> Seq<char> {
        self.output@
    }

    closed spec fn reliable(&self) -> bool {
        true
    }

    fn write_str(&mut self, s: &str) -> (r: Result<(), ReadError>) {
        self.output.append(s);
        Ok(())
    }

    fn flush(&mut self) -> (r: Result<(), ReadError>) {
        Ok(())
    }
}

} // verus!
