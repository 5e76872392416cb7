//! Yet another password prompt: reads a secret line of text without echoing
//! the typed characters, optionally masking them with a replacement symbol.
//!
//! The capture logic runs over three capability interfaces — a raw terminal,
//! a buffered input source and an output sink — so callers can drive it with
//! real process streams or with the deterministic in-memory doubles in
//! [`mocks`]. When the input source is a live terminal, keys are intercepted
//! one at a time with backspace editing; otherwise one buffered line is read.

use vstd::prelude::*;

pub mod caps;
pub mod keys;
pub mod model;
pub mod mocks;
mod strbuf;

use crate::caps::{InputSource, OutputSink, Terminal};
use crate::keys::{Feedback, Key, ReadError};
use crate::model::{
    apply_key, buffer_fold, captured, captured_from, echo_trace, feedback_of, has_confirm,
    lemma_captured_some_iff_confirm, lemma_confirm_skip, line_echo, rest_after,
};
use crate::strbuf::{pop_char, push_char};

verus! {

/// A reader of passwords. Using this trait (optionally together with
/// [`IsInteractive`]) in calling code allows substituting the entire library
/// in tests.
pub trait PasswordReader {
    /// Reads a password from the user.
    fn read_password(&mut self) -> Result<String, ReadError>;

    /// Reads a password from the user after showing a prompt.
    fn read_password_with_prompt(&mut self, prompt: &str) -> Result<String, ReadError>;
}

/// An interactivity check: whether a human is attending the terminal.
pub trait IsInteractive {
    /// Checks if the terminal is interactive.
    ///
    /// A terminal is not interactive when its input is redirected, e.g. when
    /// another process pipes its output to this process' input.
    fn is_interactive(&self) -> bool;
}

/// The password capture engine. Its one configurable attribute is the echo
/// symbol: when set, each accepted character is mirrored by that symbol on
/// the visible output; when unset, nothing is echoed.
#[derive(Clone, Copy, Debug)]
pub struct Yapp {
    echo_symbol: Option<char>,
}

impl Default for Yapp {
    /// A reader with no echo symbol configured.
    fn default() -> (r: Self)
        ensures
            r.echo() is None,
    {
        Yapp { echo_symbol: None }
    }
}

impl Yapp {
    /// The configured echo symbol.
    pub closed spec fn echo(&self) -> Option<char> {
        self.echo_symbol
    }

    /// The reader obtained by configuring the echo symbol to `s`.
    pub closed spec fn spec_with_echo(self, s: Option<char>) -> Yapp {
        Yapp { echo_symbol: s }
    }

    /// What a completed interactive capture leaves behind: the password is
    /// exactly what the pending keys fold to, the keys up to and including
    /// the first confirm key are consumed, and the visible output grows by
    /// one echo symbol per captured character (nothing when no symbol is
    /// configured) plus the final newline — never the real characters.
    pub open spec fn interactive_capture_ok(
        self,
        keys_before: Seq<Key>,
        screen_before: Seq<char>,
        keys_after: Seq<Key>,
        screen_after: Seq<char>,
        s: Seq<char>,
    ) -> bool {
        &&& captured(keys_before) == Some(s)
        &&& keys_after == rest_after(keys_before)
        &&& screen_after == screen_before + echo_trace(self.echo(), s.len()) + seq!['\n']
    }

    /// Where an interactive capture ends up when the key source runs out
    /// before a confirm key: every key consumed, and the visible output
    /// grown by one echo symbol per character still buffered, without a
    /// newline.
    pub open spec fn interactive_exhausted(
        self,
        keys_before: Seq<Key>,
        screen_before: Seq<char>,
        keys_after: Seq<Key>,
        screen_after: Seq<char>,
    ) -> bool {
        &&& keys_after.len() == 0
        &&& screen_after == screen_before + echo_trace(
            self.echo(),
            buffer_fold(Seq::empty(), keys_before).len(),
        )
    }

    /// What a completed non-interactive capture leaves behind: the delivered
    /// line is returned verbatim, terminator included, and the output sink
    /// grows by the post-hoc echo line (nothing when no symbol is
    /// configured).
    pub open spec fn line_capture_ok(
        self,
        line: Seq<char>,
        out_before: Seq<char>,
        out_after: Seq<char>,
        s: Seq<char>,
    ) -> bool {
        &&& s == line
        &&& out_after == out_before + line_echo(self.echo(), line.len())
    }

    /// Creates a new reader without an echo symbol.
    pub fn new() -> (r: Self)
        ensures
            r.echo() is None,
    {
        Yapp { echo_symbol: None }
    }

    /// Sets the echoed replacement symbol for the password characters.
    ///
    /// Pass `None` to not echo any characters.
    pub fn with_echo_symbol(self, s: Option<char>) -> (r: Self)
        ensures
            r == self.spec_with_echo(s),
            r.echo() == s,
    {
        Yapp { echo_symbol: s }
    }

    /// Reports whether `input` is attached to a live terminal device.
    pub fn is_interactive<I: InputSource>(&self, input: &I) -> (r: bool)
        ensures
            r == input.terminal(),
    {
        input.is_terminal()
    }

    /// Applies one key event to the password buffer — one transition of the
    /// interactive capture state machine — and reports what the terminal
    /// should show for it. Callers that run the raw key loop themselves
    /// (over an input the capability interfaces cannot wrap) perform the
    /// returned feedback and otherwise touch the buffer only through this
    /// function.
    pub fn push_key(&self, buf: &mut String, key: Key) -> (f: Feedback)
        ensures
            final(buf)@ == apply_key(old(buf)@, key),
            f == feedback_of(self.echo(), old(buf)@, key),
    {
        match key {
            Key::Char(c) => {
                push_char(buf, c);
                match self.echo_symbol {
                    Some(e) => Feedback::Echo(e),
                    None => Feedback::Silent,
                }
            },
            Key::Backspace => {
                if !buf.as_str().is_empty() {
                    let _ = pop_char(buf);
                    if self.echo_symbol.is_some() {
                        Feedback::Erase
                    } else {
                        Feedback::Silent
                    }
                } else {
                    Feedback::Silent
                }
            },
            Key::Enter => Feedback::Confirm,
            Key::Unknown => Feedback::Silent,
        }
    }

    /// The post-hoc echo for a line captured non-interactively: the masking
    /// symbol once per character of the line, terminator included, followed
    /// by a newline — or `None` when no echo symbol is configured and
    /// nothing is to be shown.
    pub fn masked_line(&self, line: &str) -> (r: Option<String>)
        ensures
            r matches Some(m) ==> self.echo() is Some && m@ == line_echo(self.echo(), line@.len()),
            r is None <==> self.echo() is None,
    {
        if let Some(sym) = self.echo_symbol {
            let n = line.unicode_len();
            let mut masked = String::new();
            proof {
                assert(masked@ =~= echo_trace(Some(sym), 0nat));
            }
            let mut i: usize = 0;
            while i < n
                invariant
                    i <= n,
                    masked@ == echo_trace(Some(sym), i as nat),
                decreases n - i,
            {
                let ghost m0 = masked@;
                push_char(&mut masked, sym);
                proof {
                    assert(m0.push(sym) =~= echo_trace(Some(sym), (i + 1) as nat));
                }
                i += 1;
            }
            push_char(&mut masked, '\n');
            Some(masked)
        } else {
            None
        }
    }

    /// Reads a password from a raw-mode terminal, one key event at a time.
    ///
    /// Printable characters are buffered (and mirrored by the echo symbol
    /// when one is configured), backspace removes the last buffered
    /// character — a no-op on an empty buffer — and the first confirm key
    /// ends the capture with a newline on the terminal. On a reliable
    /// terminal the capture succeeds exactly when a confirm key is pending,
    /// and otherwise reports exhaustion after consuming every key.
    pub fn read_interactive<T: Terminal>(&self, term: &mut T) -> (r: Result<String, ReadError>)
        ensures
            final(term).reliable() == old(term).reliable(),
            r matches Ok(s) ==> self.interactive_capture_ok(
                old(term).keys(),
                old(term).screen(),
                final(term).keys(),
                final(term).screen(),
                s@,
            ),
            old(term).reliable() ==> {
                &&& (r is Ok <==> has_confirm(old(term).keys()))
                &&& (r is Err ==> r == Err::<String, ReadError>(ReadError::Exhausted)
                    && self.interactive_exhausted(
                    old(term).keys(),
                    old(term).screen(),
                    final(term).keys(),
                    final(term).screen(),
                ))
            },
    {
        let ghost keys0 = term.keys();
        let ghost screen0 = term.screen();
        let mut buf = String::new();
        proof {
            assert(screen0 + echo_trace(self.echo(), 0nat) =~= screen0);
        }
        loop
            invariant
                term.reliable() == old(term).reliable(),
                captured_from(buf@, term.keys()) == captured(keys0),
                buffer_fold(buf@, term.keys()) == buffer_fold(Seq::empty(), keys0),
                has_confirm(term.keys()) == has_confirm(keys0),
                rest_after(term.keys()) == rest_after(keys0),
                term.screen() == screen0 + echo_trace(self.echo(), buf@.len()),
                keys0 == old(term).keys(),
                screen0 == old(term).screen(),
            decreases term.keys().len(),
        {
            let ghost keys_top = term.keys();
            let k = match term.read_key() {
                Ok(k) => k,
                Err(e) => {
                    proof {
                        if old(term).reliable() {
                            lemma_captured_some_iff_confirm(keys0);
                        }
                    }
                    return Err(e);
                },
            };
            proof {
                if !(keys_top[0] is Enter) {
                    lemma_confirm_skip(keys_top);
                }
            }
            let ghost b0 = buf@;
            let f = self.push_key(&mut buf, k);
            match f {
                Feedback::Echo(sym) => {
                    match term.write_char(sym) {
                        Ok(_) => {},
                        Err(e) => {
                            return Err(e);
                        },
                    }
                    proof {
                        assert((screen0 + echo_trace(self.echo(), b0.len())).push(sym) =~= screen0
                            + echo_trace(self.echo(), b0.len() + 1));
                    }
                },
                Feedback::Erase => {
                    let ghost shown = term.screen();
                    match term.clear_chars(1) {
                        Ok(_) => {},
                        Err(e) => {
                            return Err(e);
                        },
                    }
                    proof {
                        assert(shown.take(shown.len() - 1) =~= screen0 + echo_trace(
                            self.echo(),
                            (b0.len() - 1) as nat,
                        ));
                    }
                },
                Feedback::Confirm => {
                    match term.write_line("") {
                        Ok(_) => {},
                        Err(e) => {
                            return Err(e);
                        },
                    }
                    proof {
                        reveal_strlit("");
                        assert(term.screen() =~= screen0 + echo_trace(self.echo(), buf@.len())
                            + seq!['\n']);
                    }
                    return Ok(buf);
                },
                Feedback::Silent => {},
            }
        }
    }

    /// Reads a password from a redirected input source: one buffered read of
    /// a full line, returned verbatim with its terminator. When an echo
    /// symbol is configured, the symbol is written to the output sink once
    /// per character of the line, followed by a newline, after the read.
    pub fn read_non_interactive<I: InputSource, O: OutputSink>(
        &self,
        input: &mut I,
        output: &mut O,
    ) -> (r: Result<String, ReadError>)
        ensures
            final(input).terminal() == old(input).terminal(),
            final(input).reliable() == old(input).reliable(),
            final(output).reliable() == old(output).reliable(),
            r matches Ok(s) ==> self.line_capture_ok(
                old(input).line(),
                old(output).out(),
                final(output).out(),
                s@,
            ),
            old(input).reliable() && old(output).reliable() ==> r is Ok,
            old(input).reliable() && self.echo() is None ==> r is Ok,
            self.echo() is None ==> final(output).out() == old(output).out(),
    {
        let mut line = String::new();
        match input.read_line(&mut line) {
            Ok(_) => {},
            Err(e) => {
                return Err(e);
            },
        }
        proof {
            assert(line@ =~= old(input).line());
        }
        if let Some(masked) = self.masked_line(line.as_str()) {
            match output.write_str(masked.as_str()) {
                Ok(_) => {},
                Err(e) => {
                    return Err(e);
                },
            }
        } else {
            proof {
                assert(output.out() + line_echo(self.echo(), line@.len()) =~= output.out());
            }
        }
        Ok(line)
    }

    /// Reads a password: intercepts raw keys when the input source is a live
    /// terminal, performs one buffered line read otherwise. The branch not
    /// taken leaves its resources untouched.
    pub fn read_password<I: InputSource, O: OutputSink, T: Terminal>(
        &self,
        input: &mut I,
        output: &mut O,
        term: &mut T,
    ) -> (r: Result<String, ReadError>)
        ensures
            final(input).terminal() == old(input).terminal(),
            final(input).reliable() == old(input).reliable(),
            final(output).reliable() == old(output).reliable(),
            final(term).reliable() == old(term).reliable(),
            old(input).terminal() ==> {
                &&& *final(input) == *old(input)
                &&& *final(output) == *old(output)
                &&& (r matches Ok(s) ==> self.interactive_capture_ok(
                    old(term).keys(),
                    old(term).screen(),
                    final(term).keys(),
                    final(term).screen(),
                    s@,
                ))
                &&& (old(term).reliable() ==> {
                    &&& (r is Ok <==> has_confirm(old(term).keys()))
                    &&& (r is Err ==> r == Err::<String, ReadError>(ReadError::Exhausted)
                        && self.interactive_exhausted(
                        old(term).keys(),
                        old(term).screen(),
                        final(term).keys(),
                        final(term).screen(),
                    ))
                })
            },
            !old(input).terminal() ==> {
                &&& *final(term) == *old(term)
                &&& (r matches Ok(s) ==> self.line_capture_ok(
                    old(input).line(),
                    old(output).out(),
                    final(output).out(),
                    s@,
                ))
                &&& (old(input).reliable() && old(output).reliable() ==> r is Ok)
                &&& (old(input).reliable() && self.echo() is None ==> r is Ok)
                &&& (self.echo() is None ==> final(output).out() == old(output).out())
            },
    {
        if input.is_terminal() {
            self.read_interactive(term)
        } else {
            self.read_non_interactive(input, output)
        }
    }

    /// Writes `prompt` to the output sink and flushes it, so that it is
    /// visible before any capture begins, then reads a password as
    /// [`Yapp::read_password`] does. A failure to show the prompt aborts
    /// before any capture: no key event and no input line is consumed.
    pub fn read_password_with_prompt<I: InputSource, O: OutputSink, T: Terminal>(
        &self,
        prompt: &str,
        input: &mut I,
        output: &mut O,
        term: &mut T,
    ) -> (r: Result<String, ReadError>)
        ensures
            final(input).terminal() == old(input).terminal(),
            final(input).reliable() == old(input).reliable(),
            final(output).reliable() == old(output).reliable(),
            final(term).reliable() == old(term).reliable(),
            old(input).terminal() ==> {
                &&& *final(input) == *old(input)
                &&& (r matches Ok(s) ==> self.interactive_capture_ok(
                    old(term).keys(),
                    old(term).screen(),
                    final(term).keys(),
                    final(term).screen(),
                    s@,
                ) && final(output).out() == old(output).out() + prompt@)
                &&& (old(output).reliable() ==> final(output).out() == old(output).out()
                    + prompt@)
                &&& (old(term).reliable() && old(output).reliable() ==> {
                    &&& (r is Ok <==> has_confirm(old(term).keys()))
                    &&& (r is Err ==> r == Err::<String, ReadError>(ReadError::Exhausted)
                        && self.interactive_exhausted(
                        old(term).keys(),
                        old(term).screen(),
                        final(term).keys(),
                        final(term).screen(),
                    ))
                })
            },
            !old(input).terminal() ==> {
                &&& *final(term) == *old(term)
                &&& (r matches Ok(s) ==> s@ == old(input).line() && final(output).out() == old(
                    output,
                ).out() + prompt@ + line_echo(self.echo(), old(input).line().len()))
                &&& (old(input).reliable() && old(output).reliable() ==> r is Ok)
            },
    {
        match output.write_str(prompt) {
            Ok(_) => {},
            Err(e) => {
                return Err(e);
            },
        }
        match output.flush() {
            Ok(_) => {},
            Err(e) => {
                return Err(e);
            },
        }
        self.read_password(input, output, term)
    }
}

/// Law: configuring the echo symbol is idempotent — setting it twice to the
/// same value yields exactly the reader that setting it once does, so all
/// subsequent capture behavior, which depends only on the configured symbol,
/// is identical.
pub proof fn lemma_with_echo_symbol_idempotent(y: Yapp, s: Option<char>)
    ensures
        y.spec_with_echo(s).spec_with_echo(s) == y.spec_with_echo(s),
        y.spec_with_echo(s).echo() == s,
{
}

} // verus!
