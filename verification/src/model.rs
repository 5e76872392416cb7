//! The mathematical model of a capture: what a sequence of key events turns
//! into, and what the terminal shows while it happens.

use vstd::prelude::*;

use crate::keys::{Feedback, Key};

verus! {

/// One transition of the interactive capture state machine: how a single key
/// event edits the password buffer. A printable character is appended, a
/// backspace removes the last character when one exists (and is a no-op on an
/// empty buffer), and every other key leaves the buffer unchanged.
pub open spec fn apply_key(buf: Seq<char>, k: Key) -> Seq<char> {
    match k {
        Key::Char(c) => buf.push(c),
        Key::Backspace => if buf.len() > 0 {
            buf.drop_last()
        } else {
            buf
        },
        Key::Enter => buf,
        Key::Unknown => buf,
    }
}

/// The terminal feedback the capture state machine calls for when one key
/// event arrives while the buffer holds `buf` and the echo symbol is
/// configured to `echo`: an accepted character is mirrored by the symbol, a
/// backspace that removes a character erases one echoed symbol, a confirm
/// key completes the capture, and everything else shows nothing. Without an
/// echo symbol, nothing is shown until the completing newline.
pub open spec fn feedback_of(echo: Option<char>, buf: Seq<char>, k: Key) -> Feedback {
    match k {
        Key::Char(c) => match echo {
            Some(e) => Feedback::Echo(e),
            None => Feedback::Silent,
        },
        Key::Backspace => if buf.len() > 0 && echo is Some {
            Feedback::Erase
        } else {
            Feedback::Silent
        },
        Key::Enter => Feedback::Confirm,
        Key::Unknown => Feedback::Silent,
    }
}

/// The password captured from `keys` when the buffer already holds `buf`:
/// `Some` of the buffer at the first confirm key, or `None` when the keys run
/// out before a confirm key arrives.
pub open spec fn captured_from(buf: Seq<char>, keys: Seq<Key>) -> Option<Seq<char>>
    decreases keys.len(),
{
    if keys.len() == 0 {
        None
    } else if keys[0] is Enter {
        Some(buf)
    } else {
        captured_from(apply_key(buf, keys[0]), keys.skip(1))
    }
}

/// The password captured from `keys`, starting from an empty buffer.
pub open spec fn captured(keys: Seq<Key>) -> Option<Seq<char>> {
    captured_from(Seq::empty(), keys)
}

/// The key events still pending once a capture has consumed `keys` up to and
/// including the first confirm key; everything when no confirm key occurs.
pub open spec fn rest_after(keys: Seq<Key>) -> Seq<Key>
    decreases keys.len(),
{
    if keys.len() == 0 {
        Seq::empty()
    } else if keys[0] is Enter {
        keys.skip(1)
    } else {
        rest_after(keys.skip(1))
    }
}

/// The buffer left after folding every key of `keys` into `buf`, confirm keys
/// included as no-ops. This is where an exhausted capture ends up.
pub open spec fn buffer_fold(buf: Seq<char>, keys: Seq<Key>) -> Seq<char>
    decreases keys.len(),
{
    if keys.len() == 0 {
        buf
    } else {
        buffer_fold(apply_key(buf, keys[0]), keys.skip(1))
    }
}

/// Whether `keys` holds a confirm key anywhere.
pub open spec fn has_confirm(keys: Seq<Key>) -> bool {
    exists|i: int| 0 <= i < keys.len() && keys[i] is Enter
}

/// The position of the first confirm key of `keys` (the length of `keys`
/// when there is none).
pub open spec fn first_confirm(keys: Seq<Key>) -> int
    decreases keys.len(),
{
    if keys.len() == 0 {
        0
    } else if keys[0] is Enter {
        0
    } else {
        1 + first_confirm(keys.skip(1))
    }
}

/// What an interactive capture of `n` accepted characters leaves on the
/// visible output, the final newline aside: one replacement symbol per
/// character when one is configured, nothing at all otherwise.
pub open spec fn echo_trace(echo: Option<char>, n: nat) -> Seq<char> {
    match echo {
        Some(e) => Seq::new(n, |i: int| e),
        None => Seq::empty(),
    }
}

/// What a non-interactive capture of a line of `n` characters writes to the
/// output sink: the replacement symbol once per character followed by a
/// newline when a symbol is configured, nothing at all otherwise.
pub open spec fn line_echo(echo: Option<char>, n: nat) -> Seq<char> {
    match echo {
        Some(e) => Seq::new(n, |i: int| e).push('\n'),
        None => Seq::empty(),
    }
}

/// Dropping a leading non-confirm key changes neither whether a confirm key
/// is present nor which keys are pending afterwards.
pub proof fn lemma_confirm_skip(keys: Seq<Key>)
    requires
        keys.len() > 0,
        !(keys[0] is Enter),
    ensures
        has_confirm(keys) == has_confirm(keys.skip(1)),
        rest_after(keys) == rest_after(keys.skip(1)),
{
    if has_confirm(keys) {
        let i = choose|i: int| 0 <= i < keys.len() && keys[i] is Enter;
        assert(keys.skip(1)[i - 1] is Enter);
    }
    if has_confirm(keys.skip(1)) {
        let i = choose|i: int| 0 <= i < keys.skip(1).len() && keys.skip(1)[i] is Enter;
        assert(keys[i + 1] is Enter);
    }
}

/// A capture yields a password exactly when the key sequence holds a confirm
/// key: every sequence ending in confirm succeeds, and no sequence without a
/// confirm key does.
pub proof fn lemma_captured_some_iff_confirm(keys: Seq<Key>)
    ensures
        captured(keys) is Some <==> has_confirm(keys),
{
    lemma_captured_from_some_iff_confirm(Seq::empty(), keys);
}

/// Generalization of [`lemma_captured_some_iff_confirm`] over the starting
/// buffer: success depends only on the keys, never on the buffer contents.
pub proof fn lemma_captured_from_some_iff_confirm(buf: Seq<char>, keys: Seq<Key>)
    ensures
        captured_from(buf, keys) is Some <==> has_confirm(keys),
    decreases keys.len(),
{
    if keys.len() == 0 {
    } else if keys[0] is Enter {
        assert(has_confirm(keys));
    } else {
        lemma_captured_from_some_iff_confirm(apply_key(buf, keys[0]), keys.skip(1));
        lemma_confirm_skip(keys);
    }
}

/// When a confirm key is present, `first_confirm` points at the first one.
pub proof fn lemma_first_confirm_bounds(keys: Seq<Key>)
    requires
        has_confirm(keys),
    ensures
        0 <= first_confirm(keys) < keys.len(),
        keys[first_confirm(keys)] is Enter,
    decreases keys.len(),
{
    if keys[0] is Enter {
    } else {
        lemma_confirm_skip(keys);
        lemma_first_confirm_bounds(keys.skip(1));
        assert(keys[first_confirm(keys)] == keys.skip(1)[first_confirm(keys.skip(1))]);
    }
}

/// Law: for every key sequence that holds a confirm key, the captured
/// password is exactly the fold of the edits before the first confirm key —
/// each printable character is appended in order and each backspace removes
/// exactly the immediately preceding accepted character, a no-op on an empty
/// buffer.
pub proof fn lemma_captured_is_fold_before_confirm(keys: Seq<Key>)
    requires
        has_confirm(keys),
    ensures
        captured(keys) == Some(buffer_fold(Seq::empty(), keys.take(first_confirm(keys)))),
{
    lemma_captured_from_is_fold_before_confirm(Seq::empty(), keys);
}

/// Generalization of [`lemma_captured_is_fold_before_confirm`] over the
/// starting buffer.
pub proof fn lemma_captured_from_is_fold_before_confirm(buf: Seq<char>, keys: Seq<Key>)
    requires
        has_confirm(keys),
    ensures
        captured_from(buf, keys) == Some(buffer_fold(buf, keys.take(first_confirm(keys)))),
    decreases keys.len(),
{
    if keys[0] is Enter {
        assert(keys.take(0) =~= Seq::<Key>::empty());
    } else {
        lemma_confirm_skip(keys);
        lemma_first_confirm_bounds(keys);
        lemma_captured_from_is_fold_before_confirm(apply_key(buf, keys[0]), keys.skip(1));
        let n = first_confirm(keys);
        assert(keys.take(n)[0] == keys[0]);
        assert(keys.take(n).skip(1) =~= keys.skip(1).take(n - 1));
    }
}

/// Law: with the echo symbol unset, a capture writes none of the password
/// characters to the visible output — the echo trace is empty for every
/// buffer length, so an interactive capture adds only the final newline and
/// a non-interactive capture adds nothing at all.
pub proof fn lemma_unset_echo_writes_nothing(screen: Seq<char>, n: nat)
    ensures
        echo_trace(None, n) == Seq::<char>::empty(),
        line_echo(None, n) == Seq::<char>::empty(),
        screen + echo_trace(None, n) + seq!['\n'] == screen + seq!['\n'],
        screen + line_echo(None, n) == screen,
{
    assert(screen + echo_trace(None, n) + seq!['\n'] =~= screen + seq!['\n']);
    assert(screen + line_echo(None, n) =~= screen);
}

} // verus!
