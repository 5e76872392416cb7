use yapp::caps::InputSource;
use yapp::keys::{Key, ReadError};
use yapp::mocks::{stdin, stdout, TermMock};
use yapp::Yapp;

#[test]
fn exhausted_key_source_reports_the_distinct_error() {
    let mut input = stdin();
    input.set_is_terminal(true);
    let mut output = stdout();
    let mut term = TermMock::stdout();
    term.setup_keys(vec![Key::Char('a'), Key::Char('b')]);
    let sut = Yapp::new();

    let result = sut.read_password(&mut input, &mut output, &mut term);

    assert_eq!(result, Err(ReadError::Exhausted));
}

#[test]
fn backspace_erases_one_echoed_symbol() {
    let mut input = stdin();
    input.set_is_terminal(true);
    let mut output = stdout();
    let mut term = TermMock::stdout();
    term.setup_keys(vec![Key::Char('a'), Key::Char('b'), Key::Backspace, Key::Enter]);
    let sut = Yapp::new().with_echo_symbol(Some('*'));

    let result = sut.read_password(&mut input, &mut output, &mut term);

    assert_eq!(result.unwrap(), "a");
    assert_eq!(term.get_output(), "*\n");
}

#[test]
fn unset_echo_symbol_writes_only_the_final_newline() {
    let mut input = stdin();
    input.set_is_terminal(true);
    let mut output = stdout();
    let mut term = TermMock::stdout();
    term.setup_keys(vec![Key::Char('s'), Key::Char('e'), Key::Char('c'), Key::Enter]);
    let sut = Yapp::new();

    let result = sut.read_password(&mut input, &mut output, &mut term);

    assert_eq!(result.unwrap(), "sec");
    assert_eq!(term.get_output(), "\n");
    assert_eq!(output.get_output(), "");
}

#[test]
fn non_interactive_echo_repeats_symbol_once_per_character() {
    let mut input = stdin();
    input.set_is_terminal(false);
    input.set_input("abc\n");
    let mut output = stdout();
    let mut term = TermMock::stdout();
    let sut = Yapp::new().with_echo_symbol(Some('*'));

    let result = sut.read_password(&mut input, &mut output, &mut term);

    assert_eq!(result.unwrap(), "abc\n");
    assert_eq!(output.get_output(), "****\n");
}

#[test]
fn non_interactive_read_without_terminator_completes() {
    let mut input = stdin();
    input.set_is_terminal(false);
    input.set_input("xyz");
    let mut output = stdout();
    let mut term = TermMock::stdout();
    let sut = Yapp::new();

    let result = sut.read_password(&mut input, &mut output, &mut term);

    assert_eq!(result.unwrap(), "xyz");
    assert_eq!(output.get_output(), "");
}

#[test]
fn non_interactive_read_of_empty_input_returns_empty_string() {
    let mut input = stdin();
    input.set_is_terminal(false);
    input.set_input("");
    let mut output = stdout();
    let mut term = TermMock::stdout();
    let sut = Yapp::new().with_echo_symbol(Some('*'));

    let result = sut.read_password(&mut input, &mut output, &mut term);

    assert_eq!(result.unwrap(), "");
    assert_eq!(output.get_output(), "\n");
}

#[test]
fn configuring_the_same_echo_symbol_twice_behaves_identically() {
    let once = Yapp::new().with_echo_symbol(Some('#'));
    let twice = Yapp::new().with_echo_symbol(Some('#')).with_echo_symbol(Some('#'));
    let keys = [Key::Char('a'), Key::Char('b'), Key::Backspace, Key::Char('c'), Key::Enter];

    let mut results = Vec::new();
    for sut in [once, twice] {
        let mut input = stdin();
        input.set_is_terminal(true);
        let mut output = stdout();
        let mut term = TermMock::stdout();
        term.setup_keys(keys.to_vec());
        let result = sut.read_password(&mut input, &mut output, &mut term);
        results.push((result.unwrap(), term.get_output(), output.get_output()));
    }

    assert_eq!(results[0], results[1]);
}

#[test]
fn prompt_appears_before_the_masked_echo_line() {
    let mut input = stdin();
    input.set_is_terminal(false);
    input.set_input("pw\n");
    let mut output = stdout();
    let mut term = TermMock::stdout();
    let sut = Yapp::new().with_echo_symbol(Some('*'));

    let result = sut.read_password_with_prompt("Password: ", &mut input, &mut output, &mut term);

    assert_eq!(result.unwrap(), "pw\n");
    assert_eq!(output.get_output(), "Password: ***\n");
}

#[test]
fn with_echo_symbol_none_disables_echoing() {
    let mut input = stdin();
    input.set_is_terminal(false);
    input.set_input("secret\n");
    let mut output = stdout();
    let mut term = TermMock::stdout();
    let sut = Yapp::new().with_echo_symbol(Some('*')).with_echo_symbol(None);

    let result = sut.read_password(&mut input, &mut output, &mut term);

    assert_eq!(result.unwrap(), "secret\n");
    assert_eq!(output.get_output(), "");
}

#[test]
fn default_reader_has_no_echo_symbol() {
    let mut input = stdin();
    input.set_is_terminal(false);
    input.set_input("p\n");
    let mut output = stdout();
    let mut term = TermMock::stdout();
    let sut = Yapp::default();

    let result = sut.read_password(&mut input, &mut output, &mut term);

    assert_eq!(result.unwrap(), "p\n");
    assert_eq!(output.get_output(), "");
}

#[test]
fn read_line_reports_the_character_count_and_appends() {
    let mut input = stdin();
    input.set_input("héllo\n");
    let mut buf = String::from("> ");

    let n = input.read_line(&mut buf).unwrap();

    assert_eq!(n, 6);
    assert_eq!(buf, "> héllo\n");
}

#[test]
fn scripted_input_persists_across_reads() {
    let mut input = stdin();
    input.set_is_terminal(false);
    input.set_input("again\n");
    let mut output = stdout();
    let mut term = TermMock::stdout();
    let sut = Yapp::new();

    let first = sut.read_password(&mut input, &mut output, &mut term);
    let second = sut.read_password(&mut input, &mut output, &mut term);

    assert_eq!(first.unwrap(), "again\n");
    assert_eq!(second.unwrap(), "again\n");
}

#[test]
fn unicode_characters_count_once_for_echo_and_backspace() {
    let mut input = stdin();
    input.set_is_terminal(true);
    let mut output = stdout();
    let mut term = TermMock::stdout();
    term.setup_keys(vec![
        Key::Char('é'),
        Key::Char('漢'),
        Key::Backspace,
        Key::Char('ß'),
        Key::Enter,
    ]);
    let sut = Yapp::new().with_echo_symbol(Some('*'));

    let result = sut.read_password(&mut input, &mut output, &mut term);

    assert_eq!(result.unwrap(), "éß");
    assert_eq!(term.get_output(), "**\n");
}
