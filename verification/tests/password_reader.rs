use yapp::keys::Key;
use yapp::mocks::{stdin, stdout, TermMock};
use yapp::Yapp;

#[test]
fn when_shell_is_interactive_password_reader_intercepts_keystrokes() {
    let mut input = stdin();
    input.set_is_terminal(true);
    let mut output = stdout();
    let mut term = TermMock::stdout();
    term.setup_keys(vec![
        Key::Char('a'),
        Key::Unknown,
        Key::Char('b'),
        Key::Char('z'),
        Key::Backspace,
        Key::Char('c'),
        Key::Enter,
    ]);
    let sut = Yapp::new();

    let result = sut.read_password(&mut input, &mut output, &mut term);

    assert!(result.is_ok());
    assert_eq!(result.unwrap(), "abc");
}

#[test]
fn when_shell_is_interactive_password_reader_correctly_handles_backspace() {
    let mut input = stdin();
    input.set_is_terminal(true);
    let mut output = stdout();
    let mut term = TermMock::stdout();
    term.setup_keys(vec![
        Key::Char('a'),
        Key::Char('b'),
        Key::Char('c'),
        Key::Backspace,
        Key::Backspace,
        Key::Backspace,
        Key::Backspace,
        Key::Enter,
    ]);
    let sut = Yapp::new();

    let result = sut.read_password(&mut input, &mut output, &mut term);

    assert!(result.is_ok());
    assert!(result.unwrap().is_empty());
}

#[test]
fn when_shell_is_not_interactive_password_reader_reads_from_stdin() {
    let mut input = stdin();
    input.set_is_terminal(false);
    input.set_input("P455w0rd!");
    let mut output = stdout();
    let mut term = TermMock::stdout();
    let sut = Yapp::new();

    let result = sut.read_password(&mut input, &mut output, &mut term);

    assert!(result.is_ok());
    assert_eq!(result.unwrap(), "P455w0rd!");
}

#[test]
fn password_reader_prints_prompt() {
    let mut input = stdin();
    input.set_is_terminal(true);
    let mut output = stdout();
    let mut term = TermMock::stdout();
    term.setup_keys(vec![Key::Char('a'), Key::Char('b'), Key::Char('c'), Key::Enter]);
    let sut = Yapp::new();

    sut.read_password_with_prompt("Type a password: ", &mut input, &mut output, &mut term)
        .unwrap();

    let stdout_string = output.get_output();
    assert_eq!(stdout_string, "Type a password: ");
}

#[test]
fn password_reader_prints_replacement_symbols() {
    let mut input = stdin();
    input.set_is_terminal(true);
    let mut output = stdout();
    let mut term = TermMock::stdout();
    term.setup_keys(vec![Key::Char('a'), Key::Char('b'), Key::Char('c'), Key::Enter]);
    let sut = Yapp::new().with_echo_symbol(Some('*'));

    sut.read_password(&mut input, &mut output, &mut term).unwrap();

    let term_string = term.get_output();
    assert_eq!(term_string, "***\n");
}

#[test]
fn when_stdin_is_terminal_then_password_reader_is_interactive() {
    let mut input = stdin();
    input.set_is_terminal(true);

    assert!(Yapp::new().is_interactive(&input));
}

#[test]
fn when_stdin_is_not_terminal_then_password_reader_is_not_interactive() {
    let mut input = stdin();
    input.set_is_terminal(false);

    assert!(!Yapp::new().is_interactive(&input));
}
