use app_timer::command::{parse_command, spawn_failure_message, split_command};

#[test]
fn split_of_one_word_is_that_word() {
    assert_eq!(split_command("notepad.exe"), vec!["notepad.exe"]);
}

#[test]
fn split_drops_white_space_of_any_length() {
    assert_eq!(split_command("  a\tb \r\n  c "), vec!["a", "b", "c"]);
}

#[test]
fn split_of_nothing_is_empty() {
    assert!(split_command("").is_empty());
    assert!(split_command(" \t\n").is_empty());
}

#[test]
fn split_knows_nothing_of_quotes() {
    assert_eq!(
        split_command("\"C:\\Program Files\\app.exe\" \"my file.txt\""),
        vec!["\"C:\\Program", "Files\\app.exe\"", "\"my", "file.txt\""]
    );
}

#[test]
fn split_takes_other_unicode_spaces_as_white_space() {
    assert_eq!(split_command("a\u{a0}b\u{2003}c\u{3000}d"), vec!["a", "b", "c", "d"]);
    assert_eq!(split_command("a\u{200b}b"), vec!["a\u{200b}b"]);
}

#[test]
fn split_keeps_characters_outside_ascii() {
    assert_eq!(split_command("éditeur  fichier–été.txt"), vec!["éditeur", "fichier–été.txt"]);
}

#[test]
fn split_agrees_with_the_standard_splitting() {
    let lines = [
        "C:\\Windows\\system32\\notepad.exe C:\\Users\\me\\settings.ini",
        " x",
        "x ",
        "one  two\tthree\u{85}four",
        "",
    ];
    for line in lines {
        let expected: Vec<String> = line.split_whitespace().map(String::from).collect();
        assert_eq!(split_command(line), expected);
    }
}

#[test]
fn command_is_the_program_and_its_arguments() {
    let c = parse_command("C:\\Windows\\system32\\notepad.exe C:\\Users\\me\\settings.ini -x")
        .unwrap();
    assert_eq!(c.program, "C:\\Windows\\system32\\notepad.exe");
    assert_eq!(c.args, vec!["C:\\Users\\me\\settings.ini", "-x"]);
}

#[test]
fn command_without_arguments() {
    let c = parse_command("notepad.exe").unwrap();
    assert_eq!(c.program, "notepad.exe");
    assert!(c.args.is_empty());
}

#[test]
fn command_of_an_empty_line_is_none() {
    assert!(parse_command("").is_none());
    assert!(parse_command("   ").is_none());
}

#[test]
fn spawn_failure_names_the_command_and_the_cause() {
    assert_eq!(
        spawn_failure_message("C:\\missing.exe", "The system cannot find the file specified."),
        "Failed to spawn subprocess. (C:\\missing.exe)\n\tThe system cannot find the file specified."
    );
}
