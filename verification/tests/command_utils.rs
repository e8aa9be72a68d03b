use gargamel::command_utils::parse_command;

fn test_parse_command(expected_output: &[&str]) {
    let input = expected_output.join(" ");

    let result = parse_command(&input);
    assert_eq!(expected_output.len(), result.len());
    for (i, expected_output_item) in expected_output.iter().enumerate() {
        assert_eq!(expected_output_item.trim(), result[i].as_str())
    }
}

#[test]
fn test_single_arg_command() {
    test_parse_command(&["one"]);
}

#[test]
fn test_single_arg_command_with_leading_and_trailing_spaces() {
    test_parse_command(&[" one "]);
}

#[test]
fn test_single_multi_word_arg_command() {
    test_parse_command(&["\"this is a single argument\""]);
}

#[test]
fn test_multi_word_multi_args_command() {
    test_parse_command(&["\"this is a single argument\"", "\"this is an another single argument\""]);
}

#[test]
fn test_two_word_command() {
    test_parse_command(&["one two"]);
}

#[test]
fn empty_command_has_no_arguments() {
    assert!(parse_command("").is_empty());
    assert!(parse_command("   ").is_empty());
}

#[test]
fn quoted_group_and_plain_text_are_separate_arguments() {
    assert_eq!(parse_command("run \"a b\" x"), vec!["run", "\"a b\"", "x"]);
}
