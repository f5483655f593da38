use flasher::args::{get_args, FlasherArgs, UsageError};

fn words(items: &[&str]) -> Vec<String> {
    items.iter().map(|s| s.to_string()).collect()
}

#[test]
fn one_argument_is_the_firmware_dir() {
    let parsed = get_args(&words(&["flasher", "/home/me/fw"]));
    assert_eq!(parsed, Ok(FlasherArgs { firmware_dir: "/home/me/fw".to_string() }));
}

#[test]
fn no_argument_is_a_usage_error() {
    let parsed = get_args(&words(&["flasher"]));
    assert_eq!(parsed, Err(UsageError { program: "flasher".to_string() }));
}

#[test]
fn two_arguments_are_a_usage_error() {
    let parsed = get_args(&words(&["./flasher", "a", "b"]));
    assert_eq!(parsed, Err(UsageError { program: "./flasher".to_string() }));
}

#[test]
fn empty_command_line_is_a_usage_error() {
    let parsed = get_args(&Vec::new());
    assert_eq!(parsed, Err(UsageError { program: String::new() }));
}

#[test]
fn usage_message_names_the_program() {
    let e = UsageError { program: "flasher".to_string() };
    assert_eq!(e.message(), "usage: flasher firmware_dir");
}
