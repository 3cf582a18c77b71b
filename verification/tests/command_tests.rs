use played_bot::command::build_played_command;
use played_bot::types::CommandOption;
use played_bot::types::NumberOption;
use played_bot::types::StringOption;

fn string_opt(name: &str, value: &str) -> CommandOption {
    CommandOption::StringCommandOption(StringOption {
        name: name.to_string(),
        value: value.to_string(),
    })
}

fn number_opt(name: &str, value: u64) -> CommandOption {
    CommandOption::NumberCommandOption(NumberOption { name: name.to_string(), value })
}

#[test]
fn parse_empty_options_fails() {
    let r = build_played_command(vec![]);
    let e = r.expect_err("empty option set must fail");
    assert_eq!(e.status_code, 400);
    assert_eq!(e.body, "Could not find player name");
}

#[test]
fn parse_missing_user_fails() {
    let r = build_played_command(vec![number_opt("days", 7)]);
    let e = r.expect_err("missing user option must fail");
    assert_eq!(e.status_code, 400);
    assert_eq!(e.body, "Could not find player name");
}

#[test]
fn parse_missing_days_fails() {
    let r = build_played_command(vec![string_opt("user", "Faker")]);
    let e = r.expect_err("missing days option must fail");
    assert_eq!(e.status_code, 400);
    assert_eq!(e.body, "Could not find player name");
}

#[test]
fn parse_wrong_types_fail() {
    // A number option named "user" and a string option named "days" are not
    // the required options: both lookups must miss.
    let r = build_played_command(vec![number_opt("user", 3), string_opt("days", "7")]);
    let e = r.expect_err("wrongly typed options must fail");
    assert_eq!(e.status_code, 400);
}

#[test]
fn parse_preserves_values_exactly() {
    let r = build_played_command(vec![string_opt("user", "Faker"), number_opt("days", 7)]);
    let cmd = r.expect("both options present must succeed");
    assert_eq!(cmd.player_name, "Faker");
    assert_eq!(cmd.days, 7);
}

#[test]
fn parse_ignores_unknown_options() {
    let r = build_played_command(vec![
        string_opt("region", "euw1"),
        number_opt("level", 30),
        string_opt("user", "Faker"),
        number_opt("days", 14),
        string_opt("mode", "ranked"),
    ]);
    let cmd = r.expect("unknown options must be ignored, not rejected");
    assert_eq!(cmd.player_name, "Faker");
    assert_eq!(cmd.days, 14);
}

#[test]
fn parse_takes_first_matching_option() {
    let r = build_played_command(vec![
        string_opt("user", "first"),
        string_opt("user", "second"),
        number_opt("days", 1),
        number_opt("days", 2),
    ]);
    let cmd = r.expect("duplicated options still parse");
    assert_eq!(cmd.player_name, "first");
    assert_eq!(cmd.days, 1);
}
