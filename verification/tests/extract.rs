use helpman::{
    extract_options, format_description, get_short_description, get_subcommands, get_usage,
};

#[test]
fn usage_line_is_found_and_trimmed() {
    let help = "A tool\n\nUsage: foo bar\n\nOptions:\n  -h  help\n";
    assert_eq!(get_usage(help), Some("foo bar".to_string()));
}

#[test]
fn usage_marker_in_capitals() {
    assert_eq!(get_usage("  USAGE:   tool <FILE>  \n"), Some("tool <FILE>".to_string()));
}

#[test]
fn usage_takes_the_first_usage_line() {
    let help = "intro\nUSAGE: first\nUsage: second\n";
    assert_eq!(get_usage(help), Some("first".to_string()));
}

#[test]
fn usage_keeps_what_follows_the_marker() {
    assert_eq!(get_usage("Usage: foo USAGE: bar"), Some("foo USAGE: bar".to_string()));
}

#[test]
fn usage_absent_without_marker() {
    assert_eq!(get_usage("A tool\nusage: lower case does not count\n"), None);
    assert_eq!(get_usage(""), None);
}

#[test]
fn usage_marker_alone_gives_empty_usage() {
    assert_eq!(get_usage("Usage:\n  tool [OPTIONS]\n"), Some(String::new()));
}

#[test]
fn short_description_is_first_line_that_is_no_usage() {
    assert_eq!(get_short_description("\n   \n  A sample tool  \nmore\n"), "A sample tool");
    assert_eq!(get_short_description("Usage: tool\nDoes things\n"), "Does things");
}

#[test]
fn short_description_falls_back() {
    assert_eq!(get_short_description(""), "Command line tool");
    assert_eq!(get_short_description("Usage: tool\n\nUseful\n"), "Command line tool");
}

#[test]
fn options_absent_without_marker() {
    assert_eq!(extract_options("A tool\n\nUsage: tool\n  --flag  not under a marker\n"), None);
    assert_eq!(extract_options(""), None);
}

#[test]
fn options_block_stops_at_blank_line() {
    let help = "OPTIONS:\n  --flag   desc\n\nEXTRA";
    assert_eq!(extract_options(help), Some("\\-\\-flag   desc\n".to_string()));
}

#[test]
fn options_block_may_begin_with_blank_lines() {
    let help = "tool\nOPTIONS:\n\n   \n  -v, --verbose  talk\n  --quiet\n\n  --after\n";
    assert_eq!(
        extract_options(help),
        Some("-v, \\-\\-verbose  talk\n\\-\\-quiet\n".to_string())
    );
}

#[test]
fn options_marker_without_lines_gives_none() {
    assert_eq!(extract_options("OPTIONS:\n\n\n"), None);
    assert_eq!(extract_options("OPTIONS: --inline\n"), None);
}

#[test]
fn options_marker_is_case_sensitive() {
    assert_eq!(extract_options("Options:\n  --flag\n"), None);
}

#[test]
fn options_passes_over_a_second_marker() {
    let help = "OPTIONS:\n  --a\nOPTIONS:\n  --b\n\n  --c\n";
    assert_eq!(extract_options(help), Some("\\-\\-a\n\\-\\-b\n".to_string()));
}

#[test]
fn options_escapes_pairs_of_hyphens_from_the_left() {
    assert_eq!(extract_options("OPTIONS:\n ---x ----\n"), Some("\\-\\--x \\-\\-\\-\\-\n".to_string()));
}

#[test]
fn subcommands_leave_out_flags_and_help() {
    let help = "tool\n\nCommands:\n  build   Build it\n  -v      Verbose\n  help    Print help\n\nOptions:\n  run\n";
    assert_eq!(get_subcommands(help), vec!["build".to_string()]);
}

#[test]
fn subcommands_marker_in_any_case() {
    assert_eq!(get_subcommands("SUBCOMMANDS:\n  a\n  b x\n"), vec!["a".to_string(), "b".to_string()]);
    assert_eq!(get_subcommands("  subcommands:  \n  a\n"), vec!["a".to_string()]);
    assert_eq!(get_subcommands("COMMANDS:\n  a\n"), vec!["a".to_string()]);
}

#[test]
fn subcommands_need_the_marker_alone_on_its_line() {
    assert!(get_subcommands("Commands: build\n  run\n").is_empty());
    assert!(get_subcommands("  build\n  run\n").is_empty());
    assert!(get_subcommands("").is_empty());
}

#[test]
fn subcommands_end_at_the_first_blank_line() {
    assert!(get_subcommands("Commands:\n\n  build\n").is_empty());
    assert_eq!(get_subcommands("Commands:\n  one\n  two\n \t \n  three\n"), vec!["one", "two"]);
}

#[test]
fn subcommands_keep_the_order_of_the_text() {
    assert_eq!(
        get_subcommands("Commands:\n  zeta\n  alpha\n  helper\n  Help\n"),
        vec!["zeta", "alpha", "helper", "Help"]
    );
}

#[test]
fn description_stops_at_marker() {
    let help = "A sample tool\n\n  Second line  \nUSAGE:\n  tool\nafter\n";
    assert_eq!(format_description(help), "A sample tool\n\nSecond line\n\n");
    assert_eq!(format_description("one\n  OPTIONS: x\ntwo\n"), "one\n\n");
}

#[test]
fn description_does_not_stop_at_mixed_case_usage() {
    assert_eq!(format_description("A tool\nUsage: tool\n"), "A tool\n\nUsage: tool\n\n");
}

#[test]
fn description_joins_hyphenated_lines_and_drops_markup() {
    assert_eq!(format_description("hyphen-\nated *bold* `code`\n"), "hyphenated bold code\n\n");
}

#[test]
fn description_of_nothing_is_empty() {
    assert_eq!(format_description(""), "");
    assert_eq!(format_description("\n \nUSAGE: x\n"), "");
}

#[test]
fn lines_end_with_carriage_return_and_line_feed() {
    assert_eq!(get_usage("A tool\r\nUsage: tool run\r\n"), Some("tool run".to_string()));
    assert_eq!(extract_options("OPTIONS:\r\n  --x\r\n\r\n  --y\r\n"), Some("\\-\\-x\n".to_string()));
}

#[test]
fn unicode_white_space_is_trimmed() {
    assert_eq!(get_usage("\u{2003}Usage:\u{a0}tool\u{3000}\n"), Some("tool".to_string()));
    assert_eq!(get_short_description("\u{85}\n\u{feff}x\n"), "\u{feff}x");
}
