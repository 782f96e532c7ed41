use validate_dotfiles::model::Config;
use validate_dotfiles::report::{colorize, failure, info, success, verbose, warning};

#[test]
fn colorize_wraps_a_message_in_a_colour() {
    assert_eq!(colorize("hello", "\x1b[34m"), "\x1b[34mhello\x1b[0m");
    assert_eq!(colorize("", "\x1b[1m"), "\x1b[1m\x1b[0m");
}

#[test]
fn success_line_is_green_with_a_check_mark() {
    assert_eq!(success("done"), "\x1b[32m✓ done\x1b[0m");
}

#[test]
fn failure_line_is_red_with_a_cross() {
    assert_eq!(failure("broken"), "\x1b[31m✗ broken\x1b[0m");
}

#[test]
fn warning_line_is_yellow_with_a_sign() {
    assert_eq!(warning("careful"), "\x1b[33m⚠ careful\x1b[0m");
}

#[test]
fn info_line_is_cyan_with_a_letter() {
    assert_eq!(info("note"), "\x1b[36mℹ note\x1b[0m");
}

#[test]
fn verbose_speaks_only_in_a_verbose_run() {
    let quiet = Config { dotfiles_dir: "/r".to_string(), verbose: false, fix_mode: false };
    let loud = Config { dotfiles_dir: "/r".to_string(), verbose: true, fix_mode: false };
    assert_eq!(verbose(&quiet, "Checking..."), None);
    assert_eq!(verbose(&loud, "Checking..."), Some("\x1b[34m  Checking...\x1b[0m".to_string()));
}
