//! Launch command tests.

use open_sesame::LaunchCommand;

#[test]
fn test_simple_command() {
    let cmd = LaunchCommand::simple("firefox");
    assert_eq!(cmd.command, "firefox");
    assert!(cmd.args.is_empty());
    assert!(cmd.env_files.is_empty());
    assert!(cmd.env.is_empty());
}

#[test]
fn test_advanced_command() {
    let env = vec![("MY_VAR".to_string(), "value".to_string())];

    let cmd = LaunchCommand::advanced(
        "firefox",
        vec!["--private-window".to_string()],
        vec!["~/.env".to_string()],
        env,
    );

    assert_eq!(cmd.command, "firefox");
    assert_eq!(cmd.args, vec!["--private-window"]);
    assert_eq!(cmd.env_files, vec!["~/.env"]);
    assert_eq!(cmd.env[0], ("MY_VAR".to_string(), "value".to_string()));
}
