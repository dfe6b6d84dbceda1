use docsort::cli::{AutostartAction, Cli, Command};
use docsort::config::{config_or_defaults, log_directory, log_directory_from_parent, Config};

#[test]
fn default_config_values() {
    let cfg = Config::default();
    assert_eq!(cfg.watch_path, "./bucket");
    assert_eq!(cfg.root_path, "./docs");
    assert_eq!(cfg.log_file, "./logs/docsort.log");
    assert_eq!(cfg.allowed_file_extensions, vec!["pdf", "docx", "xls", "xlsx"]);
}

#[test]
fn missing_command_means_start() {
    assert_eq!(Cli { command: None }.command(), Command::Start);
}

#[test]
fn given_command_is_kept() {
    let cli = Cli { command: Some(Command::Autostart { action: AutostartAction::Disable }) };
    assert_eq!(cli.command(), Command::Autostart { action: AutostartAction::Disable });
    assert_eq!(Cli { command: Some(Command::Start) }.command(), Command::Start);
}

#[test]
fn log_directory_is_the_parent_or_current_folder() {
    assert_eq!(log_directory("./logs/docsort.log"), "./logs");
    assert_eq!(log_directory("/var/log/docsort/a.log"), "/var/log/docsort");
    assert_eq!(log_directory("docsort.log"), "");
    assert_eq!(log_directory("/"), ".");
    assert_eq!(log_directory(""), ".");
}

#[test]
fn unreadable_config_falls_back_to_defaults() {
    let (cfg, store) = config_or_defaults(None);
    assert!(store);
    assert_eq!(cfg.watch_path, "./bucket");
    assert_eq!(cfg.allowed_file_extensions.len(), 4);

    let mut own = Config::default();
    own.watch_path = "/srv/in".to_string();
    let (cfg, store) = config_or_defaults(Some(own));
    assert!(!store);
    assert_eq!(cfg.watch_path, "/srv/in");
}

#[test]
fn log_directory_given_the_parent() {
    assert_eq!(log_directory_from_parent(Some("./logs".to_string())), "./logs");
    assert_eq!(log_directory_from_parent(Some(String::new())), "");
    assert_eq!(log_directory_from_parent(None), ".");
}
