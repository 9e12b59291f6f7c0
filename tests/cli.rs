use iftpfm2::cli::{arg_kind, parse_args, ArgKind, CliArgs, CliError};

fn argv(items: &[&str]) -> Vec<String> {
    let mut v = vec!["iftpfm2".to_string()];
    v.extend(items.iter().map(|s| s.to_string()));
    v
}

#[test]
fn defaults_with_config_only() {
    let r = parse_args(&argv(&["rules.jsonl"])).unwrap();
    assert_eq!(
        r,
        CliArgs {
            delete: false,
            log_file: None,
            stdout: false,
            config_file: Some("rules.jsonl".to_string()),
            parallel: 1,
            randomize: false,
            grace_seconds: 30,
            connect_timeout: None,
            insecure_skip_verify: false,
            temp_dir: None,
            debug: false,
            ram_threshold: None,
        }
    );
}

#[test]
fn all_flags() {
    let r = parse_args(&argv(&[
        "-d", "-r", "-l", "/var/log/x.log", "-p", "4", "-g", "5", "-t", "10", "-T", "/scratch", "--debug",
        "--ram-threshold", "0", "--insecure-skip-verify", "cfg",
    ]))
    .unwrap();
    assert!(r.delete && r.randomize && r.debug && r.insecure_skip_verify);
    assert_eq!(r.log_file.as_deref(), Some("/var/log/x.log"));
    assert_eq!(r.parallel, 4);
    assert_eq!(r.grace_seconds, 5);
    assert_eq!(r.connect_timeout, Some(10));
    assert_eq!(r.temp_dir.as_deref(), Some("/scratch"));
    assert_eq!(r.ram_threshold, Some(0));
    assert_eq!(r.config_file.as_deref(), Some("cfg"));
}

#[test]
fn help_and_version_stop_at_once() {
    assert_eq!(parse_args(&argv(&["-h", "cfg"])), Err(CliError::HelpRequested));
    assert_eq!(parse_args(&argv(&["cfg", "-v"])), Err(CliError::VersionRequested));
}

#[test]
fn missing_values_and_config() {
    assert_eq!(parse_args(&argv(&[])), Err(CliError::MissingArgument("config file".to_string())));
    assert_eq!(parse_args(&argv(&["cfg", "-l"])), Err(CliError::MissingArgument("log file".to_string())));
    assert_eq!(parse_args(&argv(&["cfg", "-p"])), Err(CliError::MissingArgument("parallel count".to_string())));
    assert_eq!(parse_args(&argv(&["-d"])), Err(CliError::MissingArgument("config file".to_string())));
}

#[test]
fn invalid_numbers() {
    assert_eq!(
        parse_args(&argv(&["-p", "x", "cfg"])),
        Err(CliError::InvalidArgument("parallel count must be a positive number".to_string()))
    );
    assert_eq!(
        parse_args(&argv(&["-p", "0", "cfg"])),
        Err(CliError::InvalidArgument("parallel count must be a positive number".to_string()))
    );
    assert_eq!(
        parse_args(&argv(&["-t", "0", "cfg"])),
        Err(CliError::InvalidArgument("connect timeout must be a positive number".to_string()))
    );
    assert_eq!(
        parse_args(&argv(&["--ram-threshold", "-5", "cfg"])),
        Err(CliError::InvalidArgument("RAM threshold must be a non-negative number".to_string()))
    );
    assert_eq!(
        parse_args(&argv(&["-g", "1.5", "cfg"])),
        Err(CliError::InvalidArgument("grace seconds must be a positive number".to_string()))
    );
}

#[test]
fn unexpected_and_exclusive() {
    assert_eq!(parse_args(&argv(&["a", "b"])), Err(CliError::UnexpectedArgument("b".to_string())));
    assert_eq!(
        parse_args(&argv(&["-s", "-l", "x.log", "cfg"])),
        Err(CliError::MutuallyExclusiveFlags("-s and -l flags are mutually exclusive".to_string()))
    );
    let r = parse_args(&argv(&["-s", "cfg"])).unwrap();
    assert!(r.stdout);
}

#[test]
fn plus_sign_and_large_numbers() {
    let r = parse_args(&argv(&["-g", "+7", "--ram-threshold", "18446744073709551615", "cfg"])).unwrap();
    assert_eq!(r.grace_seconds, 7);
    assert_eq!(r.ram_threshold, Some(u64::MAX));
    assert!(parse_args(&argv(&["--ram-threshold", "18446744073709551616", "cfg"])).is_err());
}

#[test]
fn argument_kinds() {
    assert_eq!(arg_kind("-h"), ArgKind::Help);
    assert_eq!(arg_kind("--debug"), ArgKind::Debug);
    assert_eq!(arg_kind("-x"), ArgKind::Positional);
    assert_eq!(arg_kind(""), ArgKind::Positional);
}

#[test]
fn error_messages() {
    assert_eq!(CliError::MissingArgument("log file".to_string()).message(), "Missing argument: log file");
    assert_eq!(CliError::UnexpectedArgument("b".to_string()).message(), "Unexpected argument: b");
    assert_eq!(CliError::HelpRequested.message(), "Help requested");
    assert_eq!(
        CliError::MutuallyExclusiveFlags("-s and -l flags are mutually exclusive".to_string()).message(),
        "-s and -l flags are mutually exclusive"
    );
}
