use aperture::cli::{parse_argv, scan_argv, ArgvScan};

fn argv(args: &[&str]) -> Vec<String> {
    std::iter::once("aperture").chain(args.iter().copied()).map(String::from).collect()
}

#[test]
fn no_args_returns_no_config_path() {
    assert_eq!(parse_argv(&argv(&[])), Ok(None));
}

#[test]
fn config_with_path_returns_path() {
    assert_eq!(
        parse_argv(&argv(&["--config", "/etc/aperture/aperture.toml"])),
        Ok(Some("/etc/aperture/aperture.toml".to_string()))
    );
}

#[test]
fn config_without_path_is_an_error() {
    assert!(parse_argv(&argv(&["--config"])).is_err());
}

#[test]
fn unrecognised_flag_is_an_error() {
    assert!(parse_argv(&argv(&["--bogus"])).is_err());
}

#[test]
fn duplicate_config_flag_is_an_error() {
    assert!(parse_argv(&argv(&["--config", "/a", "--config", "/b"])).is_err());
}

#[test]
fn argv_errors_name_their_cause() {
    assert_eq!(
        parse_argv(&argv(&["--config"])),
        Err("--config requires a path argument".to_string())
    );
    assert_eq!(
        parse_argv(&argv(&["--config", "/a", "--config", "/b"])),
        Err("--config given more than once".to_string())
    );
    assert_eq!(
        parse_argv(&argv(&["--bogus"])),
        Err("unrecognised argument: --bogus".to_string())
    );
    assert_eq!(
        parse_argv(&argv(&["--config", "/a", "--config"])),
        Err("--config requires a path argument".to_string())
    );
}

#[test]
fn help_is_reported_by_the_scan() {
    assert_eq!(scan_argv(&argv(&["--help"])), Ok(ArgvScan::Help));
    assert_eq!(scan_argv(&argv(&["--config", "/a", "-h"])), Ok(ArgvScan::Help));
    assert_eq!(scan_argv(&argv(&["--bogus", "-h"])), Err("unrecognised argument: --bogus".to_string()));
    assert_eq!(scan_argv(&argv(&["--config", "/a"])), Ok(ArgvScan::Config(Some("/a".to_string()))));
}
