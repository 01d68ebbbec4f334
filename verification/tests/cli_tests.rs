use fend_gemini::cli::{parse_cli, parse_port, CliError};

fn args(words: &[&str]) -> Vec<Option<String>> {
    words.iter().map(|w| Some(w.to_string())).collect()
}

#[test]
fn empty_line_yields_defaults() {
    let plan = parse_cli(&args(&[])).expect("defaults parse");
    assert_eq!(plan.cert_arg, None);
    assert_eq!(plan.key_arg, None);
    assert_eq!(plan.port, 1965);
    assert_eq!(plan.host, "127.0.0.1");
    assert_eq!(plan.base_url, "gemini://localhost/");
}

#[test]
fn port_host_and_base_url_are_read() {
    let plan = parse_cli(&args(&["--port", "8080", "--host", "0.0.0.0", "--base-url",
        "gemini://example/"])).expect("options parse");
    assert_eq!(plan.port, 8080);
    assert_eq!(plan.host, "0.0.0.0");
    assert_eq!(plan.base_url, "gemini://example/");
}

#[test]
fn cert_and_key_record_path_indices() {
    let plan = parse_cli(&args(&["--cert", "c.pem", "--key", "k.pem"])).expect("pair parses");
    assert_eq!(plan.cert_arg, Some(1));
    assert_eq!(plan.key_arg, Some(3));
}

#[test]
fn cert_without_key_is_rejected() {
    assert_eq!(parse_cli(&args(&["--cert", "c.pem"])), Err(CliError::CertKeyMismatch));
}

#[test]
fn key_without_cert_is_rejected() {
    assert_eq!(parse_cli(&args(&["--key", "k.pem"])), Err(CliError::CertKeyMismatch));
}

#[test]
fn missing_option_values_are_rejected() {
    assert_eq!(parse_cli(&args(&["--cert"])), Err(CliError::MissingCertPath));
    assert_eq!(parse_cli(&args(&["--key"])), Err(CliError::MissingKeyPath));
    assert_eq!(parse_cli(&args(&["--port"])), Err(CliError::MissingPort));
    assert_eq!(parse_cli(&args(&["--host"])), Err(CliError::MissingHost));
    assert_eq!(parse_cli(&args(&["--base-url"])), Err(CliError::MissingBaseUrl));
}

#[test]
fn bad_port_values_are_rejected() {
    assert_eq!(parse_cli(&args(&["--port", "70000"])), Err(CliError::InvalidPort));
    assert_eq!(parse_cli(&args(&["--port", "abc"])), Err(CliError::InvalidPort));
    assert_eq!(parse_cli(&vec![Some("--port".to_string()), None]), Err(CliError::InvalidPort));
}

#[test]
fn help_is_its_own_outcome() {
    assert_eq!(parse_cli(&args(&["-h"])), Err(CliError::HelpRequested));
    assert_eq!(parse_cli(&args(&["--help"])), Err(CliError::HelpRequested));
}

#[test]
fn unknown_arguments_are_rejected_by_index() {
    assert_eq!(parse_cli(&args(&["--bogus"])), Err(CliError::UnknownArgument(0)));
    assert_eq!(
        parse_cli(&args(&["--port", "80", "extra"])),
        Err(CliError::UnknownArgument(2))
    );
    assert_eq!(parse_cli(&vec![None]), Err(CliError::UnknownArgument(0)));
}

#[test]
fn non_unicode_host_is_rejected() {
    assert_eq!(
        parse_cli(&vec![Some("--host".to_string()), None]),
        Err(CliError::InvalidHost)
    );
    assert_eq!(
        parse_cli(&vec![Some("--base-url".to_string()), None]),
        Err(CliError::InvalidBaseUrl)
    );
}

#[test]
fn later_options_override_earlier_ones() {
    let plan = parse_cli(&args(&["--port", "80", "--port", "81"])).expect("parses");
    assert_eq!(plan.port, 81);
}

#[test]
fn port_numbers_parse_like_unsigned_integers() {
    assert_eq!(parse_port("1965"), Some(1965));
    assert_eq!(parse_port("0"), Some(0));
    assert_eq!(parse_port("007"), Some(7));
    assert_eq!(parse_port("+80"), Some(80));
    assert_eq!(parse_port("65535"), Some(65535));
    assert_eq!(parse_port("65536"), None);
    assert_eq!(parse_port(""), None);
    assert_eq!(parse_port("+"), None);
    assert_eq!(parse_port("-1"), None);
    assert_eq!(parse_port("1 2"), None);
    assert_eq!(parse_port(" 80"), None);
    assert_eq!(parse_port("8_0"), None);
}
