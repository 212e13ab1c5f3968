use uci_relay::config::parse_config_arg;
use uci_relay::ip::{get_external_ip, ip_service_urls, IpLookupError};
use uci_relay::text::{encode_line, is_quit_line, terminal_unit, trim_line};

#[test]
fn trim_line_strips_surrounding_whitespace() {
    assert_eq!(trim_line("  go depth 5 \r\n"), "go depth 5");
    assert_eq!(trim_line("quit"), "quit");
    assert_eq!(trim_line(""), "");
    assert_eq!(trim_line(" \t\r\n"), "");
    assert_eq!(trim_line("a  b"), "a  b");
}

#[test]
fn quit_is_recognised_only_when_the_trimmed_line_matches() {
    assert!(is_quit_line("quit"));
    assert!(is_quit_line("  quit\r\n"));
    assert!(!is_quit_line("quit now"));
    assert!(!is_quit_line("QUIT"));
    assert!(!is_quit_line(""));
}

#[test]
fn encode_line_appends_exactly_one_newline() {
    assert_eq!(encode_line("uci"), "uci\n");
    assert_eq!(encode_line(""), "\n");
}

#[test]
fn terminal_unit_sends_the_line_with_its_newline() {
    let unit = terminal_unit("ucinewgame");
    assert_eq!(unit.data, b"ucinewgame\n".to_vec());
    assert!(!unit.quit);

    let quit = terminal_unit(" quit ");
    assert_eq!(quit.data, b" quit \n".to_vec());
    assert!(quit.quit);
}

#[test]
fn byte_fidelity_over_a_sequence_of_lines() {
    let lines = ["uci", "isready", "position startpos", "go"];
    let mut wire: Vec<u8> = Vec::new();
    for line in lines {
        wire.extend_from_slice(&terminal_unit(line).data);
    }
    assert_eq!(wire, b"uci\nisready\nposition startpos\ngo\n".to_vec());
}

#[test]
fn config_flag_value_is_taken_from_the_first_flag() {
    let args: Vec<String> =
        ["prog", "--config", "a.json", "--config", "b.json"].map(String::from).to_vec();
    assert_eq!(parse_config_arg(&args), Some("a.json".to_string()));
}

#[test]
fn config_flag_without_a_value_yields_nothing() {
    let args: Vec<String> = ["prog", "--config"].map(String::from).to_vec();
    assert_eq!(parse_config_arg(&args), None);
    let empty: Vec<String> = Vec::new();
    assert_eq!(parse_config_arg(&empty), None);
    let unrelated: Vec<String> = ["prog", "-c", "a.json"].map(String::from).to_vec();
    assert_eq!(parse_config_arg(&unrelated), None);
}

#[test]
fn external_ip_takes_the_first_answer_trimmed() {
    let answers = vec![
        None,
        Some("203.0.113.9\n".to_string()),
        Some("198.51.100.17".to_string()),
    ];
    assert_eq!(get_external_ip(&answers), Ok("203.0.113.9".to_string()));
}

#[test]
fn external_ip_fails_only_when_every_service_fails() {
    let answers: Vec<Option<String>> = vec![None, None, None, None];
    let r = get_external_ip(&answers);
    assert_eq!(r, Err(IpLookupError::AllServicesFailed));
    assert_eq!(
        r.unwrap_err().describe(),
        "All IP lookup services failed".to_string()
    );
}

#[test]
fn the_lookup_services_are_asked_in_a_fixed_order() {
    let urls = ip_service_urls();
    assert_eq!(
        urls,
        vec![
            "https://api.ipify.org".to_string(),
            "https://icanhazip.com".to_string(),
            "https://ifconfig.me/ip".to_string(),
            "https://checkip.amazonaws.com".to_string(),
        ]
    );
}
