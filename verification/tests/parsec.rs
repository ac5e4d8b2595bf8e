use parsec_vdisplay::parsec::{next_log_position, parse_line, parse_parsec_line, ParsecEvent};

#[test]
fn test_parse_connected() {
    let line = "[I 2026-04-06 10:17:53] Username#12345678 connected.";
    let event = parse_line(line);
    assert!(matches!(event, Some(ParsecEvent::ClientConnected(_))));
}

#[test]
fn test_parse_disconnected() {
    let line = "[I 2026-04-06 10:18:44] Username#12345678 disconnected.";
    let event = parse_line(line);
    assert!(matches!(event, Some(ParsecEvent::ClientDisconnected(_))));
}

#[test]
fn connected_line_names_the_client() {
    let event = parse_line("[I 2026-04-06 10:17:53] Username#12345678 connected.");
    assert_eq!(event, Some(ParsecEvent::ClientConnected("Username#12345678".to_string())));
}

#[test]
fn disconnected_line_names_the_client() {
    let event = parse_line("[I 2026-04-06 10:18:44] Username#12345678 disconnected.\n");
    assert_eq!(event, Some(ParsecEvent::ClientDisconnected("Username#12345678".to_string())));
}

#[test]
fn unrelated_line_reports_nothing() {
    assert_eq!(parse_line("[I 2026-04-06 10:18:44] Starting stream"), None);
    assert_eq!(parse_line(""), None);
}

#[test]
fn blank_name_reports_nothing() {
    assert_eq!(parse_line("[I 2026-04-06 10:18:44]  connected."), None);
    assert_eq!(parse_line("] connected."), None);
}

#[test]
fn line_without_bracket_uses_whole_prefix() {
    assert_eq!(
        parse_line("  alice  connected."),
        Some(ParsecEvent::ClientConnected("alice".to_string()))
    );
}

#[test]
fn name_after_last_bracket() {
    assert_eq!(
        parse_line("[a] [b] bob disconnected. trailing"),
        Some(ParsecEvent::ClientDisconnected("bob".to_string()))
    );
}

#[test]
fn connection_marker_takes_precedence() {
    // both markers present: the connection is reported
    assert_eq!(
        parse_line("[x] carol connected. dave disconnected."),
        Some(ParsecEvent::ClientConnected("carol".to_string()))
    );
}

#[test]
fn unicode_whitespace_is_trimmed() {
    assert_eq!(
        parse_line("[x]\u{3000}émile\u{a0} connected."),
        Some(ParsecEvent::ClientConnected("émile".to_string()))
    );
}

#[test]
fn parsec_line_pairs_agree_with_events() {
    assert_eq!(
        parse_parsec_line("[I 1] eve#1 connected."),
        Some((true, "eve#1".to_string()))
    );
    assert_eq!(
        parse_parsec_line("[I 1] eve#1 disconnected."),
        Some((false, "eve#1".to_string()))
    );
    assert_eq!(parse_parsec_line("[I 1] nothing here"), None);
}

#[test]
fn log_position_counts_bytes_and_newline() {
    assert_eq!(next_log_position(10, "abc"), 14);
    assert_eq!(next_log_position(0, ""), 1);
    assert_eq!(next_log_position(0, "é"), 3);
}
