use altqnav::registry::{load_monitored_apps, parse_line, parse_registry, LineParse};

#[test]
fn quoted_field_keeps_inner_comma() {
    let line = "Code.exe, VSCode, \"C:\\Program Files\\code,dir\\code.exe\"";
    match parse_line(line) {
        LineParse::Entry(app) => {
            assert_eq!(app.process_executable_name, "Code.exe");
            assert_eq!(app.display_name, "VSCode");
            assert_eq!(app.launch_target, "C:\\Program Files\\code,dir\\code.exe");
        }
        _ => panic!("expected an entry"),
    }
}

#[test]
fn two_fields_is_malformed() {
    match parse_line("Code.exe, VSCode") {
        LineParse::Malformed(l) => assert_eq!(l, "Code.exe, VSCode"),
        _ => panic!("expected a malformed line"),
    }
}

#[test]
fn four_fields_is_malformed() {
    assert!(matches!(parse_line("a, b, c, d"), LineParse::Malformed(_)));
}

#[test]
fn blank_and_whitespace_lines_are_skipped() {
    assert!(matches!(parse_line(""), LineParse::Blank));
    assert!(matches!(parse_line("   \t  "), LineParse::Blank));
}

#[test]
fn fields_are_trimmed() {
    match parse_line("  a.exe ,  Display Name ,\ttarget  ") {
        LineParse::Entry(app) => {
            assert_eq!(app.process_executable_name, "a.exe");
            assert_eq!(app.display_name, "Display Name");
            assert_eq!(app.launch_target, "target");
        }
        _ => panic!("expected an entry"),
    }
}

#[test]
fn malformed_line_does_not_reach_the_registry() {
    let content = "Code.exe, VSCode, code\nBroken.exe, OnlyTwo\n\nB.exe, B, b";
    let (apps, malformed) = parse_registry(content);
    assert_eq!(apps.len(), 2);
    assert_eq!(apps[0].process_executable_name, "Code.exe");
    assert_eq!(apps[1].process_executable_name, "B.exe");
    assert_eq!(malformed.len(), 1);
    assert_eq!(malformed[0], "Broken.exe, OnlyTwo");
}

#[test]
fn missing_registry_text_yields_single_default_entry() {
    let apps = load_monitored_apps(None);
    assert_eq!(apps.len(), 1);
    assert_eq!(apps[0].process_executable_name, "Code.exe");
    assert_eq!(apps[0].display_name, "VSCode");
    assert_eq!(apps[0].launch_target, "code");
}

#[test]
fn loading_parses_every_well_formed_line() {
    let content = "a.exe, A, a\r\nb.exe, B, \"b, with comma\"\n";
    let apps = load_monitored_apps(Some(content));
    assert_eq!(apps.len(), 2);
    assert_eq!(apps[0].process_executable_name, "a.exe");
    assert_eq!(apps[1].launch_target, "b, with comma");
}

#[test]
fn quotes_are_dropped_from_fields() {
    match parse_line("\"a\".exe, \"B\", \"c\"") {
        LineParse::Entry(app) => {
            assert_eq!(app.process_executable_name, "a.exe");
            assert_eq!(app.display_name, "B");
            assert_eq!(app.launch_target, "c");
        }
        _ => panic!("expected an entry"),
    }
}
