use wait_for_file::command::parse_extra_command;

fn parsed(s: &str) -> (String, String) {
    parse_extra_command(s)
}

#[test]
fn parse_default_extra_command() {
    let (label, command) = parsed("Unlock:open-vault 120s");
    assert_eq!(label, "Unlock");
    assert_eq!(command, "open-vault 120s");
}

#[test]
fn parse_without_separator_uses_default_label() {
    let (label, command) = parsed("justacommand");
    assert_eq!(label, "Unlock");
    assert_eq!(command, "justacommand");
}

#[test]
fn parse_splits_at_first_separator_only() {
    let (label, command) = parsed("Mount:sh -c 'echo a:b'");
    assert_eq!(label, "Mount");
    assert_eq!(command, "sh -c 'echo a:b'");
}

#[test]
fn parse_empty_string() {
    let (label, command) = parsed("");
    assert_eq!(label, "Unlock");
    assert_eq!(command, "");
}

#[test]
fn parse_empty_label_and_empty_command() {
    assert_eq!(parsed(":run"), (String::new(), "run".to_string()));
    assert_eq!(parsed("Go:"), ("Go".to_string(), String::new()));
    assert_eq!(parsed(":"), (String::new(), String::new()));
}

#[test]
fn parse_non_ascii_label() {
    let (label, command) = parsed("Déverrouiller:ouvrir ✓");
    assert_eq!(label, "Déverrouiller");
    assert_eq!(command, "ouvrir ✓");
}
