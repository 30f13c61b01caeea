use eterm::error_display_chain;

fn chain(messages: &[&str]) -> String {
    error_display_chain(&messages.iter().map(|m| m.to_string()).collect())
}

#[test]
fn chain_of_one() {
    assert_eq!(chain(&["connection refused"]), "connection refused");
}

#[test]
fn chain_of_two() {
    assert_eq!(chain(&["receive", "broken pipe"]), "receive -> broken pipe");
}

#[test]
fn chain_of_three() {
    assert_eq!(
        chain(&["decode", "zstd", "Unknown frame descriptor"]),
        "decode -> zstd -> Unknown frame descriptor"
    );
}

#[test]
fn chain_of_none() {
    assert_eq!(chain(&[]), "");
}

#[test]
fn chain_keeps_empty_messages() {
    assert_eq!(chain(&["", ""]), " -> ");
}

#[test]
fn chain_keeps_other_alphabets() {
    assert_eq!(chain(&["Fehler", "接続"]), "Fehler -> 接続");
}
