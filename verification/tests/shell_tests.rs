use pty_bridge::shell::resolve_shell;

#[test]
fn environment_override_wins() {
    let shell = resolve_shell(Some(String::from("/usr/bin/fish")));
    assert_eq!(shell, "/usr/bin/fish");
}

#[test]
fn fallback_without_override() {
    let shell = resolve_shell(None);
    assert_eq!(shell, "/bin/bash");
}
