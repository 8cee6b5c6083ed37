use switch_theme::shell::{init_snippet, upsert_hook};

const BLOCK: &str = "# switch-theme start\ncommand -v switch-theme >/dev/null 2>&1 && switch-theme apply >/dev/null 2>&1\n# switch-theme end";

#[test]
fn appends_hook_to_empty_file() {
    let updated = upsert_hook("");

    assert_eq!(
        updated,
        "# switch-theme start\ncommand -v switch-theme >/dev/null 2>&1 && switch-theme apply >/dev/null 2>&1\n# switch-theme end\n"
    );
}

#[test]
fn preserves_existing_shell_config() {
    let updated = upsert_hook("export PATH=\"$HOME/bin:$PATH\"\n");

    assert!(updated.starts_with("export PATH=\"$HOME/bin:$PATH\"\n\n# switch-theme start"));
}

#[test]
fn replaces_existing_managed_hook() {
    let updated = upsert_hook(
        "before\n\n# switch-theme start\nold command\n# switch-theme end\n\nafter\n",
    );

    assert_eq!(
        updated,
        "before\n\n# switch-theme start\ncommand -v switch-theme >/dev/null 2>&1 && switch-theme apply >/dev/null 2>&1\n# switch-theme end\n\nafter\n"
    );
}

#[test]
fn upsert_twice_changes_nothing() {
    for contents in [
        "",
        "export A=1\n",
        "before\n# switch-theme start\nx\n# switch-theme end\n\r\n\nafter",
        "# switch-theme end\nstray end marker\n",
    ] {
        let once = upsert_hook(contents);
        assert_eq!(upsert_hook(&once), once);
    }
}

#[test]
fn start_marker_without_end_is_appended_after() {
    let contents = "# switch-theme start\nunfinished";
    let once = upsert_hook(contents);
    assert_eq!(once, format!("{}\n\n{}\n", contents, BLOCK));
    // Such a profile is not stable: the second run replaces from the stray marker on.
    assert_eq!(upsert_hook(&once), format!("{}\n", BLOCK));
}

#[test]
fn trailing_whitespace_and_blank_lines_are_normalized() {
    let updated = upsert_hook("alias ll='ls -l'   \n\n\n");
    assert_eq!(updated, format!("alias ll='ls -l'\n\n{}\n", BLOCK));
    let replaced = upsert_hook("top  \t\n# switch-theme start\nold\n# switch-theme end\r\n\r\ntail text");
    assert_eq!(replaced, format!("top\n\n{}\n\ntail text", BLOCK));
}

#[test]
fn init_snippet_is_the_hook_command() {
    assert_eq!(
        init_snippet(),
        "command -v switch-theme >/dev/null 2>&1 && switch-theme apply >/dev/null 2>&1"
    );
}

#[test]
fn upsert_always_installs_the_block() {
    for contents in [
        "",
        "\n\n\n",
        "alias ll='ls -l'",
        "# switch-theme start\nunfinished",
        "x\n# switch-theme end\n# switch-theme start\nold\n# switch-theme end\ny",
    ] {
        assert!(upsert_hook(contents).contains(BLOCK), "no block for {contents:?}");
    }
}

#[test]
fn start_marker_without_end_is_not_stable() {
    let once = upsert_hook("# switch-theme start\nunfinished");
    let twice = upsert_hook(&once);
    assert_ne!(once, twice);
}
