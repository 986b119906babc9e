use hark::autostart::{command_for, desktop_entry, exec_line, has_trimmed_line, HIDDEN_FLAG, RUN_VALUE_NAME};

#[test]
fn the_written_entry_is_the_one_is_enabled_recognises() {
    let exe = "/usr/bin/hark";
    let entry = desktop_entry(exe);
    assert!(entry.lines().any(|line| line.trim() == exec_line(exe)));
    assert!(has_trimmed_line(&entry, &exec_line(exe)));
}

#[test]
fn the_exec_line_quotes_the_path_and_appends_the_hidden_flag() {
    let line = exec_line("/opt/Hark Beta/hark");
    assert_eq!(line, "Exec=\"/opt/Hark Beta/hark\" --hidden");
    assert!(line.starts_with("Exec=\""));
    assert!(line.ends_with(HIDDEN_FLAG));
}

#[test]
fn the_exec_line_escapes_what_the_desktop_spec_reserves() {
    let line = exec_line(r#"/home/u/$IT/a"b/`c`/d\e/hark"#);
    assert!(line.contains(r"\$IT"), "$ must be escaped: {line}");
    assert!(line.contains(r#"a\"b"#), "a quote must be escaped: {line}");
    assert!(line.contains(r"\`c\`"), "backticks must be escaped: {line}");
    assert!(line.contains(r"d\\e"), "a backslash must be escaped: {line}");
}

#[test]
fn an_ordinary_path_is_left_alone() {
    assert_eq!(exec_line("/usr/bin/hark"), "Exec=\"/usr/bin/hark\" --hidden");
}

#[test]
fn the_entry_is_a_wellformed_desktop_file() {
    let entry = desktop_entry("/usr/bin/hark");
    assert!(entry.starts_with("[Desktop Entry]\n"));
    assert!(entry.contains("\nType=Application\n"));
    assert!(entry.contains(&format!("\nName={RUN_VALUE_NAME}\n")));
    assert!(entry.contains("\nExec=\"/usr/bin/hark\" --hidden\n"));
    assert!(entry.ends_with('\n'), "the file must end with a newline");
}

#[test]
fn command_quotes_the_path_and_appends_the_hidden_flag() {
    let cmd = command_for(r"C:\Program Files\Hark\Hark.exe");
    assert_eq!(cmd, "\"C:\\Program Files\\Hark\\Hark.exe\" --hidden");
    assert!(cmd.starts_with('"'));
    assert!(cmd.ends_with(HIDDEN_FLAG));
}

#[test]
fn a_rewritten_entry_is_still_recognised_by_its_exec_line() {
    let exe = "/usr/bin/hark";
    let rewritten = format!("{}X-Extra=1\r\n", desktop_entry(exe)).replace("\n", "\r\n");
    assert!(has_trimmed_line(&rewritten, &exec_line(exe)));
    assert!(!has_trimmed_line(&rewritten, &exec_line("/usr/bin/other")));
    assert!(has_trimmed_line("  Exec=x  ", "Exec=x"));
    assert!(!has_trimmed_line("", ""));
    assert!(has_trimmed_line("\n", ""));
    assert!(!has_trimmed_line("a\n", ""));
}
