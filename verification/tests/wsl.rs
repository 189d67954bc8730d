use opener::wsl::{windows_path_from_answer, wsl_to_windows_path, CommandOutput};

fn output(success: bool, stdout: &[u8]) -> Option<CommandOutput> {
    Some(CommandOutput { success, stdout: stdout.to_vec() })
}

#[test]
fn windows_path_without_trailing_newline() {
    assert_eq!(
        wsl_to_windows_path(output(true, b"C:\\Users\\me\\a.txt\n")),
        Some(String::from("C:\\Users\\me\\a.txt"))
    );
    assert_eq!(
        wsl_to_windows_path(output(true, b"\\\\wsl$\\Ubuntu\\home\\me\r\n")),
        Some(String::from("\\\\wsl$\\Ubuntu\\home\\me"))
    );
}

#[test]
fn windows_path_keeps_leading_and_inner_whitespace() {
    assert_eq!(
        wsl_to_windows_path(output(true, b"  C:\\Program Files\\x \t\n")),
        Some(String::from("  C:\\Program Files\\x"))
    );
}

#[test]
fn windows_path_trims_unicode_whitespace() {
    assert_eq!(
        wsl_to_windows_path(output(true, "C:\\caf\u{e9}\u{2003}\u{a0}".as_bytes())),
        Some(String::from("C:\\caf\u{e9}"))
    );
}

#[test]
fn windows_path_of_empty_answer() {
    assert_eq!(wsl_to_windows_path(output(true, b"")), Some(String::new()));
    assert_eq!(wsl_to_windows_path(output(true, b"\n")), Some(String::new()));
}

#[test]
fn no_windows_path_when_the_converter_fails() {
    assert_eq!(wsl_to_windows_path(output(false, b"C:\\a\n")), None);
    assert_eq!(wsl_to_windows_path(output(false, b"")), None);
    assert_eq!(wsl_to_windows_path(None), None);
}

#[test]
fn no_windows_path_from_bytes_that_are_no_text() {
    assert_eq!(wsl_to_windows_path(output(true, b"C:\\\xff\xfe\n")), None);
    assert_eq!(windows_path_from_answer(true, vec![0xC3]), None);
}

#[test]
fn windows_path_from_answer_reads_the_text() {
    assert_eq!(windows_path_from_answer(true, b"D:\\x".to_vec()), Some(String::from("D:\\x")));
    assert_eq!(windows_path_from_answer(true, b"D:\\x\n".to_vec()), Some(String::from("D:\\x\n")));
    assert_eq!(windows_path_from_answer(false, b"D:\\x".to_vec()), None);
}
