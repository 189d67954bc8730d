use opener::command::{
    open_with_browser, open_with_internal_xdg_open, open_with_macos_launcher,
    open_with_system_xdg_open, open_with_wslview, prefer_converted, reveal_in_windows_explorer,
    reveal_with_macos_launcher, windows_path_query, Invocation, Stdio,
};

fn invocation(program: &str, args: &[&str], stdin: Stdio, stdout: Stdio, stderr: Stdio) -> Invocation {
    Invocation {
        program: String::from(program),
        args: args.iter().map(|a| String::from(*a)).collect(),
        stdin,
        stdout,
        stderr,
    }
}

#[test]
fn system_xdg_open_command() {
    assert_eq!(
        open_with_system_xdg_open("/tmp/a b.txt"),
        invocation("xdg-open", &["/tmp/a b.txt"], Stdio::Null, Stdio::Null, Stdio::Null)
    );
}

#[test]
fn internal_xdg_open_command() {
    assert_eq!(
        open_with_internal_xdg_open("https://www.rust-lang.org"),
        invocation("sh", &["-s", "https://www.rust-lang.org"], Stdio::Piped, Stdio::Null, Stdio::Null)
    );
}

#[test]
fn wslview_command_prefers_the_windows_path() {
    assert_eq!(
        open_with_wslview("/mnt/c/a.txt", Some(String::from("C:\\a.txt"))),
        invocation("wslview", &["C:\\a.txt"], Stdio::Null, Stdio::Null, Stdio::Piped)
    );
    assert_eq!(
        open_with_wslview("/mnt/c/a.txt", None),
        invocation("wslview", &["/mnt/c/a.txt"], Stdio::Null, Stdio::Null, Stdio::Piped)
    );
}

#[test]
fn path_converter_command() {
    assert_eq!(
        windows_path_query("/home/me/x"),
        invocation("wslpath", &["-w", "/home/me/x"], Stdio::Null, Stdio::Piped, Stdio::Null)
    );
}

#[test]
fn explorer_command() {
    assert_eq!(
        reveal_in_windows_explorer("/mnt/c/a.txt", Some(String::from("C:\\a.txt"))),
        invocation("explorer.exe", &["/select,", "C:\\a.txt"], Stdio::Inherit, Stdio::Null, Stdio::Null)
    );
    assert_eq!(
        reveal_in_windows_explorer("/mnt/c/a.txt", None),
        invocation("explorer.exe", &["/select,", "/mnt/c/a.txt"], Stdio::Inherit, Stdio::Null, Stdio::Null)
    );
}

#[test]
fn macos_commands() {
    assert_eq!(
        open_with_macos_launcher("/Users/me/a.pdf"),
        invocation("open", &["/Users/me/a.pdf"], Stdio::Null, Stdio::Null, Stdio::Piped)
    );
    assert_eq!(
        reveal_with_macos_launcher("-weird name"),
        invocation("open", &["-R", "--", "-weird name"], Stdio::Null, Stdio::Null, Stdio::Piped)
    );
}

#[test]
fn browser_command() {
    assert_eq!(
        open_with_browser("firefox", "https://example.org", None),
        invocation("firefox", &["https://example.org"], Stdio::Null, Stdio::Null, Stdio::Piped)
    );
    assert_eq!(
        open_with_browser("chrome.exe", "/mnt/c/i.html", Some(String::from("C:\\i.html"))),
        invocation("chrome.exe", &["C:\\i.html"], Stdio::Null, Stdio::Null, Stdio::Piped)
    );
}

#[test]
fn preferred_path() {
    assert_eq!(prefer_converted("/a", Some(String::from("C:\\a"))), "C:\\a");
    assert_eq!(prefer_converted("/a", None), "/a");
    assert_eq!(prefer_converted("/a", Some(String::new())), "");
}
