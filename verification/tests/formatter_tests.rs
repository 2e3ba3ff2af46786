use commandbot::subprocess::{display_of, format_output, SubprocessResult};

fn result(stdout: &str, stderr: &str, success: bool) -> SubprocessResult {
    SubprocessResult {
        stdout: stdout.as_bytes().to_vec(),
        stderr: stderr.as_bytes().to_vec(),
        exit_code: if success { 0 } else { 1 },
        success,
    }
}

#[test]
fn no_output_and_success() {
    let r = result("", "", true);
    let m = format_output("git add -A", &r, "add changes to commit", "git");
    assert_eq!(m, "```\n> git add -A```\nCommand ran with no output");
}

#[test]
fn stdout_only_with_failure_suffix() {
    let r = result("boom\n", "", false);
    let m = format_output("git commit -am m", &r, "commit changes", "git");
    assert_eq!(
        m,
        "```\n> git commit -am m\nboom\n```\nFailed to commit changes - git returned non-zero exit code"
    );
}

#[test]
fn stderr_only() {
    let r = result("", "warning\n", true);
    let m = format_output("git pull origin", &r, "fetch latest changes", "git");
    assert_eq!(m, "```\n> git pull origin\nwarning\n```");
}

#[test]
fn both_streams_stacked() {
    let r = result("out\n", "err\n", true);
    let m = format_output("cmd", &r, "do it", "prog");
    assert_eq!(m, "```\n> cmd\nout\n\nerr\n```");
}

#[test]
fn no_output_with_failure_suffix() {
    let r = result("", "", false);
    let m = format_output("cmd", &r, "do the thing", "prog");
    assert_eq!(
        m,
        "```\n> cmd```\nCommand ran with no output\nFailed to do the thing - prog returned non-zero exit code"
    );
}

#[test]
fn invalid_bytes_are_replaced_not_fatal() {
    let r = SubprocessResult {
        stdout: vec![0xff, 0xfe],
        stderr: Vec::new(),
        exit_code: 0,
        success: true,
    };
    let m = format_output("cmd", &r, "act", "prog");
    assert_eq!(m, "```\n> cmd\n\u{fffd}\u{fffd}```");
}

#[test]
fn display_joins_program_and_args() {
    let args = vec![String::from("add"), String::from("-A")];
    assert_eq!(display_of("git", &args), "git add -A");
    let none: Vec<String> = Vec::new();
    assert_eq!(display_of("packwiz", &none), "packwiz ");
}
