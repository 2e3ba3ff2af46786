use commandbot::plans::{
    bash, commit, packwiz, packwiz_output, pull_request, reset, PackwizOutput, PackwizPlan,
    HELP_FLAGS, HELP_OVERVIEW,
};
use commandbot::subprocess::{Invocation, SubprocessResult};

fn args_of(inv: &Invocation) -> Vec<&str> {
    inv.args.iter().map(|a| a.as_str()).collect()
}

#[test]
fn commit_plan_is_add_then_commit() {
    let plan = commit("feat: thing");
    assert_eq!(plan.len(), 2);
    assert_eq!(plan[0].program, "git");
    assert_eq!(args_of(&plan[0]), vec!["add", "-A"]);
    assert_eq!(plan[0].action, "add changes to commit");
    assert_eq!(plan[1].program, "git");
    assert_eq!(args_of(&plan[1]), vec!["commit", "-am", "feat: thing"]);
    assert_eq!(plan[1].action, "commit changes");
}

#[test]
fn reset_plan_restores_remote_state() {
    let plan = reset();
    assert_eq!(plan.len(), 4);
    assert_eq!(args_of(&plan[0]), vec!["pull", "origin"]);
    assert_eq!(args_of(&plan[1]), vec!["clean", "-fd"]);
    assert_eq!(args_of(&plan[2]), vec!["checkout", "v1"]);
    assert_eq!(args_of(&plan[3]), vec!["reset", "--hard", "origin/v1"]);
}

#[test]
fn pull_request_plan_names_branch_after_timestamp() {
    let plan = pull_request("My title", 1234);
    assert_eq!(plan.len(), 3);
    assert_eq!(
        args_of(&plan[0]),
        vec!["checkout", "-b", "pull-request-1234"]
    );
    assert_eq!(plan[1].program, "sh");
    let sh_args = args_of(&plan[1]);
    assert_eq!(sh_args[0], "-c");
    assert_eq!(
        sh_args[1],
        "git push -u origin pull-request-1234 2>&1 | grep -v 'Create a pull request' | grep -v '/pull/new' | sed 's/^remote: $//' | sed '/^$/d'"
    );
    assert_eq!(
        plan[1].display.as_deref(),
        Some("git push -u origin pull-request-1234")
    );
    assert_eq!(
        args_of(&plan[2]),
        vec!["pr", "create", "--title", "My title", "--fill", "--base", "v1"]
    );
}

#[test]
fn bash_is_gated_by_the_allow_list() {
    let allowed = vec![487247155741065229u64];
    let inv = bash(487247155741065229, &allowed, "ls -la");
    match inv {
        Some(inv) => {
            assert_eq!(inv.program, "bash");
            assert_eq!(args_of(&inv), vec!["-c", "ls -la"]);
            assert_eq!(inv.action, "execute command");
        }
        None => panic!("allow-listed caller was refused"),
    }
    assert!(bash(42, &allowed, "ls").is_none());
}

#[test]
fn packwiz_no_args_runs_bare() {
    match packwiz(None) {
        PackwizPlan::Run(v) => assert!(v.is_empty()),
        other => panic!("expected a bare run, got {:?}", other),
    }
}

#[test]
fn packwiz_help_words() {
    assert!(matches!(packwiz(Some(String::from("help"))), PackwizPlan::Help));
    assert!(matches!(packwiz(Some(String::from("--help"))), PackwizPlan::Help));
    assert!(matches!(
        packwiz(Some(String::from("help modrinth"))),
        PackwizPlan::Help
    ));
}

#[test]
fn packwiz_disallowed_subcommands() {
    assert!(matches!(packwiz(Some(String::from("init"))), PackwizPlan::Disabled));
    assert!(matches!(packwiz(Some(String::from("serve"))), PackwizPlan::Disabled));
    assert!(matches!(
        packwiz(Some(String::from("completion bash"))),
        PackwizPlan::Disabled
    ));
}

#[test]
fn packwiz_passes_other_commands_through() {
    match packwiz(Some(String::from("list"))) {
        PackwizPlan::Run(v) => assert_eq!(v, vec![String::from("list")]),
        other => panic!("expected a run, got {:?}", other),
    }
    match packwiz(Some(String::from("mr  install thing"))) {
        PackwizPlan::Run(v) => assert_eq!(
            v,
            vec![String::from("mr"), String::from("install"), String::from("thing")]
        ),
        other => panic!("expected a run, got {:?}", other),
    }
}

#[test]
fn packwiz_bulk_install_classifies_lines() {
    let text = "bulkinstall https://modrinth.com/mod/sodium\n# a comment\n\nhttps://www.curseforge.com/minecraft/mc-mods/jei";
    match packwiz(Some(String::from(text))) {
        PackwizPlan::Bulk(invs) => {
            assert_eq!(invs.len(), 2);
            assert_eq!(invs[0].program, "packwiz");
            assert_eq!(
                args_of(&invs[0]),
                vec!["mr", "install", "-y", "https://modrinth.com/mod/sodium"]
            );
            assert_eq!(invs[0].action, "install mod");
            assert_eq!(
                args_of(&invs[1]),
                vec![
                    "cf",
                    "install",
                    "-y",
                    "https://www.curseforge.com/minecraft/mc-mods/jei"
                ]
            );
        }
        other => panic!("expected a bulk plan, got {:?}", other),
    }
}

#[test]
fn packwiz_bulk_line_with_both_domains_installs_twice() {
    let text = "bulkinstall see modrinth.com and curseforge.com";
    match packwiz(Some(String::from(text))) {
        PackwizPlan::Bulk(invs) => {
            assert_eq!(invs.len(), 2);
            assert_eq!(args_of(&invs[0])[0], "mr");
            assert_eq!(args_of(&invs[1])[0], "cf");
        }
        other => panic!("expected a bulk plan, got {:?}", other),
    }
}

#[test]
fn packwiz_output_no_output() {
    let r = SubprocessResult { stdout: Vec::new(), stderr: Vec::new(), exit_code: 0, success: true };
    assert!(matches!(packwiz_output(&r), PackwizOutput::NoOutput));
}

#[test]
fn packwiz_output_detects_help_text() {
    let r = SubprocessResult {
        stdout: b"Usage:\n\nAvailable Commands:\n  foo".to_vec(),
        stderr: Vec::new(),
        exit_code: 0,
        success: true,
    };
    assert!(matches!(packwiz_output(&r), PackwizOutput::Help));
    assert!(HELP_OVERVIEW.contains("Available Commands:"));
    assert!(HELP_FLAGS.contains("Flags:"));
}

#[test]
fn packwiz_output_sends_stderr_before_stdout() {
    let r = SubprocessResult {
        stdout: b"ok\n".to_vec(),
        stderr: b"warn\n".to_vec(),
        exit_code: 0,
        success: true,
    };
    match packwiz_output(&r) {
        PackwizOutput::Messages(v) => {
            assert_eq!(v, vec![String::from("```\nwarn\n```"), String::from("```\nok\n```")]);
        }
        other => panic!("expected messages, got {:?}", other),
    }
}

#[test]
fn packwiz_output_stdout_only() {
    let r = SubprocessResult {
        stdout: b"mods: 3\n".to_vec(),
        stderr: Vec::new(),
        exit_code: 0,
        success: true,
    };
    match packwiz_output(&r) {
        PackwizOutput::Messages(v) => {
            assert_eq!(v, vec![String::from("```\nmods: 3\n```")]);
        }
        other => panic!("expected messages, got {:?}", other),
    }
}
