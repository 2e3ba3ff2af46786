//! Plan construction for the built-in commands that shell out. Each builder
//! turns the user's request into the exact sequence of program invocations
//! to run; executing them and relaying their output is the caller's part.

use vstd::prelude::*;
use crate::strutil::{contains_seq, contains_str, dec_str, find_char, find_char_str, is_prefix,
    split_on, split_on_str, split_ws, split_ws_str, starts_with_str, str_eq, strip_prefix_str,
    u64_to_string, concat_str};
use crate::subprocess::{inv_is, lossy_of, make_invocation, Invocation, SubprocessResult};

verus! {

/// The first half of the manifest tool's canned help text: the subcommand
/// overview, sent in place of the tool's own oversized help output.
pub const HELP_OVERVIEW: &'static str = "\n```\nA command line tool for creating Minecraft modpacks\n\nUsage:\n  packwiz [command]\n\nAvailable Commands:\n  completion  Generate the autocompletion script for the specified shell\n  curseforge  Manage curseforge-based mods\n  help        Help about any command\n  list        List all the mods in the modpack\n  migrate     Migrate your Minecraft and loader versions to newer versions.\n  modrinth    Manage modrinth-based mods\n  pin         Pin a file so it does not get updated automatically\n  refresh     Refresh the index file\n  remove      Remove an external file from the modpack; equivalent to manually removing the file and running packwiz refresh\n  settings    Manage pack settings\n  unpin       Unpin a file so it receives updates\n  update      Update an external file (or all external files) in the modpack\n  url         Add external files from a direct download link, for sites that are not directly supported by packwiz\n```\n";

/// The second half of the canned help text: the tool's global flags.
pub const HELP_FLAGS: &'static str = "\n```\nFlags:\n      --cache string              The directory where packwiz will cache downloaded mods (default \"/Users/oskar/Library/Caches/packwiz/cache\")\n      --config string             The config file to use (default \"/Users/oskar/Library/Application Support/packwiz/.packwiz.toml\")\n  -h, --help                      help for packwiz\n      --meta-folder string        The folder in which new metadata files will be added, defaulting to a folder based on the category (mods, resourcepacks, etc; if the category is unknown the current directory is used)\n      --meta-folder-base string   The base folder from which meta-folder will be resolved, defaulting to the current directory (so you can put all mods/etc in a subfolder while still using the default behaviour) (default \".\")\n      --pack-file string          The modpack metadata file to use (default \"pack.toml\")\n  -y, --yes                       Accept all prompts with the default or \"yes\" option (non-interactive mode) - may pick unwanted options in search results\n\nUse \"packwiz [command] --help\" for more information about a command.\n```\n";

/// The two canned help messages, sent for a help request and in place of the
/// tool's own help output.
pub fn help_messages() -> (r: Vec<String>)
    ensures
        r.deep_view() == seq![HELP_OVERVIEW@, HELP_FLAGS@],
{
    let mut r: Vec<String> = Vec::new();
    r.push(String::from_str(HELP_OVERVIEW));
    r.push(String::from_str(HELP_FLAGS));
    proof {
        assert(r.deep_view() =~= seq![HELP_OVERVIEW@, HELP_FLAGS@]);
    }
    r
}

/// The two-invocation plan of the commit command: stage everything, then
/// commit with the given message.
pub fn commit(message: &str) -> (r: Vec<Invocation>)
    ensures
        r@.len() == 2,
        inv_is(r@[0], "git"@, seq!["add"@, "-A"@], "add changes to commit"@),
        inv_is(r@[1], "git"@, seq!["commit"@, "-am"@, message@], "commit changes"@),
{
    let mut r: Vec<Invocation> = Vec::new();
    let mut a0: Vec<String> = Vec::new();
    a0.push(String::from_str("add"));
    a0.push(String::from_str("-A"));
    proof {
        assert(a0.deep_view() =~= seq!["add"@, "-A"@]);
    }
    r.push(make_invocation("git", a0, "add changes to commit"));
    let mut a1: Vec<String> = Vec::new();
    a1.push(String::from_str("commit"));
    a1.push(String::from_str("-am"));
    a1.push(String::from_str(message));
    proof {
        assert(a1.deep_view() =~= seq!["commit"@, "-am"@, message@]);
    }
    r.push(make_invocation("git", a1, "commit changes"));
    r
}

/// The four-invocation plan of the reset command: fetch, clean, check out
/// the tracked iteration branch, and hard-reset it to the remote state.
pub fn reset() -> (r: Vec<Invocation>)
    ensures
        r@.len() == 4,
        inv_is(r@[0], "git"@, seq!["pull"@, "origin"@], "fetch latest changes"@),
        inv_is(r@[1], "git"@, seq!["clean"@, "-fd"@], "clean working directory"@),
        inv_is(r@[2], "git"@, seq!["checkout"@, "v1"@], "checkout remote state"@),
        inv_is(r@[3], "git"@, seq!["reset"@, "--hard"@, "origin/v1"@], "reset to remote latest state"@),
{
    let mut r: Vec<Invocation> = Vec::new();
    let mut a0: Vec<String> = Vec::new();
    a0.push(String::from_str("pull"));
    a0.push(String::from_str("origin"));
    proof {
        assert(a0.deep_view() =~= seq!["pull"@, "origin"@]);
    }
    r.push(make_invocation("git", a0, "fetch latest changes"));
    let mut a1: Vec<String> = Vec::new();
    a1.push(String::from_str("clean"));
    a1.push(String::from_str("-fd"));
    proof {
        assert(a1.deep_view() =~= seq!["clean"@, "-fd"@]);
    }
    r.push(make_invocation("git", a1, "clean working directory"));
    let mut a2: Vec<String> = Vec::new();
    a2.push(String::from_str("checkout"));
    a2.push(String::from_str("v1"));
    proof {
        assert(a2.deep_view() =~= seq!["checkout"@, "v1"@]);
    }
    r.push(make_invocation("git", a2, "checkout remote state"));
    let mut a3: Vec<String> = Vec::new();
    a3.push(String::from_str("reset"));
    a3.push(String::from_str("--hard"));
    a3.push(String::from_str("origin/v1"));
    proof {
        assert(a3.deep_view() =~= seq!["reset"@, "--hard"@, "origin/v1"@]);
    }
    r.push(make_invocation("git", a3, "reset to remote latest state"));
    r
}

/// The branch a pull request is pushed from, named after the moment of the
/// request.
pub open spec fn branch_name(millis: nat) -> Seq<char> {
    "pull-request-"@ + dec_str(millis)
}

/// The shell pipeline that pushes the branch while filtering the remote's
/// create-a-pull-request hints out of the output.
pub open spec fn push_script(branch: Seq<char>) -> Seq<char> {
    "git push -u origin "@ + branch
        + " 2>&1 | grep -v 'Create a pull request' | grep -v '/pull/new' | sed 's/^remote: $//' | sed '/^$/d'"@
}

/// The three-invocation plan of the pull-request command: create a branch
/// named after the current time, push it (showing the plain push command,
/// not the filtering pipeline), and open the pull request against the
/// tracked iteration branch.
pub fn pull_request(title: &str, timestamp_millis: u64) -> (r: Vec<Invocation>)
    ensures
        r@.len() == 3,
        inv_is(
            r@[0],
            "git"@,
            seq!["checkout"@, "-b"@, branch_name(timestamp_millis as nat)],
            "create and checkout to new branch"@,
        ),
        r@[1].program@ == "sh"@,
        r@[1].args.deep_view() == seq!["-c"@, push_script(branch_name(timestamp_millis as nat))],
        r@[1].action@ == "push branch"@,
        r@[1].display matches Some(d) && d@ == "git push -u origin "@ + branch_name(
            timestamp_millis as nat,
        ),
        inv_is(
            r@[2],
            "gh"@,
            seq!["pr"@, "create"@, "--title"@, title@, "--fill"@, "--base"@, "v1"@],
            "create pull request"@,
        ),
{
    let branch = concat_str("pull-request-", u64_to_string(timestamp_millis).as_str());
    let mut r: Vec<Invocation> = Vec::new();
    let mut a0: Vec<String> = Vec::new();
    a0.push(String::from_str("checkout"));
    a0.push(String::from_str("-b"));
    a0.push(String::from_str(branch.as_str()));
    proof {
        assert(a0.deep_view() =~= seq!["checkout"@, "-b"@, branch_name(timestamp_millis as nat)]);
    }
    r.push(make_invocation("git", a0, "create and checkout to new branch"));
    let display = concat_str("git push -u origin ", branch.as_str());
    let script = concat_str(
        display.as_str(),
        " 2>&1 | grep -v 'Create a pull request' | grep -v '/pull/new' | sed 's/^remote: $//' | sed '/^$/d'",
    );
    let mut a1: Vec<String> = Vec::new();
    a1.push(String::from_str("-c"));
    a1.push(script);
    proof {
        assert(a1.deep_view() =~= seq![
            "-c"@,
            push_script(branch_name(timestamp_millis as nat)),
        ]);
    }
    r.push(
        Invocation {
            program: String::from_str("sh"),
            args: a1,
            action: String::from_str("push branch"),
            display: Some(display),
        },
    );
    let mut a2: Vec<String> = Vec::new();
    a2.push(String::from_str("pr"));
    a2.push(String::from_str("create"));
    a2.push(String::from_str("--title"));
    a2.push(String::from_str(title));
    a2.push(String::from_str("--fill"));
    a2.push(String::from_str("--base"));
    a2.push(String::from_str("v1"));
    proof {
        assert(a2.deep_view() =~= seq![
            "pr"@,
            "create"@,
            "--title"@,
            title@,
            "--fill"@,
            "--base"@,
            "v1"@,
        ]);
    }
    r.push(make_invocation("gh", a2, "create pull request"));
    r
}

/// A word asking the manifest tool for its help text.
pub open spec fn is_help_word(c: Seq<char>) -> bool {
    c == "help"@ || c == "--help"@
}

/// A manifest-tool subcommand that is disabled over chat.
pub open spec fn is_disallowed_word(c: Seq<char>) -> bool {
    c == "init"@ || c == "completion"@ || c == "utils"@ || c == "serve"@
}

/// The install invocations one batch line asks for: none for an empty or
/// `#`-comment line; otherwise one per recognized hosting domain named in
/// the line, the modrinth form first.
pub open spec fn bulk_args_of_line(line: Seq<char>) -> Seq<Seq<Seq<char>>> {
    if line.len() == 0 || is_prefix("#"@, line) {
        Seq::empty()
    } else {
        (if contains_seq(line, "modrinth.com"@) {
            seq![seq!["mr"@, "install"@, "-y"@, line]]
        } else {
            Seq::empty()
        }) + (if contains_seq(line, "curseforge.com"@) {
            seq![seq!["cf"@, "install"@, "-y"@, line]]
        } else {
            Seq::empty()
        })
    }
}

/// The argument vectors of a whole batch, line by line.
pub open spec fn bulk_plan(lines: Seq<Seq<char>>) -> Seq<Seq<Seq<char>>>
    decreases lines.len(),
{
    if lines.len() == 0 {
        Seq::empty()
    } else {
        bulk_args_of_line(lines[0]) + bulk_plan(lines.drop_first())
    }
}

proof fn lemma_bulk_plan_push(lines: Seq<Seq<char>>, x: Seq<char>)
    ensures
        bulk_plan(lines.push(x)) == bulk_plan(lines) + bulk_args_of_line(x),
    decreases lines.len(),
{
    if lines.len() == 0 {
        assert(lines.push(x).drop_first() =~= Seq::<Seq<char>>::empty());
        assert(lines.push(x)[0] == x);
        assert(bulk_plan(Seq::<Seq<char>>::empty()) == Seq::<Seq<Seq<char>>>::empty());
        assert(bulk_plan(lines.push(x)) == bulk_args_of_line(x) + Seq::<Seq<Seq<char>>>::empty());
        assert(bulk_args_of_line(x) + Seq::<Seq<Seq<char>>>::empty() =~= bulk_args_of_line(x));
        assert(Seq::<Seq<Seq<char>>>::empty() + bulk_args_of_line(x) =~= bulk_args_of_line(x));
    } else {
        lemma_bulk_plan_push(lines.drop_first(), x);
        assert(lines.push(x).drop_first() =~= lines.drop_first().push(x));
        assert(lines.push(x)[0] == lines[0]);
        assert(bulk_args_of_line(lines[0]) + (bulk_plan(lines.drop_first()) + bulk_args_of_line(x))
            =~= (bulk_args_of_line(lines[0]) + bulk_plan(lines.drop_first()))
            + bulk_args_of_line(x));
    }
}

/// Every invocation runs `prog` under the description `action`, with the
/// argument vectors of `plan`, in order.
pub open spec fn invs_match(
    invs: Seq<Invocation>,
    prog: Seq<char>,
    plan: Seq<Seq<Seq<char>>>,
    action: Seq<char>,
) -> bool {
    invs.len() == plan.len() && forall|i: int|
        0 <= i < invs.len() ==> inv_is(#[trigger] invs[i], prog, plan[i], action)
}

fn build_bulk(text: &str) -> (r: Vec<Invocation>)
    ensures
        invs_match(r@, "packwiz"@, bulk_plan(split_on(text@, '\n')), "install mod"@),
{
    let lines = split_on_str(text, '\n');
    let mut invs: Vec<Invocation> = Vec::new();
    let n = lines.len();
    let mut i: usize = 0;
    while i < n
        invariant
            i <= n,
            n == lines.len(),
            lines.deep_view() == split_on(text@, '\n'),
            invs_match(
                invs@,
                "packwiz"@,
                bulk_plan(lines.deep_view().take(i as int)),
                "install mod"@,
            ),
        decreases n - i,
    {
        let ghost line_seq = lines@[i as int]@;
        proof {
            assert(lines.deep_view()[i as int] == line_seq);
            assert(lines.deep_view().take(i + 1 as int) =~= lines.deep_view().take(
                i as int,
            ).push(line_seq));
            lemma_bulk_plan_push(lines.deep_view().take(i as int), line_seq);
        }
        let line = &lines[i];
        let skip_line = line.as_str().unicode_len() == 0 || starts_with_str(line.as_str(), "#");
        if !skip_line {
            if contains_str(line.as_str(), "modrinth.com") {
                let mut a: Vec<String> = Vec::new();
                a.push(String::from_str("mr"));
                a.push(String::from_str("install"));
                a.push(String::from_str("-y"));
                a.push(String::from_str(line.as_str()));
                proof {
                    assert(a.deep_view() =~= seq!["mr"@, "install"@, "-y"@, line_seq]);
                }
                invs.push(make_invocation("packwiz", a, "install mod"));
            }
            if contains_str(line.as_str(), "curseforge.com") {
                let mut a: Vec<String> = Vec::new();
                a.push(String::from_str("cf"));
                a.push(String::from_str("install"));
                a.push(String::from_str("-y"));
                a.push(String::from_str(line.as_str()));
                proof {
                    assert(a.deep_view() =~= seq!["cf"@, "install"@, "-y"@, line_seq]);
                }
                invs.push(make_invocation("packwiz", a, "install mod"));
            }
        }
        proof {
            assert(invs_match(
                invs@,
                "packwiz"@,
                bulk_plan(lines.deep_view().take(i + 1 as int)),
                "install mod"@,
            ));
        }
        i += 1;
    }
    proof {
        assert(lines.deep_view().take(n as int) =~= lines.deep_view());
    }
    invs
}

/// What the manifest-tool command decides to do with the user's arguments.
#[derive(Debug)]
pub enum PackwizPlan {
    /// Send the tool's help text instead of running anything.
    Help,
    /// Refuse: the requested subcommand is disabled over chat.
    Disabled,
    /// Run the tool once, passing these arguments through.
    Run(Vec<String>),
    /// The batch-install sub-syntax: run these install invocations in order.
    Bulk(Vec<Invocation>),
}

/// The decision the manifest-tool command makes. With no arguments the tool
/// runs bare. One single word is checked against the help words and the
/// disabled subcommands, then passed through. Text with a space is split
/// into words, its first word checked the same way — unless the text begins
/// with the batch-install keyword and a space, in which case the remainder
/// is treated line by line as a batch install.
pub open spec fn packwiz_plan_ok(a: Option<Seq<char>>, plan: PackwizPlan) -> bool {
    match a {
        Option::None => plan matches PackwizPlan::Run(v) && v.deep_view()
            == Seq::<Seq<char>>::empty(),
        Option::Some(text) => {
            if find_char(text, ' ') >= 0 {
                if is_prefix("bulkinstall "@, text) {
                    plan matches PackwizPlan::Bulk(invs) && invs_match(
                        invs@,
                        "packwiz"@,
                        bulk_plan(
                            split_on(text.skip("bulkinstall "@.len() as int), '\n'),
                        ),
                        "install mod"@,
                    )
                } else {
                    let toks = split_ws(text);
                    if toks.len() > 0 && is_help_word(toks[0]) {
                        plan is Help
                    } else if toks.len() > 0 && is_disallowed_word(toks[0]) {
                        plan is Disabled
                    } else {
                        plan matches PackwizPlan::Run(v) && v.deep_view() == toks
                    }
                }
            } else {
                if is_help_word(text) {
                    plan is Help
                } else if is_disallowed_word(text) {
                    plan is Disabled
                } else {
                    plan matches PackwizPlan::Run(v) && v.deep_view() == seq![text]
                }
            }
        },
    }
}

/// Decides what the manifest-tool command does, per [`packwiz_plan_ok`].
pub fn packwiz(args: Option<String>) -> (r: PackwizPlan)
    ensures
        packwiz_plan_ok(args.deep_view(), r),
{
    match args {
        None => {
            let v: Vec<String> = Vec::new();
            proof {
                assert(v.deep_view() =~= Seq::<Seq<char>>::empty());
            }
            PackwizPlan::Run(v)
        },
        Some(text) => {
            if find_char_str(text.as_str(), ' ').is_some() {
                match strip_prefix_str(text.as_str(), "bulkinstall ") {
                    Some(rest) => {
                        proof {
                            assert(rest@ =~= text@.skip("bulkinstall "@.len() as int));
                        }
                        PackwizPlan::Bulk(build_bulk(rest))
                    },
                    None => {
                        let toks = split_ws_str(text.as_str());
                        if toks.len() > 0 {
                            proof {
                                assert(toks.deep_view()[0] == toks@[0]@);
                            }
                            let head = toks[0].as_str();
                            if str_eq(head, "help") || str_eq(head, "--help") {
                                return PackwizPlan::Help;
                            }
                            if str_eq(head, "init") || str_eq(head, "completion") || str_eq(
                                head,
                                "utils",
                            ) || str_eq(head, "serve") {
                                return PackwizPlan::Disabled;
                            }
                        }
                        PackwizPlan::Run(toks)
                    },
                }
            } else {
                if str_eq(text.as_str(), "help") || str_eq(text.as_str(), "--help") {
                    return PackwizPlan::Help;
                }
                if str_eq(text.as_str(), "init") || str_eq(text.as_str(), "completion") || str_eq(
                    text.as_str(),
                    "utils",
                ) || str_eq(text.as_str(), "serve") {
                    return PackwizPlan::Disabled;
                }
                let ghost t = text@;
                let mut v: Vec<String> = Vec::new();
                v.push(text);
                proof {
                    assert(v.deep_view() =~= seq![t]);
                }
                PackwizPlan::Run(v)
            }
        },
    }
}

/// How the manifest tool's captured output is relayed to the user.
#[derive(Debug)]
pub enum PackwizOutput {
    /// Both streams were empty: say so instead of sending an empty block.
    NoOutput,
    /// The output was the tool's own help text, which is too long to relay:
    /// send the canned help messages instead.
    Help,
    /// Send these fenced messages, in order.
    Messages(Vec<String>),
}

/// One output stream wrapped as a fenced block.
pub open spec fn fenced(s: Seq<char>) -> Seq<char> {
    "```\n"@ + s + "```"@
}

/// Decides how a manifest-tool passthrough result is relayed: nothing to
/// show, the canned help, or the decoded streams as fenced blocks, stderr
/// first when both are present.
pub fn packwiz_output(result: &SubprocessResult) -> (r: PackwizOutput)
    ensures
        (r is NoOutput) == (lossy_of(result.stdout@).len() == 0 && lossy_of(result.stderr@).len()
            == 0),
        (r is Help) == (!(lossy_of(result.stdout@).len() == 0 && lossy_of(result.stderr@).len()
            == 0) && contains_seq(lossy_of(result.stdout@), "Available Commands:"@)),
        r matches PackwizOutput::Messages(v) ==> v.deep_view() == (if lossy_of(
            result.stderr@,
        ).len() > 0 {
            seq![fenced(lossy_of(result.stderr@)), fenced(lossy_of(result.stdout@))]
        } else {
            seq![fenced(lossy_of(result.stdout@))]
        }),
{
    let out = crate::subprocess::decode_lossy(&result.stdout);
    let err = crate::subprocess::decode_lossy(&result.stderr);
    let out_empty = out.as_str().unicode_len() == 0;
    let err_empty = err.as_str().unicode_len() == 0;
    if out_empty && err_empty {
        return PackwizOutput::NoOutput;
    }
    if contains_str(out.as_str(), "Available Commands:") {
        return PackwizOutput::Help;
    }
    let mut v: Vec<String> = Vec::new();
    if !err_empty {
        let mut m = String::from_str("```\n");
        m.append(err.as_str());
        m.append("```");
        v.push(m);
    }
    let mut m = String::from_str("```\n");
    m.append(out.as_str());
    m.append("```");
    v.push(m);
    proof {
        if lossy_of(result.stderr@).len() > 0 {
            assert(v.deep_view() =~= seq![
                fenced(lossy_of(result.stderr@)),
                fenced(lossy_of(result.stdout@)),
            ]);
        } else {
            assert(v.deep_view() =~= seq![fenced(lossy_of(result.stdout@))]);
        }
    }
    PackwizOutput::Messages(v)
}

/// The raw-shell command: the single most dangerous capability, gated behind
/// an explicit allow-list of user identities, separate from the general
/// owner check. A caller outside the list gets no invocation at all.
pub fn bash(invoker: u64, allowed: &Vec<u64>, command: &str) -> (r: Option<Invocation>)
    ensures
        (r is Some) == allowed@.contains(invoker),
        r matches Some(inv) ==> inv_is(inv, "bash"@, seq!["-c"@, command@], "execute command"@),
{
    let n = allowed.len();
    let mut i: usize = 0;
    let mut found = false;
    while i < n
        invariant
            i <= n,
            n == allowed@.len(),
            found == exists|j: int| 0 <= j < i && allowed@[j] == invoker,
        decreases n - i,
    {
        if allowed[i] == invoker {
            found = true;
        }
        i += 1;
    }
    if found {
        let mut a: Vec<String> = Vec::new();
        a.push(String::from_str("-c"));
        a.push(String::from_str(command));
        proof {
            assert(a.deep_view() =~= seq!["-c"@, command@]);
        }
        Some(make_invocation("bash", a, "execute command"))
    } else {
        None
    }
}

} // verus!
