//! Captured subprocess results and their rendering as a single chat message:
//! a fenced block headed by the command line, the decoded output streams, a
//! stock note when there was no output, and a trailing failure line when the
//! process exited non-zero.

use vstd::prelude::*;
use crate::strutil::join_spaces;

verus! {

/// The captured outcome of one completed process launch: both output
/// streams as raw bytes, and the exit status.
pub struct SubprocessResult {
    pub stdout: Vec<u8>,
    pub stderr: Vec<u8>,
    pub exit_code: i32,
    pub success: bool,
}

/// What permissive UTF-8 decoding makes of these bytes: valid sequences
/// decode to their characters, invalid ones are substituted, never fatal.
pub uninterp spec fn lossy_of(b: Seq<u8>) -> Seq<char>;

/// Relies on `String::from_utf8_lossy`: decodes bytes permissively,
/// replacing invalid sequences with a substitute marker. The result is a
/// function of the bytes alone; it is empty exactly when the input is empty,
/// since every byte decodes to at least one character.
#[verifier::external_body]
pub fn decode_lossy(b: &Vec<u8>) -> (r: String)
    ensures
        r@ == lossy_of(b@),
        (r@.len() == 0) == (b@.len() == 0),
{
    String::from_utf8_lossy(b.as_slice()).into_owned()
}

/// One pending invocation of an external program: what to run, with which
/// arguments, a short description of the action for failure reporting, and
/// an optional override for the command line shown to the user (by default
/// the program and its arguments, space-separated).
#[derive(Debug)]
pub struct Invocation {
    pub program: String,
    pub args: Vec<String>,
    pub action: String,
    pub display: Option<String>,
}

/// `inv` runs `program` with `args` under the description `action`, with no
/// display override.
pub open spec fn inv_is(
    inv: Invocation,
    program: Seq<char>,
    args: Seq<Seq<char>>,
    action: Seq<char>,
) -> bool {
    inv.program@ == program && inv.args.deep_view() == args && inv.action@ == action
        && inv.display is None
}

/// Builds an [`Invocation`] without a display override.
pub fn make_invocation(program: &str, args: Vec<String>, action: &str) -> (r: Invocation)
    ensures
        inv_is(r, program@, args.deep_view(), action@),
{
    Invocation {
        program: String::from_str(program),
        args,
        action: String::from_str(action),
        display: None,
    }
}

/// The command line shown to the user: the program and its arguments,
/// space-separated.
pub open spec fn display_spec(program: Seq<char>, args: Seq<Seq<char>>) -> Seq<char> {
    program + " "@ + join_spaces(args)
}

/// Renders the default display line of an invocation.
pub fn display_of(program: &str, args: &Vec<String>) -> (r: String)
    ensures
        r@ == display_spec(program@, args.deep_view()),
{
    let mut r = String::from_str(program);
    r.append(" ");
    let n = args.len();
    let mut i: usize = 0;
    while i < n
        invariant
            i <= n,
            n == args.len(),
            r@ == program@ + " "@ + join_spaces(args.deep_view().take(i as int)),
        decreases n - i,
    {
        proof {
            assert(args.deep_view().take(i + 1 as int) =~= args.deep_view().take(
                i as int,
            ).push(args@[i as int]@));
        }
        if i > 0 {
            r.append(" ");
        }
        r.append(args[i].as_str());
        proof {
            let parts = args.deep_view().take(i as int);
            let x = args@[i as int]@;
            if i > 0 {
                crate::strutil::lemma_join_spaces_push(parts, x);
                assert((program@ + " "@ + join_spaces(parts)) + " "@ + x =~= program@ + " "@ + (
                join_spaces(parts) + " "@ + x));
            } else {
                assert(parts.push(x) =~= seq![x]);
                assert(join_spaces(seq![x]) == x);
            }
        }
        i += 1;
    }
    proof {
        assert(args.deep_view().take(n as int) =~= args.deep_view());
    }
    r
}

/// The single message that relays a captured subprocess result: a fenced
/// block headed by `> cmd`, then whichever output streams are non-empty
/// (stdout before stderr), or a stock note when both are empty; when the
/// process failed, a trailing line names the attempted action and program.
pub open spec fn format_spec(
    cmd: Seq<char>,
    out: Seq<char>,
    err: Seq<char>,
    success: bool,
    action: Seq<char>,
    program: Seq<char>,
) -> Seq<char> {
    let header = "```\n> "@ + cmd;
    let body = if out.len() == 0 && err.len() == 0 {
        header + "```\nCommand ran with no output"@
    } else if err.len() == 0 {
        header + "\n"@ + out + "```"@
    } else if out.len() == 0 {
        header + "\n"@ + err + "```"@
    } else {
        header + "\n"@ + out + "\n"@ + err + "```"@
    };
    if success {
        body
    } else {
        body + "\nFailed to "@ + action + " - "@ + program + " returned non-zero exit code"@
    }
}

/// Formats a captured result as the one user-facing message, decoding both
/// streams permissively.
pub fn format_output(
    display_command: &str,
    result: &SubprocessResult,
    action: &str,
    program: &str,
) -> (r: String)
    ensures
        r@ == format_spec(
            display_command@,
            lossy_of(result.stdout@),
            lossy_of(result.stderr@),
            result.success,
            action@,
            program@,
        ),
{
    let out = decode_lossy(&result.stdout);
    let err = decode_lossy(&result.stderr);
    let out_empty = out.as_str().unicode_len() == 0;
    let err_empty = err.as_str().unicode_len() == 0;
    let mut m = String::from_str("```\n> ");
    m.append(display_command);
    if out_empty && err_empty {
        m.append("```\nCommand ran with no output");
    } else if err_empty {
        m.append("\n");
        m.append(out.as_str());
        m.append("```");
    } else if out_empty {
        m.append("\n");
        m.append(err.as_str());
        m.append("```");
    } else {
        m.append("\n");
        m.append(out.as_str());
        m.append("\n");
        m.append(err.as_str());
        m.append("```");
    }
    if !result.success {
        m.append("\nFailed to ");
        m.append(action);
        m.append(" - ");
        m.append(program);
        m.append(" returned non-zero exit code");
    }
    proof {
        assert(m@ =~= format_spec(
            display_command@,
            lossy_of(result.stdout@),
            lossy_of(result.stderr@),
            result.success,
            action@,
            program@,
        ));
    }
    m
}

} // verus!
