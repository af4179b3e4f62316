use vstd::prelude::*;
use crate::url::UrlBuf;

verus! {

/// One search request: where to search, whether hidden entries are wanted,
/// the pattern, and extra arguments handed to the tool verbatim.
#[derive(Debug, Clone)]
pub struct MusicndpOpt {
    pub cwd: UrlBuf,
    pub hidden: bool,
    pub subject: String,
    pub args: Vec<String>,
}

/// Why a request was rejected before any subprocess was started.
#[derive(Debug, Clone, Copy, PartialEq, Eq)]
pub enum SpawnError {
    /// The base directory is not a concrete local path.
    UnsupportedLocation,
}

impl SpawnError {
    pub fn message(&self) -> (r: &'static str)
        ensures
            r@ == "musicndp can only search local filesystem"@,
    {
        "musicndp can only search local filesystem"
    }
}

/// Everything a host needs to start the subprocess: the program, its argument
/// vector in order, and how its handle and standard streams must be configured.
#[derive(Debug, Clone, PartialEq, Eq)]
pub struct Invocation {
    pub program: String,
    pub args: Vec<String>,
    /// The subprocess must be terminated when its handle is dropped; this is
    /// the only cancellation mechanism.
    pub kill_on_drop: bool,
    /// Standard output is captured for the stream pump.
    pub pipe_stdout: bool,
    /// Standard error is discarded, never surfaced.
    pub discard_stderr: bool,
}

/// The argument vector handed to the search tool: the base-directory flag,
/// raw-pattern mode, the hidden-entry switch, the pass-through arguments in
/// their given order, and the subject last.
pub open spec fn invocation_args(opt: &MusicndpOpt) -> Seq<Seq<char>> {
    seq![
        "--base-directory"@,
        opt.cwd.path_spec(),
        "--regex"@,
        if opt.hidden { "--hidden"@ } else { "--no-hidden"@ },
    ] + opt.args.deep_view() + seq![opt.subject@]
}

/// Build the subprocess invocation for a request, or reject the request.
/// Rejection happens exactly when the base directory is not a concrete local
/// path, before anything else is done.
#[verifier::loop_isolation(false)]
pub fn build_invocation(program: &str, opt: &MusicndpOpt) -> (r: Result<Invocation, SpawnError>)
    ensures
        match r {
            Ok(inv) => opt.cwd.is_local_spec() && inv.program@ == program@
                && inv.args.deep_view() == invocation_args(opt) && inv.kill_on_drop
                && inv.pipe_stdout && inv.discard_stderr,
            Err(e) => !opt.cwd.is_local_spec() && e == SpawnError::UnsupportedLocation,
        },
{
    let path = match opt.cwd.as_path() {
        Some(p) => p,
        None => {
            return Err(SpawnError::UnsupportedLocation);
        },
    };
    let ghost head: Seq<Seq<char>> = seq![
        "--base-directory"@,
        opt.cwd.path_spec(),
        "--regex"@,
        if opt.hidden { "--hidden"@ } else { "--no-hidden"@ },
    ];
    let mut args: Vec<String> = Vec::new();
    args.push(String::from_str("--base-directory"));
    args.push(path.clone());
    args.push(String::from_str("--regex"));
    if opt.hidden {
        args.push(String::from_str("--hidden"));
    } else {
        args.push(String::from_str("--no-hidden"));
    }
    proof {
        assert(args.deep_view() =~~= head);
    }
    let mut k: usize = 0;
    while k < opt.args.len()
        invariant
            0 <= k <= opt.args.len(),
            args.deep_view() == head + opt.args.deep_view().take(k as int),
        decreases opt.args.len() - k,
    {
        let ghost pre = args.deep_view();
        args.push(opt.args[k].clone());
        proof {
            let dv = args.deep_view();
            let rhs = head + opt.args.deep_view().take(k + 1);
            assert forall|j: int| 0 <= j < dv.len() implies dv[j] == rhs[j] by {
                assert(dv[j] == args@[j]@);
                if j < pre.len() {
                    assert(pre[j] == args@[j]@);
                } else {
                    assert(rhs[j] == opt.args.deep_view()[k as int]);
                    assert(opt.args.deep_view()[k as int] == opt.args@[k as int]@);
                }
            }
            assert(dv =~~= rhs);
        }
        k = k + 1;
    }
    args.push(opt.subject.clone());
    proof {
        assert(opt.args.deep_view().take(opt.args@.len() as int) =~= opt.args.deep_view());
        assert(args.deep_view() =~~= invocation_args(opt));
    }
    Ok(
        Invocation {
            program: String::from_str(program),
            args,
            kill_on_drop: true,
            pipe_stdout: true,
            discard_stderr: true,
        },
    )
}

} // verus!
