//! Running an action: its inputs, its result, and the capped capture of
//! its output.
//!
//! The process itself is spawned by the caller, with a clean environment,
//! no stdin, a hard wall-clock timeout and the sandbox plan enforced in the
//! child. Output is captured under a byte cap so a chatty or hostile action
//! cannot exhaust the executor's memory.

use vstd::prelude::*;

use crate::sandbox::plan::SandboxPlan;

verus! {

/// Inputs for one sandboxed run.
pub struct RunContext<'a> {
    /// The bash script (authenticated through the signed bundle).
    pub script: &'a str,
    /// Validated argument values by name, exposed as `ARG_<name>`.
    pub args: &'a [(String, String)],
    /// Hard wall-clock timeout, in milliseconds.
    pub timeout_ms: u64,
    /// Per-stream output cap in bytes.
    pub max_output: usize,
    /// The validated sandbox plan to enforce on the child; the real
    /// pipeline always supplies one.
    pub sandbox: Option<&'a SandboxPlan>,
}

/// The result of a run.
#[derive(Debug, Clone, PartialEq, Eq)]
pub struct RunResult {
    /// Exit code, or `-1` if killed (timeout or signal).
    pub exit_code: i32,
    /// Wall-clock duration in milliseconds.
    pub duration_ms: u64,
    /// Captured stdout (lossy UTF-8, capped).
    pub stdout: String,
    /// Captured stderr (lossy UTF-8, capped).
    pub stderr: String,
    /// Whether either stream was truncated at the cap.
    pub truncated: bool,
}

/// Runs an action. Implementations must honor the timeout and the output
/// cap.
pub trait ActionRunner {
    /// Executes and returns the captured result.
    fn run(&self, ctx: &RunContext) -> RunResult;
}

/// The environment an action runs with: nothing inherited, a minimal
/// `PATH`, a `HOME` that does not exist, the C locale, and each argument as
/// `ARG_<name>`, in order.
pub open spec fn action_env_spec(args: Seq<(String, String)>) -> Seq<(Seq<char>, Seq<char>)> {
    seq![("PATH"@, "/usr/bin:/bin"@), ("HOME"@, "/nonexistent"@), ("LC_ALL"@, "C"@)] + args.map_values(
        |a: (String, String)| ("ARG_"@ + a.0@, a.1@),
    )
}

/// The environment variables an action's process receives (see
/// [`action_env_spec`]); the caller clears the inherited environment first.
pub fn action_env(args: &[(String, String)]) -> (r: Vec<(String, String)>)
    ensures
        r@.map_values(|e: (String, String)| (e.0@, e.1@)) == action_env_spec(args@),
{
    let mut out: Vec<(String, String)> = Vec::new();
    out.push((crate::text::owned("PATH"), crate::text::owned("/usr/bin:/bin")));
    out.push((crate::text::owned("HOME"), crate::text::owned("/nonexistent")));
    out.push((crate::text::owned("LC_ALL"), crate::text::owned("C")));
    let mut i: usize = 0;
    while i < args.len()
        invariant
            i <= args@.len(),
            out@.len() == 3 + i,
            out@.map_values(|e: (String, String)| (e.0@, e.1@)) == action_env_spec(args@.take(i as int)),
        decreases args.len() - i,
    {
        let mut name: Vec<char> = Vec::new();
        crate::text::push_str(&mut name, "ARG_");
        crate::text::push_str(&mut name, args[i].0.as_str());
        let value = args[i].1.clone();
        assert(value@ == args@[i as int].1@);
        let ghost before = out@;
        out.push((crate::text::string_of(name.as_slice()), value));
        proof {
            assert(out@.drop_last() == before);
            assert(args@.take(i + 1).drop_last() =~= args@.take(i as int));
            let m = out@.map_values(|e: (String, String)| (e.0@, e.1@));
            let pm = before.map_values(|e: (String, String)| (e.0@, e.1@));
            let want = action_env_spec(args@.take(i + 1));
            let had = action_env_spec(args@.take(i as int));
            assert(want.len() == m.len());
            assert forall|j: int| 0 <= j < m.len() implies m[j] == want[j] by {
                if j < m.len() - 1 {
                    assert(m[j] == pm[j]);
                    assert(pm[j] == had[j]);
                    if j >= 3 {
                        assert(args@.take(i + 1)[j - 3] == args@.take(i as int)[j - 3]);
                    }
                } else {
                    assert(args@.take(i + 1)[j - 3] == args@[i as int]);
                }
            }
            assert(m =~= want);
        }
        i = i + 1;
    }
    assert(args@.take(i as int) =~= args@);
    out
}

/// The smaller of two numbers.
pub open spec fn min_nat(a: nat, b: nat) -> nat {
    if a <= b {
        a
    } else {
        b
    }
}

/// Output captured from one stream, up to a cap. Bytes past the cap are
/// read and discarded (so the child never blocks on a full pipe), and the
/// capture records that it was truncated.
#[derive(Debug)]
pub struct CappedBuffer {
    data: Vec<u8>,
    cap: usize,
    truncated: bool,
}

impl CappedBuffer {
    /// The bytes kept so far.
    pub closed spec fn kept(&self) -> Seq<u8> {
        self.data@
    }

    /// The cap.
    pub closed spec fn spec_cap(&self) -> nat {
        self.cap as nat
    }

    /// Whether bytes were discarded.
    pub closed spec fn spec_truncated(&self) -> bool {
        self.truncated
    }

    /// Never more than the cap is kept.
    pub closed spec fn wf(&self) -> bool {
        self.data@.len() <= self.cap
    }

    /// An empty capture with cap `cap`.
    pub fn new(cap: usize) -> (r: CappedBuffer)
        ensures
            r.wf(),
            r.kept() == Seq::<u8>::empty(),
            r.spec_cap() == cap,
            !r.spec_truncated(),
    {
        CappedBuffer { data: Vec::new(), cap, truncated: false }
    }

    /// Takes the next chunk read from the stream: as much of it as fits
    /// under the cap is kept, and the rest discarded.
    pub fn push_chunk(&mut self, chunk: &[u8])
        requires
            old(self).wf(),
        ensures
            final(self).wf(),
            final(self).spec_cap() == old(self).spec_cap(),
            final(self).kept() == (old(self).kept() + chunk@).take(
                min_nat(old(self).spec_cap(), old(self).kept().len() + chunk@.len()) as int,
            ),
            final(self).spec_truncated() == (old(self).spec_truncated() || old(self).kept().len() + chunk@.len()
                > old(self).spec_cap()),
    {
        let room = self.cap - self.data.len();
        let take = if chunk.len() > room {
            room
        } else {
            chunk.len()
        };
        let ghost before = self.data@;
        let mut i: usize = 0;
        while i < take
            invariant
                take <= chunk@.len(),
                i <= take,
                self.cap == old(self).cap,
                self.truncated == old(self).truncated,
                before == old(self).data@,
                self.data@ == before + chunk@.take(i as int),
                before.len() + take <= self.cap,
            decreases take - i,
        {
            self.data.push(chunk[i]);
            i = i + 1;
            assert(self.data@ =~= before + chunk@.take(i as int));
        }
        if chunk.len() > room {
            self.truncated = true;
        }
        assert(self.data@ =~= (before + chunk@).take(
            min_nat(self.cap as nat, before.len() + chunk@.len()) as int,
        ));
    }

    /// The captured bytes and whether any were discarded.
    pub fn finish(self) -> (r: (Vec<u8>, bool))
        ensures
            r.0@ == self.kept(),
            r.1 == self.spec_truncated(),
    {
        (self.data, self.truncated)
    }
}

/// Capturing chunk by chunk keeps exactly the first `cap` bytes of the
/// whole stream: taking the next chunk of a capture that holds the
/// capped prefix of `stream` gives the capped prefix of `stream + chunk`.
pub proof fn lemma_capture_is_prefix(stream: Seq<u8>, chunk: Seq<u8>, cap: nat)
    ensures
        (stream.take(min_nat(cap, stream.len()) as int) + chunk).take(
            min_nat(cap, min_nat(cap, stream.len()) + chunk.len()) as int,
        ) == (stream + chunk).take(min_nat(cap, stream.len() + chunk.len()) as int),
{
    let a = stream.take(min_nat(cap, stream.len()) as int);
    let lhs = (a + chunk).take(min_nat(cap, min_nat(cap, stream.len()) + chunk.len()) as int);
    let rhs = (stream + chunk).take(min_nat(cap, stream.len() + chunk.len()) as int);
    assert(lhs =~= rhs);
}

} // verus!
