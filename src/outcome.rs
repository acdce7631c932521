use vstd::prelude::*;
use crate::error::ErrorKind;

verus! {

/// What `String::from_utf8_lossy` makes of a byte sequence.
pub uninterp spec fn lossy_of(b: Seq<u8>) -> Seq<char>;

/// Relies on `String::from_utf8_lossy`: the bytes decoded as UTF-8, each
/// invalid sequence replaced by U+FFFD; the result depends on the bytes alone.
/// Valid UTF-8 is returned as it is: an empty byte sequence decodes to the
/// empty string, and ASCII bytes decode to the characters of the same codes.
#[verifier::external_body]
fn decode_lossy(b: &[u8]) -> (r: String)
    ensures
        r@ == lossy_of(b@),
        b@.len() == 0 ==> r@.len() == 0,
        ascii_bytes(b@) ==> r@.len() == b@.len() && forall|i: int| 0 <= i < b@.len() ==> (#[trigger] r@[i] as u32)
            == b@[i] as u32,
{
    String::from_utf8_lossy(b).into_owned()
}

/// Every byte of `b` is below 0x80.
pub open spec fn ascii_bytes(b: Seq<u8>) -> bool {
    forall|i: int| 0 <= i < b.len() ==> #[trigger] b[i] < 128
}

/// `t` spells the ASCII bytes `b`, character for byte.
pub open spec fn spells(b: Seq<u8>, t: Seq<char>) -> bool {
    t.len() == b.len() && forall|i: int| 0 <= i < b.len() ==> (#[trigger] t[i] as u32) == b[i] as u32
}

/// The standard output bytes a step result carries, if any.
pub open spec fn stdout_bytes(r: StepResult) -> Option<Seq<u8>> {
    match r {
        StepResult::Exited { stdout, .. } => Some(stdout@),
        StepResult::TimedOut { stdout, .. } => Some(stdout@),
        StepResult::SpawnFailed { .. } => None,
    }
}

/// What the process execution engine reports for one build or run step.
pub enum StepResult {
    /// The process ran to completion; `code` is `None` when a signal ended it.
    Exited { stdout: Vec<u8>, stderr: Vec<u8>, code: Option<i32> },
    /// The deadline expired and the process tree was killed; the output is
    /// what had been captured until then.
    TimedOut { stdout: Vec<u8>, stderr: Vec<u8> },
    /// The process could not be started.
    SpawnFailed { message: String },
}

/// The structured result of one request.
pub struct ExecutionOutcome {
    pub stdout: String,
    pub stderr: String,
    pub exit_status: Option<i32>,
    pub error_kind: Option<ErrorKind>,
}

/// The mathematical value of an `ExecutionOutcome`.
pub ghost struct OutcomeModel {
    pub stdout: Seq<char>,
    pub stderr: Seq<char>,
    pub exit_status: Option<i32>,
    pub error_kind: Option<ErrorKind>,
}

impl View for ExecutionOutcome {
    type V = OutcomeModel;

    open spec fn view(&self) -> OutcomeModel {
        OutcomeModel {
            stdout: self.stdout@,
            stderr: self.stderr@,
            exit_status: self.exit_status,
            error_kind: self.error_kind,
        }
    }
}

/// The outcome a step settles, or `None` when the pipeline goes on to the
/// next step (a build step that exited with status 0).
/// A failing build step is a compile error carrying its diagnostics; the run
/// step's exit, zero or not, is a plain outcome; a timeout or a spawn failure
/// ends the pipeline at either stage.
pub open spec fn step_outcome(r: StepResult, is_build: bool) -> Option<OutcomeModel> {
    match r {
        StepResult::Exited { stdout, stderr, code } => {
            if is_build && code == Some(0i32) {
                None
            } else {
                Some(OutcomeModel {
                    stdout: lossy_of(stdout@),
                    stderr: lossy_of(stderr@),
                    exit_status: code,
                    error_kind: if is_build { Some(ErrorKind::CompileError) } else { None },
                })
            }
        },
        StepResult::TimedOut { stdout, stderr } => Some(OutcomeModel {
            stdout: lossy_of(stdout@),
            stderr: lossy_of(stderr@),
            exit_status: None,
            error_kind: Some(ErrorKind::TimedOut),
        }),
        StepResult::SpawnFailed { message } => Some(OutcomeModel {
            stdout: Seq::empty(),
            stderr: message@,
            exit_status: None,
            error_kind: Some(ErrorKind::Infrastructure),
        }),
    }
}

pub open spec fn same_outcome(o: Option<ExecutionOutcome>, m: Option<OutcomeModel>) -> bool {
    match o {
        Some(x) => m == Some(x@),
        None => m is None,
    }
}

/// Classifies the result of one step.
pub fn classify_step(r: &StepResult, is_build: bool) -> (o: Option<ExecutionOutcome>)
    ensures
        same_outcome(o, step_outcome(*r, is_build)),
        o matches Some(x) ==> (stdout_bytes(*r) matches Some(b) ==> ascii_bytes(b) ==> spells(b, x.stdout@)),
{
    match r {
        StepResult::Exited { stdout, stderr, code } => {
            let ok = match code {
                Some(c) => *c == 0,
                None => false,
            };
            if is_build && ok {
                None
            } else {
                let kind = if is_build { Some(ErrorKind::CompileError) } else { None };
                Some(ExecutionOutcome {
                    stdout: decode_lossy(stdout.as_slice()),
                    stderr: decode_lossy(stderr.as_slice()),
                    exit_status: *code,
                    error_kind: kind,
                })
            }
        },
        StepResult::TimedOut { stdout, stderr } => Some(ExecutionOutcome {
            stdout: decode_lossy(stdout.as_slice()),
            stderr: decode_lossy(stderr.as_slice()),
            exit_status: None,
            error_kind: Some(ErrorKind::TimedOut),
        }),
        StepResult::SpawnFailed { message } => Some(ExecutionOutcome {
            stdout: String::new(),
            stderr: message.clone(),
            exit_status: None,
            error_kind: Some(ErrorKind::Infrastructure),
        }),
    }
}

/// An outcome for a request that ended before any step ran.
pub fn failure(kind: ErrorKind, message: &str) -> (o: ExecutionOutcome)
    ensures
        o@ == (OutcomeModel {
            stdout: Seq::empty(),
            stderr: message@,
            exit_status: None,
            error_kind: Some(kind),
        }),
{
    ExecutionOutcome {
        stdout: String::new(),
        stderr: message.to_string(),
        exit_status: None,
        error_kind: Some(kind),
    }
}

impl ExecutionOutcome {
    /// The status reported to a caller: the exit code, or -1 where the
    /// process left none.
    pub fn status_code(&self) -> (r: i32)
        ensures
            r == match self.exit_status {
                Some(c) => c,
                None => -1i32,
            },
    {
        match self.exit_status {
            Some(c) => c,
            None => -1,
        }
    }
}

pub open spec fn combined_spec(stdout: Seq<char>, stderr: Seq<char>) -> Seq<char> {
    let out = if stdout.len() > 0 { "STDOUT:\n"@ + stdout } else { Seq::empty() };
    let both = if stderr.len() > 0 {
        if out.len() > 0 { out + "\n"@ + "STDERR:\n"@ + stderr } else { "STDERR:\n"@ + stderr }
    } else {
        out
    };
    if both.len() > 0 { both } else { "(no output)"@ }
}

/// One text for display: the labelled non-empty streams, standard output
/// first, or `(no output)` when both are empty.
pub fn combine_output(stdout: &str, stderr: &str) -> (r: String)
    ensures
        r@ == combined_spec(stdout@, stderr@),
{
    let mut r = String::new();
    if stdout.unicode_len() > 0 {
        r.append("STDOUT:\n");
        r.append(stdout);
    }
    if stderr.unicode_len() > 0 {
        if r.unicode_len() > 0 {
            r.append("\n");
        }
        r.append("STDERR:\n");
        r.append(stderr);
    }
    if r.unicode_len() == 0 {
        r = "(no output)".to_string();
    }
    proof {
        reveal_strlit("STDOUT:\n");
        reveal_strlit("(no output)");
        assert(r@ =~= combined_spec(stdout@, stderr@));
    }
    r
}

pub open spec fn labelled_spec(stdout: Seq<char>, stderr: Seq<char>) -> Seq<char> {
    "Output:\n"@ + stdout + "\nError:\n"@ + stderr
}

/// Both streams under fixed labels, as a container run reports them.
pub fn labelled_output(stdout: &str, stderr: &str) -> (r: String)
    ensures
        r@ == labelled_spec(stdout@, stderr@),
{
    let mut r = "Output:\n".to_string();
    r.append(stdout);
    r.append("\nError:\n");
    r.append(stderr);
    proof {
        assert(r@ =~= labelled_spec(stdout@, stderr@));
    }
    r
}

pub open spec fn error_text_spec(o: OutcomeModel) -> Option<Seq<char>> {
    match o.error_kind {
        None => None,
        Some(ErrorKind::UnsupportedLanguage) => Some("Unsupported language"@),
        Some(ErrorKind::WorkspaceIo) => Some(o.stderr),
        Some(ErrorKind::CompileError) => Some(o.stderr),
        Some(ErrorKind::TimedOut) => Some("Execution timed out"@),
        Some(ErrorKind::Infrastructure) => Some("Execution failed: "@ + o.stderr),
    }
}

impl ExecutionOutcome {
    /// The message that reports an error outcome to a caller: a fixed text
    /// for an unsupported language or a timeout, the diagnostics for a
    /// staging failure or a compile error, and the cause of a system fault.
    pub fn error_text(&self) -> (r: Option<String>)
        ensures
            match r {
                Some(t) => error_text_spec(self@) == Some(t@),
                None => error_text_spec(self@) is None,
            },
    {
        match self.error_kind {
            None => None,
            Some(ErrorKind::UnsupportedLanguage) => Some("Unsupported language".to_string()),
            Some(ErrorKind::WorkspaceIo) => Some(self.stderr.clone()),
            Some(ErrorKind::CompileError) => Some(self.stderr.clone()),
            Some(ErrorKind::TimedOut) => Some("Execution timed out".to_string()),
            Some(ErrorKind::Infrastructure) => {
                let mut t = "Execution failed: ".to_string();
                t.append(self.stderr.as_str());
                Some(t)
            },
        }
    }
}

} // verus!
