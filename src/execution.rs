use vstd::prelude::*;
use vstd::string::StringSliceAdditionalSpecFns;
use vstd::utf8::{valid_utf8, decode_utf8};
use crate::framing::{framed, frame_input};
use crate::language::{Language, RunError, language_name, interpreter_of};
use crate::outcome::{ExecutionResult, lossy_text, status_of};
use crate::scratch::{scratch_path, make_scratch_path};

verus! {

/// The step an execution waits on.
#[derive(Debug, Clone, Copy, PartialEq, Eq, Structural)]
pub enum Phase {
    /// The source text is being written to the scratch file.
    WritingArtifact,
    /// The interpreter is being launched on the scratch file.
    Spawning,
    /// The standard input bytes are being written and the stream closed.
    FeedingStdin,
    /// The child is running; its output is being collected.
    Waiting,
    /// The execution is over and its outcome is fixed.
    Completed,
}

/// What the caller must do next on behalf of an execution.
#[derive(Debug, Clone, Copy, PartialEq, Eq, Structural)]
pub enum Action {
    /// Write the source text, unchanged, to the scratch path.
    WriteArtifact,
    /// Launch the interpreter with the scratch path as its sole argument,
    /// with standard input, output and error all piped.
    Spawn,
    /// Write the input bytes (possibly none) to the child, flush, and close
    /// its standard input.
    FeedStdin,
    /// Wait for the child to terminate, collecting both output streams whole.
    Wait,
    /// Stop and reap the child if asked, delete the scratch file if asked
    /// (ignoring a failure to delete), then report the outcome.
    Finish { remove_artifact: bool, stop_child: bool },
}

/// What came of the last action.
#[derive(Debug)]
pub enum Event {
    /// The action succeeded.
    Done,
    /// The action failed; the text describes the cause.
    Failed(String),
    /// The child terminated after writing these bytes, with this exit code
    /// (none when a signal ended it).
    Exited { stdout: Vec<u8>, stderr: Vec<u8>, code: Option<i32> },
}

/// The state of one execution as the contracts see it.
pub struct ExecutionState {
    pub phase: Phase,
    pub language: Language,
    pub path: Seq<u8>,
    pub input: Seq<u8>,
    pub outcome: Option<Result<ExecutionResult, RunError>>,
}

/// One execution of source text, from the scratch file to the report.
pub struct Execution {
    phase: Phase,
    language: Language,
    path: Vec<u8>,
    input: Vec<u8>,
    outcome: Option<Result<ExecutionResult, RunError>>,
}

impl View for Execution {
    type V = ExecutionState;

    closed spec fn view(&self) -> ExecutionState {
        ExecutionState {
            phase: self.phase,
            language: self.language,
            path: self.path@,
            input: self.input@,
            outcome: self.outcome,
        }
    }
}

/// The bytes a child receives on standard input: the framed text when some
/// was given, none otherwise.
pub open spec fn input_bytes(stdin: Option<&str>) -> Seq<u8> {
    match stdin {
        Some(s) => framed(s.spec_bytes()),
        None => Seq::empty(),
    }
}

/// Whether an event can answer the action issued in a phase: an exit or a
/// failure answers the wait; success or a failure answers the other actions.
pub open spec fn fits(phase: Phase, event: Event) -> bool {
    &&& phase != Phase::Completed
    &&& (event is Exited) ==> phase == Phase::Waiting
    &&& (event is Done) ==> phase != Phase::Waiting
}

impl Execution {
    /// The outcome is fixed exactly when the execution is over.
    pub open spec fn wf(&self) -> bool {
        (self@.phase == Phase::Completed) == (self@.outcome is Some)
    }

    /// Begins executing in `language`, with the scratch file in `dir` named
    /// after the process number `pid` and the per-call number `seq`. The
    /// first action writes the scratch file.
    pub fn new(language: Language, stdin: Option<&str>, dir: &[u8], pid: u32, seq: u64) -> (r: (
        Execution,
        Action,
    ))
        ensures
            r.0.wf(),
            r.0@.phase == Phase::WritingArtifact,
            r.0@.language == language,
            r.0@.path == scratch_path(dir@, pid as nat, seq as nat, language),
            r.0@.input == input_bytes(stdin),
            r.1 == Action::WriteArtifact,
    {
        let input = match stdin {
            Some(s) => frame_input(s),
            None => Vec::new(),
        };
        let exec = Execution {
            phase: Phase::WritingArtifact,
            language,
            path: make_scratch_path(dir, pid, seq, language),
            input,
            outcome: None,
        };
        (exec, Action::WriteArtifact)
    }

    /// Validates the language name, then begins as `new` does. An unknown
    /// name is rejected before any action is issued.
    pub fn start(language: &str, stdin: Option<&str>, dir: &[u8], pid: u32, seq: u64) -> (r:
        Result<(Execution, Action), RunError>)
        ensures
            match r {
                Ok((e, a)) => {
                    &&& e.wf()
                    &&& language_name(e@.language) == language@
                    &&& e@.phase == Phase::WritingArtifact
                    &&& e@.path == scratch_path(dir@, pid as nat, seq as nat, e@.language)
                    &&& e@.input == input_bytes(stdin)
                    &&& a == Action::WriteArtifact
                },
                Err(err) => {
                    &&& err == RunError::UnsupportedLanguage
                    &&& language@ != language_name(Language::Python)
                    &&& language@ != language_name(Language::JavaScript)
                },
            },
    {
        match Language::from_name(language) {
            Ok(lang) => Ok(Execution::new(lang, stdin, dir, pid, seq)),
            Err(e) => Err(e),
        }
    }

    /// Whether `event` can answer the action last issued.
    pub fn accepts(&self, event: &Event) -> (r: bool)
        ensures
            r == fits(self@.phase, *event),
    {
        match self.phase {
            Phase::Completed => false,
            Phase::Waiting => match event {
                Event::Done => false,
                _ => true,
            },
            _ => match event {
                Event::Exited { .. } => false,
                _ => true,
            },
        }
    }

    /// Advances the execution by what came of the last action and returns
    /// the next action. Every path to the end asks for the scratch file to
    /// be deleted; a child that may still run is stopped and reaped.
    pub fn step(&mut self, event: Event) -> (a: Action)
        requires
            old(self).wf(),
            fits(old(self)@.phase, event),
        ensures
            final(self).wf(),
            final(self)@.language == old(self)@.language,
            final(self)@.path == old(self)@.path,
            final(self)@.input == old(self)@.input,
            (final(self)@.phase == Phase::Completed) == (a is Finish),
            match a {
                Action::Finish { remove_artifact, .. } => remove_artifact,
                _ => true,
            },
            match event {
                Event::Done => match old(self)@.phase {
                    Phase::WritingArtifact => final(self)@.phase == Phase::Spawning && a
                        == Action::Spawn,
                    Phase::Spawning => final(self)@.phase == Phase::FeedingStdin && a
                        == Action::FeedStdin,
                    _ => final(self)@.phase == Phase::Waiting && a == Action::Wait,
                },
                Event::Failed(msg) => {
                    &&& final(self)@.outcome == Some(Err::<ExecutionResult, RunError>(RunError::Io(msg)))
                    &&& a == Action::Finish {
                        remove_artifact: true,
                        stop_child: old(self)@.phase == Phase::FeedingStdin || old(self)@.phase
                            == Phase::Waiting,
                    }
                },
                Event::Exited { stdout, stderr, code } => {
                    &&& a == Action::Finish { remove_artifact: true, stop_child: false }
                    &&& final(self)@.outcome matches Some(Ok(res))
                    &&& res.stdout@ == lossy_text(stdout@)
                    &&& res.stderr@ == lossy_text(stderr@)
                    &&& (valid_utf8(stdout@) ==> res.stdout@ == decode_utf8(stdout@))
                    &&& (valid_utf8(stderr@) ==> res.stderr@ == decode_utf8(stderr@))
                    &&& res.status == status_of(code)
                    &&& res.code == code
                },
            },
    {
        match event {
            Event::Done => {
                let a = match self.phase {
                    Phase::WritingArtifact => {
                        self.phase = Phase::Spawning;
                        Action::Spawn
                    },
                    Phase::Spawning => {
                        self.phase = Phase::FeedingStdin;
                        Action::FeedStdin
                    },
                    _ => {
                        self.phase = Phase::Waiting;
                        Action::Wait
                    },
                };
                a
            },
            Event::Failed(msg) => {
                let stop_child = match self.phase {
                    Phase::FeedingStdin => true,
                    Phase::Waiting => true,
                    _ => false,
                };
                self.phase = Phase::Completed;
                self.outcome = Some(Err(RunError::Io(msg)));
                Action::Finish { remove_artifact: true, stop_child }
            },
            Event::Exited { stdout, stderr, code } => {
                let res = ExecutionResult::from_output(stdout.as_slice(), stderr.as_slice(), code);
                self.phase = Phase::Completed;
                self.outcome = Some(Ok(res));
                Action::Finish { remove_artifact: true, stop_child: false }
            },
        }
    }

    /// The step the execution waits on.
    pub fn phase(&self) -> (r: Phase)
        ensures
            r == self@.phase,
    {
        self.phase
    }

    /// The language being executed.
    pub fn language(&self) -> (r: Language)
        ensures
            r == self@.language,
    {
        self.language
    }

    /// The interpreter binary to launch.
    pub fn interpreter(&self) -> (r: &'static str)
        ensures
            r@ == interpreter_of(self@.language),
    {
        self.language.interpreter()
    }

    /// The scratch file path, as bytes.
    pub fn path(&self) -> (r: &[u8])
        ensures
            r@ == self@.path,
    {
        self.path.as_slice()
    }

    /// The bytes to feed to the child's standard input.
    pub fn input(&self) -> (r: &[u8])
        ensures
            r@ == self@.input,
    {
        self.input.as_slice()
    }

    /// The report of a finished execution.
    pub fn into_outcome(self) -> (r: Result<ExecutionResult, RunError>)
        requires
            self.wf(),
            self@.phase == Phase::Completed,
        ensures
            self@.outcome == Some(r),
    {
        match self.outcome {
            Some(o) => o,
            None => unreached(),
        }
    }
}

} // verus!
