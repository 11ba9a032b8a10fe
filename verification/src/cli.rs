//! Running WP-CLI for a site: which process to launch, and what to answer once
//! it has ended.
//!
//! The caller launches the process described by [`wp_cli_invocation`], waits for
//! it, and hands what happened to [`wp_cli_answer`] as a [`ProcessOutcome`].

use crate::site::WPSite;
use crate::text::{decode_lossy, lossy_text, prefixed};
use std::path::PathBuf;
use vstd::prelude::*;
use vstd::utf8::{encode_utf8, valid_utf8};

verus! {

/// A process to launch: the program, its arguments in order, and the directory
/// it runs in.
#[derive(Debug, PartialEq, Eq)]
pub struct Invocation {
    pub program: PathBuf,
    pub args: Vec<String>,
    pub working_dir: PathBuf,
}

/// An [`Invocation`] as a mathematical value.
pub struct InvocationView {
    pub program: PathBuf,
    pub args: Seq<Seq<char>>,
    pub working_dir: PathBuf,
}

impl View for Invocation {
    type V = InvocationView;

    open spec fn view(&self) -> InvocationView {
        InvocationView {
            program: self.program,
            args: self.args.deep_view(),
            working_dir: self.working_dir,
        }
    }
}

/// How an attempt to run a process ended.
#[derive(Debug, PartialEq, Eq)]
pub enum ProcessOutcome {
    /// The process ran to its end. `exit_code` is `None` where the process was
    /// ended without an exit code, as by a signal.
    Exited { exit_code: Option<i32>, stdout: Vec<u8>, stderr: Vec<u8> },
    /// The process could not be launched; `error` is the operating system's
    /// description of why.
    LaunchFailed { error: String },
}

/// A [`ProcessOutcome`] as a mathematical value.
pub enum ProcessOutcomeView {
    Exited { exit_code: Option<i32>, stdout: Seq<u8>, stderr: Seq<u8> },
    LaunchFailed { error: Seq<char> },
}

impl View for ProcessOutcome {
    type V = ProcessOutcomeView;

    open spec fn view(&self) -> ProcessOutcomeView {
        match *self {
            ProcessOutcome::Exited { exit_code, stdout, stderr } => ProcessOutcomeView::Exited {
                exit_code,
                stdout: stdout@,
                stderr: stderr@,
            },
            ProcessOutcome::LaunchFailed { error } => ProcessOutcomeView::LaunchFailed {
                error: error@,
            },
        }
    }
}

/// What a launch failure's message says before the operating system's words.
pub open spec fn launch_failure_prefix() -> Seq<char> {
    "Failed to execute WP-CLI: "@
}

/// The process that runs `command` for `site`: the site's WP-CLI executable,
/// with `command` as its arguments, inside the site's root directory.
pub open spec fn invocation_for(site: WPSite, command: Seq<Seq<char>>) -> InvocationView {
    InvocationView { program: site.wp_cli_path, args: command, working_dir: site.path }
}

/// Whether a process ended successfully: with exit code 0.
pub open spec fn is_success(exit_code: Option<i32>) -> bool {
    exit_code == Some(0i32)
}

/// The answer that an outcome calls for.
///
/// A process that ended with exit code 0 answers with what it wrote to standard
/// output; one that ended otherwise fails with what it wrote to standard error;
/// both decoded lossily. A process that could not be launched fails with the
/// operating system's words behind [`launch_failure_prefix`].
pub open spec fn answer_for(outcome: ProcessOutcomeView) -> Result<Seq<char>, Seq<char>> {
    match outcome {
        ProcessOutcomeView::Exited { exit_code, stdout, stderr } => {
            if is_success(exit_code) {
                Ok(lossy_text(stdout))
            } else {
                Err(lossy_text(stderr))
            }
        },
        ProcessOutcomeView::LaunchFailed { error } => Err(launch_failure_prefix() + error),
    }
}

/// An answer as a mathematical value.
pub open spec fn answer_text(answer: Result<String, String>) -> Result<Seq<char>, Seq<char>> {
    match answer {
        Ok(output) => Ok(output@),
        Err(message) => Err(message@),
    }
}

/// Describes the process that runs `command` for `site`.
pub fn wp_cli_invocation(site: WPSite, command: Vec<String>) -> (invocation: Invocation)
    ensures
        invocation@ == invocation_for(site, command.deep_view()),
{
    Invocation { program: site.wp_cli_path, args: command, working_dir: site.path }
}

/// Turns the outcome of a WP-CLI run into the answer for the front-end.
pub fn wp_cli_answer(outcome: ProcessOutcome) -> (answer: Result<String, String>)
    ensures
        answer_text(answer) == answer_for(outcome@),
{
    match outcome {
        ProcessOutcome::Exited { exit_code, stdout, stderr } => {
            let success = match exit_code {
                Some(code) => code == 0,
                None => false,
            };
            if success {
                Ok(decode_lossy(stdout.as_slice()))
            } else {
                Err(decode_lossy(stderr.as_slice()))
            }
        },
        ProcessOutcome::LaunchFailed { error } => Err(
            prefixed("Failed to execute WP-CLI: ", error.as_str()),
        ),
    }
}

/// A successful run answers with its standard output and nothing else: what
/// the process wrote to standard error has no part in the answer.
pub proof fn lemma_success_answers_with_stdout(
    stdout: Seq<u8>,
    stderr: Seq<u8>,
    other_stderr: Seq<u8>,
)
    ensures
        answer_for(ProcessOutcomeView::Exited { exit_code: Some(0i32), stdout, stderr }) == Ok::<
            Seq<char>,
            Seq<char>,
        >(lossy_text(stdout)),
        answer_for(ProcessOutcomeView::Exited { exit_code: Some(0i32), stdout, stderr })
            == answer_for(
            ProcessOutcomeView::Exited { exit_code: Some(0i32), stdout, stderr: other_stderr },
        ),
{
}

/// A successful run whose standard output is valid UTF-8 answers with exactly
/// the bytes that were written.
pub proof fn lemma_success_keeps_valid_bytes(stdout: Seq<u8>, stderr: Seq<u8>)
    requires
        valid_utf8(stdout),
    ensures
        answer_for(ProcessOutcomeView::Exited { exit_code: Some(0i32), stdout, stderr }) is Ok,
        encode_utf8(
            answer_for(ProcessOutcomeView::Exited { exit_code: Some(0i32), stdout, stderr })->Ok_0,
        ) == stdout,
{
    crate::text::lemma_lossy_text_keeps_valid_bytes(stdout);
}

/// A run that did not end with exit code 0 fails with its standard error and
/// nothing else: what the process wrote to standard output has no part in the
/// message.
pub proof fn lemma_failure_answers_with_stderr(
    exit_code: Option<i32>,
    stdout: Seq<u8>,
    other_stdout: Seq<u8>,
    stderr: Seq<u8>,
)
    requires
        exit_code != Some(0i32),
    ensures
        answer_for(ProcessOutcomeView::Exited { exit_code, stdout, stderr }) == Err::<
            Seq<char>,
            Seq<char>,
        >(lossy_text(stderr)),
        answer_for(ProcessOutcomeView::Exited { exit_code, stdout, stderr }) == answer_for(
            ProcessOutcomeView::Exited { exit_code, stdout: other_stdout, stderr },
        ),
{
}

/// A launch that failed is answered with a failure whose message begins with
/// [`launch_failure_prefix`] and ends with the operating system's words, whole
/// and unchanged.
pub proof fn lemma_launch_failure_carries_os_error(error: Seq<char>)
    ensures
        answer_for(ProcessOutcomeView::LaunchFailed { error }) is Err,
        launch_failure_prefix().is_prefix_of(
            answer_for(ProcessOutcomeView::LaunchFailed { error })->Err_0,
        ),
        error.is_suffix_of(answer_for(ProcessOutcomeView::LaunchFailed { error })->Err_0),
{
    let prefix = launch_failure_prefix();
    let message = prefix + error;
    assert(message.subrange(0, prefix.len() as int) =~= prefix);
    assert(message.subrange(message.len() - error.len(), message.len() as int) =~= error);
}

} // verus!
