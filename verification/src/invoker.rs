//! Conversion invoker: the command line handed to the external converter and
//! the classification of what came back from it.
//!
//! The executable itself is an external collaborator; this module fixes the
//! exact argument list — `convert --to {format} {inputFile}`, run in the
//! scratch directory — and the policy over its outcome: exit code zero is
//! success, any other exit code is the client's fault (the document was
//! malformed or unsupported), and not getting an exit code at all — a spawn
//! failure, a termination without one, or a run killed at the deadline — is
//! an infrastructure fault.

use vstd::prelude::*;
use crate::bytes::clone_bytes;
use crate::identity::{WorkItem, WorkItemView};

verus! {

/// The bytes of the literal argument `convert`.
pub open spec fn convert_arg() -> Seq<u8> {
    seq![99u8, 111u8, 110u8, 118u8, 101u8, 114u8, 116u8]
}

/// The bytes of the literal argument `--to`.
pub open spec fn to_flag_arg() -> Seq<u8> {
    seq![45u8, 45u8, 116u8, 111u8]
}

/// The converter's argument list for a work item:
/// `convert --to {format} {inputFile}`.
pub open spec fn argv_of(w: WorkItemView) -> Seq<Seq<u8>> {
    seq![convert_arg(), to_flag_arg(), w.format_raw, w.input_name]
}

/// Builds the converter's argument list for a work item.
pub fn converter_argv(w: &WorkItem) -> (argv: Vec<Vec<u8>>)
    ensures
        argv.deep_view() == argv_of(w@),
{
    let mut argv: Vec<Vec<u8>> = Vec::new();
    let mut convert_word: Vec<u8> = Vec::new();
    convert_word.push(99u8);
    convert_word.push(111u8);
    convert_word.push(110u8);
    convert_word.push(118u8);
    convert_word.push(101u8);
    convert_word.push(114u8);
    convert_word.push(116u8);
    let mut to_flag: Vec<u8> = Vec::new();
    to_flag.push(45u8);
    to_flag.push(45u8);
    to_flag.push(116u8);
    to_flag.push(111u8);
    proof {
        assert(convert_word@ =~= convert_arg());
        assert(to_flag@ =~= to_flag_arg());
    }
    argv.push(convert_word);
    argv.push(to_flag);
    argv.push(clone_bytes(&w.format_raw));
    argv.push(clone_bytes(&w.input_name));
    proof {
        assert(argv.deep_view() =~~= argv_of(w@));
    }
    argv
}

/// How one attempt to run the converter ended, as the runtime reports it.
#[derive(Clone, Copy, Debug, PartialEq, Eq, Structural)]
pub enum ProcessOutcome {
    /// The process ran and exited with this code.
    Exited(i32),
    /// The process ended without an exit code (terminated by a signal).
    NoExitCode,
    /// The process could not be started at all.
    SpawnFailed,
    /// The process was still running when the deadline passed and was
    /// killed.
    TimedOut,
}

/// Policy over a converter outcome: exit code zero succeeds; any other exit
/// code blames the uploaded document; everything else is an infrastructure
/// fault.
#[derive(Clone, Copy, Debug, PartialEq, Eq, Structural)]
pub enum ExitClass {
    Success,
    DocumentRejected,
    Infrastructure,
}

/// The classification, as a function of the outcome.
pub open spec fn classify_spec(o: ProcessOutcome) -> ExitClass {
    match o {
        ProcessOutcome::Exited(code) => if code == 0 {
            ExitClass::Success
        } else {
            ExitClass::DocumentRejected
        },
        ProcessOutcome::NoExitCode => ExitClass::Infrastructure,
        ProcessOutcome::SpawnFailed => ExitClass::Infrastructure,
        ProcessOutcome::TimedOut => ExitClass::Infrastructure,
    }
}

/// Classifies a converter outcome.
pub fn classify_outcome(o: &ProcessOutcome) -> (r: ExitClass)
    ensures
        r == classify_spec(*o),
{
    match o {
        ProcessOutcome::Exited(code) => {
            if *code == 0 {
                ExitClass::Success
            } else {
                ExitClass::DocumentRejected
            }
        },
        ProcessOutcome::NoExitCode => ExitClass::Infrastructure,
        ProcessOutcome::SpawnFailed => ExitClass::Infrastructure,
        ProcessOutcome::TimedOut => ExitClass::Infrastructure,
    }
}

} // verus!
