//! Executors that run one trial of a target program against one input,
//! classify how the trial ended, and recover so that the next trial can run.
//!
//! Everything here is a decision on plain values: the work that only the
//! operating system can do (forking, waiting, connecting, probing) is done by
//! the caller, which reports what happened and is told what to do next.

pub mod error;
pub mod exit_kind;
pub mod state;
pub mod executor;
pub mod interleaved;
pub mod nop;
pub mod signals;
mod barrier;
pub mod inprocess;
pub mod fork;
pub mod tcp;
pub mod seed_file;
pub mod hmm;
