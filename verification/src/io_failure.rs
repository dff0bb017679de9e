//! The part of an operating-system I/O failure that the library's logic reads.
use vstd::prelude::*;

verus! {

/// The distinction the library draws between I/O failures: a missing file
/// (expected on a first run) versus anything else.
#[derive(Debug, Clone, Copy, PartialEq, Eq)]
pub enum IoErrorKind {
    NotFound,
    Other,
}

/// An I/O failure, carried as plain values: its kind and its message.
#[derive(Debug, PartialEq, Eq)]
pub struct IoFailure {
    pub kind: IoErrorKind,
    pub message: String,
}

} // verus!
