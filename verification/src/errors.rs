//! The failures that the library hands to its caller.

use vstd::prelude::*;

verus! {

/// `std::io::Error`, the operating system's account of a failure. The
/// library only carries such a value; it never looks inside.
#[verifier::external_type_specification]
#[verifier::external_body]
pub struct ExIoError(std::io::Error);

/// What can go wrong between the cluster command line tool and the dashboard.
#[derive(Debug)]
pub enum Error {
    /// The command could not be run; the operating system's error is kept.
    KubecltNotFound(std::io::Error),
    /// A line of the command's output is not a row of the pod table.
    ParseOutputError,
}

} // verus!
