//! Interpretation of the status word that waiting on a child process yields.

use vstd::prelude::*;

verus! {

/// The exit code carried by a wait status, if the child left by exiting:
/// the low seven bits are clear for a normal exit, and the code is the second byte.
pub open spec fn exit_code_of(status: i32) -> Option<i32> {
    if status & 0x7f == 0 {
        Some((status >> 8) & 0xff)
    } else {
        None
    }
}

/// Calls `libc::WIFEXITED`, which on Linux targets tests that the low seven
/// bits of the status word are all zero.
#[verifier::external_body]
fn wait_exited(status: i32) -> (exited: bool)
    ensures
        exited == (status & 0x7f == 0),
{
    libc::WIFEXITED(status)
}

/// Calls `libc::WEXITSTATUS`, which on Linux targets shifts the status word
/// right by eight bits and keeps the low byte of what remains.
#[verifier::external_body]
fn wait_exit_status(status: i32) -> (code: i32)
    ensures
        code == (status >> 8) & 0xff,
{
    libc::WEXITSTATUS(status)
}

/// Decodes a wait status into the child's exit code, or `None` when the child
/// did not exit normally.
pub fn exit_code(status: i32) -> (code: Option<i32>)
    ensures
        code == exit_code_of(status),
        code matches Some(c) ==> 0 <= c <= 255,
{
    if wait_exited(status) {
        let c = wait_exit_status(status);
        assert(0 <= (status >> 8) & 0xff <= 255) by (bit_vector);
        Some(c)
    } else {
        None
    }
}

} // verus!
