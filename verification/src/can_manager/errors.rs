//! Why a frame is not sent.

use vstd::prelude::*;

verus! {

/// `std::io::Error`: the error of the operating system's reads and writes.
/// Nothing is known of what is inside.
#[verifier::external_type_specification]
#[verifier::external_body]
pub struct ExIoError(std::io::Error);

/// Why a frame is not sent. The first two are found before anything is
/// written. The third is the socket refusing the write: nothing here makes
/// one, it is there for the code that writes.
#[derive(Debug)]
pub enum SendFrameError {
    /// The identifier does not fit 11-bit standard addressing.
    InvalidId { raw_id: u16 },
    /// The data is longer than a CAN-FD frame can hold.
    InvalidFrameLength { len: usize },
    /// The write failed.
    Io(std::io::Error),
}

} // verus!
