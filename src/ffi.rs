use vstd::prelude::*;
use crate::buffered_file::BufferedFileErrors;

verus! {

/// The errors reported at the foreign-callable boundary.
#[derive(Debug)]
pub enum Error {
    NonUtf8Path,
    InvalidPointer,
    BufferTooLong,
    BufferedFileErrors(BufferedFileErrors),
}

/// The status codes returned across the foreign-callable boundary.
#[derive(Debug, Clone, Copy, PartialEq, Eq, Structural)]
pub enum ErrorCode {
    Success,
    NonUtf8Path,
    BufferTooLong,
    InvalidPointer,
    FileNotFound,
    UnknownIoError,
}

/// The number that stands for each code.
pub open spec fn code_value(c: ErrorCode) -> i64 {
    match c {
        ErrorCode::Success => 0i64,
        ErrorCode::NonUtf8Path => -200i64,
        ErrorCode::BufferTooLong => -201i64,
        ErrorCode::InvalidPointer => -202i64,
        ErrorCode::FileNotFound => -1i64,
        ErrorCode::UnknownIoError => -3i64,
    }
}

impl From<ErrorCode> for i64 {
    fn from(other: ErrorCode) -> (r: i64) {
        match other {
            ErrorCode::Success => 0,
            ErrorCode::NonUtf8Path => -200,
            ErrorCode::BufferTooLong => -201,
            ErrorCode::InvalidPointer => -202,
            ErrorCode::FileNotFound => -1,
            ErrorCode::UnknownIoError => -3,
        }
    }
}

impl vstd::std_specs::convert::FromSpecImpl<ErrorCode> for i64 {
    open spec fn obeys_from_spec() -> bool {
        true
    }

    open spec fn from_spec(v: ErrorCode) -> i64 {
        code_value(v)
    }
}

/// The largest buffer a transfer takes: its byte count must fit the signed
/// 64-bit result.
pub const MAX_TRANSFER_LEN: u64 = 0x7fff_ffff_ffff_ffff;

/// Checks the arguments of a read or write across the boundary before any of
/// them is touched: a buffer longer than a signed 64-bit count is refused
/// first, then a null handle or buffer.
pub fn check_transfer(buffer_len: usize, handle_is_null: bool, buffer_is_null: bool) -> (r: Result<
    (),
    Error,
>)
    ensures
        buffer_len > MAX_TRANSFER_LEN ==> r matches Err(Error::BufferTooLong),
        buffer_len <= MAX_TRANSFER_LEN && (handle_is_null || buffer_is_null) ==> r matches Err(
            Error::InvalidPointer,
        ),
        buffer_len <= MAX_TRANSFER_LEN && !handle_is_null && !buffer_is_null ==> r is Ok,
{
    if buffer_len as u64 > MAX_TRANSFER_LEN {
        Err(Error::BufferTooLong)
    } else if handle_is_null || buffer_is_null {
        Err(Error::InvalidPointer)
    } else {
        Ok(())
    }
}

} // verus!
