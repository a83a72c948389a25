//! Media status codes as errors.
use vstd::prelude::*;

use crate::ndk_codes::amedia_ok;

verus! {

/// A failure status reported by the NDK media and MIDI functions: a
/// `media_status_t` other than `AMEDIA_OK`, kept as its raw code.
#[derive(Copy, Clone, Debug, PartialEq, Eq, Structural)]
pub struct MediaError(pub i32);

/// What a `media_status_t` means: success for `AMEDIA_OK` (0), otherwise that
/// status as an error.
pub open spec fn status_result(status: i32) -> Result<(), MediaError> {
    if status == 0 {
        Ok(())
    } else {
        Err(MediaError(status))
    }
}

/// What a value returned as "a count, or a negative `media_status_t`" means: the
/// count when it is not negative, otherwise the status narrowed to a C `int`.
pub open spec fn count_result(value: isize) -> Result<usize, MediaError> {
    if value >= 0 {
        Ok(value as usize)
    } else {
        Err(MediaError(value as i32))
    }
}

impl MediaError {
    /// `Ok(())` for `AMEDIA_OK`, otherwise the status as an error (positive codes included).
    pub fn from_status(status: i32) -> (result: Result<(), MediaError>)
        ensures
            result == status_result(status),
            status == 0 ==> result == Ok::<(), MediaError>(()),
            status != 0 ==> result == Err::<(), MediaError>(MediaError(status)),
    {
        if status == amedia_ok() {
            Ok(())
        } else {
            Err(MediaError(status))
        }
    }

    /// Reads a value that the NDK returns as either a count (not negative) or a
    /// negative `media_status_t`: the count in `Ok`, otherwise the status, narrowed
    /// to a C `int`, as an error.
    ///
    /// The value must not be a negative number whose narrowing to `int` reads as
    /// `AMEDIA_OK`: such a value names no error.
    pub fn from_status_if_negative(value: isize) -> (result: Result<usize, MediaError>)
        requires
            value >= 0 || value as i32 != 0,
        ensures
            result == count_result(value),
            value >= 0 ==> result == Ok::<usize, MediaError>(value as usize),
            value < 0 ==> result == Err::<usize, MediaError>(MediaError(value as i32)),
    {
        if value >= 0 {
            Ok(value as usize)
        } else {
            Err(MediaError::from_status(value as i32).unwrap_err())
        }
    }
}

/// A status is success exactly when it is `AMEDIA_OK`, and every other status is
/// kept, code for code, in the error.
pub proof fn lemma_status_result(status: i32)
    ensures
        status_result(status) is Ok <==> status == 0,
        status_result(status) matches Err(e) ==> e.0 == status && e.0 != 0,
{
}

/// A count-or-status value is a count exactly when it is not negative, and an error
/// it yields is the one its status yields on its own.
pub proof fn lemma_count_result(value: isize)
    requires
        value >= 0 || value as i32 != 0,
    ensures
        count_result(value) is Ok <==> value >= 0,
        count_result(value) matches Err(e) ==> status_result(e.0) == Err::<(), MediaError>(e),
{
}

/// A count is passed through unchanged, and a negative value is the error carrying
/// exactly that status narrowed to a C `int`, for every value.
pub proof fn lemma_count_result_exact(value: isize)
    ensures
        value >= 0 ==> count_result(value) == Ok::<usize, MediaError>(value as usize),
        value >= 0 ==> count_result(value)->Ok_0 as int == value as int,
        value < 0 ==> count_result(value) == Err::<usize, MediaError>(MediaError(value as i32)),
        -0x8000_0000 <= value < 0 ==> count_result(value)->Err_0.0 as int == value as int,
{
}

/// Two different statuses never read as the same error, and no error reads as success.
pub proof fn lemma_status_result_injective(a: i32, b: i32)
    ensures
        status_result(a) == status_result(b) ==> a == b,
        a != 0 ==> status_result(a) == Err::<(), MediaError>(MediaError(a)),
{
}

} // verus!
