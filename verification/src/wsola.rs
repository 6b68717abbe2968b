//! Input validation of the pitch-preserving time-stretcher. The signal
//! processing itself is floating-point and lives in the audio front end.
use vstd::prelude::*;

verus! {

/// Errors from constructing or driving a time-stretcher.
#[derive(Debug, Clone, Copy, PartialEq, Eq, Structural)]
pub enum Error {
    /// The sample rate was zero.
    InvalidSampleRate,
    /// The channel count was zero.
    InvalidChannels,
    /// An interleaved buffer length was not a whole number of frames.
    UnalignedInput { len: usize, channels: u16 },
}

/// A stream format the stretcher accepts: a non-zero sample rate (checked
/// first) and a non-zero channel count.
pub fn check_format(sample_rate: u32, channels: u16) -> (r: Result<(), Error>)
    ensures
        r == if sample_rate == 0 {
            Err::<(), Error>(Error::InvalidSampleRate)
        } else if channels == 0 {
            Err(Error::InvalidChannels)
        } else {
            Ok(())
        },
{
    if sample_rate == 0 {
        return Err(Error::InvalidSampleRate);
    }
    if channels == 0 {
        return Err(Error::InvalidChannels);
    }
    Ok(())
}

/// A whole-buffer stretch input: a non-zero channel count (checked first) and
/// a sample count that is a whole number of interleaved frames.
pub fn check_buffer(len: usize, channels: u16) -> (r: Result<(), Error>)
    ensures
        r == if channels == 0 {
            Err::<(), Error>(Error::InvalidChannels)
        } else if (len as int) % (channels as int) != 0 {
            Err(Error::UnalignedInput { len, channels })
        } else {
            Ok(())
        },
{
    if channels == 0 {
        return Err(Error::InvalidChannels);
    }
    if len % (channels as usize) != 0 {
        return Err(Error::UnalignedInput { len, channels });
    }
    Ok(())
}

} // verus!
