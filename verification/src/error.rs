//! Error taxonomy and the status translator.
//!
//! The foreign decoder reports results as signed integers: any nonnegative
//! value is success, and negative values index a fixed table of failure
//! conditions.  [`call`] turns such a code into a structured [`JXRError`],
//! mapping every negative value outside the known table to
//! [`JXRError::UnknownError`] so that translation itself is total.

use vstd::prelude::*;

verus! {

/// Status code returned by every foreign decoder entry point and by the
/// stream-adapter callbacks: nonnegative means success.
pub const WMP_ERR_SUCCESS: i64 = 0;
/// Generic failure.
pub const WMP_ERR_FAIL: i64 = -1;
/// The foreign routine is not implemented.
pub const WMP_ERR_NOT_YET_IMPLEMENTED: i64 = -2;
/// An abstract foreign method was invoked.
pub const WMP_ERR_ABSTRACT_METHOD: i64 = -3;
/// The foreign allocator ran out of memory.
pub const WMP_ERR_OUT_OF_MEMORY: i64 = -101;
/// A read, seek or write on the byte source failed.
pub const WMP_ERR_FILE_IO: i64 = -102;
/// A foreign buffer was too small.
pub const WMP_ERR_BUFFER_OVERFLOW: i64 = -103;
/// A parameter was rejected by the foreign codec.
pub const WMP_ERR_INVALID_PARAMETER: i64 = -104;
/// An argument was rejected by the foreign codec.
pub const WMP_ERR_INVALID_ARGUMENT: i64 = -105;
/// The input is not in a format the codec supports.
pub const WMP_ERR_UNSUPPORTED_FORMAT: i64 = -106;
/// The codec version recorded in the input does not match.
pub const WMP_ERR_INCORRECT_CODEC_VERSION: i64 = -107;
/// A table index was not found in the input.
pub const WMP_ERR_INDEX_NOT_FOUND: i64 = -108;
/// An operation was issued out of sequence.
pub const WMP_ERR_OUT_OF_SEQUENCE: i64 = -109;
/// The foreign instance was used before initialization.
pub const WMP_ERR_NOT_INITIALIZED: i64 = -110;
/// Decoding must proceed in multiples of 16 scan-lines until the last call.
pub const WMP_ERR_MUST_BE_MULTIPLE_OF_16_LINES_UNTIL_LAST_CALL: i64 = -111;
/// Planar alpha banded encoding requires a temporary file.
pub const WMP_ERR_PLANAR_ALPHA_BANDED_ENC_REQUIRES_TEMP_FILE: i64 = -112;
/// The alpha mode cannot be transcoded.
pub const WMP_ERR_ALPHA_MODE_CANNOT_BE_TRANSCODED: i64 = -113;
/// The codec sub-version recorded in the input does not match.
pub const WMP_ERR_INCORRECT_CODEC_SUB_VERSION: i64 = -114;

/// Error type for the library; consolidates host-side marshalling errors,
/// classification errors of the format registry, and the foreign status
/// codes surfaced as distinct kinds.
#[derive(Debug, PartialEq, Eq, Structural, Clone, Copy)]
pub enum JXRError {
    // Host-side boundary and marshalling errors
    /// An I/O failure from the byte source.
    IoError,
    /// A null byte appeared in marshalled string data.
    NulError,
    /// A numeric value did not fit the width the foreign side expects.
    TryFromIntError,

    // Host-side classification errors
    /// Malformed data was encountered before the foreign codec was reached.
    InvalidData,
    /// A format identifier outside the registry's table.
    UnrecognizedPixelFormat,
    /// A color-format code outside the known enumeration.
    UnrecognizedColorFormat,
    /// A photometric-interpretation code outside the known enumeration.
    UnrecognizedInterpretation,
    /// A bit-depth code outside the known enumeration.
    UnrecognizedBitDepth,

    // Foreign status errors
    /// A negative status code outside the known table.
    UnknownError,
    /// Generic failure.
    Fail,
    /// Not yet implemented.
    NotYetImplemented,
    /// Abstract method.
    AbstractMethod,
    /// Out of memory.
    OutOfMemory,
    /// File I/O failure.
    FileIO,
    /// Buffer overflow.
    BufferOverflow,
    /// Invalid parameter.
    InvalidParameter,
    /// Invalid argument.
    InvalidArgument,
    /// Unsupported format.
    UnsupportedFormat,
    /// Incorrect codec version.
    IncorrectCodecVersion,
    /// Index not found.
    IndexNotFound,
    /// Out of sequence.
    OutOfSequence,
    /// Not initialized.
    NotInitialized,
    /// Must be a multiple of 16 scan-lines until the last call.
    MustBeMultipleOf16LinesUntilLastCall,
    /// Planar alpha banded encoding requires a temporary file.
    PlanarAlphaBandedEncRequiresTempFile,
    /// Alpha mode cannot be transcoded.
    AlphaModeCannotBeTranscoded,
    /// Incorrect codec sub-version.
    IncorrectCodecSubVersion,
}

/// The translation table from a signed status code to a result, as a
/// specification: nonnegative codes succeed, the known negative codes map to
/// their dedicated kinds, and every other negative code maps to
/// [`JXRError::UnknownError`].
pub open spec fn call_spec(err: i64) -> Result<(), JXRError> {
    if err >= 0 {
        Ok(())
    } else if err == WMP_ERR_FAIL {
        Err(JXRError::Fail)
    } else if err == WMP_ERR_NOT_YET_IMPLEMENTED {
        Err(JXRError::NotYetImplemented)
    } else if err == WMP_ERR_ABSTRACT_METHOD {
        Err(JXRError::AbstractMethod)
    } else if err == WMP_ERR_OUT_OF_MEMORY {
        Err(JXRError::OutOfMemory)
    } else if err == WMP_ERR_FILE_IO {
        Err(JXRError::FileIO)
    } else if err == WMP_ERR_BUFFER_OVERFLOW {
        Err(JXRError::BufferOverflow)
    } else if err == WMP_ERR_INVALID_PARAMETER {
        Err(JXRError::InvalidParameter)
    } else if err == WMP_ERR_INVALID_ARGUMENT {
        Err(JXRError::InvalidArgument)
    } else if err == WMP_ERR_UNSUPPORTED_FORMAT {
        Err(JXRError::UnsupportedFormat)
    } else if err == WMP_ERR_INCORRECT_CODEC_VERSION {
        Err(JXRError::IncorrectCodecVersion)
    } else if err == WMP_ERR_INDEX_NOT_FOUND {
        Err(JXRError::IndexNotFound)
    } else if err == WMP_ERR_OUT_OF_SEQUENCE {
        Err(JXRError::OutOfSequence)
    } else if err == WMP_ERR_NOT_INITIALIZED {
        Err(JXRError::NotInitialized)
    } else if err == WMP_ERR_MUST_BE_MULTIPLE_OF_16_LINES_UNTIL_LAST_CALL {
        Err(JXRError::MustBeMultipleOf16LinesUntilLastCall)
    } else if err == WMP_ERR_PLANAR_ALPHA_BANDED_ENC_REQUIRES_TEMP_FILE {
        Err(JXRError::PlanarAlphaBandedEncRequiresTempFile)
    } else if err == WMP_ERR_ALPHA_MODE_CANNOT_BE_TRANSCODED {
        Err(JXRError::AlphaModeCannotBeTranscoded)
    } else if err == WMP_ERR_INCORRECT_CODEC_SUB_VERSION {
        Err(JXRError::IncorrectCodecSubVersion)
    } else {
        Err(JXRError::UnknownError)
    }
}

/// Translate a foreign status code into a `?`-friendly result.
///
/// Total over the whole signed domain: success for every nonnegative code,
/// a dedicated error kind for each code in the known failure table, and
/// [`JXRError::UnknownError`] for any other negative code.
pub fn call(err: i64) -> (r: Result<(), JXRError>)
    ensures
        r == call_spec(err),
{
    if err >= 0 {
        Ok(())
    } else if err == WMP_ERR_FAIL {
        Err(JXRError::Fail)
    } else if err == WMP_ERR_NOT_YET_IMPLEMENTED {
        Err(JXRError::NotYetImplemented)
    } else if err == WMP_ERR_ABSTRACT_METHOD {
        Err(JXRError::AbstractMethod)
    } else if err == WMP_ERR_OUT_OF_MEMORY {
        Err(JXRError::OutOfMemory)
    } else if err == WMP_ERR_FILE_IO {
        Err(JXRError::FileIO)
    } else if err == WMP_ERR_BUFFER_OVERFLOW {
        Err(JXRError::BufferOverflow)
    } else if err == WMP_ERR_INVALID_PARAMETER {
        Err(JXRError::InvalidParameter)
    } else if err == WMP_ERR_INVALID_ARGUMENT {
        Err(JXRError::InvalidArgument)
    } else if err == WMP_ERR_UNSUPPORTED_FORMAT {
        Err(JXRError::UnsupportedFormat)
    } else if err == WMP_ERR_INCORRECT_CODEC_VERSION {
        Err(JXRError::IncorrectCodecVersion)
    } else if err == WMP_ERR_INDEX_NOT_FOUND {
        Err(JXRError::IndexNotFound)
    } else if err == WMP_ERR_OUT_OF_SEQUENCE {
        Err(JXRError::OutOfSequence)
    } else if err == WMP_ERR_NOT_INITIALIZED {
        Err(JXRError::NotInitialized)
    } else if err == WMP_ERR_MUST_BE_MULTIPLE_OF_16_LINES_UNTIL_LAST_CALL {
        Err(JXRError::MustBeMultipleOf16LinesUntilLastCall)
    } else if err == WMP_ERR_PLANAR_ALPHA_BANDED_ENC_REQUIRES_TEMP_FILE {
        Err(JXRError::PlanarAlphaBandedEncRequiresTempFile)
    } else if err == WMP_ERR_ALPHA_MODE_CANNOT_BE_TRANSCODED {
        Err(JXRError::AlphaModeCannotBeTranscoded)
    } else if err == WMP_ERR_INCORRECT_CODEC_SUB_VERSION {
        Err(JXRError::IncorrectCodecSubVersion)
    } else {
        Err(JXRError::UnknownError)
    }
}

} // verus!
