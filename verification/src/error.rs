//! The ways in which a message can fail to decode.

use polars_arrow_format::ipc::planus::Error as FlatbufferError;
use vstd::prelude::*;

verus! {

/// The error with which the flatbuffer reader refuses an access.
#[verifier::external_type_specification]
#[verifier::external_body]
pub struct ExFlatbufferError(FlatbufferError);

/// A way in which a message is inconsistent with the format or with its own
/// metadata.
#[derive(Debug)]
pub enum OutOfSpecKind {
    /// The list of buffers cannot be read.
    InvalidFlatbufferBuffers(FlatbufferError),
    /// The message has no list of buffers.
    MissingMessageBuffers,
    /// The counts of variadic buffers cannot be read.
    InvalidFlatbufferRecordBatches(FlatbufferError),
    /// A length is negative, or does not fit the machine.
    NegativeFooterLength,
    /// The buffers of the batch are larger than the source that holds them.
    InvalidBuffersLength { buffers_size: u64, file_size: u64 },
    /// The list of field nodes cannot be read.
    InvalidFlatbufferNodes(FlatbufferError),
    /// The message has no list of field nodes.
    MissingMessageNodes,
    /// The compression of the batch cannot be read.
    InvalidFlatbufferCompression(FlatbufferError),
    /// The message lacks its data.
    MissingData,
    /// The delta flag of a dictionary batch cannot be read.
    InvalidFlatbufferIsDelta(FlatbufferError),
    /// The id of a dictionary batch cannot be read.
    InvalidFlatbufferId(FlatbufferError),
    /// The data of a dictionary batch cannot be read.
    InvalidFlatbufferData(FlatbufferError),
    /// No field of the schema uses the dictionary.
    InvalidId { requested_id: i64 },
    /// The field that uses the dictionary is not of a dictionary type.
    InvalidIdDataType { requested_id: i64 },
}

/// Why a dictionary batch was refused.
#[derive(Debug)]
pub enum ReadError {
    /// The message is out of the format's specification.
    OutOfSpec(OutOfSpecKind),
    /// The message asks to extend a dictionary, which is not supported.
    DeltaDictionary,
}

} // verus!
