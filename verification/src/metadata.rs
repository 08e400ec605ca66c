//! Access to the flatbuffer records of a message, as plain values.

use polars_arrow_format::ipc::planus::Error as FlatbufferError;
use polars_arrow_format::ipc::BodyCompressionRef;
use polars_arrow_format::ipc::DictionaryBatchRef;
use polars_arrow_format::ipc::RecordBatchRef;
use vstd::prelude::*;

verus! {

/// The flatbuffer record of a record batch.
#[verifier::external_type_specification]
#[verifier::external_body]
pub struct ExRecordBatchRef<'a>(RecordBatchRef<'a>);

/// The flatbuffer record of a dictionary batch.
#[verifier::external_type_specification]
#[verifier::external_body]
pub struct ExDictionaryBatchRef<'a>(DictionaryBatchRef<'a>);

/// The flatbuffer record of a batch's compression.
#[verifier::external_type_specification]
#[verifier::external_body]
pub struct ExBodyCompressionRef<'a>(BodyCompressionRef<'a>);

/// Where a buffer lies in the body of a message.
#[derive(Debug, Clone, Copy, PartialEq, Eq)]
pub struct BufferSpan {
    pub offset: i64,
    pub length: i64,
}

/// The metadata of one node of a batch's type tree.
#[derive(Debug, Clone, Copy, PartialEq, Eq)]
pub struct FieldNode {
    pub length: i64,
    pub null_count: i64,
}

/// What the record of a batch holds, each part as the flatbuffer reader gave it.
pub struct BatchMetadata<'a> {
    pub buffers: Result<Option<Vec<BufferSpan>>, FlatbufferError>,
    pub variadic_buffer_counts: Result<Option<Vec<i64>>, FlatbufferError>,
    pub nodes: Result<Option<Vec<FieldNode>>, FlatbufferError>,
    pub compression: Result<Option<BodyCompressionRef<'a>>, FlatbufferError>,
    pub length: Result<i64, FlatbufferError>,
}

/// What the record of a dictionary batch holds.
pub struct DictionaryMetadata<'a> {
    pub is_delta: Result<bool, FlatbufferError>,
    pub id: Result<i64, FlatbufferError>,
    pub data: Result<Option<RecordBatchRef<'a>>, FlatbufferError>,
}

/// The buffers that a batch's record lists: what `RecordBatchRef::buffers`
/// gives for the record.
pub uninterp spec fn record_buffers(batch: RecordBatchRef<'_>) -> Result<
    Option<Vec<BufferSpan>>,
    FlatbufferError,
>;

/// The counts of variadic buffers that a batch's record lists: what
/// `RecordBatchRef::variadic_buffer_counts` gives for the record.
pub uninterp spec fn record_variadic_buffer_counts(batch: RecordBatchRef<'_>) -> Result<
    Option<Vec<i64>>,
    FlatbufferError,
>;

/// The field nodes that a batch's record lists: what `RecordBatchRef::nodes`
/// gives for the record.
pub uninterp spec fn record_nodes(batch: RecordBatchRef<'_>) -> Result<
    Option<Vec<FieldNode>>,
    FlatbufferError,
>;

/// The compression that a batch's record declares: what
/// `RecordBatchRef::compression` gives for the record.
pub uninterp spec fn record_compression(batch: RecordBatchRef<'_>) -> Result<
    Option<BodyCompressionRef<'_>>,
    FlatbufferError,
>;

/// The number of rows that a batch's record declares: what
/// `RecordBatchRef::length` gives for the record.
pub uninterp spec fn record_length(batch: RecordBatchRef<'_>) -> Result<i64, FlatbufferError>;

/// Whether a dictionary batch's record is flagged as extending a dictionary:
/// what `DictionaryBatchRef::is_delta` gives for the record.
pub uninterp spec fn record_is_delta(batch: DictionaryBatchRef<'_>) -> Result<
    bool,
    FlatbufferError,
>;

/// The dictionary id that a dictionary batch's record declares: what
/// `DictionaryBatchRef::id` gives for the record.
pub uninterp spec fn record_id(batch: DictionaryBatchRef<'_>) -> Result<i64, FlatbufferError>;

/// The batch of values that a dictionary batch's record holds: what
/// `DictionaryBatchRef::data` gives for the record.
pub uninterp spec fn record_data(batch: DictionaryBatchRef<'_>) -> Result<
    Option<RecordBatchRef<'_>>,
    FlatbufferError,
>;

/// All that a batch's record holds.
pub open spec fn record_metadata<'a>(batch: RecordBatchRef<'a>) -> BatchMetadata<'a> {
    BatchMetadata {
        buffers: record_buffers(batch),
        variadic_buffer_counts: record_variadic_buffer_counts(batch),
        nodes: record_nodes(batch),
        compression: record_compression(batch),
        length: record_length(batch),
    }
}

/// All that a dictionary batch's record holds.
pub open spec fn dictionary_record_metadata<'a>(
    batch: DictionaryBatchRef<'a>,
) -> DictionaryMetadata<'a> {
    DictionaryMetadata {
        is_delta: record_is_delta(batch),
        id: record_id(batch),
        data: record_data(batch),
    }
}

/// `RecordBatchRef::buffers`, and `BufferRef::offset` and `BufferRef::length`
/// on each buffer of the list, in order. The result is read from the record
/// and from nothing else: the same record gives the same result. What it is
/// is not claimed.
#[verifier::external_body]
pub(crate) fn batch_buffers(batch: &RecordBatchRef<'_>) -> (r: Result<
    Option<Vec<BufferSpan>>,
    FlatbufferError,
>)
    ensures
        r == record_buffers(*batch),
{
    let buffers = batch.buffers()?;
    Ok(buffers.map(|v| v.iter().map(|b| BufferSpan { offset: b.offset(), length: b.length() }).collect()))
}

/// `RecordBatchRef::variadic_buffer_counts`, with the counts in order. The
/// result is read from the record and from nothing else; what it is is not
/// claimed.
#[verifier::external_body]
pub(crate) fn batch_variadic_buffer_counts(batch: &RecordBatchRef<'_>) -> (r: Result<
    Option<Vec<i64>>,
    FlatbufferError,
>)
    ensures
        r == record_variadic_buffer_counts(*batch),
{
    let counts = batch.variadic_buffer_counts()?;
    Ok(counts.map(|v| v.iter().collect()))
}

/// `RecordBatchRef::nodes`, and `FieldNodeRef::length` and
/// `FieldNodeRef::null_count` on each node of the list, in order. The result
/// is read from the record and from nothing else; what it is is not claimed.
#[verifier::external_body]
pub(crate) fn batch_nodes(batch: &RecordBatchRef<'_>) -> (r: Result<
    Option<Vec<FieldNode>>,
    FlatbufferError,
>)
    ensures
        r == record_nodes(*batch),
{
    let nodes = batch.nodes()?;
    Ok(nodes.map(|v| v.iter().map(|n| FieldNode { length: n.length(), null_count: n.null_count() }).collect()))
}

/// `RecordBatchRef::compression`. The result is read from the record and
/// from nothing else; what it is is not claimed.
#[verifier::external_body]
pub(crate) fn batch_compression<'a>(batch: &RecordBatchRef<'a>) -> (r: Result<
    Option<BodyCompressionRef<'a>>,
    FlatbufferError,
>)
    ensures
        r == record_compression(*batch),
{
    batch.compression()
}

/// `RecordBatchRef::length`: the number of rows that the batch declares. The
/// result is read from the record and from nothing else; what it is is not
/// claimed.
#[verifier::external_body]
pub(crate) fn batch_length(batch: &RecordBatchRef<'_>) -> (r: Result<i64, FlatbufferError>)
    ensures
        r == record_length(*batch),
{
    batch.length()
}

/// `DictionaryBatchRef::is_delta`. The result is read from the record and
/// from nothing else; what it is is not claimed.
#[verifier::external_body]
pub(crate) fn dictionary_is_delta(batch: &DictionaryBatchRef<'_>) -> (r: Result<
    bool,
    FlatbufferError,
>)
    ensures
        r == record_is_delta(*batch),
{
    batch.is_delta()
}

/// `DictionaryBatchRef::id`. The result is read from the record and from
/// nothing else; what it is is not claimed.
#[verifier::external_body]
pub(crate) fn dictionary_id(batch: &DictionaryBatchRef<'_>) -> (r: Result<i64, FlatbufferError>)
    ensures
        r == record_id(*batch),
{
    batch.id()
}

/// `DictionaryBatchRef::data`: the record batch that holds the dictionary's
/// values. The result is read from the record and from nothing else; what it
/// is is not claimed.
#[verifier::external_body]
pub(crate) fn dictionary_data<'a>(batch: &DictionaryBatchRef<'a>) -> (r: Result<
    Option<RecordBatchRef<'a>>,
    FlatbufferError,
>)
    ensures
        r == record_data(*batch),
{
    batch.data()
}

/// Reads every part of a batch's record.
pub fn batch_metadata<'a>(batch: &RecordBatchRef<'a>) -> (r: BatchMetadata<'a>)
    ensures
        r == record_metadata(*batch),
{
    BatchMetadata {
        buffers: batch_buffers(batch),
        variadic_buffer_counts: batch_variadic_buffer_counts(batch),
        nodes: batch_nodes(batch),
        compression: batch_compression(batch),
        length: batch_length(batch),
    }
}

/// Reads every part of a dictionary batch's record.
pub fn dictionary_metadata<'a>(batch: &DictionaryBatchRef<'a>) -> (r: DictionaryMetadata<'a>)
    ensures
        r == dictionary_record_metadata(*batch),
{
    DictionaryMetadata {
        is_delta: dictionary_is_delta(batch),
        id: dictionary_id(batch),
        data: dictionary_data(batch),
    }
}

} // verus!
