use arrow_ipc_read::datatypes::DataType;
use arrow_ipc_read::datatypes::Field;
use arrow_ipc_read::datatypes::IpcField;
use arrow_ipc_read::datatypes::IpcSchema;
use arrow_ipc_read::datatypes::PrimitiveType;
use arrow_ipc_read::dictionary::resolve_dictionary;
use arrow_ipc_read::error::OutOfSpecKind;
use arrow_ipc_read::error::ReadError;
use arrow_ipc_read::metadata::batch_metadata;
use arrow_ipc_read::metadata::dictionary_metadata;
use arrow_ipc_read::metadata::BatchMetadata;
use arrow_ipc_read::metadata::BufferSpan;
use arrow_ipc_read::metadata::DictionaryMetadata;
use arrow_ipc_read::metadata::FieldNode;
use arrow_ipc_read::record_batch::Action;
use arrow_ipc_read::record_batch::BatchDecoder;
use polars_arrow_format::ipc::planus::Builder;
use polars_arrow_format::ipc::planus::Error;
use polars_arrow_format::ipc::planus::ReadAsRoot;
use polars_arrow_format::ipc::Buffer;
use polars_arrow_format::ipc::DictionaryBatch;
use polars_arrow_format::ipc::DictionaryBatchRef;
use polars_arrow_format::ipc::RecordBatch;
use polars_arrow_format::ipc::RecordBatchRef;

fn failure() -> Error {
    RecordBatchRef::read_as_root(&[]).unwrap_err()
}

fn one_field() -> (Vec<Field>, IpcSchema) {
    let dtype = DataType::Dictionary(
        PrimitiveType::Int32,
        Box::new(DataType::Primitive(PrimitiveType::Utf8)),
        false,
    );
    (
        vec![Field { name: "a".to_string(), dtype, is_nullable: true }],
        IpcSchema {
            fields: vec![IpcField { fields: vec![], dictionary_id: Some(1) }],
            is_little_endian: false,
        },
    )
}

fn sound<'a>() -> BatchMetadata<'a> {
    BatchMetadata {
        buffers: Ok(Some(vec![BufferSpan { offset: 0, length: 4 }])),
        variadic_buffer_counts: Ok(None),
        nodes: Ok(Some(vec![FieldNode { length: 2, null_count: 0 }])),
        compression: Ok(None),
        length: Ok(2),
    }
}

fn start(meta: BatchMetadata<'_>, file_size: u64) -> Option<OutOfSpecKind> {
    let (fields, ipc) = one_field();
    BatchDecoder::<u8>::new(meta, &fields, &ipc, None, None, file_size).err()
}

#[test]
fn sound_metadata_starts_a_decoder() {
    assert!(start(sound(), 4).is_none());
}

#[test]
fn unreadable_buffers_are_refused() {
    let meta = BatchMetadata { buffers: Err(failure()), ..sound() };
    assert!(matches!(start(meta, 4), Some(OutOfSpecKind::InvalidFlatbufferBuffers(_))));
}

#[test]
fn unreadable_buffers_come_before_all_else() {
    let meta = BatchMetadata {
        buffers: Err(failure()),
        variadic_buffer_counts: Err(failure()),
        nodes: Ok(None),
        ..sound()
    };
    assert!(matches!(start(meta, 4), Some(OutOfSpecKind::InvalidFlatbufferBuffers(_))));
}

#[test]
fn unreadable_variadic_counts_are_refused() {
    let meta = BatchMetadata { variadic_buffer_counts: Err(failure()), ..sound() };
    assert!(matches!(start(meta, 0), Some(OutOfSpecKind::InvalidFlatbufferRecordBatches(_))));
}

#[test]
fn size_is_checked_before_the_nodes() {
    let meta = BatchMetadata { nodes: Err(failure()), ..sound() };
    assert!(matches!(
        start(meta, 3),
        Some(OutOfSpecKind::InvalidBuffersLength { buffers_size: 4, file_size: 3 })
    ));
}

#[test]
fn unreadable_nodes_are_refused() {
    let meta = BatchMetadata { nodes: Err(failure()), ..sound() };
    assert!(matches!(start(meta, 4), Some(OutOfSpecKind::InvalidFlatbufferNodes(_))));
}

#[test]
fn unreadable_compression_fails_the_first_read() {
    let (fields, ipc) = one_field();
    let meta = BatchMetadata { compression: Err(failure()), ..sound() };
    let (decoder, _) = BatchDecoder::<u8>::new(meta, &fields, &ipc, None, None, 4).unwrap();
    assert!(matches!(
        decoder.next_action(),
        Action::Fail(OutOfSpecKind::InvalidFlatbufferCompression(_))
    ));
}

#[test]
fn unreadable_compression_does_not_matter_without_a_read() {
    let (fields, ipc) = one_field();
    let meta = BatchMetadata { compression: Err(failure()), ..sound() };
    let (mut decoder, _) =
        BatchDecoder::<u8>::new(meta, &fields, &ipc, Some(&[]), None, 4).unwrap();
    assert!(matches!(decoder.next_action(), Action::Skip { field: 0 }));
    decoder.skip_column();
    assert!(matches!(decoder.next_action(), Action::Done));
    let batch = decoder.finish().unwrap();
    assert_eq!(batch.len(), 2);
    assert!(batch.arrays().is_empty());
}

#[test]
fn unreadable_length_is_missing_data() {
    let (fields, ipc) = one_field();
    let meta = BatchMetadata { length: Err(failure()), ..sound() };
    let (mut decoder, _) = BatchDecoder::<u8>::new(meta, &fields, &ipc, None, None, 4).unwrap();
    assert!(matches!(decoder.next_action(), Action::Read { field: 0, compression: None }));
    decoder.push_column(1);
    assert!(matches!(decoder.finish(), Err(OutOfSpecKind::MissingData)));
}

#[test]
fn metadata_is_read_from_the_record() {
    let batch = RecordBatch {
        length: 6,
        nodes: Some(vec![polars_arrow_format::ipc::FieldNode { length: 6, null_count: 2 }]),
        buffers: Some(vec![Buffer { offset: 16, length: 24 }]),
        compression: None,
        variadic_buffer_counts: Some(vec![3]),
    };
    let mut builder = Builder::new();
    let bytes = builder.finish(&batch, None).to_vec();
    let meta = batch_metadata(&RecordBatchRef::read_as_root(&bytes[..]).unwrap());
    assert_eq!(meta.buffers.unwrap(), Some(vec![BufferSpan { offset: 16, length: 24 }]));
    assert_eq!(meta.nodes.unwrap(), Some(vec![FieldNode { length: 6, null_count: 2 }]));
    assert_eq!(meta.variadic_buffer_counts.unwrap(), Some(vec![3]));
    assert!(meta.compression.unwrap().is_none());
    assert_eq!(meta.length.unwrap(), 6);
}

#[test]
fn dictionary_metadata_is_read_from_the_record() {
    let batch = DictionaryBatch { id: 12, data: None, is_delta: true };
    let mut builder = Builder::new();
    let bytes = builder.finish(&batch, None).to_vec();
    let meta = dictionary_metadata(&DictionaryBatchRef::read_as_root(&bytes[..]).unwrap());
    assert_eq!(meta.id.unwrap(), 12);
    assert!(meta.is_delta.unwrap());
    assert!(meta.data.unwrap().is_none());
}

#[test]
fn unreadable_dictionary_parts_are_refused_in_order() {
    let (fields, ipc) = one_field();
    let meta = DictionaryMetadata { is_delta: Err(failure()), id: Err(failure()), data: Ok(None) };
    assert!(matches!(
        resolve_dictionary(meta, &fields, &ipc),
        Err(ReadError::OutOfSpec(OutOfSpecKind::InvalidFlatbufferIsDelta(_)))
    ));
    let meta = DictionaryMetadata { is_delta: Ok(true), id: Err(failure()), data: Ok(None) };
    assert!(matches!(resolve_dictionary(meta, &fields, &ipc), Err(ReadError::DeltaDictionary)));
    let meta = DictionaryMetadata { is_delta: Ok(false), id: Err(failure()), data: Ok(None) };
    assert!(matches!(
        resolve_dictionary(meta, &fields, &ipc),
        Err(ReadError::OutOfSpec(OutOfSpecKind::InvalidFlatbufferId(_)))
    ));
    let meta = DictionaryMetadata { is_delta: Ok(false), id: Ok(2), data: Err(failure()) };
    assert!(matches!(
        resolve_dictionary(meta, &fields, &ipc),
        Err(ReadError::OutOfSpec(OutOfSpecKind::InvalidId { requested_id: 2 }))
    ));
    let meta = DictionaryMetadata { is_delta: Ok(false), id: Ok(1), data: Err(failure()) };
    assert!(matches!(
        resolve_dictionary(meta, &fields, &ipc),
        Err(ReadError::OutOfSpec(OutOfSpecKind::InvalidFlatbufferData(_)))
    ));
}

#[test]
fn request_keeps_the_byte_order_of_the_schema() {
    let (fields, ipc) = one_field();
    let data = RecordBatch { length: 1, ..Default::default() };
    let mut builder = Builder::new();
    let bytes = builder.finish(&data, None).to_vec();
    let meta = DictionaryMetadata {
        is_delta: Ok(false),
        id: Ok(1),
        data: Ok(Some(RecordBatchRef::read_as_root(&bytes[..]).unwrap())),
    };
    let request = resolve_dictionary(meta, &fields, &ipc).unwrap();
    assert_eq!(request.id, 1);
    assert!(!request.ipc_schema.is_little_endian);
    assert_eq!(request.fields[0].dtype, DataType::Primitive(PrimitiveType::Utf8));
    assert_eq!(request.fields[0].name, "");
    assert!(!request.fields[0].is_nullable);
}
