use arrow_ipc_read::datatypes::DataType;
use arrow_ipc_read::datatypes::Field;
use arrow_ipc_read::datatypes::IpcField;
use arrow_ipc_read::datatypes::IpcSchema;
use arrow_ipc_read::datatypes::PrimitiveType;
use arrow_ipc_read::dictionary::dtype_mirrors;
use arrow_ipc_read::dictionary::field_mirrors;
use arrow_ipc_read::dictionary::fields_mirror;
use arrow_ipc_read::dictionary::find_first_dict_field;
use arrow_ipc_read::dictionary::find_first_dict_field_d;
use arrow_ipc_read::dictionary::first_dict_field;
use arrow_ipc_read::dictionary::insert_dictionary;
use arrow_ipc_read::dictionary::read_dictionary;
use arrow_ipc_read::dictionary::Dictionaries;
use arrow_ipc_read::error::OutOfSpecKind;
use arrow_ipc_read::error::ReadError;
use arrow_ipc_read::record_batch::Action;
use arrow_ipc_read::record_batch::RecordBatchT;
use polars_arrow_format::ipc::planus::Builder;
use polars_arrow_format::ipc::planus::ReadAsRoot;
use polars_arrow_format::ipc::Buffer;
use polars_arrow_format::ipc::DictionaryBatch;
use polars_arrow_format::ipc::DictionaryBatchRef;
use polars_arrow_format::ipc::RecordBatch;

fn leaf(id: Option<i64>) -> IpcField {
    IpcField { fields: vec![], dictionary_id: id }
}

fn named(name: &str, dtype: DataType) -> Field {
    Field { name: name.to_string(), dtype, is_nullable: true }
}

fn dict_of(values: PrimitiveType) -> DataType {
    DataType::Dictionary(PrimitiveType::Int32, Box::new(DataType::Primitive(values)), false)
}

/// A schema of a plain column, a struct with two dictionary columns and a
/// list of dictionary items.
fn schema() -> (Vec<Field>, IpcSchema) {
    let fields = vec![
        named("plain", DataType::Primitive(PrimitiveType::Int64)),
        named(
            "pair",
            DataType::Struct(vec![
                named("left", dict_of(PrimitiveType::Utf8)),
                named("right", dict_of(PrimitiveType::Binary)),
            ]),
        ),
        named("items", DataType::List(Box::new(named("item", dict_of(PrimitiveType::Boolean))))),
        named("odd", DataType::Primitive(PrimitiveType::Int8)),
    ];
    let ipc = IpcSchema {
        fields: vec![
            leaf(None),
            IpcField { fields: vec![leaf(Some(7)), leaf(Some(8))], dictionary_id: None },
            IpcField { fields: vec![leaf(Some(8))], dictionary_id: None },
            leaf(Some(11)),
        ],
        is_little_endian: true,
    };
    (fields, ipc)
}

fn dictionary_bytes(id: i64, is_delta: bool, with_data: bool) -> Vec<u8> {
    let data = RecordBatch {
        length: 3,
        nodes: Some(vec![polars_arrow_format::ipc::FieldNode { length: 3, null_count: 0 }]),
        buffers: Some(vec![Buffer { offset: 0, length: 16 }]),
        compression: None,
        variadic_buffer_counts: None,
    };
    let batch = DictionaryBatch {
        id,
        data: if with_data { Some(Box::new(data)) } else { None },
        is_delta,
    };
    let mut builder = Builder::new();
    builder.finish(&batch, None).to_vec()
}

#[test]
fn finds_the_field_in_a_struct() {
    let (fields, ipc) = schema();
    let (field, ipc_field) = first_dict_field(7, &fields, &ipc.fields).unwrap();
    assert_eq!(field.name, "left");
    assert_eq!(ipc_field, &leaf(Some(7)));
}

#[test]
fn finds_the_first_field_in_pre_order() {
    let (fields, ipc) = schema();
    let (field, _) = first_dict_field(8, &fields, &ipc.fields).unwrap();
    assert_eq!(field.name, "right");
}

#[test]
fn finds_the_field_below_a_list() {
    let (fields, ipc) = schema();
    let found = find_first_dict_field(8, &fields[2], &ipc.fields[2]);
    assert_eq!(found.unwrap().0.name, "item");
    let found = find_first_dict_field_d(8, &fields[2].dtype, &ipc.fields[2]);
    assert_eq!(found.unwrap().0.name, "item");
    assert!(find_first_dict_field(7, &fields[2], &ipc.fields[2]).is_none());
}

#[test]
fn the_field_itself_is_found_before_its_children() {
    let field = named("outer", DataType::Struct(vec![named("inner", dict_of(PrimitiveType::Utf8))]));
    let ipc = IpcField { fields: vec![leaf(Some(1))], dictionary_id: Some(1) };
    let found = find_first_dict_field(1, &field, &ipc).unwrap();
    assert_eq!(found.0.name, "outer");
    let found = find_first_dict_field_d(1, &field.dtype, &ipc).unwrap();
    assert_eq!(found.0.name, "inner");
}

#[test]
fn unknown_id_is_refused() {
    let (fields, ipc) = schema();
    assert!(matches!(
        first_dict_field(9, &fields, &ipc.fields),
        Err(OutOfSpecKind::InvalidId { requested_id: 9 })
    ));
    let bytes = dictionary_bytes(9, false, true);
    let batch = DictionaryBatchRef::read_as_root(&bytes[..]).unwrap();
    assert!(matches!(
        read_dictionary(batch, &fields, &ipc),
        Err(ReadError::OutOfSpec(OutOfSpecKind::InvalidId { requested_id: 9 }))
    ));
}

#[test]
fn delta_dictionary_is_refused() {
    let (fields, ipc) = schema();
    let bytes = dictionary_bytes(7, true, true);
    let batch = DictionaryBatchRef::read_as_root(&bytes[..]).unwrap();
    assert!(matches!(read_dictionary(batch, &fields, &ipc), Err(ReadError::DeltaDictionary)));
    let bytes = dictionary_bytes(9, true, false);
    let batch = DictionaryBatchRef::read_as_root(&bytes[..]).unwrap();
    assert!(matches!(read_dictionary(batch, &fields, &ipc), Err(ReadError::DeltaDictionary)));
}

#[test]
fn dictionary_without_data_is_refused() {
    let (fields, ipc) = schema();
    let bytes = dictionary_bytes(7, false, false);
    let batch = DictionaryBatchRef::read_as_root(&bytes[..]).unwrap();
    assert!(matches!(
        read_dictionary(batch, &fields, &ipc),
        Err(ReadError::OutOfSpec(OutOfSpecKind::MissingData))
    ));
}

#[test]
fn dictionary_of_a_plain_field_is_refused() {
    let (fields, ipc) = schema();
    let bytes = dictionary_bytes(11, false, true);
    let batch = DictionaryBatchRef::read_as_root(&bytes[..]).unwrap();
    assert!(matches!(
        read_dictionary(batch, &fields, &ipc),
        Err(ReadError::OutOfSpec(OutOfSpecKind::InvalidIdDataType { requested_id: 11 }))
    ));
}

#[test]
fn dictionary_is_decoded_whole_against_its_value_type() {
    let (fields, ipc) = schema();
    let bytes = dictionary_bytes(8, false, true);
    let batch = DictionaryBatchRef::read_as_root(&bytes[..]).unwrap();
    let request = read_dictionary(batch, &fields, &ipc).unwrap();
    assert_eq!(request.id, 8);
    assert_eq!(
        request.fields,
        vec![Field {
            name: String::new(),
            dtype: DataType::Primitive(PrimitiveType::Binary),
            is_nullable: false
        }]
    );
    assert_eq!(request.ipc_schema.fields, vec![leaf(Some(8))]);
    assert!(request.ipc_schema.is_little_endian);

    let (mut decoder, cursors) = request.decoder::<&str>(16).unwrap();
    assert_eq!(cursors.buffers.len(), 1);
    assert!(matches!(decoder.next_action(), Action::Read { field: 0, compression: None }));
    decoder.push_column("values");
    assert!(matches!(decoder.next_action(), Action::Done));
    let chunk = decoder.finish().unwrap();
    assert_eq!(chunk.len(), 3);

    let mut dictionaries: Dictionaries<&str> = Dictionaries::new();
    insert_dictionary(&mut dictionaries, request.id, chunk);
    assert_eq!(dictionaries.len(), 1);
    assert_eq!(dictionaries[&8], "values");
}

#[test]
fn dictionary_larger_than_source_is_refused() {
    let (fields, ipc) = schema();
    let bytes = dictionary_bytes(8, false, true);
    let batch = DictionaryBatchRef::read_as_root(&bytes[..]).unwrap();
    let request = read_dictionary(batch, &fields, &ipc).unwrap();
    assert!(matches!(
        request.decoder::<&str>(15),
        Err(OutOfSpecKind::InvalidBuffersLength { buffers_size: 16, file_size: 15 })
    ));
}

#[test]
fn resolving_twice_is_resolving_once() {
    let field = vec![named("", DataType::Primitive(PrimitiveType::Utf8))];
    let mut once: Dictionaries<Vec<i32>> = Dictionaries::new();
    insert_dictionary(&mut once, 4, RecordBatchT::new(3, field.clone(), vec![vec![1, 2, 3]]));
    let mut twice: Dictionaries<Vec<i32>> = Dictionaries::new();
    insert_dictionary(&mut twice, 4, RecordBatchT::new(3, field.clone(), vec![vec![1, 2, 3]]));
    insert_dictionary(&mut twice, 4, RecordBatchT::new(3, field.clone(), vec![vec![1, 2, 3]]));
    assert_eq!(once, twice);
}

#[test]
fn later_dictionary_replaces_the_earlier() {
    let field = vec![named("", DataType::Primitive(PrimitiveType::Utf8))];
    let mut cache: Dictionaries<Vec<i32>> = Dictionaries::new();
    insert_dictionary(&mut cache, 4, RecordBatchT::new(3, field.clone(), vec![vec![1, 2, 3]]));
    insert_dictionary(&mut cache, 5, RecordBatchT::new(1, field.clone(), vec![vec![9]]));
    insert_dictionary(&mut cache, 4, RecordBatchT::new(2, field.clone(), vec![vec![7, 8]]));
    assert_eq!(cache.len(), 2);
    assert_eq!(cache[&4], vec![7, 8]);
    assert_eq!(cache[&5], vec![9]);
}

#[test]
fn metadata_mirrors_the_types() {
    let (fields, ipc) = schema();
    assert!(fields_mirror(&fields, &ipc.fields));
    assert!(field_mirrors(&fields[2], &ipc.fields[2]));
    assert!(dtype_mirrors(&fields[1].dtype, &ipc.fields[1]));
}

#[test]
fn list_without_child_metadata_does_not_mirror() {
    let (fields, _) = schema();
    assert!(!field_mirrors(&fields[2], &leaf(None)));
    let nested = named("outer", DataType::Struct(vec![fields[2].clone()]));
    let ipc = IpcField { fields: vec![leaf(Some(3))], dictionary_id: None };
    assert!(!field_mirrors(&nested, &ipc));
    assert!(!fields_mirror(&vec![nested], &vec![ipc]));
    let in_dictionary = DataType::Dictionary(
        PrimitiveType::Int8,
        Box::new(DataType::LargeList(Box::new(named("item", DataType::Primitive(PrimitiveType::Null))))),
        false,
    );
    assert!(!dtype_mirrors(&in_dictionary, &leaf(Some(1))));
    assert!(dtype_mirrors(
        &in_dictionary,
        &IpcField { fields: vec![leaf(None)], dictionary_id: Some(1) }
    ));
}

#[test]
fn finds_the_values_of_a_dictionary_of_lists() {
    let inner = named("item", dict_of(PrimitiveType::Utf8));
    let outer = named(
        "outer",
        DataType::Dictionary(
            PrimitiveType::Int8,
            Box::new(DataType::FixedSizeList(Box::new(inner), 2)),
            false,
        ),
    );
    let ipc = IpcField { fields: vec![leaf(Some(2))], dictionary_id: Some(1) };
    assert_eq!(find_first_dict_field(1, &outer, &ipc).unwrap().0.name, "outer");
    assert_eq!(find_first_dict_field(2, &outer, &ipc).unwrap().0.name, "item");
    assert!(find_first_dict_field(3, &outer, &ipc).is_none());
}
