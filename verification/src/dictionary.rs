//! Resolution of dictionaries: the search for the field that a dictionary
//! batch belongs to, the one-column schema that its values are decoded
//! against, and the cache of decoded dictionaries.

use crate::datatypes::clone_dtype;
use crate::datatypes::clone_ipc_field;
use crate::datatypes::fields_view;
use crate::datatypes::ArrowSchema;
use crate::datatypes::ipc_fields_view;
use crate::datatypes::DataType;
use crate::datatypes::DataTypeView;
use crate::datatypes::Field;
use crate::datatypes::FieldView;
use crate::datatypes::IpcField;
use crate::datatypes::IpcFieldView;
use crate::datatypes::IpcSchema;
use crate::error::OutOfSpecKind;
use crate::error::ReadError;
use crate::metadata::dictionary_metadata;
use crate::metadata::dictionary_record_metadata;
use crate::metadata::record_metadata;
use crate::record_batch::start_error;
use crate::metadata::DictionaryMetadata;
use crate::record_batch::RecordBatchT;
use crate::record_batch::read_record_batch;
use crate::record_batch::BatchDecoder;
use crate::record_batch::Cursors;
use polars_arrow_format::ipc::planus::Error as FlatbufferError;
use polars_arrow_format::ipc::DictionaryBatchRef;
use polars_arrow_format::ipc::RecordBatchRef;
use std::collections::HashMap;
use vstd::prelude::*;

verus! {

/// The first field at or below `field`, in depth-first pre-order, whose
/// metadata declares the dictionary `id`, with that metadata.
pub open spec fn find_in_field(id: i64, field: FieldView, ipc_field: IpcFieldView) -> Option<
    (FieldView, IpcFieldView),
>
    decreases field, 0nat,
{
    if ipc_field.dictionary_id == Some(id) {
        Some((field, ipc_field))
    } else {
        find_in_dtype(id, field.dtype, ipc_field)
    }
}

/// The first field below a node of type `dtype` whose metadata declares the
/// dictionary `id`: in the item of a list or map, in the children of a struct
/// or union in their order, in the values of a dictionary.
pub open spec fn find_in_dtype(id: i64, dtype: DataTypeView, ipc_field: IpcFieldView) -> Option<
    (FieldView, IpcFieldView),
>
    decreases dtype, 0nat,
{
    match dtype {
        DataTypeView::Dictionary(_, values, _) => find_in_dtype(id, *values, ipc_field),
        DataTypeView::List(item) => find_in_item(id, *item, ipc_field),
        DataTypeView::LargeList(item) => find_in_item(id, *item, ipc_field),
        DataTypeView::FixedSizeList(item, _) => find_in_item(id, *item, ipc_field),
        DataTypeView::KeyValue(item, _) => find_in_item(id, *item, ipc_field),
        DataTypeView::Struct(fields) => find_in_fields(id, fields, ipc_field.fields, 0),
        DataTypeView::Union(fields) => find_in_fields(id, fields, ipc_field.fields, 0),
        DataTypeView::Primitive(_) => None,
    }
}

/// The search in the one child of a list or map.
pub open spec fn find_in_item(id: i64, item: FieldView, ipc_field: IpcFieldView) -> Option<
    (FieldView, IpcFieldView),
>
    decreases item, 1nat,
{
    if ipc_field.fields.len() > 0 {
        find_in_field(id, item, ipc_field.fields[0])
    } else {
        None
    }
}

/// The search in the fields from position `from` on, each with the metadata
/// at its position, as far as both sequences go.
pub open spec fn find_in_fields(
    id: i64,
    fields: Seq<FieldView>,
    ipc_fields: Seq<IpcFieldView>,
    from: nat,
) -> Option<(FieldView, IpcFieldView)>
    decreases fields, fields.len() - from,
{
    if from >= fields.len() || from >= ipc_fields.len() {
        None
    } else {
        match find_in_field(id, fields[from as int], ipc_fields[from as int]) {
            Some(found) => Some(found),
            None => find_in_fields(id, fields, ipc_fields, from + 1),
        }
    }
}

/// The metadata has a child wherever the search descends into a list or map.
pub open spec fn mirrors_field(field: FieldView, ipc_field: IpcFieldView) -> bool
    decreases field, 0nat,
{
    mirrors_dtype(field.dtype, ipc_field)
}

/// The metadata below a node has the shape of the node's type.
pub open spec fn mirrors_dtype(dtype: DataTypeView, ipc_field: IpcFieldView) -> bool
    decreases dtype, 0nat,
{
    match dtype {
        DataTypeView::Dictionary(_, values, _) => mirrors_dtype(*values, ipc_field),
        DataTypeView::List(item) => mirrors_item(*item, ipc_field),
        DataTypeView::LargeList(item) => mirrors_item(*item, ipc_field),
        DataTypeView::FixedSizeList(item, _) => mirrors_item(*item, ipc_field),
        DataTypeView::KeyValue(item, _) => mirrors_item(*item, ipc_field),
        DataTypeView::Struct(fields) => mirrors_fields(fields, ipc_field.fields),
        DataTypeView::Union(fields) => mirrors_fields(fields, ipc_field.fields),
        DataTypeView::Primitive(_) => true,
    }
}

/// The metadata of a list or map has a child of the shape of the item.
pub open spec fn mirrors_item(item: FieldView, ipc_field: IpcFieldView) -> bool
    decreases item, 1nat,
{
    ipc_field.fields.len() > 0 && mirrors_field(item, ipc_field.fields[0])
}

/// Each field has the shape of the metadata at its position, as far as both
/// sequences go.
pub open spec fn mirrors_fields(fields: Seq<FieldView>, ipc_fields: Seq<IpcFieldView>) -> bool
    decreases fields, 0nat,
{
    forall|i: int|
        0 <= i < fields.len() && i < ipc_fields.len() ==> mirrors_field(
            #[trigger] fields[i],
            ipc_fields[i],
        )
}

/// Tells whether the metadata has a child wherever a search below the field
/// descends into a list or map.
pub fn field_mirrors(field: &Field, ipc_field: &IpcField) -> (r: bool)
    ensures
        r == mirrors_field(field@, ipc_field@),
    decreases *field, 0nat,
{
    dtype_mirrors(&field.dtype, ipc_field)
}

/// Tells whether the metadata below a node has the shape of the node's type.
pub fn dtype_mirrors(dtype: &DataType, ipc_field: &IpcField) -> (r: bool)
    ensures
        r == mirrors_dtype(dtype@, ipc_field@),
    decreases *dtype, 0nat,
{
    match dtype {
        DataType::Dictionary(_, values, _) => {
            assert(mirrors_dtype(dtype@, ipc_field@) == mirrors_dtype(values@, ipc_field@));
            dtype_mirrors(values, ipc_field)
        },
        DataType::List(item) => {
            assert(mirrors_dtype(dtype@, ipc_field@) == mirrors_item(item@, ipc_field@));
            item_mirrors(item, ipc_field)
        },
        DataType::LargeList(item) => {
            assert(mirrors_dtype(dtype@, ipc_field@) == mirrors_item(item@, ipc_field@));
            item_mirrors(item, ipc_field)
        },
        DataType::FixedSizeList(item, _) => {
            assert(mirrors_dtype(dtype@, ipc_field@) == mirrors_item(item@, ipc_field@));
            item_mirrors(item, ipc_field)
        },
        DataType::KeyValue(item, _) => {
            assert(mirrors_dtype(dtype@, ipc_field@) == mirrors_item(item@, ipc_field@));
            item_mirrors(item, ipc_field)
        },
        DataType::Struct(fields) => fields_mirror(fields, &ipc_field.fields),
        DataType::Union(fields) => fields_mirror(fields, &ipc_field.fields),
        DataType::Primitive(_) => true,
    }
}

/// Tells whether the metadata of a list or map has a child of the shape of
/// the item.
pub fn item_mirrors(item: &Field, ipc_field: &IpcField) -> (r: bool)
    ensures
        r == mirrors_item(item@, ipc_field@),
    decreases *item, 1nat,
{
    if ipc_field.fields.len() > 0 {
        assert(ipc_field@.fields[0] == ipc_field.fields@[0]@);
        field_mirrors(item, &ipc_field.fields[0])
    } else {
        assert(ipc_field@.fields.len() == 0);
        false
    }
}

/// Tells whether each field has the shape of the metadata at its position,
/// as far as both sequences go.
pub fn fields_mirror(fields: &Vec<Field>, ipc_fields: &Vec<IpcField>) -> (r: bool)
    ensures
        r == mirrors_fields(fields_view(fields@), ipc_fields_view(ipc_fields@)),
    decreases *fields, 1nat,
{
    let ghost fs = fields_view(fields@);
    let ghost is = ipc_fields_view(ipc_fields@);
    let mut i: usize = 0;
    while i < fields.len() && i < ipc_fields.len()
        invariant
            fs == fields_view(fields@),
            is == ipc_fields_view(ipc_fields@),
            forall|j: int| 0 <= j < i ==> mirrors_field(#[trigger] fs[j], is[j]),
        decreases fields.len() - i,
    {
        if !field_mirrors(&fields[i], &ipc_fields[i]) {
            assert(!mirrors_field(fs[i as int], is[i as int]));
            return false;
        }
        i = i + 1;
    }
    true
}

/// The references point at what the search of the views finds.
pub open spec fn found_is(
    r: Option<(&Field, &IpcField)>,
    found: Option<(FieldView, IpcFieldView)>,
) -> bool {
    match r {
        Some((field, ipc_field)) => found == Some((field@, ipc_field@)),
        None => found is None,
    }
}

/// Searches below a node of type `dtype` for the first field that uses the
/// dictionary `id`.
pub fn find_first_dict_field_d<'a>(id: i64, dtype: &'a DataType, ipc_field: &'a IpcField) -> (r:
    Option<(&'a Field, &'a IpcField)>)
    requires
        mirrors_dtype(dtype@, ipc_field@),
    ensures
        found_is(r, find_in_dtype(id, dtype@, ipc_field@)),
    decreases *dtype, 0nat,
{
    match dtype {
        DataType::Dictionary(_, values, _) => {
            proof {
                assert(mirrors_dtype(values@, ipc_field@));
            }
            find_first_dict_field_d(id, values, ipc_field)
        },
        DataType::List(item) => {
            proof {
                assert(mirrors_item(item@, ipc_field@));
                assert(ipc_field@.fields[0] == ipc_field.fields@[0]@);
            }
            let r = find_first_dict_field(id, item, &ipc_field.fields[0]);
            proof {
                assert(find_in_item(id, item@, ipc_field@) == find_in_field(
                    id,
                    item@,
                    ipc_field@.fields[0],
                ));
                assert(find_in_dtype(id, dtype@, ipc_field@) == find_in_item(
                    id,
                    item@,
                    ipc_field@,
                ));
            }
            r
        },
        DataType::LargeList(item) => {
            proof {
                assert(mirrors_item(item@, ipc_field@));
                assert(ipc_field@.fields[0] == ipc_field.fields@[0]@);
            }
            let r = find_first_dict_field(id, item, &ipc_field.fields[0]);
            proof {
                assert(find_in_item(id, item@, ipc_field@) == find_in_field(
                    id,
                    item@,
                    ipc_field@.fields[0],
                ));
                assert(find_in_dtype(id, dtype@, ipc_field@) == find_in_item(
                    id,
                    item@,
                    ipc_field@,
                ));
            }
            r
        },
        DataType::FixedSizeList(item, _) => {
            proof {
                assert(mirrors_item(item@, ipc_field@));
                assert(ipc_field@.fields[0] == ipc_field.fields@[0]@);
            }
            let r = find_first_dict_field(id, item, &ipc_field.fields[0]);
            proof {
                assert(find_in_item(id, item@, ipc_field@) == find_in_field(
                    id,
                    item@,
                    ipc_field@.fields[0],
                ));
                assert(find_in_dtype(id, dtype@, ipc_field@) == find_in_item(
                    id,
                    item@,
                    ipc_field@,
                ));
            }
            r
        },
        DataType::KeyValue(item, _) => {
            proof {
                assert(mirrors_item(item@, ipc_field@));
                assert(ipc_field@.fields[0] == ipc_field.fields@[0]@);
            }
            let r = find_first_dict_field(id, item, &ipc_field.fields[0]);
            proof {
                assert(find_in_item(id, item@, ipc_field@) == find_in_field(
                    id,
                    item@,
                    ipc_field@.fields[0],
                ));
                assert(find_in_dtype(id, dtype@, ipc_field@) == find_in_item(
                    id,
                    item@,
                    ipc_field@,
                ));
            }
            r
        },
        DataType::Struct(fields) => {
            find_first_in_fields(id, fields, &ipc_field.fields)
        },
        DataType::Union(fields) => {
            find_first_in_fields(id, fields, &ipc_field.fields)
        },
        DataType::Primitive(_) => None,
    }
}

/// Searches the fields in order, each with the metadata at its position.
pub fn find_first_in_fields<'a>(
    id: i64,
    fields: &'a Vec<Field>,
    ipc_fields: &'a Vec<IpcField>,
) -> (r: Option<(&'a Field, &'a IpcField)>)
    requires
        mirrors_fields(fields_view(fields@), ipc_fields_view(ipc_fields@)),
    ensures
        found_is(r, find_in_fields(id, fields_view(fields@), ipc_fields_view(ipc_fields@), 0)),
    decreases *fields, 1nat,
{
    let ghost fs = fields_view(fields@);
    let ghost is = ipc_fields_view(ipc_fields@);
    let mut i: usize = 0;
    while i < fields.len() && i < ipc_fields.len()
        invariant
            fs == fields_view(fields@),
            is == ipc_fields_view(ipc_fields@),
            mirrors_fields(fs, is),
            find_in_fields(id, fs, is, 0) == find_in_fields(id, fs, is, i as nat),
        decreases fields.len() - i,
    {
        assert(mirrors_field(fs[i as int], is[i as int]));
        let found = find_first_dict_field(id, &fields[i], &ipc_fields[i]);
        if found.is_some() {
            return found;
        }
        i = i + 1;
    }
    None
}

/// Searches at and below a field for the first field that uses the
/// dictionary `id`.
pub fn find_first_dict_field<'a>(id: i64, field: &'a Field, ipc_field: &'a IpcField) -> (r: Option<
    (&'a Field, &'a IpcField),
>)
    requires
        mirrors_field(field@, ipc_field@),
    ensures
        found_is(r, find_in_field(id, field@, ipc_field@)),
    decreases *field, 0nat,
{
    if let Some(field_id) = ipc_field.dictionary_id {
        if id == field_id {
            return Some((field, ipc_field));
        }
    }
    find_first_dict_field_d(id, &field.dtype, ipc_field)
}

/// The first field of the schema, in depth-first pre-order, that uses the
/// dictionary `id`, with its metadata.
pub fn first_dict_field<'a>(
    id: i64,
    fields: &'a ArrowSchema,
    ipc_fields: &'a Vec<IpcField>,
) -> (r:
    Result<(&'a Field, &'a IpcField), OutOfSpecKind>)
    requires
        fields@.len() == ipc_fields@.len(),
        mirrors_fields(fields_view(fields@), ipc_fields_view(ipc_fields@)),
    ensures
        match r {
            Ok(found) => found_is(
                Some(found),
                find_in_fields(id, fields_view(fields@), ipc_fields_view(ipc_fields@), 0),
            ),
            Err(e) => find_in_fields(id, fields_view(fields@), ipc_fields_view(ipc_fields@), 0)
                is None && e == (OutOfSpecKind::InvalidId { requested_id: id }),
        },
{
    match find_first_in_fields(id, fields, ipc_fields) {
        Some(found) => Ok(found),
        None => Err(OutOfSpecKind::InvalidId { requested_id: id }),
    }
}

/// The cache of decoded dictionaries of one open source, by dictionary id.
pub type Dictionaries<A> = HashMap<i64, A>;

/// What is to be decoded for a dictionary batch: its values, as a batch of
/// one column, against a schema of one unnamed field of the value type.
pub struct DictionaryRequest<'a> {
    /// The id under which the decoded values go into the cache.
    pub id: i64,
    /// The schema of one field.
    pub fields: Vec<Field>,
    /// The metadata of that schema.
    pub ipc_schema: IpcSchema,
    /// The record batch that holds the values. It is decoded whole: without
    /// projection and without a limit on its rows.
    pub data: RecordBatchRef<'a>,
}

impl<'a> DictionaryRequest<'a> {
    /// Sets out to decode the values of the dictionary: every column of the
    /// request's batch and every row, whatever limit holds of the batches
    /// around it.
    pub fn decoder<'b, A>(&'b self, file_size: u64) -> (r: Result<
        (BatchDecoder<'b, A>, Cursors),
        OutOfSpecKind,
    >)
        requires
            self.fields@.len() == self.ipc_schema.fields@.len(),
        ensures
            match r {
                Ok((d, cursors)) => start_error(record_metadata(self.data), file_size) is None
                    && d.starts(
                    cursors,
                    record_metadata(self.data),
                    self.fields@,
                    None,
                    None,
                ),
                Err(e) => start_error(record_metadata(self.data), file_size) == Some(e),
            },
    {
        read_record_batch(self.data, &self.fields, &self.ipc_schema, None, None, file_size)
    }
}

/// What a dictionary batch with this metadata resolves to under a schema:
/// its id, the type of its values, the metadata of the field that uses it
/// and the batch of its values; or why it is refused.
pub open spec fn resolution<'a>(
    meta: DictionaryMetadata<'a>,
    fields: Seq<FieldView>,
    ipc_fields: Seq<IpcFieldView>,
) -> Result<(i64, DataTypeView, IpcFieldView, RecordBatchRef<'a>), ReadError> {
    match meta.is_delta {
        Err(e) => Err(ReadError::OutOfSpec(OutOfSpecKind::InvalidFlatbufferIsDelta(e))),
        Ok(true) => Err(ReadError::DeltaDictionary),
        Ok(false) => match meta.id {
            Err(e) => Err(ReadError::OutOfSpec(OutOfSpecKind::InvalidFlatbufferId(e))),
            Ok(id) => match find_in_fields(id, fields, ipc_fields, 0) {
                None => Err(ReadError::OutOfSpec(OutOfSpecKind::InvalidId { requested_id: id })),
                Some((field, ipc_field)) => match meta.data {
                    Err(e) => Err(ReadError::OutOfSpec(OutOfSpecKind::InvalidFlatbufferData(e))),
                    Ok(None) => Err(ReadError::OutOfSpec(OutOfSpecKind::MissingData)),
                    Ok(Some(data)) => match field.dtype {
                        DataTypeView::Dictionary(_, values, _) => Ok(
                            (id, *values, ipc_field, data),
                        ),
                        _ => Err(
                            ReadError::OutOfSpec(
                                OutOfSpecKind::InvalidIdDataType { requested_id: id },
                            ),
                        ),
                    },
                },
            },
        },
    }
}

/// The schema of one unnamed, non-nullable field of the given type.
pub open spec fn value_schema(values: DataTypeView) -> Seq<FieldView> {
    seq![FieldView { name: Seq::empty(), dtype: values, is_nullable: false }]
}

/// The request asks for what the resolution found.
pub open spec fn request_is<'a>(
    request: DictionaryRequest<'a>,
    found: (i64, DataTypeView, IpcFieldView, RecordBatchRef<'a>),
    is_little_endian: bool,
) -> bool {
    &&& request.id == found.0
    &&& fields_view(request.fields@) == value_schema(found.1)
    &&& ipc_fields_view(request.ipc_schema.fields@) == seq![found.2]
    &&& request.ipc_schema.is_little_endian == is_little_endian
    &&& request.data == found.3
    &&& mirrors_fields(value_schema(found.1), seq![found.2])
}

/// Where the search finds a field under metadata of its shape, the metadata
/// that it finds has the shape of the field found.
pub proof fn lemma_found_mirrors(
    id: i64,
    fields: Seq<FieldView>,
    ipc_fields: Seq<IpcFieldView>,
    from: nat,
)
    requires
        mirrors_fields(fields, ipc_fields),
    ensures
        find_in_fields(id, fields, ipc_fields, from) matches Some((field, ipc_field))
            ==> mirrors_field(field, ipc_field),
    decreases fields, fields.len() - from,
{
    if from < fields.len() && from < ipc_fields.len() {
        lemma_found_mirrors_field(id, fields[from as int], ipc_fields[from as int]);
        lemma_found_mirrors(id, fields, ipc_fields, from + 1);
    }
}

/// The same, of the search at and below one field.
pub proof fn lemma_found_mirrors_field(id: i64, field: FieldView, ipc_field: IpcFieldView)
    requires
        mirrors_field(field, ipc_field),
    ensures
        find_in_field(id, field, ipc_field) matches Some((f, i)) ==> mirrors_field(f, i),
    decreases field, 0nat,
{
    if ipc_field.dictionary_id != Some(id) {
        lemma_found_mirrors_dtype(id, field.dtype, ipc_field);
    }
}

/// The same, of the search below a node of a type.
pub proof fn lemma_found_mirrors_dtype(id: i64, dtype: DataTypeView, ipc_field: IpcFieldView)
    requires
        mirrors_dtype(dtype, ipc_field),
    ensures
        find_in_dtype(id, dtype, ipc_field) matches Some((f, i)) ==> mirrors_field(f, i),
    decreases dtype, 0nat,
{
    match dtype {
        DataTypeView::Dictionary(_, values, _) => lemma_found_mirrors_dtype(
            id,
            *values,
            ipc_field,
        ),
        DataTypeView::List(item) => lemma_found_mirrors_item(id, *item, ipc_field),
        DataTypeView::LargeList(item) => lemma_found_mirrors_item(id, *item, ipc_field),
        DataTypeView::FixedSizeList(item, _) => lemma_found_mirrors_item(id, *item, ipc_field),
        DataTypeView::KeyValue(item, _) => lemma_found_mirrors_item(id, *item, ipc_field),
        DataTypeView::Struct(fields) => lemma_found_mirrors(id, fields, ipc_field.fields, 0),
        DataTypeView::Union(fields) => lemma_found_mirrors(id, fields, ipc_field.fields, 0),
        DataTypeView::Primitive(_) => {},
    }
}

/// The same, of the search in the one child of a list or map.
pub proof fn lemma_found_mirrors_item(id: i64, item: FieldView, ipc_field: IpcFieldView)
    requires
        mirrors_item(item, ipc_field),
    ensures
        find_in_item(id, item, ipc_field) matches Some((f, i)) ==> mirrors_field(f, i),
    decreases item, 1nat,
{
    lemma_found_mirrors_field(id, item, ipc_field.fields[0]);
}

/// A dictionary batch that is flagged as extending a dictionary is refused,
/// whatever else it holds and whatever the schema.
pub proof fn lemma_delta_rejected<'a>(
    meta: DictionaryMetadata<'a>,
    fields: Seq<FieldView>,
    ipc_fields: Seq<IpcFieldView>,
)
    requires
        meta.is_delta == Ok::<bool, FlatbufferError>(true),
    ensures
        resolution(meta, fields, ipc_fields) == Err::<
            (i64, DataTypeView, IpcFieldView, RecordBatchRef<'a>),
            ReadError,
        >(ReadError::DeltaDictionary),
{
}

/// Decides what a dictionary batch asks for. A batch that extends a
/// dictionary is refused whatever else it holds; so is one whose id no field
/// of the schema uses, one without data, and one whose field is not of a
/// dictionary type.
pub fn resolve_dictionary<'a>(
    meta: DictionaryMetadata<'a>,
    fields: &ArrowSchema,
    ipc_schema: &IpcSchema,
) -> (r: Result<DictionaryRequest<'a>, ReadError>)
    requires
        fields@.len() == ipc_schema.fields@.len(),
        mirrors_fields(fields_view(fields@), ipc_fields_view(ipc_schema.fields@)),
    ensures
        match resolution(meta, fields_view(fields@), ipc_fields_view(ipc_schema.fields@)) {
            Ok(found) => r matches Ok(request) && request_is(
                request,
                found,
                ipc_schema.is_little_endian,
            ),
            Err(e) => r matches Err(got) && got == e,
        },
{
    let DictionaryMetadata { is_delta, id, data } = meta;
    match is_delta {
        Err(e) => {
            return Err(ReadError::OutOfSpec(OutOfSpecKind::InvalidFlatbufferIsDelta(e)));
        },
        Ok(true) => {
            return Err(ReadError::DeltaDictionary);
        },
        Ok(false) => {},
    }
    let id = match id {
        Err(e) => {
            return Err(ReadError::OutOfSpec(OutOfSpecKind::InvalidFlatbufferId(e)));
        },
        Ok(id) => id,
    };
    let (first_field, first_ipc_field) = match first_dict_field(id, fields, &ipc_schema.fields) {
        Err(e) => {
            return Err(ReadError::OutOfSpec(e));
        },
        Ok(found) => found,
    };
    let data = match data {
        Err(e) => {
            return Err(ReadError::OutOfSpec(OutOfSpecKind::InvalidFlatbufferData(e)));
        },
        Ok(None) => {
            return Err(ReadError::OutOfSpec(OutOfSpecKind::MissingData));
        },
        Ok(Some(data)) => data,
    };
    let value_type = match &first_field.dtype {
        DataType::Dictionary(_, values, _) => clone_dtype(values),
        _ => {
            return Err(
                ReadError::OutOfSpec(OutOfSpecKind::InvalidIdDataType { requested_id: id }),
            );
        },
    };
    let mut one_field: Vec<Field> = Vec::new();
    one_field.push(Field { name: String::new(), dtype: value_type, is_nullable: false });
    let mut one_ipc_field: Vec<IpcField> = Vec::new();
    one_ipc_field.push(clone_ipc_field(first_ipc_field));
    proof {
        let found = resolution(
            meta,
            fields_view(fields@),
            ipc_fields_view(ipc_schema.fields@),
        )->Ok_0;
        assert(fields_view(one_field@) =~= value_schema(found.1));
        assert(ipc_fields_view(one_ipc_field@) =~= seq![found.2]);
        lemma_found_mirrors(id, fields_view(fields@), ipc_fields_view(ipc_schema.fields@), 0);
        assert(mirrors_field(first_field@, first_ipc_field@));
    }
    Ok(
        DictionaryRequest {
            id,
            fields: one_field,
            ipc_schema: IpcSchema {
                fields: one_ipc_field,
                is_little_endian: ipc_schema.is_little_endian,
            },
            data,
        },
    )
}

/// Reads the record of a dictionary batch and decides what it asks for, as
/// [`resolve_dictionary`] does of what the record holds: the batch is refused
/// exactly where that is refused, with that error, and the request is for
/// what that resolves to.
pub fn read_dictionary<'a>(
    batch: DictionaryBatchRef<'a>,
    fields: &ArrowSchema,
    ipc_schema: &IpcSchema,
) -> (r: Result<DictionaryRequest<'a>, ReadError>)
    requires
        fields@.len() == ipc_schema.fields@.len(),
        mirrors_fields(fields_view(fields@), ipc_fields_view(ipc_schema.fields@)),
    ensures
        match resolution(
            dictionary_record_metadata(batch),
            fields_view(fields@),
            ipc_fields_view(ipc_schema.fields@),
        ) {
            Ok(found) => r matches Ok(request) && request_is(
                request,
                found,
                ipc_schema.is_little_endian,
            ),
            Err(e) => r matches Err(got) && got == e,
        },
{
    resolve_dictionary(dictionary_metadata(&batch), fields, ipc_schema)
}

/// Puts the decoded values of a dictionary into the cache under its id, in
/// place of any values that were there: the last array of the batch, which
/// is its only one where the batch was decoded for a [`DictionaryRequest`].
pub fn insert_dictionary<A>(dictionaries: &mut HashMap<i64, A>, id: i64, chunk: RecordBatchT<A>)
    requires
        chunk.spec_arrays().len() > 0,
    ensures
        final(dictionaries)@ == old(dictionaries)@.insert(id, chunk.spec_arrays().last()),
{
    broadcast use vstd::std_specs::hash::group_hash_axioms;

    let (_, mut arrays) = chunk.into_schema_and_arrays();
    let values = arrays.pop().unwrap();
    dictionaries.insert(id, values);
}

/// Resolving a dictionary a second time with the same values leaves the
/// cache as the first time left it.
pub proof fn lemma_insert_idempotent<A>(cache: Map<i64, A>, id: i64, values: A)
    ensures
        cache.insert(id, values).insert(id, values) == cache.insert(id, values),
{
    assert(cache.insert(id, values).insert(id, values) =~= cache.insert(id, values));
}

} // verus!
