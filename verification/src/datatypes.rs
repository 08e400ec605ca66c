//! The logical types of columns, the fields of a schema, and the tree of
//! inter-process metadata that mirrors a field's type.

use vstd::prelude::*;

verus! {

/// A type without children. How its values are laid out is the business of
/// the per-type decoder.
#[derive(Debug, PartialEq, Eq, Hash, Clone, Copy)]
pub enum PrimitiveType {
    Null,
    Boolean,
    Int8,
    Int16,
    Int32,
    Int64,
    UInt8,
    UInt16,
    UInt32,
    UInt64,
    Binary,
    Utf8,
}

/// The type of a column: a tree whose inner nodes are the nested types.
#[derive(Debug, PartialEq, Eq, Hash)]
pub enum DataType {
    Primitive(PrimitiveType),
    /// A list of items of the field's type.
    List(Box<Field>),
    /// A list with 64-bit offsets.
    LargeList(Box<Field>),
    /// A list whose slots all have the given number of items.
    FixedSizeList(Box<Field>, usize),
    /// A map, held as a list of entries; the flag says whether keys are sorted.
    KeyValue(Box<Field>, bool),
    Struct(Vec<Field>),
    Union(Vec<Field>),
    /// Keys of the first type that index into a dictionary of values of the
    /// second; the flag says whether the dictionary is sorted.
    Dictionary(PrimitiveType, Box<DataType>, bool),
}

/// A named column of a schema.
#[derive(Debug, PartialEq, Eq, Hash)]
pub struct Field {
    pub name: String,
    pub dtype: DataType,
    pub is_nullable: bool,
}

/// A schema: its fields, in order.
pub type ArrowSchema = Vec<Field>;

/// The inter-process metadata of one node of a field's type tree.
#[derive(Debug, PartialEq, Eq, Hash)]
pub struct IpcField {
    /// The metadata of the node's children, in the order of the type's children.
    pub fields: Vec<IpcField>,
    /// The dictionary that the node's values index into, if any.
    pub dictionary_id: Option<i64>,
}

/// The inter-process metadata of a schema.
#[derive(Debug, PartialEq, Eq, Hash)]
pub struct IpcSchema {
    pub fields: Vec<IpcField>,
    pub is_little_endian: bool,
}

/// What a type is: the mathematical tree that contracts speak of.
pub enum DataTypeView {
    Primitive(PrimitiveType),
    List(Box<FieldView>),
    LargeList(Box<FieldView>),
    FixedSizeList(Box<FieldView>, usize),
    KeyValue(Box<FieldView>, bool),
    Struct(Seq<FieldView>),
    Union(Seq<FieldView>),
    Dictionary(PrimitiveType, Box<DataTypeView>, bool),
}

/// What a field is.
pub struct FieldView {
    pub name: Seq<char>,
    pub dtype: DataTypeView,
    pub is_nullable: bool,
}

/// What a node of metadata is.
pub struct IpcFieldView {
    pub fields: Seq<IpcFieldView>,
    pub dictionary_id: Option<i64>,
}

/// The view of a type.
pub open spec fn dtype_view(dtype: DataType) -> DataTypeView
    decreases dtype,
{
    match dtype {
        DataType::Primitive(p) => DataTypeView::Primitive(p),
        DataType::List(f) => DataTypeView::List(Box::new(field_view(*f))),
        DataType::LargeList(f) => DataTypeView::LargeList(Box::new(field_view(*f))),
        DataType::FixedSizeList(f, n) => DataTypeView::FixedSizeList(Box::new(field_view(*f)), n),
        DataType::KeyValue(f, sorted) => DataTypeView::KeyValue(Box::new(field_view(*f)), sorted),
        DataType::Struct(fields) => DataTypeView::Struct(fields_view(fields@)),
        DataType::Union(fields) => DataTypeView::Union(fields_view(fields@)),
        DataType::Dictionary(keys, values, sorted) => DataTypeView::Dictionary(
            keys,
            Box::new(dtype_view(*values)),
            sorted,
        ),
    }
}

/// The view of a field.
pub open spec fn field_view(field: Field) -> FieldView
    decreases field,
{
    FieldView { name: field.name@, dtype: dtype_view(field.dtype), is_nullable: field.is_nullable }
}

/// The views of a sequence of fields, in order.
pub open spec fn fields_view(fields: Seq<Field>) -> Seq<FieldView>
    decreases fields,
{
    Seq::new(
        fields.len(),
        |i: int|
            if 0 <= i < fields.len() {
                field_view(fields[i])
            } else {
                arbitrary()
            },
    )
}

/// The view of a node of metadata.
pub open spec fn ipc_field_view(ipc_field: IpcField) -> IpcFieldView
    decreases ipc_field,
{
    IpcFieldView {
        fields: ipc_fields_view(ipc_field.fields@),
        dictionary_id: ipc_field.dictionary_id,
    }
}

/// The views of a sequence of metadata nodes, in order.
pub open spec fn ipc_fields_view(ipc_fields: Seq<IpcField>) -> Seq<IpcFieldView>
    decreases ipc_fields,
{
    Seq::new(
        ipc_fields.len(),
        |i: int|
            if 0 <= i < ipc_fields.len() {
                ipc_field_view(ipc_fields[i])
            } else {
                arbitrary()
            },
    )
}

impl View for DataType {
    type V = DataTypeView;

    open spec fn view(&self) -> DataTypeView {
        dtype_view(*self)
    }
}

impl View for Field {
    type V = FieldView;

    open spec fn view(&self) -> FieldView {
        field_view(*self)
    }
}

impl View for IpcField {
    type V = IpcFieldView;

    open spec fn view(&self) -> IpcFieldView {
        ipc_field_view(*self)
    }
}

/// Copies a type.
pub fn clone_dtype(dtype: &DataType) -> (r: DataType)
    ensures
        r@ == dtype@,
    decreases *dtype, 0nat,
{
    match dtype {
        DataType::Primitive(p) => DataType::Primitive(*p),
        DataType::List(f) => DataType::List(Box::new(clone_field(f))),
        DataType::LargeList(f) => DataType::LargeList(Box::new(clone_field(f))),
        DataType::FixedSizeList(f, n) => DataType::FixedSizeList(Box::new(clone_field(f)), *n),
        DataType::KeyValue(f, sorted) => DataType::KeyValue(Box::new(clone_field(f)), *sorted),
        DataType::Struct(fields) => DataType::Struct(clone_fields(fields)),
        DataType::Union(fields) => DataType::Union(clone_fields(fields)),
        DataType::Dictionary(keys, values, sorted) => DataType::Dictionary(
            *keys,
            Box::new(clone_dtype(values)),
            *sorted,
        ),
    }
}

/// Copies a field.
pub fn clone_field(field: &Field) -> (r: Field)
    ensures
        r@ == field@,
    decreases *field, 0nat,
{
    Field {
        name: field.name.clone(),
        dtype: clone_dtype(&field.dtype),
        is_nullable: field.is_nullable,
    }
}

/// Copies a sequence of fields.
pub fn clone_fields(fields: &Vec<Field>) -> (r: Vec<Field>)
    ensures
        fields_view(r@) == fields_view(fields@),
    decreases *fields, 0nat,
{
    let mut out: Vec<Field> = Vec::new();
    let mut i: usize = 0;
    while i < fields.len()
        invariant
            i <= fields.len(),
            out@.len() == i,
            forall|k: int| 0 <= k < i ==> field_view(#[trigger] out@[k]) == field_view(fields@[k]),
        decreases fields.len() - i,
    {
        out.push(clone_field(&fields[i]));
        i = i + 1;
    }
    assert(fields_view(out@) =~= fields_view(fields@));
    out
}

/// Copies a node of metadata with everything below it.
pub fn clone_ipc_field(ipc_field: &IpcField) -> (r: IpcField)
    ensures
        r@ == ipc_field@,
    decreases *ipc_field,
{
    let mut out: Vec<IpcField> = Vec::new();
    let mut i: usize = 0;
    while i < ipc_field.fields.len()
        invariant
            i <= ipc_field.fields.len(),
            out@.len() == i,
            forall|k: int|
                0 <= k < i ==> ipc_field_view(#[trigger] out@[k]) == ipc_field_view(
                    ipc_field.fields@[k],
                ),
        decreases ipc_field.fields.len() - i,
    {
        out.push(clone_ipc_field(&ipc_field.fields[i]));
        i = i + 1;
    }
    assert(ipc_fields_view(out@) =~= ipc_fields_view(ipc_field.fields@));
    IpcField { fields: out, dictionary_id: ipc_field.dictionary_id }
}

impl Clone for DataType {
    fn clone(&self) -> (r: Self)
        ensures
            r@ == self@,
    {
        clone_dtype(self)
    }
}

impl Clone for Field {
    fn clone(&self) -> (r: Self)
        ensures
            r@ == self@,
    {
        clone_field(self)
    }
}

impl Clone for IpcField {
    fn clone(&self) -> (r: Self)
        ensures
            r@ == self@,
    {
        clone_ipc_field(self)
    }
}

} // verus!
