//! Decoding of one record batch: the checks on its metadata, the decision
//! which columns are decoded and which are passed over, and the assembly of
//! the decoded columns into a batch.
//!
//! Decoding a column reads the body of the message, which is the caller's
//! business. [`read_record_batch`] therefore hands back a [`BatchDecoder`]:
//! the caller asks it for the next [`Action`], performs it on the batch's
//! [`Cursors`], reports the outcome, and at the end takes the batch.

use crate::datatypes::clone_field;
use crate::datatypes::field_view;
use crate::datatypes::fields_view;
use crate::datatypes::ArrowSchema;
use crate::datatypes::Field;
use crate::datatypes::FieldView;
use crate::datatypes::IpcSchema;
use crate::error::OutOfSpecKind;
use crate::metadata::batch_metadata;
use crate::metadata::record_metadata;
use crate::metadata::BatchMetadata;
use crate::metadata::BufferSpan;
use crate::metadata::FieldNode;
use crate::projection::lemma_wanted_before;
use crate::projection::strictly_increasing;
use crate::projection::wanted_before;
use crate::projection::wants;
use crate::projection::ProjectionIter;
use crate::projection::ProjectionResult;
use polars_arrow_format::ipc::planus::Error as FlatbufferError;
use polars_arrow_format::ipc::BodyCompressionRef;
use polars_arrow_format::ipc::RecordBatchRef;
use std::collections::VecDeque;
use vstd::prelude::*;

verus! {

/// A batch of decoded columns: as many arrays as the schema has fields.
#[derive(Debug)]
pub struct RecordBatchT<A> {
    length: usize,
    schema: Vec<Field>,
    arrays: Vec<A>,
}

impl<A> RecordBatchT<A> {
    /// The number of rows.
    pub closed spec fn spec_len(&self) -> usize {
        self.length
    }

    /// The fields of the columns, in order.
    pub closed spec fn spec_schema(&self) -> Seq<Field> {
        self.schema@
    }

    /// The columns, in order.
    pub closed spec fn spec_arrays(&self) -> Seq<A> {
        self.arrays@
    }

    /// There is one array for each field.
    pub closed spec fn wf(&self) -> bool {
        self.schema@.len() == self.arrays@.len()
    }

    /// A batch of the given columns.
    pub fn new(length: usize, schema: Vec<Field>, arrays: Vec<A>) -> (r: Self)
        requires
            schema@.len() == arrays@.len(),
        ensures
            r.wf(),
            r.spec_len() == length,
            r.spec_schema() == schema@,
            r.spec_arrays() == arrays@,
    {
        RecordBatchT { length, schema, arrays }
    }

    /// The number of rows.
    pub fn len(&self) -> (r: usize)
        ensures
            r == self.spec_len(),
    {
        self.length
    }

    /// The fields of the columns.
    pub fn schema(&self) -> (r: &Vec<Field>)
        ensures
            r@ == self.spec_schema(),
    {
        &self.schema
    }

    /// The columns.
    pub fn arrays(&self) -> (r: &Vec<A>)
        ensures
            r@ == self.spec_arrays(),
    {
        &self.arrays
    }

    /// Takes the batch apart.
    pub fn into_schema_and_arrays(self) -> (r: (Vec<Field>, Vec<A>))
        ensures
            r.0@ == self.spec_schema(),
            r.1@ == self.spec_arrays(),
            self.wf() ==> r.0@.len() == r.1@.len(),
    {
        (self.schema, self.arrays)
    }
}

/// The sum of the lengths that the buffers declare.
pub open spec fn total_length(buffers: Seq<BufferSpan>) -> int
    decreases buffers.len(),
{
    if buffers.len() == 0 {
        0
    } else {
        total_length(buffers.drop_last()) + buffers.last().length
    }
}

/// No buffer declares a negative length.
pub open spec fn lengths_valid(buffers: Seq<BufferSpan>) -> bool {
    forall|i: int| 0 <= i < buffers.len() ==> (#[trigger] buffers[i]).length >= 0
}

/// The size of the buffers as an error reports it: the sum, or the largest
/// number where the sum is beyond it.
pub open spec fn reported_size(buffers: Seq<BufferSpan>) -> u64 {
    if total_length(buffers) > u64::MAX {
        u64::MAX
    } else {
        total_length(buffers) as u64
    }
}

/// Sums the lengths of all buffers of a batch and holds the sum against the
/// size of the source. All buffers count, also those of columns that will be
/// passed over.
pub fn check_buffers_size(buffers: &Vec<BufferSpan>, file_size: u64) -> (r: Result<
    u64,
    OutOfSpecKind,
>)
    ensures
        !lengths_valid(buffers@) ==> r is Err && r->Err_0 is NegativeFooterLength,
        lengths_valid(buffers@) && total_length(buffers@) > file_size ==> r == Err::<
            u64,
            OutOfSpecKind,
        >(
            OutOfSpecKind::InvalidBuffersLength {
                buffers_size: reported_size(buffers@),
                file_size,
            },
        ),
        lengths_valid(buffers@) && total_length(buffers@) <= file_size ==> r is Ok && r->Ok_0
            == total_length(buffers@),
{
    let mut sum: u64 = 0;
    let mut saturated = false;
    let mut i: usize = 0;
    while i < buffers.len()
        invariant
            i <= buffers.len(),
            lengths_valid(buffers@.subrange(0, i as int)),
            saturated <==> total_length(buffers@.subrange(0, i as int)) > u64::MAX,
            sum == reported_size(buffers@.subrange(0, i as int)),
        decreases buffers.len() - i,
    {
        let length: i64 = buffers[i].length;
        proof {
            let next = buffers@.subrange(0, i + 1);
            assert(next.drop_last() =~= buffers@.subrange(0, i as int));
            assert(next.last() == buffers@[i as int]);
            lemma_total_non_negative(buffers@.subrange(0, i as int));
        }
        if length < 0 {
            assert(!lengths_valid(buffers@));
            return Err(OutOfSpecKind::NegativeFooterLength);
        }
        let size: u64 = length as u64;
        if saturated || size > u64::MAX - sum {
            saturated = true;
            sum = u64::MAX;
        } else {
            sum = sum + size;
        }
        i = i + 1;
        assert forall|k: int| 0 <= k < i implies (#[trigger] buffers@.subrange(
            0,
            i as int,
        )[k]).length >= 0 by {
            if k < i - 1 {
                assert(buffers@.subrange(0, i - 1)[k].length >= 0);
            }
        }
    }
    proof {
        assert(buffers@.subrange(0, i as int) =~= buffers@);
        lemma_total_non_negative(buffers@);
    }
    if saturated || sum > file_size {
        Err(OutOfSpecKind::InvalidBuffersLength { buffers_size: sum, file_size })
    } else {
        Ok(sum)
    }
}

/// Lengths none of which is negative have a sum that is not negative.
pub proof fn lemma_total_non_negative(buffers: Seq<BufferSpan>)
    requires
        lengths_valid(buffers),
    ensures
        total_length(buffers) >= 0,
    decreases buffers.len(),
{
    if buffers.len() > 0 {
        lemma_total_non_negative(buffers.drop_last());
    }
}

/// The declared number of rows, cut down to the limit where there is one.
pub open spec fn clipped_length(declared: int, limit: Option<usize>) -> int {
    match limit {
        Some(l) => if l < declared {
            l as int
        } else {
            declared
        },
        None => declared,
    }
}

/// The number of rows of a batch that declares `declared` rows, read under
/// an optional limit.
pub fn batch_rows(declared: i64, limit: Option<usize>) -> (r: Result<usize, OutOfSpecKind>)
    ensures
        (declared < 0 || declared > usize::MAX) ==> r is Err && r->Err_0 is NegativeFooterLength,
        0 <= declared <= usize::MAX ==> r is Ok && r->Ok_0 == clipped_length(
            declared as int,
            limit,
        ),
{
    if declared < 0 || declared as u64 > usize::MAX as u64 {
        return Err(OutOfSpecKind::NegativeFooterLength);
    }
    let length: usize = declared as usize;
    match limit {
        Some(l) => Ok(if l < length {
            l
        } else {
            length
        }),
        None => Ok(length),
    }
}

/// What a projection is in contracts: the wanted positions, or none.
pub open spec fn projection_view(projection: Option<&[usize]>) -> Option<Seq<usize>> {
    match projection {
        Some(p) => Some(p@),
        None => None,
    }
}

/// A projection that a batch of `n` columns can be read with: strictly
/// increasing positions of columns.
pub open spec fn projection_valid(projection: Option<Seq<usize>>, n: int) -> bool {
    match projection {
        Some(p) => strictly_increasing(p) && forall|k: int| 0 <= k < p.len() ==> p[k] < n,
        None => true,
    }
}

/// Tells whether a batch of `n` columns can be read with the positions:
/// whether they are strictly increasing positions of its columns.
pub fn is_valid_projection(projection: &[usize], n: usize) -> (r: bool)
    ensures
        r == projection_valid(Some(projection@), n as int),
{
    let mut i: usize = 0;
    while i < projection.len()
        invariant
            i <= projection@.len(),
            forall|k: int| 0 <= k < i ==> projection@[k] < n,
            forall|a: int, b: int| 0 <= a < b < i ==> projection@[a] < projection@[b],
        decreases projection@.len() - i,
    {
        if projection[i] >= n {
            return false;
        }
        if i > 0 && projection[i - 1] >= projection[i] {
            assert(!strictly_increasing(projection@)) by {
                assert(0 <= i - 1 < i < projection@.len());
            }
            return false;
        }
        assert forall|a: int, b: int| 0 <= a < b < i + 1 implies projection@[a] < projection@[b] by {
            if b == i && a < i - 1 {
                assert(projection@[a] < projection@[i - 1]);
            }
        }
        i = i + 1;
    }
    true
}

/// The column at position `i` is decoded.
pub open spec fn is_selected(projection: Option<Seq<usize>>, i: int) -> bool {
    match projection {
        Some(p) => wants(p, i),
        None => true,
    }
}

/// How many of the columns before position `pos` are decoded.
pub open spec fn selected_before(projection: Option<Seq<usize>>, pos: nat) -> nat {
    match projection {
        Some(p) => wanted_before(p, pos),
        None => pos,
    }
}

/// For each of `n` columns its position, tagged with the projection's verdict.
pub open spec fn field_tags(n: nat, projection: Option<Seq<usize>>) -> Seq<
    ProjectionResult<usize>,
> {
    Seq::new(
        n,
        |i: int|
            if is_selected(projection, i) {
                ProjectionResult::Selected(i as usize)
            } else {
                ProjectionResult::NotSelected(i as usize)
            },
    )
}

/// The fields of a batch that was read with the projection.
pub open spec fn projected_fields(fields: Seq<FieldView>, projection: Option<Seq<usize>>) -> Seq<
    FieldView,
> {
    match projection {
        Some(p) => Seq::new(p.len(), |k: int| fields[p[k] as int]),
        None => fields,
    }
}

/// How many columns a batch of `n` columns has when read with the projection.
pub open spec fn projected_count(n: nat, projection: Option<Seq<usize>>) -> nat {
    match projection {
        Some(p) => p.len(),
        None => n,
    }
}

/// A batch has as many decoded columns as its projection has positions, or
/// all of them where there is no projection.
pub proof fn lemma_selected_count(n: nat, projection: Option<Seq<usize>>)
    requires
        projection_valid(projection, n as int),
    ensures
        selected_before(projection, n) == projected_count(n, projection),
{
    match projection {
        Some(p) => {
            let c = lemma_wanted_before(p, n);
            if c < p.len() {
                assert(p[c as int] >= n);
            }
        },
        None => {},
    }
}

/// Decoding with the projection of all columns in their order is decoding
/// without a projection: the same columns are decoded, under the same schema.
pub proof fn lemma_full_projection(fields: Seq<FieldView>, p: Seq<usize>)
    requires
        p.len() == fields.len(),
        forall|k: int| 0 <= k < p.len() ==> p[k] == k,
    ensures
        projection_valid(Some(p), fields.len() as int),
        forall|i: int| 0 <= i < fields.len() ==> is_selected(Some(p), i),
        field_tags(fields.len(), Some(p)) == field_tags(fields.len(), None),
        projected_fields(fields, Some(p)) == fields,
        projected_count(fields.len(), Some(p)) == projected_count(fields.len(), None),
{
    assert forall|i: int| 0 <= i < fields.len() implies is_selected(Some(p), i) by {
        assert(p[i] == i);
    }
    assert(field_tags(fields.len(), Some(p)) =~= field_tags(fields.len(), None));
    assert(projected_fields(fields, Some(p)) =~= fields);
}

/// Decoding with the projection of no column decodes none: every column is
/// passed over, and the batch has no column and an empty schema.
pub proof fn lemma_empty_projection(fields: Seq<FieldView>, p: Seq<usize>)
    requires
        p.len() == 0,
    ensures
        projection_valid(Some(p), fields.len() as int),
        forall|i: int| !is_selected(Some(p), i),
        projected_fields(fields, Some(p)) == Seq::<FieldView>::empty(),
        projected_count(fields.len(), Some(p)) == 0,
{
    assert(projected_fields(fields, Some(p)) =~= Seq::<FieldView>::empty());
}

/// A limit below the declared number of rows is the number of rows of the
/// batch; without a limit, or with one that is not below it, the declared
/// number is.
pub proof fn lemma_clipped_length(declared: int, limit: Option<usize>)
    ensures
        limit is Some && limit->Some_0 < declared ==> clipped_length(declared, limit)
            == limit->Some_0,
        limit is Some && limit->Some_0 >= declared ==> clipped_length(declared, limit)
            == declared,
        limit is None ==> clipped_length(declared, limit) == declared,
{
}

/// Tags the positions of `n` columns: the sequencer's verdicts under a
/// projection with positions, every column passed over under an empty one,
/// every column decoded without one.
pub fn field_actions(n: usize, projection: Option<&[usize]>) -> (r: Vec<ProjectionResult<usize>>)
    requires
        projection_valid(projection_view(projection), n as int),
    ensures
        r@ == field_tags(n as nat, projection_view(projection)),
{
    let ghost want = field_tags(n as nat, projection_view(projection));
    match projection {
        Some(p) => {
            if p.len() > 0 {
                let mut positions: VecDeque<usize> = VecDeque::new();
                let mut i: usize = 0;
                while i < n
                    invariant
                        i <= n,
                        positions@.len() == i,
                        forall|k: int| 0 <= k < i ==> positions@[k] == k,
                    decreases n - i,
                {
                    positions.push_back(i);
                    i = i + 1;
                }
                let tags = ProjectionIter::new(p, positions).collect();
                assert(tags@ =~= want);
                tags
            } else {
                let mut tags: Vec<ProjectionResult<usize>> = Vec::new();
                let mut i: usize = 0;
                while i < n
                    invariant
                        i <= n,
                        p@.len() == 0,
                        projection == Some(p),
                        want == field_tags(n as nat, projection_view(projection)),
                        tags@ == want.subrange(0, i as int),
                    decreases n - i,
                {
                    tags.push(ProjectionResult::NotSelected(i));
                    i = i + 1;
                    assert(tags@ =~= want.subrange(0, i as int));
                }
                assert(tags@ =~= want);
                tags
            }
        },
        None => {
            let mut tags: Vec<ProjectionResult<usize>> = Vec::new();
            let mut i: usize = 0;
            while i < n
                invariant
                    i <= n,
                    projection is None,
                    want == field_tags(n as nat, projection_view(projection)),
                    tags@ == want.subrange(0, i as int),
                decreases n - i,
            {
                tags.push(ProjectionResult::Selected(i));
                i = i + 1;
                assert(tags@ =~= want.subrange(0, i as int));
            }
            assert(tags@ =~= want);
            tags
        },
    }
}

/// Copies the fields that a projection keeps, or all of them without one.
pub fn project_schema(fields: &Vec<Field>, projection: Option<&[usize]>) -> (r: Vec<Field>)
    requires
        projection matches Some(p) ==> forall|k: int| 0 <= k < p@.len() ==> p@[k] < fields@.len(),
    ensures
        fields_view(r@) == projected_fields(fields_view(fields@), projection_view(projection)),
{
    let ghost want = projected_fields(fields_view(fields@), projection_view(projection));
    let mut out: Vec<Field> = Vec::new();
    match projection {
        Some(p) => {
            let mut k: usize = 0;
            while k < p.len()
                invariant
                    k <= p@.len(),
                    out@.len() == k,
                    forall|j: int| 0 <= j < p@.len() ==> p@[j] < fields@.len(),
                    forall|j: int|
                        0 <= j < k ==> field_view(#[trigger] out@[j]) == field_view(
                            fields@[p@[j] as int],
                        ),
                decreases p@.len() - k,
            {
                out.push(clone_field(&fields[p[k]]));
                k = k + 1;
            }
            assert(fields_view(out@) =~= want);
        },
        None => {
            let mut k: usize = 0;
            while k < fields.len()
                invariant
                    k <= fields@.len(),
                    out@.len() == k,
                    forall|j: int|
                        0 <= j < k ==> field_view(#[trigger] out@[j]) == field_view(fields@[j]),
                decreases fields@.len() - k,
            {
                out.push(clone_field(&fields[k]));
                k = k + 1;
            }
            assert(fields_view(out@) =~= want);
        },
    }
    out
}

/// The queues that decoding a column consumes from the front: the nodes and
/// the buffers of the batch in depth-first order, and the counts of variadic
/// buffers. Passing a column over consumes what decoding it would.
pub struct Cursors {
    pub field_nodes: VecDeque<FieldNode>,
    pub buffers: VecDeque<BufferSpan>,
    pub variadic_buffer_counts: VecDeque<i64>,
}

/// What the caller of a [`BatchDecoder`] does next.
pub enum Action<'a> {
    /// Decode the column at this position of the schema, and report the array.
    Read { field: usize, compression: Option<BodyCompressionRef<'a>> },
    /// Pass over the column at this position, and report that.
    Skip { field: usize },
    /// Give up: the column cannot be decoded.
    Fail(OutOfSpecKind),
    /// Every column was handled: take the batch.
    Done,
}

/// A queue of the items of `items`, in order.
pub fn queue_of<T: Copy>(items: &Vec<T>) -> (r: VecDeque<T>)
    ensures
        r@ == items@,
{
    let mut queue: VecDeque<T> = VecDeque::new();
    let mut i: usize = 0;
    while i < items.len()
        invariant
            i <= items.len(),
            queue@ == items@.subrange(0, i as int),
        decreases items.len() - i,
    {
        queue.push_back(items[i]);
        i = i + 1;
        assert(queue@ =~= items@.subrange(0, i as int));
    }
    assert(queue@ =~= items@);
    queue
}

/// Why a batch with this metadata is refused before any of its columns is
/// looked at, if it is.
pub open spec fn start_error(meta: BatchMetadata<'_>, file_size: u64) -> Option<OutOfSpecKind> {
    match meta.buffers {
        Err(e) => Some(OutOfSpecKind::InvalidFlatbufferBuffers(e)),
        Ok(None) => Some(OutOfSpecKind::MissingMessageBuffers),
        Ok(Some(buffers)) => match meta.variadic_buffer_counts {
            Err(e) => Some(OutOfSpecKind::InvalidFlatbufferRecordBatches(e)),
            Ok(_) => if !lengths_valid(buffers@) {
                Some(OutOfSpecKind::NegativeFooterLength)
            } else if total_length(buffers@) > file_size {
                Some(
                    OutOfSpecKind::InvalidBuffersLength {
                        buffers_size: reported_size(buffers@),
                        file_size,
                    },
                )
            } else {
                match meta.nodes {
                    Err(e) => Some(OutOfSpecKind::InvalidFlatbufferNodes(e)),
                    Ok(None) => Some(OutOfSpecKind::MissingMessageNodes),
                    Ok(Some(_)) => None,
                }
            },
        },
    }
}

/// The items of an optional list, none where there is no list.
pub open spec fn items_or_empty<T>(list: Option<Vec<T>>) -> Seq<T> {
    match list {
        Some(v) => v@,
        None => Seq::empty(),
    }
}

/// The decoding of one batch in progress: which column is next, and the
/// arrays decoded so far.
pub struct BatchDecoder<'a, A> {
    fields: &'a Vec<Field>,
    projection: Option<&'a [usize]>,
    tags: Vec<ProjectionResult<usize>>,
    position: usize,
    columns: Vec<A>,
    length: Result<i64, FlatbufferError>,
    limit: Option<usize>,
    compression: Result<Option<BodyCompressionRef<'a>>, FlatbufferError>,
}

impl<'a, A> BatchDecoder<'a, A> {
    /// The fields of the schema that the batch is decoded against.
    pub closed spec fn fields(&self) -> Seq<Field> {
        self.fields@
    }

    /// The projection that the batch is decoded with.
    pub closed spec fn projection(&self) -> Option<Seq<usize>> {
        projection_view(self.projection)
    }

    /// The position in the schema of the column that is handled next.
    pub closed spec fn position(&self) -> nat {
        self.position as nat
    }

    /// The arrays decoded so far, in the order of their columns.
    pub closed spec fn columns(&self) -> Seq<A> {
        self.columns@
    }

    /// The number of rows that the batch declares, as its record gave it.
    pub closed spec fn declared_length(&self) -> Result<i64, FlatbufferError> {
        self.length
    }

    /// The limit on the number of rows.
    pub closed spec fn limit(&self) -> Option<usize> {
        self.limit
    }

    /// The compression of the batch, as its record gave it.
    pub closed spec fn compression(&self) -> Result<
        Option<BodyCompressionRef<'a>>,
        FlatbufferError,
    > {
        self.compression
    }

    /// What the decoder keeps to itself is in order.
    pub closed spec fn inv(&self) -> bool {
        self.tags@ == field_tags(self.fields@.len(), self.projection())
    }

    /// The decoder is consistent: its projection fits the schema, and it
    /// holds one array for each selected column that it has passed.
    pub open spec fn wf(&self) -> bool {
        &&& self.inv()
        &&& projection_valid(self.projection(), self.fields().len() as int)
        &&& self.position() <= self.fields().len()
        &&& self.columns().len() == selected_before(self.projection(), self.position())
    }

    /// The two decoders work on the same batch under the same terms.
    pub open spec fn same_batch(&self, other: &Self) -> bool {
        &&& self.fields() == other.fields()
        &&& self.projection() == other.projection()
        &&& self.declared_length() == other.declared_length()
        &&& self.limit() == other.limit()
        &&& self.compression() == other.compression()
    }

    /// The action that is due in this state.
    pub open spec fn due(&self) -> Action<'a> {
        if self.position() >= self.fields().len() {
            Action::Done
        } else if is_selected(self.projection(), self.position() as int) {
            match self.compression() {
                Ok(compression) => Action::Read { field: self.position() as usize, compression },
                Err(e) => Action::Fail(OutOfSpecKind::InvalidFlatbufferCompression(e)),
            }
        } else {
            Action::Skip { field: self.position() as usize }
        }
    }

    /// The decoder is in its first state for a batch of this metadata, and
    /// the cursors hold the batch's nodes, buffers and variadic counts.
    pub open spec fn starts(
        &self,
        cursors: Cursors,
        meta: BatchMetadata<'a>,
        fields: Seq<Field>,
        projection: Option<Seq<usize>>,
        limit: Option<usize>,
    ) -> bool {
        &&& self.wf()
        &&& self.position() == 0
        &&& self.columns() == Seq::<A>::empty()
        &&& self.fields() == fields
        &&& self.projection() == projection
        &&& self.declared_length() == meta.length
        &&& self.limit() == limit
        &&& self.compression() == meta.compression
        &&& meta.buffers matches Ok(Some(b)) && cursors.buffers@ == b@
        &&& meta.nodes matches Ok(Some(n)) && cursors.field_nodes@ == n@
        &&& meta.variadic_buffer_counts matches Ok(c) && cursors.variadic_buffer_counts@
            == items_or_empty(c)
    }

    /// Checks the metadata of a batch and sets out to decode it: gives the
    /// decoder in its first state and the queues to decode from. The batch is
    /// refused before any column is looked at where its buffers or nodes are
    /// missing or unreadable, where a buffer declares a negative length, and
    /// where the buffers together are larger than the source.
    pub fn new(
        meta: BatchMetadata<'a>,
        fields: &'a ArrowSchema,
        ipc_schema: &IpcSchema,
        projection: Option<&'a [usize]>,
        limit: Option<usize>,
        file_size: u64,
    ) -> (r: Result<(Self, Cursors), OutOfSpecKind>)
        requires
            fields@.len() == ipc_schema.fields@.len(),
            projection_valid(projection_view(projection), fields@.len() as int),
        ensures
            match r {
                Ok((d, cursors)) => start_error(meta, file_size) is None && d.starts(
                    cursors,
                    meta,
                    fields@,
                    projection_view(projection),
                    limit,
                ),
                Err(e) => start_error(meta, file_size) == Some(e),
            },
    {
        let BatchMetadata { buffers, variadic_buffer_counts, nodes, compression, length } = meta;
        let buffers = match buffers {
            Err(e) => {
                return Err(OutOfSpecKind::InvalidFlatbufferBuffers(e));
            },
            Ok(None) => {
                return Err(OutOfSpecKind::MissingMessageBuffers);
            },
            Ok(Some(b)) => b,
        };
        let counts = match variadic_buffer_counts {
            Err(e) => {
                return Err(OutOfSpecKind::InvalidFlatbufferRecordBatches(e));
            },
            Ok(Some(c)) => c,
            Ok(None) => Vec::new(),
        };
        match check_buffers_size(&buffers, file_size) {
            Err(e) => {
                return Err(e);
            },
            Ok(_) => {},
        }
        let nodes = match nodes {
            Err(e) => {
                return Err(OutOfSpecKind::InvalidFlatbufferNodes(e));
            },
            Ok(None) => {
                return Err(OutOfSpecKind::MissingMessageNodes);
            },
            Ok(Some(n)) => n,
        };
        let tags = field_actions(fields.len(), projection);
        let cursors = Cursors {
            field_nodes: queue_of(&nodes),
            buffers: queue_of(&buffers),
            variadic_buffer_counts: queue_of(&counts),
        };
        let decoder = BatchDecoder {
            fields,
            projection,
            tags,
            position: 0,
            columns: Vec::new(),
            length,
            limit,
            compression,
        };
        Ok((decoder, cursors))
    }

    /// Says what is to be done next.
    pub fn next_action(&self) -> (r: Action<'a>)
        requires
            self.wf(),
        ensures
            r == self.due(),
    {
        if self.position >= self.tags.len() {
            return Action::Done;
        }
        match &self.tags[self.position] {
            ProjectionResult::Selected(field) => match &self.compression {
                Ok(compression) => Action::Read { field: *field, compression: *compression },
                Err(e) => Action::Fail(OutOfSpecKind::InvalidFlatbufferCompression(*e)),
            },
            ProjectionResult::NotSelected(field) => Action::Skip { field: *field },
        }
    }

    /// Takes the array of the column that was due to be decoded.
    pub fn push_column(&mut self, array: A)
        requires
            old(self).wf(),
            old(self).due() is Read,
        ensures
            final(self).wf(),
            final(self).same_batch(old(self)),
            final(self).position() == old(self).position() + 1,
            final(self).columns() == old(self).columns().push(array),
    {
        let n: usize = self.fields.len();
        assert(self.position < n);
        self.columns.push(array);
        self.position = self.position + 1;
    }

    /// Notes that the column that was due to be passed over was.
    pub fn skip_column(&mut self)
        requires
            old(self).wf(),
            old(self).due() is Skip,
        ensures
            final(self).wf(),
            final(self).same_batch(old(self)),
            final(self).position() == old(self).position() + 1,
            final(self).columns() == old(self).columns(),
    {
        let n: usize = self.fields.len();
        assert(self.position < n);
        self.position = self.position + 1;
    }

    /// Builds the batch once every column was handled: the decoded arrays in
    /// the order of their columns, under the projected schema, with the
    /// declared number of rows cut down to the limit.
    pub fn finish(self) -> (r: Result<RecordBatchT<A>, OutOfSpecKind>)
        requires
            self.wf(),
            self.due() is Done,
        ensures
            match self.declared_length() {
                Err(_) => r is Err && r->Err_0 is MissingData,
                Ok(declared) => if declared < 0 || declared > usize::MAX {
                    r is Err && r->Err_0 is NegativeFooterLength
                } else {
                    &&& r is Ok
                    &&& r->Ok_0.wf()
                    &&& r->Ok_0.spec_len() == clipped_length(declared as int, self.limit())
                    &&& r->Ok_0.spec_arrays() == self.columns()
                    &&& r->Ok_0.spec_arrays().len() == projected_count(
                        self.fields().len(),
                        self.projection(),
                    )
                    &&& fields_view(r->Ok_0.spec_schema()) == projected_fields(
                        fields_view(self.fields()),
                        self.projection(),
                    )
                },
            },
    {
        let declared = match self.length {
            Ok(declared) => declared,
            Err(_) => {
                return Err(OutOfSpecKind::MissingData);
            },
        };
        let length = match batch_rows(declared, self.limit) {
            Ok(length) => length,
            Err(e) => {
                return Err(e);
            },
        };
        let schema = project_schema(self.fields, self.projection);
        proof {
            lemma_selected_count(self.fields@.len(), self.projection());
            assert(fields_view(schema@).len() == schema@.len());
        }
        Ok(RecordBatchT::new(length, schema, self.columns))
    }
}

/// Sets out to decode a record batch against a schema: reads the batch's
/// record and checks it as [`BatchDecoder::new`] does. The batch is refused
/// exactly where what its record holds is refused there, with that error;
/// else the decoder comes back in its first state, with the cursors of the
/// record's nodes, buffers and variadic counts.
pub fn read_record_batch<'a, A>(
    batch: RecordBatchRef<'a>,
    fields: &'a ArrowSchema,
    ipc_schema: &IpcSchema,
    projection: Option<&'a [usize]>,
    limit: Option<usize>,
    file_size: u64,
) -> (r: Result<(BatchDecoder<'a, A>, Cursors), OutOfSpecKind>)
    requires
        fields@.len() == ipc_schema.fields@.len(),
        projection_valid(projection_view(projection), fields@.len() as int),
    ensures
        match r {
            Ok((d, cursors)) => start_error(record_metadata(batch), file_size) is None
                && d.starts(
                cursors,
                record_metadata(batch),
                fields@,
                projection_view(projection),
                limit,
            ),
            Err(e) => start_error(record_metadata(batch), file_size) == Some(e),
        },
{
    BatchDecoder::new(batch_metadata(&batch), fields, ipc_schema, projection, limit, file_size)
}

} // verus!
