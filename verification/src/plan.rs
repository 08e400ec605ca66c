//! Planning of projections: from the columns that a caller asks for, in the
//! caller's order, to the ascending positions that a batch is decoded with,
//! and back to the caller's order once a batch is decoded.

use crate::datatypes::clone_field;
use crate::datatypes::clone_fields;
use crate::datatypes::field_view;
use crate::datatypes::fields_view;
use crate::datatypes::ArrowSchema;
use crate::datatypes::Field;
use crate::datatypes::FieldView;
use crate::index_map::IndexMap;
use crate::projection::strictly_increasing;
use crate::record_batch::projected_fields;
use crate::record_batch::RecordBatchT;
use vstd::pervasive::cloned;
use vstd::prelude::*;

verus! {

/// A projection, planned: how to decode for it and how to get back to the
/// order in which the columns were asked for.
pub struct ProjectionInfo {
    /// The positions of the wanted columns, ascending.
    pub columns: Vec<usize>,
    /// For each place in the asked-for order, the place of the same column
    /// in the ascending order.
    pub map: IndexMap,
    /// The fields of the wanted columns, in the asked-for order.
    pub schema: ArrowSchema,
}

impl Clone for ProjectionInfo {
    /// A plan of the same positions, the same map and the same fields.
    fn clone(&self) -> (r: Self)
        ensures
            r.columns@ == self.columns@,
            r.map@ == self.map@,
            fields_view(r.schema@) == fields_view(self.schema@),
    {
        let mut columns: Vec<usize> = Vec::new();
        let mut i: usize = 0;
        while i < self.columns.len()
            invariant
                i <= self.columns@.len(),
                columns@ == self.columns@.subrange(0, i as int),
            decreases self.columns@.len() - i,
        {
            columns.push(self.columns[i]);
            i = i + 1;
            assert(columns@ =~= self.columns@.subrange(0, i as int));
        }
        assert(columns@ =~= self.columns@);
        ProjectionInfo { columns, map: self.map.duplicate(), schema: clone_fields(&self.schema) }
    }
}

/// No position is asked for twice.
pub open spec fn no_duplicates(projection: Seq<usize>) -> bool {
    forall|i: int, j: int| 0 <= i < j < projection.len() ==> projection[i] != projection[j]
}

/// The place `q` stands somewhere in the order.
pub open spec fn placed(order: Seq<usize>, q: int) -> bool {
    exists|k: int| 0 <= k < order.len() && #[trigger] order[k] == q
}

/// The positions can be planned for a schema of `n` fields: each is a
/// position of the schema, and none comes twice.
pub open spec fn request_valid(projection: Seq<usize>, n: int) -> bool {
    &&& no_duplicates(projection)
    &&& forall|i: int| 0 <= i < projection.len() ==> projection[i] < n
}

/// Tells whether the positions can be planned for a schema of `n` fields.
pub fn is_valid_request(projection: &Vec<usize>, n: usize) -> (r: bool)
    ensures
        r == request_valid(projection@, n as int),
{
    let mut i: usize = 0;
    while i < projection.len()
        invariant
            i <= projection@.len(),
            forall|k: int| 0 <= k < i ==> projection@[k] < n,
            forall|a: int, b: int| 0 <= a < b < i ==> projection@[a] != projection@[b],
        decreases projection@.len() - i,
    {
        if projection[i] >= n {
            return false;
        }
        let mut j: usize = 0;
        while j < i
            invariant
                j <= i,
                i < projection@.len(),
                forall|a: int| 0 <= a < j ==> projection@[a] != projection@[i as int],
            decreases i - j,
        {
            if projection[j] == projection[i] {
                assert(!no_duplicates(projection@)) by {
                    assert(0 <= j < i < projection@.len());
                }
                return false;
            }
            j = j + 1;
        }
        i = i + 1;
    }
    true
}

/// Every place that the map speaks of, and every place that it leads to, is
/// a place of a batch of `n` columns.
pub open spec fn map_fits(map: Map<usize, usize>, n: int) -> bool {
    forall|key: usize| #[trigger] map.contains_key(key) ==> key < n && map[key] < n
}

/// Tells whether a batch of `n` columns can be reordered with the map.
pub fn does_map_fit(map: &IndexMap, n: usize) -> (r: bool)
    ensures
        r == map_fits(map@, n as int),
{
    let pairs = map.entries();
    let mut i: usize = 0;
    while i < pairs.len()
        invariant
            i <= pairs@.len(),
            forall|j: int|
                0 <= j < pairs@.len() ==> map@.contains_key((#[trigger] pairs@[j]).0)
                    && map@[pairs@[j].0] == pairs@[j].1,
            forall|j: int| 0 <= j < i ==> (#[trigger] pairs@[j]).0 < n && pairs@[j].1 < n,
        decreases pairs@.len() - i,
    {
        if pairs[i].0 >= n || pairs[i].1 >= n {
            assert(map@.contains_key(pairs@[i as int].0));
            return false;
        }
        i = i + 1;
    }
    assert forall|key: usize| #[trigger] map@.contains_key(key) implies key < n && map@[key]
        < n by {
        let j = choose|j: int| 0 <= j < pairs@.len() && (#[trigger] pairs@[j]).0 == key;
        assert(pairs@[j].0 < n);
    }
    true
}

/// The fields at the asked-for positions, in the asked-for order.
pub open spec fn requested_fields(fields: Seq<FieldView>, projection: Seq<usize>) -> Seq<
    FieldView,
> {
    Seq::new(projection.len(), |r: int| fields[projection[r] as int])
}

/// The plan is the plan of the projection: the ascending positions hold the
/// same columns, and the map leads from each asked-for place to the place of
/// its column among them.
pub open spec fn plan_of(columns: Seq<usize>, map: Map<usize, usize>, projection: Seq<usize>) -> bool {
    &&& columns.len() == projection.len()
    &&& strictly_increasing(columns)
    &&& forall|r: usize| map.contains_key(r) <==> r < projection.len()
    &&& forall|r: usize|
        r < projection.len() ==> (#[trigger] map[r]) < columns.len() && columns[map[r] as int]
            == projection[r as int]
}

/// Plans a projection of the columns at the given positions of the schema,
/// which may come in any order.
pub fn prepare_projection(schema: &ArrowSchema, projection: Vec<usize>) -> (r: ProjectionInfo)
    requires
        request_valid(projection@, schema@.len() as int),
    ensures
        fields_view(r.schema@) == requested_fields(fields_view(schema@), projection@),
        plan_of(r.columns@, r.map@, projection@),
{
    let n: usize = projection.len();
    let mut fields: Vec<Field> = Vec::new();
    let mut i: usize = 0;
    while i < n
        invariant
            i <= n,
            n == projection@.len(),
            fields@.len() == i,
            forall|k: int| 0 <= k < n ==> projection@[k] < schema@.len(),
            forall|k: int|
                0 <= k < i ==> field_view(#[trigger] fields@[k]) == field_view(
                    schema@[projection@[k] as int],
                ),
        decreases n - i,
    {
        fields.push(clone_field(&schema[projection[i]]));
        i = i + 1;
    }
    assert(fields_view(fields@) =~= requested_fields(fields_view(schema@), projection@));

    // The asked-for places, ordered by the position that each asks for.
    let mut order: Vec<usize> = Vec::new();
    let mut r: usize = 0;
    while r < n
        invariant
            r <= n,
            n == projection@.len(),
            no_duplicates(projection@),
            order@.len() == r,
            forall|k: int| 0 <= k < r ==> (#[trigger] order@[k]) < r,
            forall|a: int, b: int|
                0 <= a < b < r ==> projection@[order@[a] as int] < projection@[order@[b] as int],
            forall|q: int| 0 <= q < r ==> #[trigger] placed(order@, q),
        decreases n - r,
    {
        let wanted: usize = projection[r];
        let mut at: usize = 0;
        while at < order.len() && projection[order[at]] < wanted
            invariant
                at <= order@.len(),
                order@.len() == r,
                r < n,
                n == projection@.len(),
                wanted == projection@[r as int],
                forall|k: int| 0 <= k < r ==> (#[trigger] order@[k]) < r,
                forall|k: int| 0 <= k < at ==> projection@[order@[k] as int] < wanted,
            decreases order@.len() - at,
        {
            at = at + 1;
        }
        let ghost before = order@;
        order.insert(at, r);
        proof {
            let after = order@;
            assert(after.len() == r + 1);
            assert forall|k: int| 0 <= k < r + 1 implies #[trigger] after[k] == (if k < at {
                before[k]
            } else if k == at {
                r
            } else {
                before[k - 1]
            }) by {}
            assert forall|k: int| at <= k < r implies projection@[before[k] as int] > wanted by {
                assert(before[k] < r);
                assert(before[at as int] < r);
                if k > at {
                    assert(projection@[before[at as int] as int] < projection@[before[k] as int]);
                }
            }
            assert forall|a: int, b: int| 0 <= a < b < r + 1 implies projection@[after[a] as int]
                < projection@[after[b] as int] by {
                if b < at {
                } else if b == at {
                } else {
                    if a < at {
                        assert(projection@[before[a] as int] < wanted);
                        assert(projection@[before[b - 1] as int] > wanted);
                    } else if a == at {
                        assert(projection@[before[b - 1] as int] > wanted);
                    } else {
                        assert(projection@[before[a - 1] as int] < projection@[before[b
                            - 1] as int]);
                    }
                }
            }
            assert forall|q: int| 0 <= q < r + 1 implies #[trigger] placed(after, q) by {
                if q == r {
                    assert(after[at as int] == q);
                } else {
                    assert(placed(before, q));
                    let k0 = choose|k: int| 0 <= k < before.len() && #[trigger] before[k] == q;
                    if k0 < at {
                        assert(after[k0] == q);
                    } else {
                        assert(after[k0 + 1] == q);
                    }
                }
            }
        }
        r = r + 1;
    }

    let mut columns: Vec<usize> = Vec::new();
    let mut map = IndexMap::new();
    let mut k: usize = 0;
    while k < n
        invariant
            k <= n,
            n == projection@.len(),
            order@.len() == n,
            columns@.len() == k,
            forall|j: int| 0 <= j < n ==> (#[trigger] order@[j]) < n,
            forall|q: int| 0 <= q < n ==> #[trigger] placed(order@, q),
            forall|a: int, b: int|
                0 <= a < b < n ==> projection@[order@[a] as int] < projection@[order@[b] as int],
            forall|j: int| 0 <= j < k ==> columns@[j] == projection@[order@[j] as int],
            forall|j: int|
                0 <= j < k ==> map@.contains_key(#[trigger] order@[j]) && map@[order@[j]] == j,
            forall|key: usize|
                map@.contains_key(key) ==> exists|j: int| 0 <= j < k && #[trigger] order@[j] == key,
        decreases n - k,
    {
        let place: usize = order[k];
        columns.push(projection[place]);
        let ghost earlier = map@;
        map.insert(place, k);
        proof {
            assert forall|j: int| 0 <= j < k + 1 implies map@.contains_key(#[trigger] order@[j])
                && map@[order@[j]] == j by {
                if j < k {
                    assert(projection@[order@[j] as int] < projection@[order@[k as int] as int]);
                    assert(earlier.contains_key(order@[j]));
                }
            }
            assert forall|key: usize| map@.contains_key(key) implies exists|j: int|
                0 <= j < k + 1 && #[trigger] order@[j] == key by {
                if key == place {
                    assert(order@[k as int] == key);
                } else {
                    assert(earlier.contains_key(key));
                    let j0 = choose|j: int| 0 <= j < k && #[trigger] order@[j] == key;
                    assert(order@[j0] == key);
                }
            }
        }
        k = k + 1;
    }
    proof {
        assert forall|a: int, b: int| 0 <= a < b < n implies columns@[a] < columns@[b] by {
            assert(projection@[order@[a] as int] < projection@[order@[b] as int]);
        }
        assert forall|q: usize| #[trigger] map@.contains_key(q) <==> q < n by {
            if q < n {
                assert(placed(order@, q as int));
                let j0 = choose|j: int| 0 <= j < order@.len() && #[trigger] order@[j] == q;
                assert(map@.contains_key(order@[j0]));
            }
            if map@.contains_key(q) {
                let j1 = choose|j: int| 0 <= j < n && #[trigger] order@[j] == q;
                assert(order@[j1] < n);
            }
        }
        assert forall|q: usize| q < n implies (#[trigger] map@[q]) < columns@.len()
            && columns@[map@[q] as int] == projection@[q as int] by {
            assert(placed(order@, q as int));
            let j0 = choose|j: int| 0 <= j < order@.len() && #[trigger] order@[j] == q;
            assert(map@.contains_key(order@[j0]) && map@[order@[j0]] == j0);
        }
    }
    ProjectionInfo { columns, map, schema: fields }
}

/// The place of the decoded batch that the column at place `p` of the
/// reordered batch comes from: where the map sends `p`, or `p` itself where
/// the map does not speak of it.
pub open spec fn source_of(map: Map<usize, usize>, p: int) -> int {
    if map.contains_key(p as usize) {
        map[p as usize] as int
    } else {
        p
    }
}

/// Under a map that sends every place that it speaks of to itself, every
/// column comes from its own place: reordering with it changes nothing.
pub proof fn lemma_identity_map(map: Map<usize, usize>, p: int)
    requires
        forall|key: usize| #[trigger] map.contains_key(key) ==> map[key] == key,
        0 <= p <= usize::MAX,
    ensures
        source_of(map, p) == p,
{
}

/// Reordering a batch that was decoded with a plan's ascending positions
/// gives the asked-for order: the column at each asked-for place comes from
/// the place of the decoded batch that holds the column asked for there,
/// and its field is the field asked for there.
pub proof fn lemma_apply_restores_order(
    fields: Seq<FieldView>,
    columns: Seq<usize>,
    map: Map<usize, usize>,
    projection: Seq<usize>,
    r: int,
)
    requires
        plan_of(columns, map, projection),
        0 <= r < projection.len(),
        projection.len() <= usize::MAX,
    ensures
        0 <= source_of(map, r) < columns.len(),
        columns[source_of(map, r)] == projection[r],
        projected_fields(fields, Some(columns))[source_of(map, r)] == requested_fields(
            fields,
            projection,
        )[r],
{
    let place = r as usize;
    assert(map.contains_key(place));
    assert(map[place] < columns.len());
}

/// One of the first `upto` pairs has `p` as its first part.
pub open spec fn touched(pairs: Seq<(usize, usize)>, upto: int, p: int) -> bool {
    exists|j: int| 0 <= j < upto && (#[trigger] pairs[j]).0 == p
}

/// Brings the columns of a decoded batch into the asked-for order: the
/// column at each place of the result is a copy of the column of `chunk` at
/// the place that the map gives for it, with its field. The number of rows
/// stays.
pub fn apply_projection<A: Clone>(chunk: RecordBatchT<A>, map: &IndexMap) -> (r: RecordBatchT<A>)
    requires
        chunk.wf(),
        map_fits(map@, chunk.spec_arrays().len() as int),
    ensures
        r.wf(),
        r.spec_len() == chunk.spec_len(),
        r.spec_arrays().len() == chunk.spec_arrays().len(),
        r.spec_schema().len() == chunk.spec_schema().len(),
        forall|p: int|
            0 <= p < chunk.spec_arrays().len() ==> cloned(
                chunk.spec_arrays()[source_of(map@, p)],
                #[trigger] r.spec_arrays()[p],
            ),
        forall|p: int|
            0 <= p < chunk.spec_schema().len() ==> field_view(#[trigger] r.spec_schema()[p])
                == field_view(chunk.spec_schema()[source_of(map@, p)]),
{
    let length = chunk.len();
    let (schema, arrays) = chunk.into_schema_and_arrays();
    let n: usize = arrays.len();
    let mut new_schema = clone_fields(&schema);
    let mut new_arrays = arrays.clone();
    assert(new_schema@.len() == n) by {
        assert(fields_view(new_schema@).len() == fields_view(schema@).len());
    }
    assert forall|p: int| 0 <= p < n implies field_view(#[trigger] new_schema@[p]) == field_view(
        schema@[p],
    ) by {
        assert(fields_view(new_schema@)[p] == fields_view(schema@)[p]);
    }
    let pairs = map.entries();
    let mut i: usize = 0;
    while i < pairs.len()
        invariant
            i <= pairs@.len(),
            n == arrays@.len(),
            n == schema@.len(),
            new_arrays@.len() == n,
            new_schema@.len() == n,
            forall|j: int|
                0 <= j < pairs@.len() ==> map@.contains_key((#[trigger] pairs@[j]).0)
                    && map@[pairs@[j].0] == pairs@[j].1,
            forall|a: int, b: int|
                0 <= a < b < pairs@.len() ==> (#[trigger] pairs@[a]).0 != (#[trigger] pairs@[b]).0,
            forall|key: usize| #[trigger]
                map@.contains_key(key) ==> key < n && map@[key] < n,
            forall|j: int|
                0 <= j < i ==> cloned(
                    arrays@[pairs@[j].1 as int],
                    new_arrays@[(#[trigger] pairs@[j]).0 as int],
                ) && field_view(new_schema@[pairs@[j].0 as int]) == field_view(
                    schema@[pairs@[j].1 as int],
                ),
            forall|p: int|
                0 <= p < n && !touched(pairs@, i as int, p) ==> cloned(
                    arrays@[p],
                    #[trigger] new_arrays@[p],
                ) && field_view(new_schema@[p]) == field_view(schema@[p]),
        decreases pairs@.len() - i,
    {
        let target: usize = pairs[i].0;
        let source: usize = pairs[i].1;
        assert(map@.contains_key(pairs@[i as int].0));
        let ghost arrays_before = new_arrays@;
        let ghost schema_before = new_schema@;
        let field = clone_field(&schema[source]);
        let array = arrays[source].clone();
        new_schema[target] = field;
        new_arrays[target] = array;
        proof {
            assert forall|j: int| 0 <= j < i + 1 implies cloned(
                arrays@[pairs@[j].1 as int],
                new_arrays@[(#[trigger] pairs@[j]).0 as int],
            ) && field_view(new_schema@[pairs@[j].0 as int]) == field_view(
                schema@[pairs@[j].1 as int],
            ) by {
                if j < i {
                    assert(pairs@[j].0 != pairs@[i as int].0);
                    assert(map@.contains_key(pairs@[j].0));
                }
            }
            assert forall|p: int| 0 <= p < n && !touched(pairs@, i + 1, p) implies cloned(
                arrays@[p],
                #[trigger] new_arrays@[p],
            ) && field_view(new_schema@[p]) == field_view(schema@[p]) by {
                assert(pairs@[i as int].0 != p);
                assert(!touched(pairs@, i as int, p)) by {
                    if touched(pairs@, i as int, p) {
                        let j = choose|j: int| 0 <= j < i && (#[trigger] pairs@[j]).0 == p;
                        assert(0 <= j < i + 1 && pairs@[j].0 == p);
                    }
                }
                assert(new_arrays@[p] == arrays_before[p]);
                assert(new_schema@[p] == schema_before[p]);
            }
        }
        i = i + 1;
    }
    let r = RecordBatchT::new(length, new_schema, new_arrays);
    proof {
        assert forall|p: int| 0 <= p < n implies cloned(
            arrays@[source_of(map@, p)],
            #[trigger] new_arrays@[p],
        ) && field_view(new_schema@[p]) == field_view(schema@[source_of(map@, p)]) by {
            if map@.contains_key(p as usize) {
                let j = choose|j: int| 0 <= j < pairs@.len() && (#[trigger] pairs@[j]).0 == p;
                assert(map@[pairs@[j].0] == pairs@[j].1);
            } else {
                if touched(pairs@, pairs@.len() as int, p) {
                    let j = choose|j: int|
                        0 <= j < pairs@.len() && (#[trigger] pairs@[j]).0 == p;
                    assert(map@.contains_key(pairs@[j].0));
                }
            }
        }
        assert forall|p: int| 0 <= p < n implies field_view(#[trigger] new_schema@[p])
            == field_view(schema@[source_of(map@, p)]) by {
            assert(cloned(arrays@[source_of(map@, p)], new_arrays@[p]));
        }
    }
    r
}

} // verus!
