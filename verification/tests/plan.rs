use arrow_ipc_read::datatypes::DataType;
use arrow_ipc_read::datatypes::Field;
use arrow_ipc_read::datatypes::PrimitiveType;
use arrow_ipc_read::index_map::IndexMap;
use arrow_ipc_read::plan::apply_projection;
use arrow_ipc_read::plan::does_map_fit;
use arrow_ipc_read::plan::is_valid_request;
use arrow_ipc_read::plan::prepare_projection;
use arrow_ipc_read::record_batch::project_schema;
use arrow_ipc_read::record_batch::RecordBatchT;

fn field(name: &str) -> Field {
    Field {
        name: name.to_string(),
        dtype: DataType::Primitive(PrimitiveType::Int32),
        is_nullable: false,
    }
}

fn schema() -> Vec<Field> {
    vec![field("a"), field("b"), field("c"), field("d")]
}

fn names(fields: &Vec<Field>) -> Vec<String> {
    fields.iter().map(|f| f.name.clone()).collect()
}

#[test]
fn plan_sorts_the_positions() {
    let info = prepare_projection(&schema(), vec![3, 0, 2]);
    assert_eq!(info.columns, vec![0, 2, 3]);
    assert_eq!(names(&info.schema), vec!["d", "a", "c"]);
    assert_eq!(info.map.position(0), Some(2));
    assert_eq!(info.map.position(1), Some(0));
    assert_eq!(info.map.position(2), Some(1));
    assert_eq!(info.map.position(3), None);
}

#[test]
fn plan_of_ascending_positions_maps_each_place_to_itself() {
    let info = prepare_projection(&schema(), vec![1, 2]);
    assert_eq!(info.columns, vec![1, 2]);
    assert_eq!(names(&info.schema), vec!["b", "c"]);
    assert_eq!(info.map.position(0), Some(0));
    assert_eq!(info.map.position(1), Some(1));
}

#[test]
fn plan_of_no_column_is_empty() {
    let info = prepare_projection(&schema(), vec![]);
    assert!(info.columns.is_empty());
    assert!(info.schema.is_empty());
    assert_eq!(info.map.position(0), None);
}

#[test]
fn apply_restores_the_requested_order() {
    let fields = schema();
    let requested = vec![3, 0, 2];
    let info = prepare_projection(&fields, requested);
    let decoded = RecordBatchT::new(
        7,
        project_schema(&fields, Some(&info.columns)),
        vec!["column a", "column c", "column d"],
    );
    let batch = apply_projection(decoded, &info.map);
    assert_eq!(batch.len(), 7);
    assert_eq!(batch.arrays(), &vec!["column d", "column a", "column c"]);
    assert_eq!(batch.schema(), &info.schema);
}

#[test]
fn apply_with_the_identity_changes_nothing() {
    let fields = schema();
    let map = IndexMap::from_pairs(&vec![(0, 0), (1, 1), (2, 2), (3, 3)]);
    let batch = apply_projection(RecordBatchT::new(2, fields.clone(), vec![1, 2, 3, 4]), &map);
    assert_eq!(batch.len(), 2);
    assert_eq!(batch.arrays(), &vec![1, 2, 3, 4]);
    assert_eq!(batch.schema(), &fields);
}

#[test]
fn apply_leaves_places_that_the_map_does_not_name() {
    let fields = schema();
    let map = IndexMap::from_pairs(&vec![(0, 3)]);
    let batch = apply_projection(RecordBatchT::new(2, fields, vec![1, 2, 3, 4]), &map);
    assert_eq!(batch.arrays(), &vec![4, 2, 3, 4]);
    assert_eq!(names(batch.schema()), vec!["d", "b", "c", "d"]);
}

#[test]
fn later_pair_counts() {
    let map = IndexMap::from_pairs(&vec![(1, 5), (2, 6), (1, 7)]);
    assert_eq!(map.position(1), Some(7));
    assert_eq!(map.position(2), Some(6));
    assert_eq!(map.position(5), None);
}

#[test]
fn batch_comes_apart_as_it_was_made() {
    let fields = schema();
    let batch = RecordBatchT::new(9, fields.clone(), vec![1, 2, 3, 4]);
    let (schema, arrays) = batch.into_schema_and_arrays();
    assert_eq!(schema, fields);
    assert_eq!(arrays, vec![1, 2, 3, 4]);
}

#[test]
fn request_is_valid_without_duplicates_and_within_the_schema() {
    assert!(is_valid_request(&vec![3, 0, 2], 4));
    assert!(is_valid_request(&vec![], 0));
    assert!(!is_valid_request(&vec![3, 0, 3], 4));
    assert!(!is_valid_request(&vec![0, 4], 4));
    assert!(!is_valid_request(&vec![0], 0));
}

#[test]
fn map_fits_a_batch_that_has_its_places() {
    let map = IndexMap::from_pairs(&vec![(0, 2), (1, 0), (2, 1)]);
    assert!(does_map_fit(&map, 3));
    assert!(does_map_fit(&map, 4));
    assert!(!does_map_fit(&map, 2));
    assert!(!does_map_fit(&IndexMap::from_pairs(&vec![(0, 5)]), 3));
    assert!(!does_map_fit(&IndexMap::from_pairs(&vec![(5, 0)]), 3));
    assert!(does_map_fit(&IndexMap::from_pairs(&vec![]), 0));
}

#[test]
fn plan_is_cloned_as_it_is() {
    let info = prepare_projection(&schema(), vec![3, 0, 2]);
    let copy = info.clone();
    assert_eq!(copy.columns, vec![0, 2, 3]);
    assert_eq!(copy.schema, info.schema);
    assert_eq!(copy.map.position(0), Some(2));
    assert_eq!(copy.map.position(1), Some(0));
    assert_eq!(copy.map.position(2), Some(1));
    assert_eq!(copy.map.position(3), None);
}
