use arrow_ipc_read::projection::ProjectionIter;
use arrow_ipc_read::projection::ProjectionResult;
use std::collections::VecDeque;

#[test]
fn project_iter() {
    let iter: VecDeque<i32> = (1..6).collect();
    let iter = ProjectionIter::new(&[0, 2, 4], iter);
    let result: Vec<_> = iter.collect();
    assert_eq!(
        result,
        vec![
            ProjectionResult::Selected(1),
            ProjectionResult::NotSelected(2),
            ProjectionResult::Selected(3),
            ProjectionResult::NotSelected(4),
            ProjectionResult::Selected(5)
        ]
    )
}

#[test]
fn project_iter_first_item_not_wanted() {
    let source: VecDeque<i32> = (10..15).collect();
    let result = ProjectionIter::new(&[1, 3], source).collect();
    assert_eq!(
        result,
        vec![
            ProjectionResult::NotSelected(10),
            ProjectionResult::Selected(11),
            ProjectionResult::NotSelected(12),
            ProjectionResult::Selected(13),
            ProjectionResult::NotSelected(14)
        ]
    );
}

#[test]
fn project_iter_nothing_selected_after_last_wanted() {
    let source: VecDeque<char> = vec!['a', 'b', 'c'].into_iter().collect();
    let result = ProjectionIter::new(&[0], source).collect();
    assert_eq!(
        result,
        vec![
            ProjectionResult::Selected('a'),
            ProjectionResult::NotSelected('b'),
            ProjectionResult::NotSelected('c')
        ]
    );
}

#[test]
fn project_iter_counts_selected_as_wanted() {
    let source: VecDeque<usize> = (0..100).collect();
    let wanted = [3usize, 4, 50, 99];
    let result = ProjectionIter::new(&wanted, source).collect();
    assert_eq!(result.len(), 100);
    let selected: Vec<usize> = result
        .iter()
        .filter_map(|t| match t {
            ProjectionResult::Selected(i) => Some(*i),
            ProjectionResult::NotSelected(_) => None,
        })
        .collect();
    assert_eq!(selected, vec![3, 4, 50, 99]);
}

#[test]
fn project_iter_next_and_size_hint() {
    let source: VecDeque<i32> = vec![7, 8].into_iter().collect();
    let mut iter = ProjectionIter::new(&[1], source);
    assert_eq!(iter.size_hint(), (2, Some(2)));
    assert_eq!(iter.next(), Some(ProjectionResult::NotSelected(7)));
    assert_eq!(iter.size_hint(), (1, Some(1)));
    assert_eq!(iter.next(), Some(ProjectionResult::Selected(8)));
    assert_eq!(iter.next(), None);
    assert_eq!(iter.size_hint(), (0, Some(0)));
}

#[test]
fn project_iter_empty_source() {
    let source: VecDeque<i32> = VecDeque::new();
    let result = ProjectionIter::new(&[0, 1], source).collect();
    assert_eq!(result, vec![]);
}
