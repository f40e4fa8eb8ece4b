use scripture_retention_algorithm::split_into_n_parts;

#[test]
fn empty_input_gives_seven_empty_groups() {
    let parts = split_into_n_parts(Vec::<u32>::new(), 7);
    assert_eq!(parts.len(), 7);
    for group in &parts {
        assert!(group.is_empty());
    }
}

#[test]
fn remainder_goes_to_the_first_groups() {
    let parts = split_into_n_parts((0..10).collect::<Vec<u32>>(), 3);
    assert_eq!(parts, vec![vec![0, 1, 2, 3], vec![4, 5, 6], vec![7, 8, 9]]);
}

#[test]
fn exact_multiple_gives_equal_groups() {
    let parts = split_into_n_parts((1..=6).collect::<Vec<u32>>(), 3);
    assert_eq!(parts, vec![vec![1, 2], vec![3, 4], vec![5, 6]]);
}

#[test]
fn fewer_items_than_groups_leaves_the_last_groups_empty() {
    let parts = split_into_n_parts(vec!['a', 'b', 'c'], 5);
    assert_eq!(parts, vec![vec!['a'], vec!['b'], vec!['c'], vec![], vec![]]);
}

#[test]
fn one_group_holds_everything() {
    let parts = split_into_n_parts(vec![3, 1, 2], 1);
    assert_eq!(parts, vec![vec![3, 1, 2]]);
}

#[test]
fn seventy_five_items_over_seven_days() {
    let parts = split_into_n_parts((0..75).collect::<Vec<u32>>(), 7);
    let sizes: Vec<usize> = parts.iter().map(|group| group.len()).collect();
    assert_eq!(sizes, vec![11, 11, 11, 11, 11, 10, 10]);
}

#[test]
fn groups_are_balanced_and_join_to_the_input() {
    for len in 0..40usize {
        for n in 1..12usize {
            let items: Vec<usize> = (0..len).collect();
            let parts = split_into_n_parts(items.clone(), n);
            assert_eq!(parts.len(), n);
            let total: usize = parts.iter().map(|group| group.len()).sum();
            assert_eq!(total, len);
            let longest = parts.iter().map(|group| group.len()).max().unwrap();
            let shortest = parts.iter().map(|group| group.len()).min().unwrap();
            assert!(longest - shortest <= 1);
            for (i, group) in parts.iter().enumerate() {
                let expected = len / n + if i < len % n { 1 } else { 0 };
                assert_eq!(group.len(), expected);
            }
            let joined: Vec<usize> = parts.into_iter().flatten().collect();
            assert_eq!(joined, items);
        }
    }
}

#[test]
fn items_are_moved_not_copied() {
    let items = vec![String::from("John 3:16"), String::from("Psalm 23:1")];
    let parts = split_into_n_parts(items, 2);
    assert_eq!(parts, vec![vec![String::from("John 3:16")], vec![String::from("Psalm 23:1")]]);
}
