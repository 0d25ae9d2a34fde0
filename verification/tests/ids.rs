use apis::ids::{contains_duplicate, contains_id, same_elements, share_element};

#[test]
fn ids_duplicates() {
    assert!(!contains_duplicate(&vec![]));
    assert!(!contains_duplicate(&vec![3, 1, 2]));
    assert!(contains_duplicate(&vec![3, 1, 3]));
    assert!(contains_duplicate(&vec![0, 0]));
}

#[test]
fn ids_shared_and_contained() {
    assert!(!share_element(&vec![0, 1], &vec![2, 3]));
    assert!(share_element(&vec![0, 1], &vec![2, 1]));
    assert!(!share_element(&vec![], &vec![2, 1]));
    assert!(contains_id(&vec![4, 5], 5));
    assert!(!contains_id(&vec![4, 5], 6));
}

#[test]
fn ids_same_elements() {
    assert!(same_elements(&vec![2, 0, 1], &vec![0, 1, 2]));
    assert!(!same_elements(&vec![2, 0], &vec![0, 1, 2]));
    assert!(!same_elements(&vec![2, 0, 1], &vec![0, 1]));
    assert!(same_elements(&vec![], &vec![]));
}
