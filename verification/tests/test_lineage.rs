use chariots::runners::RunnerMetaData;
use chariots::signatures::VersionedSignature;
use std::rc::Rc;

fn sig(name: &str, major: usize, minor: usize, patch: usize) -> VersionedSignature {
    VersionedSignature::named(name.to_string(), major, minor, patch)
}

#[test]
fn blank_lineage_has_no_parent_and_no_signature() {
    let blank: Rc<RunnerMetaData<VersionedSignature>> = RunnerMetaData::new();
    assert!(blank.previous_meta_datas().is_empty());
    assert!(blank.last_op_signature().is_none());
    assert!(blank.signatures().is_empty());
    assert_eq!(*blank, RunnerMetaData::default());
}

#[test]
fn signing_leaves_the_parent_as_it_was() {
    let parent = RunnerMetaData::sign(&RunnerMetaData::new(), sig("add1", 0, 1, 0));
    let before = (*parent).clone();
    let first = RunnerMetaData::sign(&parent, sig("add2", 0, 1, 0));
    let second = RunnerMetaData::sign(&parent, sig("sum", 1, 0, 0));
    assert_eq!(*parent, before);
    assert_eq!(parent.last_op_signature(), Some(&sig("add1", 0, 1, 0)));
    assert_eq!(parent.previous_meta_datas().len(), 1);
    assert_eq!(first.previous_meta_datas().len(), 1);
    assert_eq!(first.previous_meta_datas()[0], parent);
    assert_eq!(second.previous_meta_datas()[0], parent);
    assert_eq!(first.last_op_signature(), Some(&sig("add2", 0, 1, 0)));
    assert_eq!(second.last_op_signature(), Some(&sig("sum", 1, 0, 0)));
    assert!(first != second);
    assert!(first != parent);
}

#[test]
fn signing_shares_the_parent_and_copies_nothing() {
    let parent = RunnerMetaData::sign(&RunnerMetaData::new(), sig("add1", 0, 1, 0));
    assert_eq!(Rc::strong_count(&parent), 1);
    let first = RunnerMetaData::sign(&parent, sig("add2", 0, 1, 0));
    let second = RunnerMetaData::sign(&parent, sig("sum", 1, 0, 0));
    assert_eq!(Rc::strong_count(&parent), 3);
    assert!(Rc::ptr_eq(&first.previous_meta_datas()[0], &parent));
    assert!(Rc::ptr_eq(&second.previous_meta_datas()[0], &parent));
    drop(first);
    assert_eq!(Rc::strong_count(&parent), 2);
    drop(second);
    assert_eq!(Rc::strong_count(&parent), 1);
}

#[test]
fn merging_records_both_parents_in_order() {
    let left = RunnerMetaData::sign(&RunnerMetaData::new(), sig("add1", 0, 1, 0));
    let right = RunnerMetaData::sign(&RunnerMetaData::new(), sig("add2", 0, 1, 0));
    let merged = RunnerMetaData::merge(Rc::clone(&left), Rc::clone(&right));
    assert!(merged.last_op_signature().is_none());
    assert_eq!(merged.previous_meta_datas().len(), 2);
    assert!(Rc::ptr_eq(&merged.previous_meta_datas()[0], &left));
    assert!(Rc::ptr_eq(&merged.previous_meta_datas()[1], &right));
    let swapped = RunnerMetaData::merge(Rc::clone(&right), Rc::clone(&left));
    assert!(merged != swapped);
    assert_eq!(merged, RunnerMetaData::merge(left, right));
}

#[test]
fn merging_a_lineage_with_itself_keeps_two_parents() {
    let shared = RunnerMetaData::sign(&RunnerMetaData::new(), sig("add1", 0, 1, 0));
    let merged = RunnerMetaData::merge(Rc::clone(&shared), Rc::clone(&shared));
    assert_eq!(merged.previous_meta_datas().len(), 2);
    assert_eq!(merged.signatures(), vec![&sig("add1", 0, 1, 0), &sig("add1", 0, 1, 0)]);
}

#[test]
fn lineages_are_equal_when_their_graphs_are() {
    let a = RunnerMetaData::sign(&RunnerMetaData::new(), sig("add1", 0, 1, 0));
    let b = RunnerMetaData::sign(&RunnerMetaData::new(), sig("add1", 0, 1, 0));
    assert_eq!(a, b);
    assert!(a != RunnerMetaData::new());
    assert!(a != RunnerMetaData::sign(&RunnerMetaData::new(), sig("add1", 0, 2, 0)));
    assert!(a != RunnerMetaData::sign(&RunnerMetaData::new(), sig("add2", 0, 1, 0)));
    assert!(a != RunnerMetaData::sign(&a, sig("add1", 0, 1, 0)));
    let deep_a = RunnerMetaData::sign(&a, sig("sum", 1, 0, 0));
    let deep_b = RunnerMetaData::sign(&b, sig("sum", 1, 0, 0));
    assert_eq!(deep_a, deep_b);
    let deep_c = RunnerMetaData::sign(&RunnerMetaData::new(), sig("sum", 1, 0, 0));
    assert!(deep_a != deep_c);
}

#[test]
fn signatures_are_listed_in_the_order_they_were_applied() {
    let left = RunnerMetaData::sign(&RunnerMetaData::new(), sig("add1", 0, 1, 0));
    let left = RunnerMetaData::sign(&left, sig("square", 2, 0, 0));
    let right = RunnerMetaData::sign(&RunnerMetaData::new(), sig("add2", 0, 1, 0));
    let merged = RunnerMetaData::merge(left, right);
    let whole = RunnerMetaData::sign(&merged, sig("sum", 0, 1, 0));
    assert_eq!(
        whole.signatures(),
        vec![
            &sig("add1", 0, 1, 0),
            &sig("square", 2, 0, 0),
            &sig("add2", 0, 1, 0),
            &sig("sum", 0, 1, 0)
        ]
    );
}

#[test]
fn cloned_metadata_is_equal_and_shares_its_parents() {
    let parent = RunnerMetaData::sign(&RunnerMetaData::new(), sig("add1", 0, 1, 0));
    let node = RunnerMetaData::sign(&parent, sig("add2", 0, 1, 0));
    let copy: RunnerMetaData<VersionedSignature> = (*node).clone();
    assert_eq!(copy, *node);
    assert!(Rc::ptr_eq(&copy.previous_meta_datas()[0], &parent));
    assert_eq!(copy.last_op_signature(), Some(&sig("add2", 0, 1, 0)));
}
