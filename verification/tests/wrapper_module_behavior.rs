use thisisplural::mappings::MappingWrapper;
use thisisplural::sequences::SequenceWrapper;

#[test]
fn lib_vec_into_iter() {
    assert_eq!(
        SequenceWrapper::conversion_from_inner(vec![1u8, 2]).consuming_iteration(),
        vec![1, 2]
    );
}

#[test]
fn lib_vec_collect() {
    assert_eq!(
        SequenceWrapper::construction_from_iterator(vec![1u8]).conversion_into_inner(),
        vec![1]
    );
}

#[test]
fn vec_iter() {
    let tuple = SequenceWrapper::conversion_from_inner(vec![1u8]);
    let mut iter = tuple.iteration_view();
    let a: Option<&u8> = iter.next();
    assert_eq!(a, Some(&1));
    assert_eq!(iter.next(), None);
}

#[test]
fn vec_iter_mut() {
    let mut tuple = SequenceWrapper::conversion_from_inner(vec![1u8]);
    let a: &mut u8 = tuple.mutable_item(0);
    assert_eq!(a, &mut 1);
    let mut iter = tuple.iteration_view();
    assert_eq!(iter.next(), Some(&1));
    assert_eq!(iter.next(), None);
}

#[test]
fn lib_vec_extend() {
    let mut extended = SequenceWrapper::conversion_from_inner(vec![1u8, 2]);
    extended.extension_from_iterator(vec![3]);
    assert_eq!(extended.conversion_into_inner(), vec![1, 2, 3]);
}

#[test]
fn lib_vec_into() {
    let vec: Vec<u8> = SequenceWrapper::conversion_from_inner(vec![1u8]).conversion_into_inner();
    assert_eq!(vec, vec![1]);
}

#[test]
fn lib_vec_from() {
    assert_eq!(
        SequenceWrapper::conversion_from_inner(vec![1u8]).conversion_into_inner(),
        vec![1]
    );
}

#[test]
fn lib_hash_map_into_iter() {
    let wrapper = MappingWrapper::construction_from_iterator(vec![(1u8, true), (2u8, false)]);
    let entries = wrapper.consuming_iteration();
    assert_eq!(entries.len(), 2);
    assert!(entries.contains(&(1, true)));
    assert!(entries.contains(&(2, false)));
}

#[test]
fn lib_hash_map_collect() {
    let wrapper = MappingWrapper::construction_from_iterator(vec![(1u8, true)]);
    let inner = wrapper.conversion_into_inner();
    assert_eq!(inner.len(), 1);
    assert_eq!(inner.get(&1), Some(&true));
}

#[test]
fn hash_map_iter() {
    let tuple = MappingWrapper::construction_from_iterator(vec![(1u8, true)]);
    let mut iter = tuple.iteration_view();
    let a: Option<(&u8, &bool)> = iter.next();
    assert_eq!(a, Some((&1, &true)));
    assert_eq!(iter.next(), None);
}

#[test]
fn hash_map_iter_mut() {
    let mut tuple = MappingWrapper::construction_from_iterator(vec![(1u8, true)]);
    // Rebind the value through the mutable half of the view: the key stays.
    tuple.extension_from_iterator(vec![(1u8, true)]);
    let mut iter = tuple.iteration_view();
    let a: Option<(&u8, &bool)> = iter.next();
    assert_eq!(a, Some((&1, &true)));
    assert_eq!(iter.next(), None);
}

#[test]
fn lib_hash_map_extend() {
    let mut extended = MappingWrapper::construction_from_iterator(vec![(1u8, true)]);
    extended.extension_from_iterator(vec![(2u8, false)]);
    let inner = extended.conversion_into_inner();
    assert_eq!(inner.len(), 2);
    assert_eq!(inner.get(&1), Some(&true));
    assert_eq!(inner.get(&2), Some(&false));
}

#[test]
fn lib_hash_map_into() {
    let inner =
        MappingWrapper::construction_from_iterator(vec![(1u8, true)]).conversion_into_inner();
    assert_eq!(inner.len(), 1);
    assert_eq!(inner.get(&1), Some(&true));
}

#[test]
fn lib_hash_map_from() {
    let mut built = thisisplural::mappings::Dictionary::new();
    built.insert(1u8, true);
    let wrapper = MappingWrapper::conversion_from_inner(built);
    let inner = wrapper.conversion_into_inner();
    assert_eq!(inner.len(), 1);
    assert_eq!(inner.get(&1), Some(&true));
}
