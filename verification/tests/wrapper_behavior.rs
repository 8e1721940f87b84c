use thisisplural::mappings::{Dictionary, MappingWrapper};
use thisisplural::sequences::SequenceWrapper;

#[test]
fn example() {
    // A wrapper over a sequence of numbers.
    let my_favorite_numbers: SequenceWrapper<u32> = SequenceWrapper::conversion_from_inner(vec![]);

    // Build another wrapper from an iterator over the first one's contents.
    let doubled_numbers: SequenceWrapper<u32> = SequenceWrapper::construction_from_iterator(
        my_favorite_numbers.inner.iter().map(|x| x * 2).collect(),
    );

    // A mapping-shaped wrapper is also supported.
    let favorite_numbers: MappingWrapper<String, SequenceWrapper<u32>> =
        MappingWrapper::construction_from_iterator(vec![
            ("ryo33".to_string(), my_favorite_numbers),
            ("someone".to_string(), doubled_numbers),
        ]);

    // Consume the mapping wrapper entry by entry.
    for (name, numbers) in favorite_numbers.consuming_iteration() {
        println!("{} has {} favorite number(s)", name, numbers.length());
    }
}

#[test]
fn vec_into_iter() {
    assert_eq!(
        SequenceWrapper::conversion_from_inner(vec![1u8, 2]).consuming_iteration(),
        vec![1, 2]
    );
}

#[test]
fn vec_collect() {
    assert_eq!(
        SequenceWrapper::construction_from_iterator(vec![1u8]).conversion_into_inner(),
        vec![1]
    );
}

#[test]
fn vec_into() {
    let vec: Vec<u8> = SequenceWrapper::conversion_from_inner(vec![1u8]).conversion_into_inner();
    assert_eq!(vec, vec![1]);
}

#[test]
fn vec_from() {
    assert_eq!(
        SequenceWrapper::conversion_from_inner(vec![1u8]).conversion_into_inner(),
        vec![1]
    );
}

#[test]
fn vec_extend() {
    let mut src = SequenceWrapper::conversion_from_inner(vec![1u8, 2]);
    src.extension_from_iterator(vec![2, 3]);
    assert_eq!(src.conversion_into_inner(), vec![1, 2, 2, 3]);
}

#[test]
fn hash_map_into_iter() {
    let wrapper = MappingWrapper::construction_from_iterator(vec![(1u8, true), (2u8, false)]);
    let entries = wrapper.consuming_iteration();
    assert_eq!(entries.len(), 2);
    assert!(entries.contains(&(1, true)));
    assert!(entries.contains(&(2, false)));
}

#[test]
fn hash_map_collect() {
    let wrapper = MappingWrapper::construction_from_iterator(vec![(1u8, true)]);
    let inner = wrapper.conversion_into_inner();
    assert_eq!(inner.len(), 1);
    assert_eq!(inner.get(&1), Some(&true));
}

#[test]
fn hash_map_into() {
    let inner =
        MappingWrapper::construction_from_iterator(vec![(1u8, true)]).conversion_into_inner();
    assert_eq!(inner.len(), 1);
    assert_eq!(inner.get(&1), Some(&true));
}

#[test]
fn hash_map_from() {
    let mut built = Dictionary::new();
    built.insert(1u8, true);
    let wrapper = MappingWrapper::conversion_from_inner(built);
    let inner = wrapper.conversion_into_inner();
    assert_eq!(inner.len(), 1);
    assert_eq!(inner.get(&1), Some(&true));
}

#[test]
fn hash_map_extend() {
    let mut src = MappingWrapper::construction_from_iterator(vec![(1u8, true), (2u8, false)]);
    src.extension_from_iterator(vec![(2u8, true), (3u8, false)]);
    let inner = src.conversion_into_inner();
    assert_eq!(inner.len(), 3);
    assert_eq!(inner.get(&1), Some(&true));
    assert_eq!(inner.get(&2), Some(&true));
    assert_eq!(inner.get(&3), Some(&false));
}

#[test]
fn test_hash_set() {
    // A one-argument container is a sequence shape, whatever its name.
    let wrapper = SequenceWrapper::construction_from_iterator(vec![1u8, 2, 3]);
    let out = wrapper.consuming_iteration();
    assert_eq!(out.len(), 3);
    assert!(out.contains(&1));
    assert!(out.contains(&2));
    assert!(out.contains(&3));
}

#[test]
fn test_custom_hash_map() {
    // Aliases resolve to the same shape: arity alone decides.
    let wrapper = MappingWrapper::construction_from_iterator(vec![(1u8, true), (2u8, false)]);
    let entries = wrapper.consuming_iteration();
    assert_eq!(entries.len(), 2);
    assert!(entries.contains(&(1, true)));
    assert!(entries.contains(&(2, false)));
}

#[test]
fn methods() {
    let mut src = SequenceWrapper::conversion_from_inner(vec![1u8, 2]);
    assert_eq!(src.length(), 2);
    assert!(!src.is_empty());
    let _: &u8 = src.iteration_view().next().unwrap();
    src.clear();
    assert_eq!(src.length(), 0);
}

#[test]
fn capacity_and_reserve() {
    let mut numbers = SequenceWrapper::conversion_from_inner(vec![1u8, 2, 3]);
    assert!(numbers.capacity() >= numbers.length());
    numbers.reserve(10);
    assert!(numbers.capacity() >= 13);
    assert_eq!(numbers.conversion_into_inner(), vec![1, 2, 3]);

    let mut registry = MappingWrapper::construction_from_iterator(vec![(1u8, true)]);
    assert!(registry.capacity() >= registry.length());
    registry.reserve(10);
    assert!(registry.capacity() >= 11);
    assert_eq!(registry.conversion_into_inner().get(&1), Some(&true));
}

#[test]
fn numbers_construction_extension_length() {
    let mut numbers: SequenceWrapper<u32> =
        SequenceWrapper::construction_from_iterator(vec![1, 2, 3]);
    numbers.extension_from_iterator(vec![4]);
    assert_eq!(numbers.length(), 4);
}

#[test]
fn registry_single_entry() {
    let numbers: SequenceWrapper<u32> = SequenceWrapper::conversion_from_inner(vec![1]);
    let registry: MappingWrapper<String, SequenceWrapper<u32>> =
        MappingWrapper::construction_from_iterator(vec![("a".to_string(), numbers)]);
    let inner = registry.conversion_into_inner();
    assert_eq!(inner.len(), 1);
    let looked_up = inner.get(&"a".to_string()).unwrap();
    assert_eq!(looked_up.inner, vec![1]);
}

#[test]
fn into_iter_ref() {
    let src = SequenceWrapper::conversion_from_inner(vec![1u8, 2]);
    let _: &u8 = src.iteration_view().next().unwrap();
}
