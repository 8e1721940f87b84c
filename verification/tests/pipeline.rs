use thisisplural::analyzer::analyze;
use thisisplural::descriptor::describe;
use thisisplural::generator::synthesize;
use thisisplural::model::{
    Capability, ContainerShape, Diagnostic, FieldDecl, FieldRef, GenericParam, PathSeg, RecordDecl,
    TypeExpr,
};
use thisisplural::selector::{catalogue_vec, select};

#[test]
fn arity_one_is_sequence() {
    let ty = TypeExpr::Path {
        segments: vec![PathSeg {
            name: "Vec".to_string(),
            arguments: Some(vec!["u8".to_string()]),
        }],
    };
    match analyze(&ty) {
        Ok(ContainerShape::Sequence { element }) => assert_eq!(element, "u8"),
        other => panic!("expected a sequence shape, got {:?}", other),
    }
}

#[test]
fn arity_two_or_more_is_mapping() {
    let two = TypeExpr::Path {
        segments: vec![PathSeg {
            name: "HashMap".to_string(),
            arguments: Some(vec!["K".to_string(), "V".to_string()]),
        }],
    };
    match analyze(&two) {
        Ok(ContainerShape::Mapping { key, value }) => {
            assert_eq!(key, "K");
            assert_eq!(value, "V");
        }
        other => panic!("expected a mapping shape, got {:?}", other),
    }
    // Surplus trailing arguments are ignored: the first two decide.
    let three = TypeExpr::Path {
        segments: vec![PathSeg {
            name: "HashMap".to_string(),
            arguments: Some(vec!["K".to_string(), "V".to_string(), "S".to_string()]),
        }],
    };
    match analyze(&three) {
        Ok(ContainerShape::Mapping { key, value }) => {
            assert_eq!(key, "K");
            assert_eq!(value, "V");
        }
        other => panic!("expected a mapping shape, got {:?}", other),
    }
}

#[test]
fn qualified_path_matches_bare() {
    let qualified = TypeExpr::Path {
        segments: vec![
            PathSeg { name: "std".to_string(), arguments: None },
            PathSeg { name: "collections".to_string(), arguments: None },
            PathSeg {
                name: "HashMap".to_string(),
                arguments: Some(vec!["K".to_string(), "V".to_string()]),
            },
        ],
    };
    let bare = TypeExpr::Path {
        segments: vec![PathSeg {
            name: "HashMap".to_string(),
            arguments: Some(vec!["K".to_string(), "V".to_string()]),
        }],
    };
    match (analyze(&qualified), analyze(&bare)) {
        (
            Ok(ContainerShape::Mapping { key: k1, value: v1 }),
            Ok(ContainerShape::Mapping { key: k2, value: v2 }),
        ) => {
            assert_eq!(k1, k2);
            assert_eq!(v1, v2);
        }
        other => panic!("expected identical mapping shapes, got {:?}", other),
    }
}

#[test]
fn missing_field_is_rejected() {
    let decl = RecordDecl { name: "Empty".to_string(), generics: vec![], fields: vec![] };
    assert!(matches!(describe(decl), Err(Diagnostic::MissingField)));
}

#[test]
fn named_field_is_referenced_by_name() {
    let decl = RecordDecl {
        name: "Registry".to_string(),
        generics: vec![],
        fields: vec![FieldDecl {
            name: Some("table".to_string()),
            ty: TypeExpr::Other { text: "i32".to_string() },
        }],
    };
    let descriptor = describe(decl).unwrap();
    match descriptor.field {
        FieldRef::Named { name } => assert_eq!(name, "table"),
        FieldRef::Positional => panic!("expected a named field reference"),
    }
}

#[test]
fn not_a_container_type_yields_no_units() {
    // A wrapper whose sole field type is a bare non-container type.
    let decl = RecordDecl {
        name: "Scalar".to_string(),
        generics: vec![],
        fields: vec![FieldDecl { name: None, ty: TypeExpr::Other { text: "i32".to_string() } }],
    };
    assert!(matches!(synthesize(decl, vec![]), Err(Diagnostic::NotAContainerType)));
}

#[test]
fn not_generic_is_rejected() {
    // A path type whose final segment has no angle-bracketed arguments.
    let decl = RecordDecl {
        name: "Scalar".to_string(),
        generics: vec![],
        fields: vec![FieldDecl {
            name: None,
            ty: TypeExpr::Path {
                segments: vec![PathSeg { name: "Inner".to_string(), arguments: None }],
            },
        }],
    };
    assert!(matches!(synthesize(decl, vec![]), Err(Diagnostic::NotGeneric)));
}

#[test]
fn empty_arguments_are_rejected() {
    let decl = RecordDecl {
        name: "Strange".to_string(),
        generics: vec![],
        fields: vec![FieldDecl {
            name: None,
            ty: TypeExpr::Path {
                segments: vec![PathSeg { name: "Inner".to_string(), arguments: Some(vec![]) }],
            },
        }],
    };
    assert!(matches!(synthesize(decl, vec![]), Err(Diagnostic::EmptyArguments)));
}

#[test]
fn unknown_capability_is_rejected() {
    let names = vec!["length".to_string(), "frobnicate".to_string()];
    match select(&names) {
        Err(Diagnostic::UnknownCapability { name }) => assert_eq!(name, "frobnicate"),
        other => panic!("expected an unknown-capability diagnostic, got {:?}", other),
    }
}

#[test]
fn selection_picks_exactly_listed() {
    let names = vec!["length".to_string(), "iteration_view".to_string()];
    let selected = select(&names).unwrap();
    assert_eq!(selected, vec![Capability::Length, Capability::IterationView]);
}

#[test]
fn selection_emits_in_catalogue_order_once_each() {
    // Listing order and repetition do not matter: units come in catalogue
    // order, each capability at most once.
    let names = vec![
        "iteration_view".to_string(),
        "length".to_string(),
        "length".to_string(),
    ];
    let selected = select(&names).unwrap();
    assert_eq!(selected, vec![Capability::Length, Capability::IterationView]);
}

#[test]
fn default_set_is_full_catalogue() {
    let selected = select(&vec![]).unwrap();
    assert_eq!(selected, catalogue_vec());
    assert_eq!(selected.len(), 14);
    for (i, a) in selected.iter().enumerate() {
        for b in selected.iter().skip(i + 1) {
            assert_ne!(a, b);
        }
    }
}

#[test]
fn sequence_units_have_exact_text() {
    let decl = RecordDecl {
        name: "Numbers".to_string(),
        generics: vec![],
        fields: vec![FieldDecl {
            name: None,
            ty: TypeExpr::Path {
                segments: vec![PathSeg {
                    name: "Vec".to_string(),
                    arguments: Some(vec!["u32".to_string()]),
                }],
            },
        }],
    };
    let units = synthesize(decl, vec![]).unwrap();
    assert_eq!(units.len(), 14);
    assert_eq!(
        units[0].code,
        "impl From<Vec<u32>> for Numbers<> { fn from(field: Vec<u32>) -> Self { Self(field) } }"
    );
    assert_eq!(
        units[1].code,
        "impl From<Numbers<>> for Vec<u32> { fn from(new_type_instance: Numbers<>) -> Vec<u32> \
         { new_type_instance.0 } }"
    );
    assert_eq!(
        units[2].code,
        "impl IntoIterator for Numbers<> { type Item = u32; type IntoIter = <Vec<u32> as \
         IntoIterator>::IntoIter; fn into_iter(self) -> Self::IntoIter { self.0.into_iter() } }"
    );
    assert_eq!(
        units[3].code,
        "impl<'plural> IntoIterator for &'plural Numbers<> { type Item = &'plural u32; type \
         IntoIter = <&'plural Vec<u32> as IntoIterator>::IntoIter; fn into_iter(self) -> \
         Self::IntoIter { self.0.iter() } }"
    );
    assert_eq!(
        units[4].code,
        "impl core::iter::FromIterator<u32> for Numbers<> { fn from_iter<I: \
         IntoIterator<Item = u32>>(iter: I) -> Self { Self(iter.into_iter().collect()) } }"
    );
    assert_eq!(
        units[5].code,
        "impl core::iter::Extend<u32> for Numbers<> { fn extend<I: IntoIterator<Item = \
         u32>>(&mut self, iter: I) { self.0.extend(iter) } }"
    );
    assert_eq!(
        units[6].code,
        "impl Numbers<> { pub fn len(&self) -> usize { self.0.len() } }"
    );
    assert_eq!(
        units[7].code,
        "impl Numbers<> { pub fn is_empty(&self) -> bool { self.0.is_empty() } }"
    );
    assert_eq!(
        units[8].code,
        "impl Numbers<> { pub fn capacity(&self) -> usize { self.0.capacity() } }"
    );
    assert_eq!(
        units[9].code,
        "impl Numbers<> { pub fn reserve(&mut self, additional: usize) { \
         self.0.reserve(additional) } }"
    );
    assert_eq!(
        units[10].code,
        "impl Numbers<> { pub fn clear(&mut self) { self.0.clear() } }"
    );
    assert_eq!(
        units[11].code,
        "impl Numbers<> { pub fn new() -> Self { Self { 0: <Vec<u32>>::new() } } }"
    );
    assert_eq!(
        units[12].code,
        "impl Numbers<> { pub fn with_capacity(capacity: usize) -> Self { Self { 0: \
         <Vec<u32>>::with_capacity(capacity) } } }"
    );
    assert_eq!(
        units[13].code,
        "impl Numbers<> { pub fn iter(&self) -> impl Iterator<Item = &u32> { self.0.iter() } \
         pub fn iter_mut(&mut self) -> impl Iterator<Item = &mut u32> { self.0.iter_mut() } }"
    );
}

#[test]
fn vec_supports_trait_bound() {
    // struct VecTuple<'a, T, const N: usize>(Vec<[&'a T; N]>);
    let decl = RecordDecl {
        name: "VecTuple".to_string(),
        generics: vec![
            GenericParam::Lifetime { ident: "a".to_string(), bounds: String::new() },
            GenericParam::Type { ident: "T".to_string(), bounds: String::new() },
            GenericParam::Const { ident: "N".to_string(), ty: "usize".to_string() },
        ],
        fields: vec![FieldDecl {
            name: None,
            ty: TypeExpr::Path {
                segments: vec![PathSeg {
                    name: "Vec".to_string(),
                    arguments: Some(vec!["[&'a T; N]".to_string()]),
                }],
            },
        }],
    };
    let units = synthesize(decl, vec![]).unwrap();
    assert_eq!(units.len(), 14);
    assert_eq!(
        units[3].code,
        "impl<'plural, 'a, T, const N: usize> IntoIterator for &'plural VecTuple<'a, T, N> { \
         type Item = &'plural [&'a T; N]; type IntoIter = <&'plural Vec<[&'a T; N]> as \
         IntoIterator>::IntoIter; fn into_iter(self) -> Self::IntoIter { self.0.iter() } }"
    );
}

#[test]
fn hash_map_supports_trait_bounds() {
    // struct VecTuple<K: Eq + std::hash::Hash, V>(HashMap<K, V>);
    let decl = RecordDecl {
        name: "VecTuple".to_string(),
        generics: vec![
            GenericParam::Type {
                ident: "K".to_string(),
                bounds: "Eq + std::hash::Hash".to_string(),
            },
            GenericParam::Type { ident: "V".to_string(), bounds: String::new() },
        ],
        fields: vec![FieldDecl {
            name: None,
            ty: TypeExpr::Path {
                segments: vec![PathSeg {
                    name: "HashMap".to_string(),
                    arguments: Some(vec!["K".to_string(), "V".to_string()]),
                }],
            },
        }],
    };
    let units = synthesize(decl, vec![]).unwrap();
    assert_eq!(units.len(), 14);
    assert_eq!(
        units[5].code,
        "impl<K: Eq + std::hash::Hash, V> core::iter::Extend<(K, V)> for VecTuple<K, V> { fn \
         extend<I: IntoIterator<Item = (K, V)>>(&mut self, iter: I) { self.0.extend(iter) } }"
    );
}

#[test]
fn named_field_units_use_the_name() {
    let decl = RecordDecl {
        name: "Registry".to_string(),
        generics: vec![],
        fields: vec![FieldDecl {
            name: Some("table".to_string()),
            ty: TypeExpr::Path {
                segments: vec![PathSeg {
                    name: "HashMap".to_string(),
                    arguments: Some(vec!["String".to_string(), "u32".to_string()]),
                }],
            },
        }],
    };
    let units = synthesize(decl, vec!["length".to_string()]).unwrap();
    assert_eq!(units.len(), 1);
    assert_eq!(units[0].capability, Capability::Length);
    assert_eq!(
        units[0].code,
        "impl Registry<> { pub fn len(&self) -> usize { self.table.len() } }"
    );
}

#[test]
fn mapping_item_shapes_pair_key_and_value() {
    let decl = RecordDecl {
        name: "Registry".to_string(),
        generics: vec![],
        fields: vec![FieldDecl {
            name: None,
            ty: TypeExpr::Path {
                segments: vec![PathSeg {
                    name: "HashMap".to_string(),
                    arguments: Some(vec!["String".to_string(), "u32".to_string()]),
                }],
            },
        }],
    };
    let units = synthesize(decl, vec!["iteration_view".to_string()]).unwrap();
    assert_eq!(units.len(), 1);
    // The reference form pairs borrowed key and value; the mutable form never
    // exposes the key mutably.
    assert_eq!(
        units[0].code,
        "impl Registry<> { pub fn iter(&self) -> impl Iterator<Item = (&String, &u32)> { \
         self.0.iter() } pub fn iter_mut(&mut self) -> impl Iterator<Item = (&String, &mut \
         u32)> { self.0.iter_mut() } }"
    );
}
