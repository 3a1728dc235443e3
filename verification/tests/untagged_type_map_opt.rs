use std::fmt;
use std::ops::Deref;

use type_reg::common::UnknownEntriesSome;
use type_reg::handles::SerializeRef;
use type_reg::untagged::{
    BoxDataTypeDowncast, BoxDt, BoxDtDisplay, DataTypeWrapper, StoredType, TypeMapOpt,
};
use type_reg::TypeNameLit;

#[derive(Clone, Copy, Debug, PartialEq)]
struct A(u32);

impl serde::Serialize for A {
    fn serialize<S>(&self, serializer: S) -> Result<S::Ok, S::Error>
    where
        S: serde::Serializer,
    {
        serializer.serialize_newtype_struct("A", &self.0)
    }
}

impl StoredType for A {
    const TYPE_NAME: &'static str = "type_reg::untagged::type_map_opt::tests::A";

    fn type_name_lit() -> TypeNameLit {
        TypeNameLit("type_reg::untagged::type_map_opt::tests::A")
    }

    fn as_serialize(&self) -> SerializeRef<'_> {
        SerializeRef(self)
    }
}

#[derive(Clone, Copy, Debug, PartialEq)]
struct ADisplay(u32);

impl fmt::Display for ADisplay {
    fn fmt(&self, f: &mut fmt::Formatter<'_>) -> fmt::Result {
        self.0.fmt(f)
    }
}

impl serde::Serialize for ADisplay {
    fn serialize<S>(&self, serializer: S) -> Result<S::Ok, S::Error>
    where
        S: serde::Serializer,
    {
        serializer.serialize_newtype_struct("ADisplay", &self.0)
    }
}

impl StoredType for ADisplay {
    const TYPE_NAME: &'static str = "type_reg::untagged::type_map_opt::tests::ADisplay";

    fn type_name_lit() -> TypeNameLit {
        TypeNameLit("type_reg::untagged::type_map_opt::tests::ADisplay")
    }

    fn as_serialize(&self) -> SerializeRef<'_> {
        SerializeRef(self)
    }
}

fn key(k: &str) -> String {
    String::from(k)
}

#[test]
fn type_map_opt_serialize() {
    let mut type_map = TypeMapOpt::new();
    type_map.insert(key("one"), Some(1u32));
    type_map.insert(key("two"), None::<u64>);
    type_map.insert(key("three"), Some(A(3)));

    let mut serialized = String::new();
    for i in 0..type_map.len() {
        let k = type_map.deref().key_at(i);
        let v = match type_map.deref().value_at(i) {
            Some(boxed) => serde_yaml::to_string(boxed.inner().0),
            None => serde_yaml::to_string(&None::<()>),
        }
        .expect("Failed to serialize `type_map`.");
        serialized.push_str(&format!("{k}: {v}"));
    }
    let expected = r#"one: 1
two: null
three: 3
"#
    .to_string();
    assert_eq!(expected, serialized);
}

#[test]
fn type_map_opt_clone() {
    let mut type_map = TypeMapOpt::new();
    type_map.insert(key("one"), Some(A(1)));

    let mut type_map_clone = type_map.clone();
    type_map_clone.insert(key("one"), Some(A(2)));

    assert_eq!(Some(Some(&A(1))), type_map.get("one"));
    assert_eq!(Some(Some(&A(2))), type_map_clone.get("one"));
}

#[test]
fn type_map_opt_into_inner() {
    let mut type_map = TypeMapOpt::new();
    type_map.insert(key("one"), Some(A(1)));

    let index_map = type_map.into_inner();

    assert!(index_map.get("one").is_some());
}

#[test]
fn type_map_opt_debug() {
    let mut type_map = TypeMapOpt::new();
    type_map.insert(key("one"), Some(A(1)));
    type_map.insert(key("two"), None::<u64>);

    assert_eq!(
        "{\
            \"one\": Some(TypedValue { \
                type: \"type_reg::untagged::type_map_opt::tests::A\", \
                value: \"..\" \
            }), \
            \"two\": None\
        }",
        type_map.to_debug_string()
    );
}

#[test]
fn type_map_opt_debug_with_unknown_entries_some() {
    let mut type_map = TypeMapOpt::<BoxDt, UnknownEntriesSome<()>>::default();
    type_map.insert(key("one"), Some(A(1)));
    type_map.insert(key("two"), None::<u64>);

    assert_eq!(
        "TypeMapOpt { \
            inner: {\
                \"one\": Some(TypedValue { \
                    type: \"type_reg::untagged::type_map_opt::tests::A\", \
                    value: \"..\" \
                }), \
                \"two\": None\
            }, \
            unknown_entries: {} \
        }",
        type_map.to_debug_string()
    );
}

#[test]
fn type_map_opt_into_inner_unknown_entries_none() {
    let mut type_map = TypeMapOpt::new();
    type_map.insert(key("one"), Some(A(1)));
    type_map.insert(key("two"), None::<u64>);

    let mut inner = type_map.into_inner();
    let one = inner.get_mut("one").map(|box_dt_opt| {
        box_dt_opt
            .as_mut()
            .and_then(BoxDataTypeDowncast::<A>::downcast_mut)
            .copied()
    });
    let two = inner.get_mut("two").map(|box_dt_opt| {
        box_dt_opt
            .as_mut()
            .and_then(BoxDataTypeDowncast::<u64>::downcast_mut)
            .copied()
    });

    assert_eq!(Some(Some(A(1))), one);
    assert_eq!(Some(None::<u64>), two);
}

#[test]
fn type_map_opt_into_inner_unknown_entries_some() {
    let mut type_map = TypeMapOpt::<BoxDt, UnknownEntriesSome<()>>::default();
    type_map.insert(key("one"), Some(A(1)));
    type_map.insert(key("two"), None::<u64>);

    let (mut inner, unknown_entries) = type_map.into_inner();
    let one = inner.get_mut("one").map(|box_dt_opt| {
        box_dt_opt
            .as_mut()
            .and_then(BoxDataTypeDowncast::<A>::downcast_mut)
            .copied()
    });
    let two = inner.get_mut("two").map(|box_dt_opt| {
        box_dt_opt
            .as_mut()
            .and_then(BoxDataTypeDowncast::<u64>::downcast_mut)
            .copied()
    });

    assert_eq!(Some(Some(A(1))), one);
    assert_eq!(Some(None::<u64>), two);
    assert!(unknown_entries.is_empty());
}

#[test]
fn type_map_opt_get_mut() {
    let mut type_map = TypeMapOpt::new();
    type_map.insert(key("one"), Some(A(1)));
    type_map.insert(key("two"), Some(ADisplay(2)));
    type_map.insert(key("three"), None::<u64>);

    let one = type_map.get_mut::<A>("one").map(Option::<&mut _>::copied);
    let two = type_map
        .get_mut::<ADisplay>("two")
        .map(Option::<&mut _>::copied);
    let three = type_map
        .get_mut::<u64>("three")
        .map(Option::<&mut _>::copied);
    let four = type_map.get_mut::<u32>("four").map(Option::<&mut _>::copied);

    assert_eq!(Some(Some(A(1))), one);
    assert_eq!(Some(Some(ADisplay(2))), two);
    assert_eq!(Some(None::<u64>), three);
    assert_eq!(None, four);
}

#[test]
fn type_map_opt_get_raw() {
    let mut type_map = TypeMapOpt::new();
    type_map.insert(key("one"), Some(1u32));
    let boxed_one_opt = type_map.get_raw("one");

    let one = boxed_one_opt.map(|boxed_one| {
        boxed_one
            .and_then(BoxDataTypeDowncast::<u32>::downcast_ref)
            .copied()
    });

    assert_eq!(Some(Some(1)), one);
}

#[test]
fn type_map_opt_get_raw_mut() {
    let mut type_map = TypeMapOpt::new();
    type_map.insert(key("one"), Some(1u32));

    let boxed_one_opt = type_map.get_raw_mut("one");
    let one = boxed_one_opt.map(|boxed_one| {
        boxed_one
            .as_mut()
            .and_then(BoxDataTypeDowncast::<u32>::downcast_mut)
    });
    assert_eq!(Some(Some(1).as_mut()), one);

    if let Some(Some(one)) = one {
        *one += 1;
    }

    let one_plus_one = type_map
        .get::<u32>("one")
        .map(|one_plus_one| one_plus_one.copied());
    assert_eq!(Some(Some(2)), one_plus_one);
}

#[test]
fn type_map_opt_with_capacity() {
    let type_map = TypeMapOpt::<BoxDt>::default();
    assert_eq!(0, type_map.capacity());

    let type_map = TypeMapOpt::with_capacity(5);
    assert!(type_map.capacity() >= 5);
}

#[test]
fn type_map_opt_deref_mut() {
    let mut type_map = TypeMapOpt::new();
    type_map.insert(key("one"), Some(A(1)));

    if type_map.len() > 0 {
        if let Some(v) = type_map.deref_mut().value_at_mut(0) {
            if let Some(a) = BoxDataTypeDowncast::<A>::downcast_mut(v) {
                a.0 = 2;
            }
        }
    };

    let one_plus_one = type_map
        .get::<A>("one")
        .map(|one_plus_one| one_plus_one.copied());
    assert_eq!(Some(Some(A(2))), one_plus_one);
}

#[test]
fn type_map_opt_display() {
    let mut type_map = TypeMapOpt::<BoxDtDisplay>::new_typed();
    type_map.insert(key("one"), Some(ADisplay(1)));

    let mut formatted = String::with_capacity(64);
    for i in 0..type_map.len() {
        let k = type_map.deref().key_at(i);
        if let Some(v) = type_map.deref().value_at(i) {
            let v = v.to_string();
            formatted.push_str(&format!("{k}: {v}"));
        }
    }

    assert_eq!("one: 1", formatted);
}

#[test]
fn type_map_opt_tells_an_absent_key_from_an_absent_value() {
    let mut type_map = TypeMapOpt::new();
    type_map.insert(key("one"), Some(1u32));
    type_map.insert(key("two"), None::<u32>);

    assert_eq!(Some(Some(&1u32)), type_map.get::<u32>("one"));
    assert_eq!(Some(None), type_map.get::<u64>("one"));
    assert_eq!(Some(None), type_map.get::<u32>("two"));
    assert_eq!(None, type_map.get::<u32>("three"));
    assert!(type_map.get_raw("three").is_none());
    assert!(type_map.get_raw("two").unwrap().is_none());
}

#[test]
fn type_map_opt_insert_returns_the_slot_it_replaces() {
    let mut type_map = TypeMapOpt::new();

    assert!(type_map.insert(key("one"), None::<u32>).is_none());
    let old = type_map.insert(key("one"), Some(2u32));
    assert!(matches!(old, Some(None)));
    let old = type_map.insert_raw(key("one"), None);
    assert_eq!(
        Some(Some(2u32)),
        old.map(|slot| slot
            .as_ref()
            .and_then(BoxDataTypeDowncast::<u32>::downcast_ref)
            .copied())
    );
    assert_eq!(1, type_map.len());
}

#[test]
fn type_map_opt_unknown_entries_tell_null_from_absent() {
    let mut type_map = TypeMapOpt::<BoxDt, UnknownEntriesSome<u8>>::new_typed();
    assert!(type_map.insert_unknown_entry(key("five"), None).is_none());
    assert!(type_map.insert_unknown_entry(key("two"), Some(2)).is_none());

    assert_eq!(Some(None), type_map.get_unknown_entry("five"));
    assert_eq!(Some(Some(&2)), type_map.get_unknown_entry("two"));
    assert_eq!(None, type_map.get_unknown_entry("six"));
    assert_eq!(2, type_map.unknown_entries().len());
    assert_eq!(
        "TypeMapOpt { inner: {}, unknown_entries: {\"five\": None, \"two\": Some(2)} }",
        type_map.to_debug_string()
    );

    let copy = type_map.clone();
    assert_eq!(Some(Some(&2)), copy.get_unknown_entry("two"));
}
