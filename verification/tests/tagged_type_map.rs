use type_reg::common::UnknownEntriesSome;
use type_reg::handles::SerializeRef;
use type_reg::tagged::TypeMap;
use type_reg::untagged::{BoxDataTypeDowncast, BoxDt, DataTypeWrapper, StoredType};
use type_reg::TypeNameLit;

#[derive(Clone, Copy, Debug, PartialEq)]
struct A(u32);

impl serde::Serialize for A {
    fn serialize<S>(&self, serializer: S) -> Result<S::Ok, S::Error>
    where
        S: serde::Serializer,
    {
        serializer.serialize_newtype_struct("A", &self.0)
    }
}

impl StoredType for A {
    const TYPE_NAME: &'static str = "type_reg::tagged::type_map::tests::A";

    fn type_name_lit() -> TypeNameLit {
        TypeNameLit("type_reg::tagged::type_map::tests::A")
    }

    fn as_serialize(&self) -> SerializeRef<'_> {
        SerializeRef(self)
    }
}

// A boxed value written as a map from its tag to the value.
struct Tagged<'a>(&'a BoxDt);

impl<'a> serde::Serialize for Tagged<'a> {
    fn serialize<S>(&self, serializer: S) -> Result<S::Ok, S::Error>
    where
        S: serde::Serializer,
    {
        serde_tagged::ser::external::serialize(
            serializer,
            self.0.type_name_lit().0,
            &serde_tagged::util::erased::SerializeErased(self.0.inner().0),
        )
    }
}

fn key(k: &str) -> String {
    String::from(k)
}

#[test]
fn tagged_type_map_serialize() {
    let mut type_map = TypeMap::new();
    type_map.insert(key("one"), 1u32);
    type_map.insert(key("two"), 2u64);
    type_map.insert(key("three"), A(3));

    let mut mapping = serde_yaml::Mapping::new();
    for i in 0..type_map.len() {
        mapping.insert(
            serde_yaml::Value::String(type_map.key_at(i).clone()),
            serde_yaml::to_value(Tagged(type_map.value_at(i)))
                .expect("Failed to serialize `type_map`."),
        );
    }
    let serialized = serde_yaml::to_string(&mapping).expect("Failed to serialize `type_map`.");
    let expected = r#"one:
  u32: 1
two:
  u64: 2
three:
  type_reg::tagged::type_map::tests::A: 3
"#
    .to_string();
    assert_eq!(expected, serialized);
}

#[test]
fn tagged_type_map_clone() {
    let mut type_map = TypeMap::new();
    type_map.insert(key("one"), A(1));

    let mut type_map_clone = type_map.clone();
    type_map_clone.insert(key("one"), A(2));

    assert_eq!(Some(A(1)), type_map.get("one").copied());
    assert_eq!(Some(A(2)), type_map_clone.get("one").copied());
}

#[test]
fn tagged_type_map_debug() {
    let mut type_map = TypeMap::new();
    type_map.insert(key("one"), A(1));

    assert_eq!(
        r#"{"one": TypedValue { type: "type_reg::tagged::type_map::tests::A", value: ".." }}"#,
        type_map.to_debug_string()
    );
}

#[test]
fn tagged_type_map_debug_with_unknown_entries_some() {
    let mut type_map = TypeMap::<UnknownEntriesSome<()>>::default();
    type_map.insert(key("one"), A(1));

    assert_eq!(
        "TypeMap { \
            inner: {\
                \"one\": TypedValue { type: \"type_reg::tagged::type_map::tests::A\", value: \"..\" }}, \
            unknown_entries: {} \
        }",
        type_map.to_debug_string()
    );
}

#[test]
fn tagged_type_map_into_inner_unknown_entries_none() {
    let mut type_map = TypeMap::new();
    type_map.insert(key("one"), A(1));

    let mut inner = type_map.into_inner();
    let one = inner
        .get_mut("one")
        .and_then(BoxDataTypeDowncast::<A>::downcast_mut)
        .copied();

    assert_eq!(Some(A(1)), one);
}

#[test]
fn tagged_type_map_into_inner_unknown_entries_some() {
    let mut type_map = TypeMap::<UnknownEntriesSome<()>>::default();
    type_map.insert(key("one"), A(1));

    let (mut inner, unknown_entries) = type_map.into_inner();
    let one = inner
        .get_mut("one")
        .and_then(BoxDataTypeDowncast::<A>::downcast_mut)
        .copied();

    assert_eq!(Some(A(1)), one);
    assert!(unknown_entries.is_empty());
}

#[test]
fn tagged_type_map_get_mut() {
    let mut type_map = TypeMap::new();
    type_map.insert(key("one"), A(1));

    let one = type_map.get_mut::<A>("one").copied();
    let two = type_map.get_mut::<A>("two").copied();
    let three = type_map.get_mut::<u32>("one").copied();

    assert_eq!(Some(A(1)), one);
    assert_eq!(None, two);
    assert_eq!(None, three);
}

#[test]
fn tagged_type_map_with_capacity() {
    let type_map = TypeMap::<type_reg::common::UnknownEntriesNone>::default();
    assert_eq!(0, type_map.capacity());

    let type_map = TypeMap::with_capacity(5);
    assert!(type_map.capacity() >= 5);
}

#[test]
fn tagged_type_map_insert_raw_returns_the_value_it_replaces() {
    let mut type_map = TypeMap::new();
    assert!(type_map.insert_raw(key("one"), BoxDt::new(1u8)).is_none());
    let old = type_map.insert_raw(key("one"), BoxDt::new(2u16));

    assert_eq!(
        Some(1u8),
        old.as_ref()
            .and_then(BoxDataTypeDowncast::<u8>::downcast_ref)
            .copied()
    );
    assert_eq!(Some(&2u16), type_map.get::<u16>("one"));
    assert_eq!(None, type_map.get::<u8>("one"));
    assert_eq!(1, type_map.len());
}
