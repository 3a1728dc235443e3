use std::fmt;

use serde::de::MapAccess;
use serde_tagged::de::{BoxFnSeed, SeedFactory};
use type_reg::common::UnknownEntries;
use type_reg::handles::SerializeRef;
use type_reg::tagged::{TypeMap, TypeMapVisitor, TypeReg};
use type_reg::untagged::{BoxDataTypeDowncast, BoxDt, DataTypeWrapper, StoredType};
use type_reg::TypeNameLit;

#[derive(Clone, Copy, Debug, PartialEq)]
struct A(u32);

impl serde::Serialize for A {
    fn serialize<S>(&self, serializer: S) -> Result<S::Ok, S::Error>
    where
        S: serde::Serializer,
    {
        serializer.serialize_newtype_struct("A", &self.0)
    }
}

impl<'de> serde::Deserialize<'de> for A {
    fn deserialize<D>(deserializer: D) -> Result<Self, D::Error>
    where
        D: serde::Deserializer<'de>,
    {
        <u32 as serde::Deserialize>::deserialize(deserializer).map(A)
    }
}

impl StoredType for A {
    const TYPE_NAME: &'static str = "type_reg::tagged::type_reg::tests::A";

    fn type_name_lit() -> TypeNameLit {
        TypeNameLit("type_reg::tagged::type_reg::tests::A")
    }

    fn as_serialize(&self) -> SerializeRef<'_> {
        SerializeRef(self)
    }
}

// What reads tagged values with a visitor of the library: the tag, then the
// value with the seed that the visitor answers the tag with.

struct Tagged<'v, 'r, U>(&'v TypeMapVisitor<'r, U>);

impl<'de, 'v, 'r, U> SeedFactory<'de, String> for Tagged<'v, 'r, U> {
    type Seed = &'r BoxFnSeed<BoxDt>;
    type Value = BoxDt;

    fn seed<E>(self, type_tag: String) -> Result<Self::Seed, E>
    where
        E: serde::de::Error,
    {
        self.0.seed(&type_tag).map_err(|error| E::custom(error.to_string()))
    }
}

impl<'de, 'v, 'r, U> serde::de::DeserializeSeed<'de> for Tagged<'v, 'r, U> {
    type Value = BoxDt;

    fn deserialize<D>(self, deserializer: D) -> Result<Self::Value, D::Error>
    where
        D: serde::Deserializer<'de>,
    {
        serde_tagged::de::external::deserialize(deserializer, self)
    }
}

struct ReadMap<'r, U>(TypeMapVisitor<'r, U>);

impl<'de, 'r, U> serde::de::Visitor<'de> for ReadMap<'r, U>
where
    U: UnknownEntries,
{
    type Value = TypeMap<U>;

    fn expecting(&self, f: &mut fmt::Formatter) -> fmt::Result {
        f.write_str("a map of arbitrary data types")
    }

    fn visit_map<M>(self, mut map_access: M) -> Result<Self::Value, M::Error>
    where
        M: MapAccess<'de>,
    {
        let mut type_map = self.0.begin(map_access.size_hint());
        while let Some(key) = map_access.next_key::<String>()? {
            let value = map_access.next_value_seed(Tagged(&self.0))?;
            self.0.accept(&mut type_map, key, value);
        }
        Ok(type_map)
    }
}

fn read_map<'de, U, D>(type_reg: &TypeReg<U>, deserializer: D) -> Result<TypeMap<U>, D::Error>
where
    U: UnknownEntries,
    D: serde::Deserializer<'de>,
{
    deserializer.deserialize_map(ReadMap(type_reg.deserialize_map()))
}

fn read_single<'de, U, D>(type_reg: &TypeReg<U>, deserializer: D) -> Result<BoxDt, D::Error>
where
    D: serde::Deserializer<'de>,
{
    serde_tagged::de::external::deserialize(deserializer, Tagged(&type_reg.deserialize_map()))
}

#[test]
fn tagged_type_reg_deserialize_single() {
    let mut type_reg = TypeReg::new();
    type_reg.register::<u32>();

    let deserializer = serde_yaml::Deserializer::from_str("u32: 1");
    let data_u32 = read_single(&type_reg, deserializer).unwrap();
    let data_u32 = BoxDataTypeDowncast::<u32>::downcast_ref(&data_u32).copied();

    assert_eq!(Some(1), data_u32);
}

#[test]
fn tagged_type_reg_deserialize_map() {
    let mut type_reg = TypeReg::new();
    type_reg.register::<u32>();
    type_reg.register::<u64>();
    type_reg.register::<A>();

    let serialized = "---\n\
        one:   { u32: 1 }\n\
        two:   { u64: 2 }\n\
        three: { 'type_reg::tagged::type_reg::tests::A': 3 }\n\
        ";

    let deserializer = serde_yaml::Deserializer::from_str(serialized);
    let type_map: TypeMap = read_map(&type_reg, deserializer).unwrap();

    let data_u32 = type_map.get::<u32>("one").copied();
    let data_u64 = type_map.get::<u64>("two").copied();
    let data_a = type_map.get::<A>("three").copied();

    assert_eq!(Some(1u32), data_u32);
    assert_eq!(Some(2u64), data_u64);
    assert_eq!(Some(A(3)), data_a);
}

#[test]
fn deserialize_has_good_error_message() {
    let mut type_reg = TypeReg::new();
    type_reg.register::<u32>();
    type_reg.register::<A>();

    let deserializer = serde_yaml::Deserializer::from_str("u64: 2");
    if let Err(error) = read_single(&type_reg, deserializer) {
        assert_eq!(
            r#"Type `"u64"` not registered in type registry.
Available types are:

- "u32"
- "type_reg::tagged::type_reg::tests::A"

"#,
            format!("{error}")
        );
    } else {
        panic!("Expected `deserialize_single` to return error.");
    }
}

#[test]
fn tagged_type_reg_deref_mut() {
    let mut type_reg = TypeReg::new();
    assert!(type_reg.deref_mut().get_mut("u32").is_none());
    type_reg.register::<u32>();
    assert!(type_reg.deref_mut().get_mut("u32").is_some());
    assert!(type_reg.contains_key("u32"));
}

#[test]
fn tagged_last_registration_of_a_type_wins() {
    let mut type_reg = TypeReg::new();
    type_reg.register::<u32>();
    type_reg.register::<A>();
    type_reg.register::<u32>();

    assert_eq!(2, type_reg.len());
    let deserializer = serde_yaml::Deserializer::from_str("u32: 1");
    let value = read_single(&type_reg, deserializer).unwrap();
    assert_eq!(Some(&1u32), BoxDataTypeDowncast::<u32>::downcast_ref(&value));
}

#[test]
fn tagged_type_reg_with_capacity() {
    let type_reg = TypeReg::new();
    assert_eq!(0, type_reg.capacity());

    let type_reg = TypeReg::with_capacity(5);
    assert!(type_reg.capacity() >= 5);
}

#[test]
fn tagged_type_reg_debug() {
    let mut type_reg = TypeReg::new();
    type_reg.register::<A>();

    assert_eq!(
        r#"{"type_reg::tagged::type_reg::tests::A": ".."}"#,
        type_reg.to_debug_string()
    );
}

#[test]
fn tagged_register_answers_with_the_tag_and_keeps_the_place_of_a_type() {
    let mut type_reg = TypeReg::new();
    assert_eq!("u32", type_reg.register::<u32>().0);
    assert_eq!("u64", type_reg.register::<u64>().0);
    assert_eq!("u32", type_reg.register::<u32>().0);

    assert_eq!(2, type_reg.len());
    assert_eq!(r#"{"u32": "..", "u64": ".."}"#, type_reg.to_debug_string());
    assert!(type_reg.seed("u32").is_ok());
    assert!(type_reg.seed("u3").is_err());
}

#[test]
fn tagged_unknown_tag_with_no_type_registered_lists_no_type() {
    let type_reg = TypeReg::new();

    let error = type_reg.seed("u64").err().unwrap();
    assert_eq!(
        "Type `\"u64\"` not registered in type registry.\nAvailable types are:\n\n\n",
        error.to_string()
    );
}

#[test]
fn tagged_values_read_back_under_the_tag_they_were_written_with() {
    let mut type_reg = TypeReg::new();
    type_reg.register::<u32>();
    type_reg.register::<A>();

    let mut deserializer = serde_json::Deserializer::from_str(
        r#"{"one": {"u32": 1}, "two": {"type_reg::tagged::type_reg::tests::A": 2}}"#,
    );
    let type_map = read_map(&type_reg, &mut deserializer).unwrap();

    assert_eq!(Some(&1u32), type_map.get::<u32>("one"));
    assert_eq!(Some(&A(2)), type_map.get::<A>("two"));
    assert_eq!(None, type_map.get::<u32>("two"));
    assert_eq!("u32", type_map.value_at(0).type_name_lit().to_string());
}

#[test]
fn tagged_value_must_carry_exactly_one_tag() {
    let mut type_reg = TypeReg::new();
    type_reg.register::<u32>();
    type_reg.register::<u64>();

    let mut deserializer = serde_json::Deserializer::from_str(r#"{"one": {"u32": 1, "u64": 2}}"#);
    assert!(read_map(&type_reg, &mut deserializer).is_err());

    let mut deserializer = serde_json::Deserializer::from_str(r#"{"one": {}}"#);
    assert!(read_map(&type_reg, &mut deserializer).is_err());

    let mut deserializer = serde_json::Deserializer::from_str(r#"{"one": 1}"#);
    assert!(read_map(&type_reg, &mut deserializer).is_err());
}

#[test]
fn tagged_unknown_tag_fails_the_whole_map() {
    let mut type_reg = TypeReg::new();
    type_reg.register::<u32>();

    let mut deserializer =
        serde_json::Deserializer::from_str(r#"{"one": {"u32": 1}, "two": {"u64": 2}}"#);
    let error = read_map(&type_reg, &mut deserializer).err().unwrap();

    assert!(error
        .to_string()
        .starts_with("Type `\"u64\"` not registered in type registry.\nAvailable types are:\n\n- \"u32\"\n\n"));
}
