use std::fmt;

use serde::de::{DeserializeSeed, MapAccess};
use serde_tagged::de::{BoxFnSeed, SeedFactory};
use type_reg::common::{UnknownEntriesNone, UnknownEntriesSome};
use type_reg::handles::SerializeRef;
use type_reg::untagged::{
    BoxDataTypeDowncast, BoxDt, BoxDtDisplay, DataTypeWrapper, EntrySeed, FromDataType,
    StoredType, TypeMap, TypeMapOpt, TypeMapOptVisitor, TypeMapVisitor, TypeReg,
};
use type_reg::TypeNameLit;

#[derive(Clone, Copy, Debug, PartialEq)]
struct A(u32);

impl fmt::Display for A {
    fn fmt(&self, f: &mut fmt::Formatter<'_>) -> fmt::Result {
        self.0.fmt(f)
    }
}

impl serde::Serialize for A {
    fn serialize<S>(&self, serializer: S) -> Result<S::Ok, S::Error>
    where
        S: serde::Serializer,
    {
        serializer.serialize_newtype_struct("A", &self.0)
    }
}

impl<'de> serde::Deserialize<'de> for A {
    fn deserialize<D>(deserializer: D) -> Result<Self, D::Error>
    where
        D: serde::Deserializer<'de>,
    {
        <u32 as serde::Deserialize>::deserialize(deserializer).map(A)
    }
}

impl StoredType for A {
    const TYPE_NAME: &'static str = "type_reg::untagged::type_reg::tests::A";

    fn type_name_lit() -> TypeNameLit {
        TypeNameLit("type_reg::untagged::type_reg::tests::A")
    }

    fn as_serialize(&self) -> SerializeRef<'_> {
        SerializeRef(self)
    }
}

// What reads a map with a visitor of the library: for each entry the key,
// then the value with the seed that the visitor answers with.

struct ReadMap<'r, BoxDT>(TypeMapVisitor<'r, BoxDT, UnknownEntriesNone>);

impl<'de, 'r, BoxDT> serde::de::Visitor<'de> for ReadMap<'r, BoxDT> {
    type Value = TypeMap<BoxDT>;

    fn expecting(&self, f: &mut fmt::Formatter) -> fmt::Result {
        f.write_str("a map of arbitrary data types")
    }

    fn visit_map<M>(self, mut map_access: M) -> Result<Self::Value, M::Error>
    where
        M: MapAccess<'de>,
    {
        let mut type_map = self.0.begin(map_access.size_hint());
        while let Some(key) = map_access.next_key::<String>()? {
            let seed = self.0.seed(&key).map_err(|error| serde::de::Error::custom(error.to_string()))?;
            let value = map_access.next_value_seed(seed)?;
            self.0.accept(&mut type_map, key, value);
        }
        Ok(type_map)
    }
}

struct ReadMapWithUnknowns<'r, BoxDT, ValueT>(TypeMapVisitor<'r, BoxDT, BoxFnSeed<ValueT>>);

impl<'de, 'r, BoxDT, ValueT> serde::de::Visitor<'de> for ReadMapWithUnknowns<'r, BoxDT, ValueT> {
    type Value = TypeMap<BoxDT, UnknownEntriesSome<ValueT>>;

    fn expecting(&self, f: &mut fmt::Formatter) -> fmt::Result {
        f.write_str("a map of arbitrary data types")
    }

    fn visit_map<M>(self, mut map_access: M) -> Result<Self::Value, M::Error>
    where
        M: MapAccess<'de>,
    {
        let mut type_map = self.0.begin(map_access.size_hint());
        while let Some(key) = map_access.next_key::<String>()? {
            match self.0.seed(&key) {
                EntrySeed::Typed(seed) => {
                    let value = map_access.next_value_seed(seed)?;
                    self.0.accept_typed(&mut type_map, key, value);
                }
                EntrySeed::Unknown(seed) => {
                    let value = map_access.next_value_seed(seed)?;
                    self.0.accept_unknown(&mut type_map, key, value);
                }
            }
        }
        Ok(type_map)
    }
}

struct ReadMapOpt<'r, BoxDT>(TypeMapOptVisitor<'r, BoxDT, UnknownEntriesNone>);

impl<'de, 'r, BoxDT> serde::de::Visitor<'de> for ReadMapOpt<'r, BoxDT> {
    type Value = TypeMapOpt<BoxDT>;

    fn expecting(&self, f: &mut fmt::Formatter) -> fmt::Result {
        f.write_str("a map of arbitrary data types")
    }

    fn visit_map<M>(self, mut map_access: M) -> Result<Self::Value, M::Error>
    where
        M: MapAccess<'de>,
    {
        let mut type_map = self.0.begin(map_access.size_hint());
        while let Some(key) = map_access.next_key::<String>()? {
            let seed = self.0.seed(&key).map_err(|error| serde::de::Error::custom(error.to_string()))?;
            let value = map_access.next_value_seed(seed)?;
            self.0.accept(&mut type_map, key, value);
        }
        Ok(type_map)
    }
}

struct ReadMapOptWithUnknowns<'r, BoxDT, ValueT>(
    TypeMapOptVisitor<'r, BoxDT, BoxFnSeed<Option<ValueT>>>,
);

impl<'de, 'r, BoxDT, ValueT> serde::de::Visitor<'de>
    for ReadMapOptWithUnknowns<'r, BoxDT, ValueT>
{
    type Value = TypeMapOpt<BoxDT, UnknownEntriesSome<ValueT>>;

    fn expecting(&self, f: &mut fmt::Formatter) -> fmt::Result {
        f.write_str("a map of arbitrary data types")
    }

    fn visit_map<M>(self, mut map_access: M) -> Result<Self::Value, M::Error>
    where
        M: MapAccess<'de>,
    {
        let mut type_map = self.0.begin(map_access.size_hint());
        while let Some(key) = map_access.next_key::<String>()? {
            match self.0.seed(&key) {
                EntrySeed::Typed(seed) => {
                    let value = map_access.next_value_seed(seed)?;
                    self.0.accept_typed(&mut type_map, key, value);
                }
                EntrySeed::Unknown(seed) => {
                    let value = map_access.next_value_seed(seed)?;
                    self.0.accept_unknown(&mut type_map, key, value);
                }
            }
        }
        Ok(type_map)
    }
}

struct Seeds<'r, BoxDT>(&'r TypeReg<BoxDT>);

impl<'de, 'r, BoxDT> SeedFactory<'de, String> for Seeds<'r, BoxDT> {
    type Seed = &'r BoxFnSeed<BoxDT>;
    type Value = BoxDT;

    fn seed<E>(self, type_key: String) -> Result<Self::Seed, E>
    where
        E: serde::de::Error,
    {
        self.0.seed(&type_key).map_err(|error| E::custom(error.to_string()))
    }
}

fn read_map<'de, BoxDT, D>(type_reg: &TypeReg<BoxDT>, deserializer: D) -> Result<TypeMap<BoxDT>, D::Error>
where
    D: serde::Deserializer<'de>,
{
    deserializer.deserialize_map(ReadMap(type_reg.deserialize_map()))
}

fn read_map_opt<'de, BoxDT, D>(
    type_reg: &TypeReg<BoxDT>,
    deserializer: D,
) -> Result<TypeMapOpt<BoxDT>, D::Error>
where
    D: serde::Deserializer<'de>,
{
    deserializer.deserialize_map(ReadMapOpt(type_reg.deserialize_map_opt()))
}

fn read_single<'de, BoxDT, D>(type_reg: &TypeReg<BoxDT>, deserializer: D) -> Result<BoxDT, D::Error>
where
    D: serde::Deserializer<'de>,
{
    serde_tagged::de::external::deserialize(deserializer, Seeds(type_reg))
}

fn read_map_with_unknowns<'de, ValueT, BoxDT, D>(
    type_reg: &TypeReg<BoxDT>,
    deserializer: D,
) -> Result<TypeMap<BoxDT, UnknownEntriesSome<ValueT>>, D::Error>
where
    ValueT: serde::de::DeserializeOwned + 'static,
    D: serde::Deserializer<'de>,
{
    deserializer.deserialize_map(ReadMapWithUnknowns(type_reg.deserialize_map_with_unknowns::<ValueT>()))
}

fn read_map_opt_with_unknowns<'de, ValueT, BoxDT, D>(
    type_reg: &TypeReg<BoxDT>,
    deserializer: D,
) -> Result<TypeMapOpt<BoxDT, UnknownEntriesSome<ValueT>>, D::Error>
where
    ValueT: serde::de::DeserializeOwned + 'static,
    D: serde::Deserializer<'de>,
{
    deserializer
        .deserialize_map(ReadMapOptWithUnknowns(type_reg.deserialize_map_opt_with_unknowns::<ValueT>()))
}

#[test]
fn type_reg_deserialize_single() {
    let mut type_reg = TypeReg::new();
    type_reg.register::<u32>(String::from("one"));

    let deserializer = serde_yaml::Deserializer::from_str("one: 1");
    let data_u32 = read_single(&type_reg, deserializer).unwrap();
    let data_u32 = BoxDataTypeDowncast::<u32>::downcast_ref(&data_u32).copied();

    assert_eq!(Some(1), data_u32);
}

#[test]
fn type_reg_deserialize_map() {
    let mut type_reg = TypeReg::new();
    type_reg.register::<u32>(String::from("one"));
    type_reg.register::<u64>(String::from("two"));
    type_reg.register::<A>(String::from("three"));

    let serialized = "---\n\
    one: 1\n\
    two: 2\n\
    three: 3\n\
    ";

    let deserializer = serde_yaml::Deserializer::from_str(serialized);
    let type_map: TypeMap = read_map(&type_reg, deserializer).unwrap();

    let data_u32 = type_map.get::<u32>("one").copied();
    let data_u64 = type_map.get::<u64>("two").copied();
    let data_a = type_map.get::<A>("three").copied();

    assert_eq!(Some(1u32), data_u32);
    assert_eq!(Some(2u64), data_u64);
    assert_eq!(Some(A(3)), data_a);
}

#[test]
fn deserialize_map_new_typed() {
    let mut type_reg = TypeReg::<BoxDtDisplay>::new_typed();
    type_reg.register::<u32>(String::from("one"));
    type_reg.register::<u64>(String::from("two"));
    type_reg.register::<A>(String::from("three"));

    let serialized = "---\n\
    one: 1\n\
    two: 2\n\
    three: 3\n\
    ";

    let deserializer = serde_yaml::Deserializer::from_str(serialized);
    let type_map: TypeMap<BoxDtDisplay> = read_map(&type_reg, deserializer).unwrap();

    let data_u32 = type_map.get::<u32>("one").copied();
    let data_u64 = type_map.get::<u64>("two").copied();
    let data_a = type_map.get::<A>("three").copied();

    assert_eq!(Some(1u32), data_u32);
    assert_eq!(Some(2u64), data_u64);
    assert_eq!(Some(A(3)), data_a);
}

#[test]
fn deserialize_map_with_capacity_typed() {
    let mut type_reg = TypeReg::<BoxDtDisplay>::with_capacity_typed(3);
    type_reg.register::<u32>(String::from("one"));
    type_reg.register::<u64>(String::from("two"));
    type_reg.register::<A>(String::from("three"));

    let serialized = "---\n\
    one: 1\n\
    two: 2\n\
    three: 3\n\
    ";

    let deserializer = serde_yaml::Deserializer::from_str(serialized);
    let type_map: TypeMap<BoxDtDisplay> = read_map(&type_reg, deserializer).unwrap();

    let data_u32 = type_map.get::<u32>("one").copied();
    let data_u64 = type_map.get::<u64>("two").copied();
    let data_a = type_map.get::<A>("three").copied();

    assert_eq!(Some(1u32), data_u32);
    assert_eq!(Some(2u64), data_u64);
    assert_eq!(Some(A(3)), data_a);
}

#[test]
fn deserialize_single_has_good_error_message_when_type_not_registered() {
    let mut type_reg = TypeReg::new();
    type_reg.register::<u32>(String::from("one"));
    type_reg.register::<A>(String::from("three"));

    let deserializer = serde_yaml::Deserializer::from_str("two: 2");
    let error = read_single(&type_reg, deserializer)
        .err()
        .expect("Expected `deserialize_single` to return error.");
    assert_eq!(
        r#"Type key `"two"` not registered in type registry.
Available types are:

- "one"
- "three"

"#,
        format!("{error}")
    );
}

#[test]
fn deserialize_map_opt_has_good_error_message_when_type_not_registered() {
    let mut type_reg = TypeReg::new();
    type_reg.register::<u32>(String::from("one"));
    type_reg.register::<A>(String::from("three"));

    let deserializer = serde_yaml::Deserializer::from_str("two: 2");
    let error = read_map_opt(&type_reg, deserializer)
        .err()
        .expect("Expected `deserialize_map_opt` to return error.");
    assert_eq!(
        r#"Type key `"two"` not registered in type registry.
Available types are:

- "one"
- "three"

"#,
        format!("{error}")
    );
}

#[test]
fn deserialize_map_with_unknown_entries_yaml() {
    let mut type_reg = TypeReg::new();
    type_reg.register::<u32>(String::from("one"));
    type_reg.register::<A>(String::from("three"));

    let serialized = "---\n\
        one: 1\n\
        two: 2\n\
        three: 3\n\
    ";

    let deserializer = serde_yaml::Deserializer::from_str(serialized);
    let type_map =
        read_map_with_unknowns::<serde_yaml::Value, _, _>(&type_reg, deserializer).unwrap();

    let data_u32 = type_map.get::<u32>("one").copied();
    let data_u64 = type_map.get_unknown_entry("two").cloned();
    let data_a = type_map.get::<A>("three").copied();

    assert_eq!(Some(1u32), data_u32);
    assert_eq!(Some(A(3)), data_a);

    assert_eq!(
        data_u64,
        Some(serde_yaml::Value::Number(serde_yaml::Number::from(2u64)))
    );
    assert_eq!(1, type_map.unknown_entries().len());
}

#[test]
fn deserialize_map_with_unknown_entries_json() {
    let mut type_reg = TypeReg::new();
    type_reg.register::<u32>(String::from("one"));
    type_reg.register::<A>(String::from("three"));

    let serialized = r#"
        {
            "one": 1,
            "two": 2,
            "three": 3
        }
    "#;

    let mut deserializer = serde_json::Deserializer::from_str(serialized);
    let type_map =
        read_map_with_unknowns::<serde_json::Value, _, _>(&type_reg, &mut deserializer)
            .unwrap();

    let data_u32 = type_map.get::<u32>("one").copied();
    let data_u64 = type_map.get_unknown_entry("two").cloned();
    let data_a = type_map.get::<A>("three").copied();

    assert_eq!(Some(1u32), data_u32);
    assert_eq!(Some(A(3)), data_a);

    assert_eq!(
        data_u64,
        Some(serde_json::Value::Number(serde_json::Number::from(2u64)))
    );
    assert_eq!(1, type_map.unknown_entries().len());
}

#[test]
fn deserialize_map_opt() {
    let mut type_reg = TypeReg::new();
    type_reg.register::<u32>(String::from("one"));
    type_reg.register::<u64>(String::from("two"));
    type_reg.register::<A>(String::from("three"));

    let serialized = "---\n\
    one: 1\n\
    two: 2\n\
    three: null\n\
    ";

    let deserializer = serde_yaml::Deserializer::from_str(serialized);
    let type_map_opt: TypeMapOpt = read_map_opt(&type_reg, deserializer).unwrap();

    let data_u32 = type_map_opt.get::<u32>("one").map(|one| one.copied());
    let data_u64 = type_map_opt.get::<u64>("two").map(|two| two.copied());
    let data_a = type_map_opt.get::<A>("three").map(|three| three.copied());

    assert_eq!(Some(Some(1u32)), data_u32);
    assert_eq!(Some(Some(2u64)), data_u64);
    assert_eq!(Some(None), data_a);
}

#[test]
fn deserialize_map_opt_with_unknown_entries_yaml() {
    let mut type_reg = TypeReg::new();
    type_reg.register::<u32>(String::from("one"));
    type_reg.register::<A>(String::from("three"));
    type_reg.register::<u8>(String::from("four"));

    let serialized = "---\n\
        one: 1\n\
        two: 2\n\
        three: 3\n\
        four: null\n\
        five: null\n\
    ";

    let deserializer = serde_yaml::Deserializer::from_str(serialized);
    let type_map_opt =
        read_map_opt_with_unknowns::<serde_yaml::Value, _, _>(&type_reg, deserializer)
            .unwrap();

    let one = type_map_opt.get::<u32>("one").map(|one| one.copied());
    let two = type_map_opt
        .get_unknown_entry("two")
        .map(|two| two.cloned());
    let three = type_map_opt.get::<A>("three").map(|three| three.copied());
    let four = type_map_opt.get::<u8>("four").map(|four| four.copied());
    let five = type_map_opt
        .get_unknown_entry("five")
        .map(|five| five.cloned());

    assert_eq!(Some(Some(1u32)), one);
    assert_eq!(Some(Some(A(3))), three);
    assert_eq!(Some(None::<u8>), four);

    assert_eq!(
        two,
        Some(Some(serde_yaml::Value::Number(serde_yaml::Number::from(
            2u64
        ))))
    );
    assert_eq!(five, Some(None));
    assert_eq!(2, type_map_opt.unknown_entries().len());
}

#[test]
fn deserialize_map_opt_with_unknown_entries_json() {
    let mut type_reg = TypeReg::new();
    type_reg.register::<u32>(String::from("one"));
    type_reg.register::<A>(String::from("three"));
    type_reg.register::<u8>(String::from("four"));

    let serialized = r#"
        {
            "one": 1,
            "two": 2,
            "three": 3,
            "four": null,
            "five": null
        }
    "#;

    let mut deserializer = serde_json::Deserializer::from_str(serialized);
    let type_map_opt =
        read_map_opt_with_unknowns::<serde_json::Value, _, _>(&type_reg, &mut deserializer)
            .unwrap();

    let one = type_map_opt.get::<u32>("one").map(|one| one.copied());
    let two = type_map_opt
        .get_unknown_entry("two")
        .map(|two| two.cloned());
    let three = type_map_opt.get::<A>("three").map(|three| three.copied());
    let four = type_map_opt.get::<u8>("four").map(|four| four.copied());
    let five = type_map_opt
        .get_unknown_entry("five")
        .map(|five| five.cloned());

    assert_eq!(Some(Some(1u32)), one);
    assert_eq!(Some(Some(A(3))), three);
    assert_eq!(Some(None::<u8>), four);

    assert_eq!(
        two,
        Some(Some(serde_json::Value::Number(serde_json::Number::from(
            2u64
        ))))
    );
    assert_eq!(five, Some(None));
    assert_eq!(2, type_map_opt.unknown_entries().len());
}

#[test]
fn type_reg_with_capacity() {
    let type_reg = TypeReg::<BoxDt>::default();
    assert_eq!(0, type_reg.capacity());

    let type_reg = TypeReg::with_capacity(5);
    assert!(type_reg.capacity() >= 5);
}

#[test]
fn type_reg_deref_mut() {
    let mut type_reg = TypeReg::new();
    assert!(type_reg.deref_mut().get_mut("one").is_none())
}

#[test]
fn type_reg_derefs_to_the_map_of_its_seeds() {
    let mut type_reg = TypeReg::new();
    type_reg.register::<u32>(String::from("one"));

    assert!(type_reg.contains_key("one"));
    assert!(!type_reg.contains_key("two"));
    assert_eq!("one", type_reg.key_at(0));
    assert!(type_reg.deref_mut().get_mut("one").is_some());
}

#[test]
fn last_registration_of_a_key_wins() {
    let mut type_reg = TypeReg::new();
    type_reg.register::<u32>(String::from("x"));
    type_reg.register::<u64>(String::from("x"));
    assert_eq!(1, type_reg.len());

    let mut deserializer = serde_json::Deserializer::from_str(r#"{"x": 1}"#);
    let type_map = read_map(&type_reg, &mut deserializer).unwrap();
    assert_eq!(Some(&1u64), type_map.get::<u64>("x"));
    assert_eq!(None, type_map.get::<u32>("x"));

    let mut deserializer = serde_json::Deserializer::from_str(r#"{"x": null}"#);
    let type_map_opt = read_map_opt(&type_reg, &mut deserializer).unwrap();
    assert_eq!(Some(None), type_map_opt.get::<u64>("x"));
    let mut deserializer = serde_json::Deserializer::from_str(r#"{"x": 2}"#);
    let type_map_opt = read_map_opt(&type_reg, &mut deserializer).unwrap();
    assert_eq!(Some(Some(&2u64)), type_map_opt.get::<u64>("x"));
    assert_eq!(Some(None), type_map_opt.get::<u32>("x"));
}

#[test]
fn insert_and_insert_raw_of_a_new_box_leave_the_same_entry() {
    let mut by_value = TypeMap::new();
    let mut by_box = TypeMap::new();
    assert!(by_value.insert(String::from("one"), 1u32).is_none());
    assert!(by_box.insert_raw(String::from("one"), BoxDt::new(1u32)).is_none());

    assert_eq!(by_value.get::<u32>("one"), by_box.get::<u32>("one"));
    assert_eq!(by_value.to_debug_string(), by_box.to_debug_string());
    assert_eq!(
        "{\"one\": TypedValue { type: \"u32\", value: \"..\" }}",
        by_value.to_debug_string()
    );
    *by_value.get_mut::<u32>("one").unwrap() = 2;
    assert_eq!(
        "{\"one\": TypedValue { type: \"u32\", value: \"..\" }}",
        by_value.to_debug_string()
    );
}

#[test]
fn type_reg_debug() {
    let mut type_reg = TypeReg::new();
    type_reg.register::<A>(String::from("one"));

    assert_eq!(r#"{"one": ".."}"#, type_reg.to_debug_string());
}

#[test]
fn type_reg_a_coverage() {
    let a = Clone::clone(&A(0));
    assert_eq!("A(0)", format!("{a:?}"));
    assert!(serde_yaml::to_string(&a).is_ok());
}

#[test]
fn round_trip_gives_back_the_values_that_were_stored() {
    let mut type_reg = TypeReg::new();
    type_reg.register::<u32>(String::from("one"));
    type_reg.register::<u64>(String::from("two"));

    let mut type_map = TypeMap::new();
    type_map.insert(String::from("one"), 1u32);
    type_map.insert(String::from("two"), 2u64);

    let mut serialized = serde_json::Map::new();
    for i in 0..type_map.len() {
        serialized.insert(
            type_map.key_at(i).clone(),
            serde_json::to_value(type_map.value_at(i).inner().0).unwrap(),
        );
    }
    let serialized = serde_json::to_string(&serialized).unwrap();
    assert_eq!(r#"{"one":1,"two":2}"#, serialized);

    let mut deserializer = serde_json::Deserializer::from_str(&serialized);
    let read_back = read_map(&type_reg, &mut deserializer).unwrap();

    assert_eq!(Some(&1), read_back.get::<u32>("one"));
    assert_eq!(Some(&2), read_back.get::<u64>("two"));
}

#[test]
fn unknown_key_with_no_type_registered_lists_no_type() {
    let type_reg = TypeReg::new();

    let deserializer = serde_yaml::Deserializer::from_str("two: 2");
    let error = read_single(&type_reg, deserializer)
        .err()
        .expect("Expected `deserialize_single` to return error.");
    assert_eq!(
        "Type key `\"two\"` not registered in type registry.\nAvailable types are:\n\n\n",
        format!("{error}")
    );
    assert_eq!(
        "Type key `\"two\"` not registered in type registry.\nAvailable types are:\n\n\n",
        type_reg.unknown_type_error("two").to_string()
    );
}

#[test]
fn unknown_entries_capture_keeps_what_no_type_is_registered_for() {
    let mut type_reg = TypeReg::new();
    type_reg.register::<u32>(String::from("one"));

    let mut deserializer = serde_json::Deserializer::from_str(r#"{"one": 1, "two": 2}"#);
    let type_map =
        read_map_with_unknowns::<serde_json::Value, _, _>(&type_reg, &mut deserializer)
            .unwrap();

    assert_eq!(Some(&1), type_map.get::<u32>("one"));
    assert_eq!(
        Some(&serde_json::Value::Number(serde_json::Number::from(2u64))),
        type_map.get_unknown_entry("two")
    );
    assert!(type_map.get_unknown_entry("one").is_none());
    assert!(type_map.get_raw("two").is_none());
}

#[test]
fn optional_map_reads_null_as_no_value() {
    let mut type_reg = TypeReg::new();
    type_reg.register::<u32>(String::from("one"));
    type_reg.register::<u64>(String::from("two"));

    let mut deserializer = serde_json::Deserializer::from_str(r#"{"one": 1, "two": null}"#);
    let type_map_opt = read_map_opt(&type_reg, &mut deserializer).unwrap();

    assert_eq!(Some(Some(&1)), type_map_opt.get::<u32>("one"));
    assert_eq!(Some(None), type_map_opt.get::<u64>("two"));
}

#[test]
fn unknown_type_error_carries_the_key_and_the_registered_keys() {
    let mut type_reg = TypeReg::new();
    type_reg.register::<u32>(String::from("one"));
    type_reg.register::<A>(String::from("three"));

    let error = type_reg.deserialize_seed("t\"wo").err().unwrap();

    assert_eq!("t\"wo", error.type_key());
    assert_eq!(&vec![String::from("one"), String::from("three")], error.available());
    assert_eq!(
        "Type key `\"t\\\"wo\"` not registered in type registry.\nAvailable types are:\n\n- \"one\"\n- \"three\"\n\n",
        error.to_string()
    );
    assert!(type_reg.deserialize_opt_seed("two").is_err());
    assert!(type_reg.deserialize_opt_seed("one").is_ok());
    assert!(type_reg.deserialize_seed_opt("two").is_none());
    assert!(type_reg.deserialize_opt_seed_opt("three").is_some());
}

#[test]
fn registering_a_key_again_keeps_its_place_and_takes_the_later_type() {
    let mut type_reg = TypeReg::new();
    type_reg.register::<u32>(String::from("one"));
    type_reg.register::<u32>(String::from("two"));
    type_reg.register::<A>(String::from("one"));

    assert_eq!(2, type_reg.len());
    assert_eq!(
        "Type key `\"x\"` not registered in type registry.\nAvailable types are:\n\n- \"one\"\n- \"two\"\n\n",
        type_reg.unknown_type_error("x").to_string()
    );

    let deserializer = serde_yaml::Deserializer::from_str("one: 1");
    let one = read_single(&type_reg, deserializer).unwrap();
    assert_eq!(Some(A(1)), BoxDataTypeDowncast::<A>::downcast_ref(&one).copied());
    assert_eq!(None, BoxDataTypeDowncast::<u32>::downcast_ref(&one));
}

#[test]
fn a_key_that_occurs_twice_takes_the_later_value() {
    let mut type_reg = TypeReg::new();
    type_reg.register::<u32>(String::from("one"));
    let visitor = type_reg.deserialize_map();

    let mut type_map = visitor.begin(None);
    visitor.accept(&mut type_map, String::from("one"), <BoxDt as FromDataType<u32>>::from(1));
    visitor.accept(&mut type_map, String::from("one"), <BoxDt as FromDataType<u32>>::from(2));

    assert_eq!(1, type_map.len());
    assert_eq!(Some(&2), type_map.get::<u32>("one"));
    assert_eq!("u32", type_map.get_raw("one").unwrap().type_name_lit().to_string());
}

#[test]
fn a_key_that_the_source_repeats_is_read_twice_and_stored_once() {
    let mut type_reg = TypeReg::new();
    type_reg.register::<u32>(String::from("one"));
    type_reg.register::<u32>(String::from("two"));

    let mut deserializer =
        serde_json::Deserializer::from_str(r#"{"one": 1, "two": 2, "one": 3}"#);
    let type_map = read_map(&type_reg, &mut deserializer).unwrap();

    assert_eq!(2, type_map.len());
    assert_eq!("one", type_map.key_at(0));
    assert_eq!("two", type_map.key_at(1));
    assert_eq!(Some(&3), type_map.get::<u32>("one"));
}

#[test]
fn an_empty_source_gives_an_empty_map() {
    let mut type_reg = TypeReg::new();
    type_reg.register::<u32>(String::from("one"));

    let mut deserializer = serde_json::Deserializer::from_str("{}");
    let type_map = read_map(&type_reg, &mut deserializer).unwrap();
    assert_eq!(0, type_map.len());
    assert_eq!("{}", type_map.to_debug_string());

    let mut deserializer = serde_json::Deserializer::from_str("{}");
    let type_map_opt =
        read_map_opt_with_unknowns::<serde_json::Value, _, _>(&type_reg, &mut deserializer)
            .unwrap();
    assert_eq!(0, type_map_opt.len());
    assert!(type_map_opt.unknown_entries().is_empty());
}

#[test]
fn what_the_format_refuses_is_refused_as_the_format_says() {
    let mut type_reg = TypeReg::new();
    type_reg.register::<u32>(String::from("one"));

    // Not a map.
    let mut deserializer = serde_json::Deserializer::from_str("[1, 2]");
    assert!(read_map(&type_reg, &mut deserializer).is_err());

    // A value of another shape than the registered type.
    let mut deserializer = serde_json::Deserializer::from_str(r#"{"one": "1"}"#);
    let error = read_map(&type_reg, &mut deserializer).err().unwrap();
    assert!(error.to_string().contains("invalid type"));

    // A source that ends early.
    let mut deserializer = serde_json::Deserializer::from_str(r#"{"one": "#);
    assert!(read_map(&type_reg, &mut deserializer).is_err());

    // A single value must be a map of one entry.
    let mut deserializer = serde_json::Deserializer::from_str(r#"{"one": 1, "one": 2}"#);
    assert!(read_single(&type_reg, &mut deserializer).is_err());
}

#[test]
fn an_unknown_key_fails_the_whole_map() {
    let mut type_reg = TypeReg::new();
    type_reg.register::<u32>(String::from("one"));

    let mut deserializer = serde_json::Deserializer::from_str(r#"{"one": 1, "two": 2}"#);
    let error = read_map(&type_reg, &mut deserializer).err().unwrap();

    assert!(error
        .to_string()
        .starts_with("Type key `\"two\"` not registered in type registry."));
}

#[test]
fn keys_are_matched_exactly() {
    let mut type_reg = TypeReg::new();
    type_reg.register::<u32>(String::from("one"));

    assert!(type_reg.deserialize_seed("one").is_ok());
    assert!(type_reg.deserialize_seed("One").is_err());
    assert!(type_reg.deserialize_seed("on").is_err());
    assert!(type_reg.deserialize_seed("one ").is_err());
    assert!(type_reg.deserialize_seed("").is_err());
}

#[test]
fn unknown_entries_of_an_optional_map_tell_null_from_absent() {
    let type_reg = TypeReg::new();

    let mut deserializer = serde_json::Deserializer::from_str(r#"{"five": null, "two": 2}"#);
    let type_map_opt =
        read_map_opt_with_unknowns::<serde_json::Value, _, _>(&type_reg, &mut deserializer)
            .unwrap();

    assert_eq!(Some(None), type_map_opt.get_unknown_entry("five"));
    assert_eq!(
        Some(Some(&serde_json::Value::Number(serde_json::Number::from(2u64)))),
        type_map_opt.get_unknown_entry("two")
    );
    assert_eq!(None, type_map_opt.get_unknown_entry("six"));
    assert_eq!(0, type_map_opt.len());
}

#[test]
fn capacity_of_maps_and_registries_covers_the_room_that_was_made() {
    let mut type_reg = TypeReg::<BoxDt>::with_capacity_typed(4);
    type_reg.register::<u32>(String::from("one"));
    assert!(type_reg.capacity() >= 4);
    assert!(type_reg.capacity() >= type_reg.len());

    let visitor = type_reg.deserialize_map();
    let mut type_map = visitor.begin(Some(7));
    assert!(type_map.capacity() >= 7);
    visitor.accept(&mut type_map, String::from("one"), <BoxDt as FromDataType<u32>>::from(1));
    assert!(type_map.capacity() >= 7);
    assert_eq!(0, visitor.begin(None).capacity());

    let opt_visitor = type_reg.deserialize_map_opt();
    assert!(opt_visitor.begin(Some(9)).capacity() >= 9);
    assert!(TypeMapOpt::with_capacity(6).capacity() >= 6);
}
