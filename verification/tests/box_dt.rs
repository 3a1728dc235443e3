use std::any::TypeId;
use std::ops::Deref;

use type_reg::untagged::{
    BoxDataTypeDowncast, BoxDt, DataType, DataTypeWrapper, FromDataType, IntoBoxDataType,
};

#[test]
fn box_dt_clone() {
    let box_dt = BoxDt::new(1u32);
    let mut box_dt_clone = DataTypeWrapper::clone(&box_dt);

    *BoxDataTypeDowncast::<u32>::downcast_mut(&mut box_dt_clone).unwrap() = 2;

    assert_eq!(
        Some(1u32),
        BoxDataTypeDowncast::<u32>::downcast_ref(&box_dt).copied()
    );
    assert_eq!(
        Some(2u32),
        BoxDataTypeDowncast::<u32>::downcast_ref(&box_dt_clone).copied()
    );
}

#[test]
fn box_dt_debug() {
    let box_dt = BoxDt::new(1u32);

    assert_eq!(r#"BoxDt("..")"#, box_dt.to_debug_string());
}

#[test]
fn box_dt_deref() {
    let box_dt = BoxDt::new(1u32);
    let _data_type = Deref::deref(&box_dt);
}

#[test]
fn box_dt_deref_mut() {
    let mut box_dt = BoxDt::new(1u32);
    let _data_type = box_dt.deref_mut();
}

#[test]
fn box_dt_serialize() {
    let box_dt = BoxDt::new(1u32);

    assert_eq!("1\n", serde_yaml::to_string(box_dt.inner().0).unwrap());
}

#[test]
fn type_id_inner_matches_inner_type_type_id() {
    let n = 1u32;

    assert_eq!(TypeId::of::<u32>(), DataType::type_id_inner(&n));
}

#[test]
fn type_id_inner_matches_box_inner_type_type_id() {
    let n = Box::new(1u32);

    assert_eq!(TypeId::of::<u32>(), DataType::type_id_inner(n.as_ref()));
}

#[test]
fn box_dt_names_the_type_of_its_value() {
    assert_eq!("u32", BoxDt::new(1u32).type_name_lit().to_string());
    assert_eq!("u64", BoxDt::new(1u64).type_name_lit().to_string());
    assert_eq!("bool", BoxDt::new(true).type_name_lit().to_string());
    assert_eq!(
        "alloc::string::String",
        BoxDt::new(String::from("a")).type_name_lit().to_string()
    );
    assert_eq!("u8", BoxDt::new(1u8).into_inner().type_name_lit().to_string());
}

#[test]
fn box_dt_downcast_to_another_type_is_none() {
    let mut box_dt = BoxDt::new(1u32);

    assert_eq!(None, BoxDataTypeDowncast::<u64>::downcast_ref(&box_dt));
    assert_eq!(None, BoxDataTypeDowncast::<u64>::downcast_mut(&mut box_dt));
    assert_eq!(Some(&1u32), BoxDataTypeDowncast::<u32>::downcast_ref(&box_dt));
}

#[test]
fn box_dt_from_and_into_box_the_value() {
    let from = <BoxDt as FromDataType<u16>>::from(3);
    let into = <u16 as IntoBoxDataType<BoxDt>>::into(4);

    assert_eq!(Some(&3u16), BoxDataTypeDowncast::<u16>::downcast_ref(&from));
    assert_eq!(Some(&4u16), BoxDataTypeDowncast::<u16>::downcast_ref(&into));
    assert_eq!(TypeId::of::<u16>(), from.type_id_inner());
}

#[test]
fn type_id_inner_is_one_for_a_type_and_another_for_another() {
    assert_eq!(DataType::type_id_inner(&1u32), DataType::type_id_inner(&2u32));
    assert_ne!(DataType::type_id_inner(&1u32), DataType::type_id_inner(&1u64));
    assert_eq!(
        TypeId::of::<String>(),
        BoxDt::new(String::from("a")).into_inner().type_id_inner()
    );
}

#[test]
fn stored_types_name_themselves() {
    assert_eq!("bool", DataType::type_name_lit(&true).to_string());
    assert_eq!("u8", DataType::type_name_lit(&1u8).to_string());
    assert_eq!("u16", DataType::type_name_lit(&1u16).to_string());
    assert_eq!("u32", DataType::type_name_lit(&1u32).to_string());
    assert_eq!("u64", DataType::type_name_lit(&1u64).to_string());
    assert_eq!("u128", DataType::type_name_lit(&1u128).to_string());
    assert_eq!("usize", DataType::type_name_lit(&1usize).to_string());
    assert_eq!("i8", DataType::type_name_lit(&1i8).to_string());
    assert_eq!("i16", DataType::type_name_lit(&1i16).to_string());
    assert_eq!("i32", DataType::type_name_lit(&1i32).to_string());
    assert_eq!("i64", DataType::type_name_lit(&1i64).to_string());
    assert_eq!("i128", DataType::type_name_lit(&1i128).to_string());
    assert_eq!("isize", DataType::type_name_lit(&1isize).to_string());
    assert_eq!("char", DataType::type_name_lit(&'a').to_string());
    assert_eq!(
        "alloc::string::String",
        DataType::type_name_lit(&String::from("a")).to_string()
    );
}

#[test]
fn stored_values_lend_themselves() {
    let mut n = 7u16;

    assert_eq!(Some(&7u16), DataType::as_any(&n).0.downcast_ref::<u16>());
    *DataType::as_any_mut(&mut n).0 .0.downcast_mut::<u16>().unwrap() = 8;
    assert_eq!(8, n);
    assert_eq!("8", serde_json::to_string(DataType::as_serialize(&n).0).unwrap());
    assert_eq!(
        Some(&8u16),
        DataType::duplicate(&n).0.as_any().0.downcast_ref::<u16>()
    );
    assert_eq!(
        "true",
        serde_json::to_string(type_reg::untagged::StoredType::as_serialize(&true).0).unwrap()
    );
}
