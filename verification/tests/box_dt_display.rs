use std::ops::Deref;

use type_reg::untagged::{BoxDataTypeDowncast, BoxDtDisplay, DataTypeDisplay, DataTypeWrapper};

#[test]
fn box_dt_display_clone() {
    let box_dt_display = BoxDtDisplay::new(1u32);
    let mut box_dt_display_clone = DataTypeWrapper::clone(&box_dt_display);

    *BoxDataTypeDowncast::<u32>::downcast_mut(&mut box_dt_display_clone).unwrap() = 2;

    assert_eq!(
        Some(1u32),
        BoxDataTypeDowncast::<u32>::downcast_ref(&box_dt_display).copied()
    );
    assert_eq!(
        Some(2u32),
        BoxDataTypeDowncast::<u32>::downcast_ref(&box_dt_display_clone).copied()
    );
}

#[test]
fn box_dt_display_debug() {
    let box_dt_display = BoxDtDisplay::new(1u32);

    assert_eq!(r#"BoxDtDisplay("..")"#, box_dt_display.to_debug_string());
}

#[test]
fn box_dt_display_display() {
    let box_dt_display = BoxDtDisplay::new(1u32);

    assert_eq!("1", box_dt_display.to_string());
}

#[test]
fn box_dt_display_deref() {
    let box_dt_display = BoxDtDisplay::new(1u32);
    let _data_type = Deref::deref(&box_dt_display);
}

#[test]
fn box_dt_display_deref_mut() {
    let mut box_dt_display = BoxDtDisplay::new(1u32);
    let _data_type = box_dt_display.deref_mut();
}

#[test]
fn box_dt_display_serialize() {
    let box_dt_display = BoxDtDisplay::new(1u32);

    assert_eq!(
        "1\n",
        serde_yaml::to_string(box_dt_display.inner().0).unwrap()
    );
}

#[test]
fn box_dt_display_into_inner() {
    let box_dt_display = BoxDtDisplay::new(7u64);
    let inner = box_dt_display.into_inner();

    assert_eq!("7", inner.display_string());
    assert_eq!("u64", inner.type_name_lit().to_string());
}

#[test]
fn box_dt_display_downcast_to_another_type_is_none() {
    let mut box_dt_display = BoxDtDisplay::new(1u32);

    assert_eq!(
        None,
        BoxDataTypeDowncast::<u64>::downcast_ref(&box_dt_display)
    );
    assert_eq!(
        None,
        BoxDataTypeDowncast::<u64>::downcast_mut(&mut box_dt_display)
    );
}

#[test]
fn box_dt_display_hands_out_what_it_holds() {
    let mut n = 7u16;
    assert_eq!("7", DataTypeDisplay::display_string(&n));
    assert_eq!("u16", DataTypeDisplay::type_name_lit(&n).to_string());
    assert_eq!(
        std::any::TypeId::of::<u16>(),
        DataTypeDisplay::type_id_inner(&n)
    );
    assert_eq!(Some(&7u16), DataTypeDisplay::as_any(&n).0.downcast_ref::<u16>());
    *DataTypeDisplay::as_any_mut(&mut n).0 .0.downcast_mut::<u16>().unwrap() = 9;
    assert_eq!("9", serde_json::to_string(DataTypeDisplay::as_serialize(&n).0).unwrap());
    assert_eq!("9", DataTypeDisplay::duplicate(&n).0.display_string());

    let boxed = BoxDtDisplay::new(String::from("text"));
    assert_eq!("text", boxed.to_string());
    assert_eq!("\"text\"", serde_json::to_string(boxed.inner().0).unwrap());
}
