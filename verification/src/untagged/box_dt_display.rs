use serde_tagged::de::BoxFnSeed;
use std::fmt::Display;
use vstd::prelude::*;

use crate::handles::{stored_type_id, SerializeRef};
use crate::type_name_lit::TypeNameLit;
use crate::untagged::box_data_type_downcast::BoxDataTypeDowncast;
use crate::untagged::data_type::{erase, names_stored, StoredType};
use crate::untagged::data_type_display::{
    boxes_display_clone_of, display_downcast_lent, display_downcast_mut, duplicate_display_box,
    erase_display, open_duplicate_display, DataTypeDisplay, DuplicateDisplay,
};
use crate::untagged::data_type_wrapper::DataTypeWrapper;
use crate::untagged::from_data_type::FromDataType;

verus! {

/// Box of any type that can be displayed.
///
/// Beside the value the box holds the name that the value's type gave of
/// itself when the value was boxed.
pub struct BoxDtDisplay(pub Box<dyn DataTypeDisplay>, pub TypeNameLit);

impl BoxDtDisplay {
    /// Returns a new `BoxDtDisplay` wrapper around the provided type.
    pub fn new<T>(t: T) -> (b: Self) where T: StoredType + Display
        ensures
            b.0 == erase_display(t),
            b.holds(t),
            names_stored::<T>(b.1),
    {
        let inner: Box<dyn DataTypeDisplay> = Box::new(t);
        BoxDtDisplay(inner, T::type_name_lit())
    }

    /// Returns the inner `Box<dyn DataTypeDisplay>`.
    pub fn into_inner(self) -> Box<dyn DataTypeDisplay> {
        self.0
    }

    /// The value in the box as it is displayed.
    pub fn to_string(&self) -> (text: String)
        ensures
            self.0.displays_as(text),
    {
        self.0.display_string()
    }

    /// The boxed value, to be changed in place.
    pub fn deref_mut(&mut self) -> (inner: &mut Box<dyn DataTypeDisplay>)
        ensures
            *inner == old(self).0,
            final(self).0 == *final(inner),
            final(self).1 == old(self).1,
    {
        &mut self.0
    }

    /// The box as it is shown when debugging: the value itself is not shown.
    pub fn to_debug_string(&self) -> (s: String)
        ensures
            s@ == "BoxDtDisplay(\"..\")"@,
    {
        "BoxDtDisplay(\"..\")".to_owned()
    }
}

impl std::ops::Deref for BoxDtDisplay {
    type Target = dyn DataTypeDisplay;

    fn deref(&self) -> &Self::Target {
        &*self.0
    }
}

/// The identifier of the type that the seed reads.
pub uninterp spec fn box_dt_display_seed_type(seed: BoxFnSeed<BoxDtDisplay>) -> std::any::TypeId;

/// The identifier of the type that the seed reads, where a value is there.
pub uninterp spec fn box_dt_display_opt_seed_type(
    seed: BoxFnSeed<Option<BoxDtDisplay>>,
) -> std::any::TypeId;

impl<T> FromDataType<T> for BoxDtDisplay where T: StoredType + Display {
    open spec fn seed_reads(seed: BoxFnSeed<BoxDtDisplay>) -> bool {
        forall|t: T| #[trigger] stored_type_id(erase(t)) == box_dt_display_seed_type(seed)
    }

    open spec fn opt_seed_reads(seed: BoxFnSeed<Option<BoxDtDisplay>>) -> bool {
        forall|t: T| #[trigger] stored_type_id(erase(t)) == box_dt_display_opt_seed_type(seed)
    }

    fn from(t: T) -> (b: BoxDtDisplay) {
        BoxDtDisplay::new(t)
    }

    fn fn_seed() -> (seed: BoxFnSeed<BoxDtDisplay>) where T: serde::de::DeserializeOwned {
        box_dt_display_seed::<T>()
    }

    fn fn_opt_seed() -> (seed: BoxFnSeed<Option<BoxDtDisplay>>) where
        T: serde::de::DeserializeOwned,
     {
        box_dt_display_opt_seed::<T>()
    }
}

/// `serde_tagged::de::BoxFnSeed::new`, on a closure that reads an `R` with
/// `erased_serde::deserialize` and boxes it: the seed reads an `R`.
#[verifier::external_body]
fn box_dt_display_seed<R>() -> (seed: BoxFnSeed<BoxDtDisplay>) where
    R: StoredType + Display + serde::de::DeserializeOwned,

    ensures
        forall|t: R| #[trigger] stored_type_id(erase(t)) == box_dt_display_seed_type(seed),
{
    BoxFnSeed::new(
        |deserializer: &mut dyn erased_serde::Deserializer<'_>|
            erased_serde::deserialize::<R>(deserializer).map(BoxDtDisplay::new),
    )
}

/// `serde_tagged::de::BoxFnSeed::new`, on a closure that reads an optional
/// `R` with `erased_serde::deserialize` and boxes it where there is one: the
/// seed reads an optional `R`.
#[verifier::external_body]
fn box_dt_display_opt_seed<R>() -> (seed: BoxFnSeed<Option<BoxDtDisplay>>) where
    R: StoredType + Display + serde::de::DeserializeOwned,

    ensures
        forall|t: R| #[trigger] stored_type_id(erase(t)) == box_dt_display_opt_seed_type(seed),
{
    BoxFnSeed::new(
        |deserializer: &mut dyn erased_serde::Deserializer<'_>|
            erased_serde::deserialize::<Option<R>>(deserializer).map(
                |value| value.map(BoxDtDisplay::new),
            ),
    )
}

impl<T> BoxDataTypeDowncast<T> for BoxDtDisplay where T: StoredType + Display {
    open spec fn holds(&self, t: T) -> bool {
        self.0 == erase_display(t)
    }

    open spec fn named(&self) -> bool {
        names_stored::<T>(self.1)
    }

    fn downcast_ref(&self) -> (r: Option<&T>) {
        let any = self.0.as_any();
        display_downcast_lent::<T>(&self.0, any)
    }

    fn downcast_mut(&mut self) -> (r: Option<&mut T>) {
        display_downcast_mut::<T>(&mut self.0)
    }
}

impl DataTypeWrapper for BoxDtDisplay {
    open spec fn type_name_spec(&self) -> Seq<char> {
        self.1@
    }

    open spec fn clones_to(&self, copy: Self) -> bool {
        &&& copy.1 == self.1
        &&& exists|duplicate: DuplicateDisplay|
            self.0.duplicates_as(duplicate) && copy.0 == duplicate_display_box(duplicate)
    }

    open spec fn lends(&self, serialize: SerializeRef<'_>) -> bool {
        self.0.lends_serialize(serialize)
    }

    fn type_name_lit(&self) -> (name: TypeNameLit) {
        self.1
    }

    fn clone(&self) -> (r: Self) {
        let duplicate = self.0.duplicate();
        open_duplicate_display(duplicate, self.1)
    }

    fn inner(&self) -> (serialize: SerializeRef<'_>) {
        self.0.as_serialize()
    }
}

/// The clone of a box that holds `t` boxes what `Clone` makes of `t`, under
/// the same name.
pub proof fn lemma_display_clone_holds<T: StoredType + Display>(
    source: BoxDtDisplay,
    copy: BoxDtDisplay,
    t: T,
)
    requires
        source.holds(t),
        source.clones_to(copy),
    ensures
        copy.1 == source.1,
        boxes_display_clone_of(&copy.0, t),
{
    let duplicate = choose|duplicate: DuplicateDisplay|
        source.0.duplicates_as(duplicate) && copy.0 == duplicate_display_box(duplicate);
    assert(source.0 == erase_display(t));
    assert(erase_display(t).duplicates_as(duplicate));
}

} // verus!
