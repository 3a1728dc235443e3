use serde_tagged::de::BoxFnSeed;
use vstd::prelude::*;

use crate::handles::{stored_type_id, SerializeRef};
use crate::type_name_lit::TypeNameLit;
use crate::untagged::box_data_type_downcast::BoxDataTypeDowncast;
use crate::untagged::data_type::{
    box_downcast_mut, boxes_clone_of, downcast_lent, duplicate_box, erase, names_stored,
    open_duplicate, DataType, Duplicate, StoredType,
};
use crate::untagged::data_type_wrapper::DataTypeWrapper;
use crate::untagged::from_data_type::FromDataType;

verus! {

/// Box of any type, with no additional trait constraints.
///
/// Beside the value the box holds the name that the value's type gave of
/// itself when the value was boxed.
pub struct BoxDt(pub Box<dyn DataType>, pub TypeNameLit);

impl BoxDt {
    /// Returns a new `BoxDt` wrapper around the provided type.
    pub fn new<T>(t: T) -> (b: Self) where T: StoredType
        ensures
            b.0 == erase(t),
            b.holds(t),
            names_stored::<T>(b.1),
    {
        let inner: Box<dyn DataType> = Box::new(t);
        BoxDt(inner, T::type_name_lit())
    }

    /// Returns the inner `Box<dyn DataType>`.
    pub fn into_inner(self) -> Box<dyn DataType> {
        self.0
    }

    /// The boxed value, to be changed in place.
    pub fn deref_mut(&mut self) -> (inner: &mut Box<dyn DataType>)
        ensures
            *inner == old(self).0,
            final(self).0 == *final(inner),
            final(self).1 == old(self).1,
    {
        &mut self.0
    }

    /// The box as it is shown when debugging: the value itself is not shown.
    pub fn to_debug_string(&self) -> (s: String)
        ensures
            s@ == "BoxDt(\"..\")"@,
    {
        "BoxDt(\"..\")".to_owned()
    }
}

impl std::ops::Deref for BoxDt {
    type Target = dyn DataType;

    fn deref(&self) -> &Self::Target {
        &*self.0
    }
}

/// The identifier of the type that the seed reads.
pub uninterp spec fn box_dt_seed_type(seed: BoxFnSeed<BoxDt>) -> std::any::TypeId;

/// The identifier of the type that the seed reads, where a value is there.
pub uninterp spec fn box_dt_opt_seed_type(seed: BoxFnSeed<Option<BoxDt>>) -> std::any::TypeId;

impl<T> FromDataType<T> for BoxDt where T: StoredType {
    open spec fn seed_reads(seed: BoxFnSeed<BoxDt>) -> bool {
        forall|t: T| #[trigger] stored_type_id(erase(t)) == box_dt_seed_type(seed)
    }

    open spec fn opt_seed_reads(seed: BoxFnSeed<Option<BoxDt>>) -> bool {
        forall|t: T| #[trigger] stored_type_id(erase(t)) == box_dt_opt_seed_type(seed)
    }

    fn from(t: T) -> (b: BoxDt) {
        BoxDt::new(t)
    }

    fn fn_seed() -> (seed: BoxFnSeed<BoxDt>) where T: serde::de::DeserializeOwned {
        box_dt_seed::<T>()
    }

    fn fn_opt_seed() -> (seed: BoxFnSeed<Option<BoxDt>>) where T: serde::de::DeserializeOwned {
        box_dt_opt_seed::<T>()
    }
}

/// `serde_tagged::de::BoxFnSeed::new`, on a closure that reads an `R` with
/// `erased_serde::deserialize` and boxes it: the seed reads an `R`.
#[verifier::external_body]
fn box_dt_seed<R: StoredType + serde::de::DeserializeOwned>() -> (seed: BoxFnSeed<BoxDt>)
    ensures
        forall|t: R| #[trigger] stored_type_id(erase(t)) == box_dt_seed_type(seed),
{
    BoxFnSeed::new(
        |deserializer: &mut dyn erased_serde::Deserializer<'_>|
            erased_serde::deserialize::<R>(deserializer).map(BoxDt::new),
    )
}

/// `serde_tagged::de::BoxFnSeed::new`, on a closure that reads an optional
/// `R` with `erased_serde::deserialize` and boxes it where there is one: the
/// seed reads an optional `R`.
#[verifier::external_body]
fn box_dt_opt_seed<R>() -> (seed: BoxFnSeed<Option<BoxDt>>) where
    R: StoredType + serde::de::DeserializeOwned,

    ensures
        forall|t: R| #[trigger] stored_type_id(erase(t)) == box_dt_opt_seed_type(seed),
{
    BoxFnSeed::new(
        |deserializer: &mut dyn erased_serde::Deserializer<'_>|
            erased_serde::deserialize::<Option<R>>(deserializer).map(|value| value.map(BoxDt::new)),
    )
}

impl<T> BoxDataTypeDowncast<T> for BoxDt where T: StoredType {
    open spec fn holds(&self, t: T) -> bool {
        self.0 == erase(t)
    }

    open spec fn named(&self) -> bool {
        names_stored::<T>(self.1)
    }

    fn downcast_ref(&self) -> (r: Option<&T>) {
        let any = self.0.as_any();
        downcast_lent::<T>(&self.0, any)
    }

    fn downcast_mut(&mut self) -> (r: Option<&mut T>) {
        box_downcast_mut::<T>(&mut self.0)
    }
}

impl DataTypeWrapper for BoxDt {
    open spec fn type_name_spec(&self) -> Seq<char> {
        self.1@
    }

    open spec fn clones_to(&self, copy: Self) -> bool {
        &&& copy.1 == self.1
        &&& exists|duplicate: Duplicate|
            self.0.duplicates_as(duplicate) && copy.0 == duplicate_box(duplicate)
    }

    open spec fn lends(&self, serialize: SerializeRef<'_>) -> bool {
        self.0.lends_serialize(serialize)
    }

    fn type_name_lit(&self) -> (name: TypeNameLit) {
        self.1
    }

    fn clone(&self) -> (r: Self) {
        let duplicate = self.0.duplicate();
        open_duplicate(duplicate, self.1)
    }

    fn inner(&self) -> (serialize: SerializeRef<'_>) {
        self.0.as_serialize()
    }
}

/// The clone of a box that holds `t` boxes what `Clone` makes of `t`, under
/// the same name.
pub proof fn lemma_clone_holds<T: StoredType>(source: BoxDt, copy: BoxDt, t: T)
    requires
        source.holds(t),
        source.clones_to(copy),
    ensures
        copy.1 == source.1,
        boxes_clone_of(&copy.0, t),
{
    let duplicate = choose|duplicate: Duplicate|
        source.0.duplicates_as(duplicate) && copy.0 == duplicate_box(duplicate);
    assert(source.0 == erase(t));
    assert(erase(t).duplicates_as(duplicate));
}

} // verus!
