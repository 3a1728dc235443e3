use vstd::prelude::*;

use crate::handles::{
    any_mut, any_ref, lent_any, lent_any_mut, lent_plain, serialize_ref, stored_type_id,
    type_id_of, AnyMut, AnyRef, PlainValue, SerializeRef,
};
use crate::type_name_lit::TypeNameLit;
use crate::untagged::sealed::Sealed;
use crate::untagged::box_dt::BoxDt;

verus! {

/// What a type states of itself to be stored: its name, and how it is
/// serialized.
pub trait StoredType: Clone + Send + Sync + 'static {
    /// The name of the type.
    const TYPE_NAME: &'static str;

    /// The text of `TYPE_NAME`. A type that spells it out makes it known
    /// wherever the type is known.
    open spec fn type_name_text() -> Seq<char> {
        Self::TYPE_NAME@
    }

    /// The name of the type.
    fn type_name_lit() -> (name: TypeNameLit)
        ensures
            name == TypeNameLit(Self::TYPE_NAME),
            name@ == Self::type_name_text(),
    ;

    /// Whether `serialize` is this value, borrowed as a serializable object.
    /// Of a type that does not say, nothing is stated of the object.
    open spec fn serializes_as(&self, serialize: SerializeRef<'_>) -> bool {
        true
    }

    /// The value itself, as a serializable object.
    fn as_serialize(&self) -> (serialize: SerializeRef<'_>)
        ensures
            self.serializes_as(serialize),
    ;
}

/// Whether `name` is the name of `T`: the name that `T` gives of itself, and
/// the text that it reads as.
pub open spec fn names_stored<T: StoredType>(name: TypeNameLit) -> bool {
    name == TypeNameLit(T::TYPE_NAME) && name@ == T::type_name_text()
}

/// A copy of a stored value, still behind the uniform handle.
#[verifier::external_body]
pub struct Duplicate(pub Box<dyn DataType>);

/// The box that holds the copy.
pub uninterp spec fn duplicate_box(duplicate: Duplicate) -> Box<dyn DataType>;

/// Trait to represent the stored type.
pub trait DataType {
    /// The text of the name of the value's type.
    spec fn type_text(&self) -> Seq<char>;

    /// Whether `name` is the name that the value's type gives of itself.
    spec fn names_itself(&self, name: TypeNameLit) -> bool;

    /// Whether `id` is the identifier of the value's type, which every value
    /// of that type has.
    spec fn has_type_id(&self, id: std::any::TypeId) -> bool;

    /// Whether `any` is this value, borrowed as `Any`.
    spec fn lends_any(&self, any: AnyRef<'_>) -> bool;

    /// Whether `any` is this value, borrowed mutably as `Any`.
    spec fn lends_any_mut(&self, any: AnyMut<'_>) -> bool;

    /// Whether `serialize` is this value, borrowed as a serializable object.
    spec fn lends_serialize(&self, serialize: SerializeRef<'_>) -> bool;

    /// Whether `duplicate` holds what the value's own `Clone` makes of this
    /// value.
    spec fn duplicates_as(&self, duplicate: Duplicate) -> bool;

    /// The name of the value's type.
    fn type_name_lit(&self) -> (name: TypeNameLit)
        ensures
            self.names_itself(name),
    ;

    /// The identifier of the value's type.
    fn type_id_inner(&self) -> (id: std::any::TypeId)
        ensures
            self.has_type_id(id),
    ;

    /// The value as `Any`.
    fn as_any(&self) -> (any: AnyRef<'_>)
        ensures
            self.lends_any(any),
    ;

    /// The value as mutable `Any`.
    fn as_any_mut(&mut self) -> (any: AnyMut<'_>)
        ensures
            old(self).lends_any_mut(any),
    ;

    /// The value as a serializable object.
    fn as_serialize(&self) -> (serialize: SerializeRef<'_>)
        ensures
            self.lends_serialize(serialize),
    ;

    /// A copy of the value.
    fn duplicate(&self) -> (duplicate: Duplicate)
        ensures
            self.duplicates_as(duplicate),
    ;

    /// Keeps the trait to the library: a type is a `DataType` by being a
    /// [`StoredType`], and in no other way.
    fn sealed(&self, seal: Sealed);
}

impl<T> DataType for T where T: StoredType {
    open spec fn type_text(&self) -> Seq<char> {
        T::type_name_text()
    }

    open spec fn names_itself(&self, name: TypeNameLit) -> bool {
        names_stored::<T>(name)
    }

    open spec fn has_type_id(&self, id: std::any::TypeId) -> bool {
        &&& id == stored_type_id(erase(*self))
        &&& forall|t: T| #[trigger] stored_type_id(erase(t)) == id
    }

    open spec fn lends_any(&self, any: AnyRef<'_>) -> bool {
        lent_any(any) == erase(*self)
    }

    open spec fn lends_any_mut(&self, any: AnyMut<'_>) -> bool {
        lent_any_mut(any) == erase(*self)
    }

    open spec fn lends_serialize(&self, serialize: SerializeRef<'_>) -> bool {
        self.serializes_as(serialize)
    }

    open spec fn duplicates_as(&self, duplicate: Duplicate) -> bool {
        boxes_clone_of(&duplicate_box(duplicate), *self)
    }

    fn type_name_lit(&self) -> (name: TypeNameLit) {
        T::type_name_lit()
    }

    fn type_id_inner(&self) -> (id: std::any::TypeId) {
        type_id_of::<T>()
    }

    fn as_any(&self) -> (any: AnyRef<'_>) {
        any_ref(self)
    }

    fn as_any_mut(&mut self) -> (any: AnyMut<'_>) {
        any_mut(self)
    }

    fn as_serialize(&self) -> (serialize: SerializeRef<'_>) {
        StoredType::as_serialize(self)
    }

    fn duplicate(&self) -> (duplicate: Duplicate) {
        duplicate_of(self)
    }

    fn sealed(&self, _seal: Sealed) {
    }
}

/// `dyn_clone::clone_box`: a box with what the value's own `Clone` makes of
/// the value.
#[verifier::external_body]
fn duplicate_of<T: StoredType>(t: &T) -> (duplicate: Duplicate)
    ensures
        boxes_clone_of(&duplicate_box(duplicate), *t),
{
    Duplicate(dyn_clone::clone_box::<T>(t))
}

/// A clone of `t` that `boxed` holds, if it holds one.
pub open spec fn clone_in_box<T: StoredType>(boxed: &Box<dyn DataType>, t: T) -> T {
    choose|c: T| cloned(t, c) && *boxed == erase(c)
}

/// Whether `boxed` holds what `Clone` makes of `t`.
pub open spec fn boxes_clone_of<T: StoredType>(boxed: &Box<dyn DataType>, t: T) -> bool {
    cloned(t, clone_in_box(boxed, t)) && *boxed == erase(clone_in_box(boxed, t))
}

/// The value `t` behind the uniform handle.
pub open spec fn erase<T: StoredType>(t: T) -> Box<dyn DataType> {
    Box::new(t)
}

/// Values of types whose names differ are different values behind the
/// handle.
pub proof fn lemma_other_name_other_box<A: StoredType, B: StoredType>(a: A, b: B)
    requires
        A::type_name_text() != B::type_name_text(),
    ensures
        erase(a) != erase(b),
{
    assert(erase(a).type_text() == A::type_name_text());
    assert(erase(b).type_text() == B::type_name_text());
}

/// `std::any::Any::downcast_ref`, on `any`, which is `value` borrowed as
/// `Any`: the value at type `R` if `R` is its type, else `None`. A box holds
/// one value.
#[verifier::external_body]
#[allow(unused_variables)]
pub(crate) fn downcast_lent<'a, R: StoredType>(
    value: &'a Box<dyn DataType>,
    any: AnyRef<'a>,
) -> (r: Option<&'a R>)
    requires
        value.lends_any(any),
    ensures
        match r {
            Some(v) => *value == erase::<R>(*v) && forall|w: R|
                *value == erase::<R>(w) ==> w == *v,
            None => forall|w: R| *value != erase::<R>(w),
        },
{
    any.0.downcast_ref::<R>()
}

/// `std::any::Any::downcast_mut`, on the value that the box holds: the value
/// at type `R`, to be changed in place, if `R` is its type, else `None` and
/// the box is left as it was.
#[verifier::external_body]
pub(crate) fn box_downcast_mut<R: StoredType>(b: &mut Box<dyn DataType>) -> (r: Option<&mut R>)
    ensures
        match r {
            Some(v) => *old(b) == erase::<R>(*v) && *final(b) == erase::<R>(*final(v)) && forall|
                w: R,
            | *old(b) == erase::<R>(w) ==> w == *v,
            None => *final(b) == *old(b) && forall|w: R| *old(b) != erase::<R>(w),
        },
{
    b.as_any_mut().0.0.downcast_mut::<R>()
}

/// The box that a `Duplicate` holds, taken out of it and put under `name`.
#[verifier::external_body]
pub(crate) fn open_duplicate(duplicate: Duplicate, name: TypeNameLit) -> (r: BoxDt)
    ensures
        r.0 == duplicate_box(duplicate),
        r.1 == name,
{
    BoxDt(duplicate.0, name)
}

impl StoredType for bool {
    const TYPE_NAME: &'static str = "bool";

    open spec fn type_name_text() -> Seq<char> {
        "bool"@
    }

    open spec fn serializes_as(&self, serialize: SerializeRef<'_>) -> bool {
        lent_plain(serialize) == self.plain()
    }

    fn type_name_lit() -> (name: TypeNameLit) {
        TypeNameLit("bool")
    }

    fn as_serialize(&self) -> (serialize: SerializeRef<'_>) {
        serialize_ref(self)
    }
}

impl StoredType for u8 {
    const TYPE_NAME: &'static str = "u8";

    open spec fn type_name_text() -> Seq<char> {
        "u8"@
    }

    open spec fn serializes_as(&self, serialize: SerializeRef<'_>) -> bool {
        lent_plain(serialize) == self.plain()
    }

    fn type_name_lit() -> (name: TypeNameLit) {
        TypeNameLit("u8")
    }

    fn as_serialize(&self) -> (serialize: SerializeRef<'_>) {
        serialize_ref(self)
    }
}

impl StoredType for u16 {
    const TYPE_NAME: &'static str = "u16";

    open spec fn type_name_text() -> Seq<char> {
        "u16"@
    }

    open spec fn serializes_as(&self, serialize: SerializeRef<'_>) -> bool {
        lent_plain(serialize) == self.plain()
    }

    fn type_name_lit() -> (name: TypeNameLit) {
        TypeNameLit("u16")
    }

    fn as_serialize(&self) -> (serialize: SerializeRef<'_>) {
        serialize_ref(self)
    }
}

impl StoredType for u32 {
    const TYPE_NAME: &'static str = "u32";

    open spec fn type_name_text() -> Seq<char> {
        "u32"@
    }

    open spec fn serializes_as(&self, serialize: SerializeRef<'_>) -> bool {
        lent_plain(serialize) == self.plain()
    }

    fn type_name_lit() -> (name: TypeNameLit) {
        TypeNameLit("u32")
    }

    fn as_serialize(&self) -> (serialize: SerializeRef<'_>) {
        serialize_ref(self)
    }
}

impl StoredType for u64 {
    const TYPE_NAME: &'static str = "u64";

    open spec fn type_name_text() -> Seq<char> {
        "u64"@
    }

    open spec fn serializes_as(&self, serialize: SerializeRef<'_>) -> bool {
        lent_plain(serialize) == self.plain()
    }

    fn type_name_lit() -> (name: TypeNameLit) {
        TypeNameLit("u64")
    }

    fn as_serialize(&self) -> (serialize: SerializeRef<'_>) {
        serialize_ref(self)
    }
}

impl StoredType for i8 {
    const TYPE_NAME: &'static str = "i8";

    open spec fn type_name_text() -> Seq<char> {
        "i8"@
    }

    open spec fn serializes_as(&self, serialize: SerializeRef<'_>) -> bool {
        lent_plain(serialize) == self.plain()
    }

    fn type_name_lit() -> (name: TypeNameLit) {
        TypeNameLit("i8")
    }

    fn as_serialize(&self) -> (serialize: SerializeRef<'_>) {
        serialize_ref(self)
    }
}

impl StoredType for i16 {
    const TYPE_NAME: &'static str = "i16";

    open spec fn type_name_text() -> Seq<char> {
        "i16"@
    }

    open spec fn serializes_as(&self, serialize: SerializeRef<'_>) -> bool {
        lent_plain(serialize) == self.plain()
    }

    fn type_name_lit() -> (name: TypeNameLit) {
        TypeNameLit("i16")
    }

    fn as_serialize(&self) -> (serialize: SerializeRef<'_>) {
        serialize_ref(self)
    }
}

impl StoredType for i32 {
    const TYPE_NAME: &'static str = "i32";

    open spec fn type_name_text() -> Seq<char> {
        "i32"@
    }

    open spec fn serializes_as(&self, serialize: SerializeRef<'_>) -> bool {
        lent_plain(serialize) == self.plain()
    }

    fn type_name_lit() -> (name: TypeNameLit) {
        TypeNameLit("i32")
    }

    fn as_serialize(&self) -> (serialize: SerializeRef<'_>) {
        serialize_ref(self)
    }
}

impl StoredType for i64 {
    const TYPE_NAME: &'static str = "i64";

    open spec fn type_name_text() -> Seq<char> {
        "i64"@
    }

    open spec fn serializes_as(&self, serialize: SerializeRef<'_>) -> bool {
        lent_plain(serialize) == self.plain()
    }

    fn type_name_lit() -> (name: TypeNameLit) {
        TypeNameLit("i64")
    }

    fn as_serialize(&self) -> (serialize: SerializeRef<'_>) {
        serialize_ref(self)
    }
}

impl StoredType for u128 {
    const TYPE_NAME: &'static str = "u128";

    open spec fn type_name_text() -> Seq<char> {
        "u128"@
    }

    open spec fn serializes_as(&self, serialize: SerializeRef<'_>) -> bool {
        lent_plain(serialize) == self.plain()
    }

    fn type_name_lit() -> (name: TypeNameLit) {
        TypeNameLit("u128")
    }

    fn as_serialize(&self) -> (serialize: SerializeRef<'_>) {
        serialize_ref(self)
    }
}

impl StoredType for usize {
    const TYPE_NAME: &'static str = "usize";

    open spec fn type_name_text() -> Seq<char> {
        "usize"@
    }

    open spec fn serializes_as(&self, serialize: SerializeRef<'_>) -> bool {
        lent_plain(serialize) == self.plain()
    }

    fn type_name_lit() -> (name: TypeNameLit) {
        TypeNameLit("usize")
    }

    fn as_serialize(&self) -> (serialize: SerializeRef<'_>) {
        serialize_ref(self)
    }
}

impl StoredType for i128 {
    const TYPE_NAME: &'static str = "i128";

    open spec fn type_name_text() -> Seq<char> {
        "i128"@
    }

    open spec fn serializes_as(&self, serialize: SerializeRef<'_>) -> bool {
        lent_plain(serialize) == self.plain()
    }

    fn type_name_lit() -> (name: TypeNameLit) {
        TypeNameLit("i128")
    }

    fn as_serialize(&self) -> (serialize: SerializeRef<'_>) {
        serialize_ref(self)
    }
}

impl StoredType for isize {
    const TYPE_NAME: &'static str = "isize";

    open spec fn type_name_text() -> Seq<char> {
        "isize"@
    }

    open spec fn serializes_as(&self, serialize: SerializeRef<'_>) -> bool {
        lent_plain(serialize) == self.plain()
    }

    fn type_name_lit() -> (name: TypeNameLit) {
        TypeNameLit("isize")
    }

    fn as_serialize(&self) -> (serialize: SerializeRef<'_>) {
        serialize_ref(self)
    }
}

impl StoredType for char {
    const TYPE_NAME: &'static str = "char";

    open spec fn type_name_text() -> Seq<char> {
        "char"@
    }

    open spec fn serializes_as(&self, serialize: SerializeRef<'_>) -> bool {
        lent_plain(serialize) == self.plain()
    }

    fn type_name_lit() -> (name: TypeNameLit) {
        TypeNameLit("char")
    }

    fn as_serialize(&self) -> (serialize: SerializeRef<'_>) {
        serialize_ref(self)
    }
}

impl StoredType for String {
    const TYPE_NAME: &'static str = "alloc::string::String";

    open spec fn type_name_text() -> Seq<char> {
        "alloc::string::String"@
    }

    open spec fn serializes_as(&self, serialize: SerializeRef<'_>) -> bool {
        lent_plain(serialize) == self.plain()
    }

    fn type_name_lit() -> (name: TypeNameLit) {
        TypeNameLit("alloc::string::String")
    }

    fn as_serialize(&self) -> (serialize: SerializeRef<'_>) {
        serialize_ref(self)
    }
}

} // verus!
