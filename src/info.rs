use vstd::prelude::*;
use crate::animation::{AnimatedBindingKind, Binding, Instant, PropertyAnimation};
use crate::property::{BindingSlot, PropertyStore};
use crate::value::{AccessError, Interpolated, Value, ValueType};

verus! {

/// Where a field lies: the index of its cell in the store of its type, and its
/// byte offset within the item that holds it.
#[derive(PartialEq, Eq, Structural, Clone, Copy, Debug)]
pub struct LocatedField {
    pub cell: usize,
    pub byte_offset: usize,
}

#[verifier::external_type_specification]
#[verifier::external_body]
#[verifier::reject_recursive_types(T)]
#[verifier::reject_recursive_types(U)]
#[verifier::reject_recursive_types(PinFlag)]
pub struct ExLayoutOffset<T, U, PinFlag>(const_field_offset::FieldOffset<T, U, PinFlag>);

/// Relies on const_field_offset's `FieldOffset::get_byte_offset`, which hands
/// back the byte offset that the offset was made with.
#[verifier::external_body]
fn layout_byte_offset<T, U, PinFlag>(f: &const_field_offset::FieldOffset<T, U, PinFlag>) -> usize {
    f.get_byte_offset()
}

impl LocatedField {
    /// The located field for cell `cell`, at the byte offset that `layout`
    /// gives within its item.
    pub fn from_layout<T, U, PinFlag>(layout: &const_field_offset::FieldOffset<T, U, PinFlag>, cell: usize) -> (r: LocatedField)
        ensures
            r.cell == cell,
    {
        LocatedField { cell, byte_offset: layout_byte_offset(layout) }
    }
}

/// An accessor for a cell whose type can be animated: animation descriptors
/// given to it are honoured.
#[derive(PartialEq, Eq, Structural, Clone, Copy, Debug)]
pub struct MaybeAnimatedPropertyInfoWrapper(pub LocatedField);

/// The outcome of `set` on cell `c` holding `value`, with `animation`, by an
/// accessor that honours animations when `animates` holds.
pub open spec fn set_outcome<T: ValueType>(
    old: PropertyStore<T>,
    new: PropertyStore<T>,
    c: int,
    value: Value,
    animation: Option<PropertyAnimation>,
    now: Instant,
    animates: bool,
    r: Result<(), AccessError>,
) -> bool {
    if animation is Some && !animates {
        r == Err::<(), AccessError>(AccessError::AnimationUnsupported) && new == old
    } else {
        match T::from_value_spec(value) {
            None => r == Err::<(), AccessError>(AccessError::ConversionError) && new == old,
            Some(t) => r == Ok::<(), AccessError>(()) && match animation {
                Some(a) => old.animated_set_post(&new, c, t, a, now),
                None => old.set_post(&new, c, t),
            },
        }
    }
}

/// The outcome of `set_binding` on cell `c`, with `animation`, by an accessor
/// that honours animations when `animates` holds. The binding's first value
/// decides between success and `ConversionError`, as `attach_post` says.
pub open spec fn set_binding_outcome<T: ValueType>(
    old: PropertyStore<T>,
    new: PropertyStore<T>,
    c: int,
    binding: Box<dyn Binding>,
    animation: AnimatedBindingKind,
    animates: bool,
    r: Result<(), AccessError>,
) -> bool {
    if !(animation is NotAnimated) && !animates {
        r == Err::<(), AccessError>(AccessError::AnimationUnsupported) && new == old
    } else {
        exists|v: Value| #[trigger] attach_post(old, new, c, BindingSlot { source: binding, animation }, v, r)
    }
}

/// What attaching `slot` to cell `c` leaves, where `v` is the first value of
/// its binding: it is kept exactly when `v` converts, and `v` converted is the
/// cell's value.
pub open spec fn attach_post<T: ValueType>(
    old: PropertyStore<T>,
    new: PropertyStore<T>,
    c: int,
    slot: BindingSlot,
    v: Value,
    r: Result<(), AccessError>,
) -> bool {
    match T::from_value_spec(v) {
        None => r == Err::<(), AccessError>(AccessError::ConversionError) && new == old,
        Some(t) => r == Ok::<(), AccessError>(()) && old.replaced(&new, c, t, None, Some(slot)),
    }
}

/// Type-erased access to one reactive cell of concrete type `T`.
pub trait PropertyInfo<T: ValueType> {
    /// The cell accessed.
    spec fn cell(&self) -> nat;

    /// Whether animation descriptors are honoured.
    spec fn animates(&self) -> bool;

    spec fn byte_offset(&self) -> usize;

    /// The value that the cell shows at `now`.
    fn get(&self, item: &PropertyStore<T>, now: Instant) -> (r: Result<Value, AccessError>)
        requires
            item.wf(),
            self.cell() < item.cells(),
        ensures
            r == Ok::<Value, AccessError>(T::to_value_spec(item.current(self.cell() as int, now))),
    ;

    /// Writes `value` to the cell, animated by `animation` if given.
    fn set(
        &self,
        item: &mut PropertyStore<T>,
        value: &Value,
        animation: Option<PropertyAnimation>,
        now: Instant,
    ) -> (r: Result<(), AccessError>)
        requires
            old(item).wf(),
            self.cell() < old(item).cells(),
        ensures
            set_outcome(*old(item), *final(item), self.cell() as int, *value, animation, now, self.animates(), r),
    ;

    /// Attaches `binding` to the cell; its value is taken at once.
    fn set_binding(
        &self,
        item: &mut PropertyStore<T>,
        binding: Box<dyn Binding>,
        animation: AnimatedBindingKind,
    ) -> (r: Result<(), AccessError>)
        requires
            old(item).wf(),
            self.cell() < old(item).cells(),
        ensures
            set_binding_outcome(*old(item), *final(item), self.cell() as int, binding, animation, self.animates(), r),
    ;

    /// The byte offset of the field in its item.
    fn offset(&self) -> (r: usize)
        ensures
            r == self.byte_offset(),
    ;

    /// Links the cell two ways with cell `other` of the same store: both then
    /// share the state that the accessed cell had.
    fn link_two_ways(&self, item: &mut PropertyStore<T>, other: usize)
        requires
            old(item).wf(),
            self.cell() < old(item).cells(),
            other < old(item).cells(),
        ensures
            old(item).link_post(&*final(item), self.cell() as int, other as int),
    ;
}

/// Evaluates `binding` once and attaches it to cell `c` with its first value.
fn attach<T: ValueType>(
    item: &mut PropertyStore<T>,
    c: usize,
    binding: Box<dyn Binding>,
    animation: AnimatedBindingKind,
) -> (r: Result<(), AccessError>)
    requires
        old(item).wf(),
        c < old(item).cells(),
        T::interpolatable() || animation is NotAnimated,
    ensures
        exists|v: Value| #[trigger] attach_post(*old(item), *final(item), c as int, BindingSlot { source: binding, animation }, v, r),
{
    let v = binding.evaluate();
    let r = attach_value(item, c, BindingSlot { source: binding, animation }, &v);
    assert(attach_post(*old(item), *item, c as int, BindingSlot { source: binding, animation }, v, r));
    r
}

/// Attaches `slot` to cell `c`, given `v`, the first value of its binding:
/// the binding is kept exactly when `v` converts to `T`, and then `v`
/// converted is the cell's value.
pub fn attach_value<T: ValueType>(
    item: &mut PropertyStore<T>,
    c: usize,
    slot: BindingSlot,
    v: &Value,
) -> (r: Result<(), AccessError>)
    requires
        old(item).wf(),
        c < old(item).cells(),
        T::interpolatable() || slot.animation is NotAnimated,
    ensures
        attach_post(*old(item), *final(item), c as int, slot, *v, r),
{
    match T::from_value(v) {
        None => Err(AccessError::ConversionError),
        Some(t) => {
            item.attach_binding(c, slot, t);
            Ok(())
        },
    }
}

impl<T: ValueType> PropertyInfo<T> for LocatedField {
    open spec fn cell(&self) -> nat {
        self.cell as nat
    }

    open spec fn animates(&self) -> bool {
        false
    }

    open spec fn byte_offset(&self) -> usize {
        self.byte_offset
    }

    fn get(&self, item: &PropertyStore<T>, now: Instant) -> (r: Result<Value, AccessError>) {
        Ok(item.value(self.cell, now).to_value())
    }

    fn set(
        &self,
        item: &mut PropertyStore<T>,
        value: &Value,
        animation: Option<PropertyAnimation>,
        now: Instant,
    ) -> (r: Result<(), AccessError>) {
        if animation.is_some() {
            Err(AccessError::AnimationUnsupported)
        } else {
            match T::from_value(value) {
                None => Err(AccessError::ConversionError),
                Some(t) => {
                    item.set_value(self.cell, t);
                    Ok(())
                },
            }
        }
    }

    fn set_binding(
        &self,
        item: &mut PropertyStore<T>,
        binding: Box<dyn Binding>,
        animation: AnimatedBindingKind,
    ) -> (r: Result<(), AccessError>) {
        match animation {
            AnimatedBindingKind::NotAnimated => attach(item, self.cell, binding, AnimatedBindingKind::NotAnimated),
            _ => Err(AccessError::AnimationUnsupported),
        }
    }

    fn offset(&self) -> (r: usize) {
        self.byte_offset
    }

    fn link_two_ways(&self, item: &mut PropertyStore<T>, other: usize) {
        item.link_two_way(self.cell, other);
    }
}

impl<T: Interpolated> PropertyInfo<T> for MaybeAnimatedPropertyInfoWrapper {
    open spec fn cell(&self) -> nat {
        self.0.cell as nat
    }

    open spec fn animates(&self) -> bool {
        true
    }

    open spec fn byte_offset(&self) -> usize {
        self.0.byte_offset
    }

    fn get(&self, item: &PropertyStore<T>, now: Instant) -> (r: Result<Value, AccessError>) {
        self.0.get(item, now)
    }

    fn set(
        &self,
        item: &mut PropertyStore<T>,
        value: &Value,
        animation: Option<PropertyAnimation>,
        now: Instant,
    ) -> (r: Result<(), AccessError>) {
        match animation {
            Some(a) => match T::from_value(value) {
                None => Err(AccessError::ConversionError),
                Some(t) => {
                    proof {
                        T::lemma_interpolatable();
                    }
                    item.set_animated_value(self.0.cell, t, a, now);
                    Ok(())
                },
            },
            None => self.0.set(item, value, None, now),
        }
    }

    fn set_binding(
        &self,
        item: &mut PropertyStore<T>,
        binding: Box<dyn Binding>,
        animation: AnimatedBindingKind,
    ) -> (r: Result<(), AccessError>) {
        proof {
            T::lemma_interpolatable();
        }
        attach(item, self.0.cell, binding, animation)
    }

    fn offset(&self) -> (r: usize) {
        self.0.byte_offset
    }

    fn link_two_ways(&self, item: &mut PropertyStore<T>, other: usize) {
        item.link_two_way(self.0.cell, other);
    }
}

} // verus!

verus! {

/// Type-erased write access to one plain (non-reactive) field of type `T`.
pub trait FieldInfo<T: ValueType> {
    /// The index of the field among the item's plain fields of type `T`.
    spec fn field(&self) -> nat;

    /// Overwrites the field with `value`, converted to `T`.
    fn set_field(&self, item: &mut Vec<T>, value: &Value) -> (r: Result<(), AccessError>)
        requires
            self.field() < old(item)@.len(),
        ensures
            match T::from_value_spec(*value) {
                Some(t) => r == Ok::<(), AccessError>(()) && final(item)@ == old(item)@.update(self.field() as int, t),
                None => r == Err::<(), AccessError>(AccessError::ConversionError) && final(item)@ == old(item)@,
            },
    ;
}

impl<T: ValueType> FieldInfo<T> for LocatedField {
    open spec fn field(&self) -> nat {
        self.cell as nat
    }

    fn set_field(&self, item: &mut Vec<T>, value: &Value) -> (r: Result<(), AccessError>) {
        match T::from_value(value) {
            None => Err(AccessError::ConversionError),
            Some(t) => {
                item.set(self.cell, t);
                Ok(())
            },
        }
    }
}

} // verus!
