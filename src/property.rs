use vstd::prelude::*;
use crate::animation::{AnimatedBindingKind, Binding, Instant, PropertyAnimation};
use crate::value::{AccessError, Value, ValueType};

verus! {

/// An animation in progress: from `from` towards the cell's target value.
pub struct RunningAnimation<T> {
    pub from: T,
    pub animation: PropertyAnimation,
    pub start: Instant,
}

/// A binding attached to a cell, with the way its changes are presented.
pub struct BindingSlot {
    pub source: Box<dyn Binding>,
    pub animation: AnimatedBindingKind,
}

/// The value shown at `now` by a cell whose target is `to`.
pub open spec fn animated_value<T: ValueType>(ra: RunningAnimation<T>, to: T, now: Instant) -> T {
    let begin = ra.start + ra.animation.delay;
    if now < begin {
        ra.from
    } else if now - begin < ra.animation.duration {
        T::interpolate_spec(ra.from, to, (now - begin) as nat, ra.animation.duration as nat)
    } else {
        to
    }
}

/// The animation that a new value of a binding with animation kind `kind`
/// starts at `now`, where `supplied` is what a transition's supplier answered.
pub open spec fn started_by(
    kind: AnimatedBindingKind,
    supplied: Option<(PropertyAnimation, Instant)>,
    now: Instant,
) -> Option<(PropertyAnimation, Instant)> {
    match kind {
        AnimatedBindingKind::NotAnimated => None,
        AnimatedBindingKind::Animation(a) => Some((a, now)),
        AnimatedBindingKind::Transition(_) => supplied,
    }
}

/// The running animation that `started` describes, from `from`.
pub open spec fn running_from<T>(from: T, started: Option<(PropertyAnimation, Instant)>) -> Option<RunningAnimation<T>> {
    match started {
        Some((a, st)) => Some(RunningAnimation { from, animation: a, start: st }),
        None => None,
    }
}

/// The reactive cells of one concrete type `T`. Each cell refers to a slot that
/// holds its state; cells linked two ways refer to one slot.
pub struct PropertyStore<T> {
    values: Vec<T>,
    animations: Vec<Option<RunningAnimation<T>>>,
    bindings: Vec<Option<BindingSlot>>,
    links: Vec<usize>,
}

impl<T: ValueType> PropertyStore<T> {
    pub closed spec fn wf(&self) -> bool {
        &&& self.animations@.len() == self.values@.len()
        &&& self.bindings@.len() == self.values@.len()
        &&& forall|c: int| 0 <= c < self.links@.len() ==> #[trigger] self.links@[c] < self.values@.len()
        &&& !T::interpolatable() ==> forall|s: int|
            0 <= s < self.values@.len() ==> {
                &&& #[trigger] self.animations@[s] is None
                &&& self.bindings@[s] matches Some(b) ==> b.animation is NotAnimated
            }
    }

    /// The number of cells.
    pub closed spec fn cells(&self) -> nat {
        self.links@.len()
    }

    /// The slot that holds the state of cell `c`.
    pub closed spec fn slot_of(&self, c: int) -> int {
        self.links@[c] as int
    }

    /// The value that cell `c` holds or is animating towards.
    pub closed spec fn target(&self, c: int) -> T {
        self.values@[self.slot_of(c)]
    }

    pub closed spec fn animation_of(&self, c: int) -> Option<RunningAnimation<T>> {
        self.animations@[self.slot_of(c)]
    }

    pub closed spec fn binding_of(&self, c: int) -> Option<BindingSlot> {
        self.bindings@[self.slot_of(c)]
    }

    /// The value that cell `c` shows at `now`.
    pub open spec fn current(&self, c: int, now: Instant) -> T {
        match self.animation_of(c) {
            Some(ra) => animated_value(ra, self.target(c), now),
            None => self.target(c),
        }
    }

    /// Cells `c` and `d` share their state.
    pub open spec fn linked(&self, c: int, d: int) -> bool {
        self.slot_of(c) == self.slot_of(d)
    }

    /// Cell `d` has the same state in `self` and in `other`.
    pub open spec fn same_cell(&self, other: &PropertyStore<T>, d: int) -> bool {
        &&& self.target(d) == other.target(d)
        &&& self.animation_of(d) == other.animation_of(d)
        &&& self.binding_of(d) == other.binding_of(d)
    }

    /// `new` is `self` with the state of cell `c`, and of every cell linked to
    /// it, given by `value`, `animation` and `binding`.
    pub open spec fn replaced(
        &self,
        new: &PropertyStore<T>,
        c: int,
        value: T,
        animation: Option<RunningAnimation<T>>,
        binding: Option<BindingSlot>,
    ) -> bool {
        &&& new.wf()
        &&& new.cells() == self.cells()
        &&& forall|d: int| 0 <= d < self.cells() ==> #[trigger] new.slot_of(d) == self.slot_of(d)
        &&& forall|d: int|
            0 <= d < self.cells() ==> if self.linked(c, d) {
                &&& #[trigger] new.target(d) == value
                &&& new.animation_of(d) == animation
                &&& new.binding_of(d) == binding
            } else {
                new.same_cell(self, d)
            }
    }

    /// An instantaneous write of `value` to cell `c`, which removes its
    /// animation and binding.
    pub open spec fn set_post(&self, new: &PropertyStore<T>, c: int, value: T) -> bool {
        self.replaced(new, c, value, None, None)
    }

    /// A write of `value` to cell `c` animated by `a` from what it shows at `now`.
    pub open spec fn animated_set_post(
        &self,
        new: &PropertyStore<T>,
        c: int,
        value: T,
        a: PropertyAnimation,
        now: Instant,
    ) -> bool {
        self.replaced(
            new,
            c,
            value,
            Some(RunningAnimation { from: self.current(c, now), animation: a, start: now }),
            None,
        )
    }

    /// Cell `b`, and every cell linked to it, now shares the state of cell `a`.
    pub open spec fn link_post(&self, new: &PropertyStore<T>, a: int, b: int) -> bool {
        &&& new.wf()
        &&& new.cells() == self.cells()
        &&& forall|d: int|
            0 <= d < self.cells() ==> #[trigger] new.slot_of(d) == if self.linked(b, d) {
                self.slot_of(a)
            } else {
                self.slot_of(d)
            }
        &&& forall|d: int|
            0 <= d < self.cells() ==> if self.linked(b, d) {
                new.same_cell(self, a)
            } else {
                new.same_cell(self, d)
            }
    }

    /// What re-evaluating the binding of cell `c` at `now` leaves, where `r`
    /// is its result: without a binding, nothing changes; with one, the
    /// outcome is that of taking some value of the binding, with the answer
    /// of its supplier exactly when it is a transition.
    pub open spec fn reactivate_post(
        &self,
        new: &PropertyStore<T>,
        c: int,
        now: Instant,
        r: Result<Option<(PropertyAnimation, Instant)>, AccessError>,
    ) -> bool {
        match self.binding_of(c) {
            None => r == Ok::<Option<(PropertyAnimation, Instant)>, AccessError>(None) && *new == *self,
            Some(b) => exists|v: Value, supplied: Option<(PropertyAnimation, Instant)>|
                (supplied is Some <==> b.animation is Transition)
                && #[trigger] self.binding_output_post(new, c, v, supplied, now, r),
        }
    }

    /// What taking `v`, a new value of the binding of cell `c`, at `now`
    /// leaves, where `supplied` is the answer of its transition supplier.
    pub open spec fn binding_output_post(
        &self,
        new: &PropertyStore<T>,
        c: int,
        v: Value,
        supplied: Option<(PropertyAnimation, Instant)>,
        now: Instant,
        r: Result<Option<(PropertyAnimation, Instant)>, AccessError>,
    ) -> bool {
        let b = self.binding_of(c).unwrap();
        let started = started_by(b.animation, supplied, now);
        match T::from_value_spec(v) {
            None => r == Err::<Option<(PropertyAnimation, Instant)>, AccessError>(AccessError::BindingTypeMismatch)
                && *new == *self,
            Some(t) => r == Ok::<Option<(PropertyAnimation, Instant)>, AccessError>(started)
                && self.replaced(new, c, t, running_from(self.current(c, now), started), Some(b)),
        }
    }

    pub fn new() -> (r: PropertyStore<T>)
        ensures
            r.wf(),
            r.cells() == 0,
    {
        PropertyStore { values: Vec::new(), animations: Vec::new(), bindings: Vec::new(), links: Vec::new() }
    }

    /// Adds a cell holding `value`, unlinked, without animation or binding.
    pub fn add_cell(&mut self, value: T) -> (r: usize)
        requires
            old(self).wf(),
        ensures
            final(self).wf(),
            r == old(self).cells(),
            final(self).cells() == old(self).cells() + 1,
            final(self).target(r as int) == value,
            final(self).animation_of(r as int) is None,
            final(self).binding_of(r as int) is None,
            forall|d: int| 0 <= d < old(self).cells() ==> !#[trigger] final(self).linked(d, r as int),
            forall|d: int|
                0 <= d < old(self).cells() ==> #[trigger] final(self).slot_of(d) == old(self).slot_of(d)
                    && final(self).same_cell(old(self), d),
    {
        let r = self.links.len();
        let s = self.values.len();
        self.values.push(value);
        self.animations.push(None);
        self.bindings.push(None);
        self.links.push(s);
        proof {
            assert forall|d: int| 0 <= d < old(self).cells() implies #[trigger] self.slot_of(d) == old(self).slot_of(d)
                && self.same_cell(old(self), d) by {
                assert(self.links@[d] == old(self).links@[d]);
            }
        }
        r
    }

    /// The value that cell `c` shows at `now`.
    pub fn value(&self, c: usize, now: Instant) -> (r: T)
        requires
            self.wf(),
            c < self.cells(),
        ensures
            r == self.current(c as int, now),
    {
        let s = self.links[c];
        match &self.animations[s] {
            Some(ra) => {
                let begin: u128 = ra.start as u128 + ra.animation.delay as u128;
                if (now as u128) < begin {
                    ra.from.duplicate()
                } else if (now as u128) - begin < ra.animation.duration as u128 {
                    let elapsed = ((now as u128) - begin) as u32;
                    T::interpolate(&ra.from, &self.values[s], elapsed, ra.animation.duration)
                } else {
                    self.values[s].duplicate()
                }
            },
            None => self.values[s].duplicate(),
        }
    }

    /// Replaces the state of the slot `s`.
    fn put_slot(
        &mut self,
        s: usize,
        value: T,
        animation: Option<RunningAnimation<T>>,
        binding: Option<BindingSlot>,
        Ghost(c): Ghost<int>,
    )
        requires
            old(self).wf(),
            0 <= c < old(self).cells(),
            s == old(self).slot_of(c),
            T::interpolatable() || (animation is None && (binding matches Some(b) ==> b.animation is NotAnimated)),
        ensures
            old(self).replaced(&*final(self), c, value, animation, binding),
            final(self).links == old(self).links,
    {
        self.values.set(s, value);
        self.animations.set(s, animation);
        self.bindings.set(s, binding);
    }

    /// Writes `value` to cell `c` at once, removing its animation and binding.
    pub fn set_value(&mut self, c: usize, value: T)
        requires
            old(self).wf(),
            c < old(self).cells(),
        ensures
            old(self).set_post(&*final(self), c as int, value),
    {
        let s = self.links[c];
        self.put_slot(s, value, None, None, Ghost(c as int));
    }

    /// Animates cell `c` by `a` from what it shows at `now` towards `value`,
    /// removing its binding.
    pub fn set_animated_value(&mut self, c: usize, value: T, a: PropertyAnimation, now: Instant)
        requires
            old(self).wf(),
            c < old(self).cells(),
            T::interpolatable(),
        ensures
            old(self).animated_set_post(&*final(self), c as int, value, a, now),
    {
        let from = self.value(c, now);
        let s = self.links[c];
        self.put_slot(s, value, Some(RunningAnimation { from, animation: a, start: now }), None, Ghost(c as int));
    }

    /// Replaces the value and animation of the slot `s`, keeping its binding.
    fn put_state(&mut self, s: usize, value: T, animation: Option<RunningAnimation<T>>, Ghost(c): Ghost<int>)
        requires
            old(self).wf(),
            0 <= c < old(self).cells(),
            s == old(self).slot_of(c),
            T::interpolatable() || animation is None,
        ensures
            old(self).replaced(&*final(self), c, value, animation, old(self).binding_of(c)),
            final(self).links == old(self).links,
    {
        self.values.set(s, value);
        self.animations.set(s, animation);
        proof {
            if !T::interpolatable() {
                assert forall|t: int| 0 <= t < self.values@.len() implies {
                    &&& #[trigger] self.animations@[t] is None
                    &&& self.bindings@[t] matches Some(b) ==> b.animation is NotAnimated
                } by {
                    assert(old(self).animations@[t] is None);
                }
            }
        }
    }

    /// Attaches `binding` to cell `c`, whose value it has just given as `value`.
    pub fn attach_binding(&mut self, c: usize, binding: BindingSlot, value: T)
        requires
            old(self).wf(),
            c < old(self).cells(),
            T::interpolatable() || binding.animation is NotAnimated,
        ensures
            old(self).replaced(&*final(self), c as int, value, None, Some(binding)),
    {
        let s = self.links[c];
        self.put_slot(s, value, None, Some(binding), Ghost(c as int));
    }

    /// Takes `v`, a new value of the binding of cell `c` produced at `now`,
    /// with `supplied`, the answer of the binding's transition supplier if it
    /// has one: writes the converted value and starts the animation that the
    /// binding's animation kind asks for.
    pub fn apply_binding_output(
        &mut self,
        c: usize,
        v: &Value,
        supplied: Option<(PropertyAnimation, Instant)>,
        now: Instant,
    ) -> (r: Result<Option<(PropertyAnimation, Instant)>, AccessError>)
        requires
            old(self).wf(),
            c < old(self).cells(),
            old(self).binding_of(c as int) is Some,
        ensures
            old(self).binding_output_post(&*final(self), c as int, *v, supplied, now, r),
    {
        let s = self.links[c];
        let started = match &self.bindings[s] {
            Some(b) => match &b.animation {
                AnimatedBindingKind::NotAnimated => None,
                AnimatedBindingKind::Animation(a) => Some((*a, now)),
                AnimatedBindingKind::Transition(_) => supplied,
            },
            None => None,
        };
        match T::from_value(v) {
            None => Err(AccessError::BindingTypeMismatch),
            Some(t) => {
                match started {
                    None => {
                        self.put_state(s, t, None, Ghost(c as int));
                    },
                    Some((a, st)) => {
                        let from = self.value(c, now);
                        self.put_state(s, t, Some(RunningAnimation { from, animation: a, start: st }), Ghost(c as int));
                    },
                }
                Ok(started)
            },
        }
    }

    /// Evaluates the binding of cell `c` again, as when one of its dependencies
    /// changed at `now`, and presents the new value as the binding's animation
    /// kind says. Returns the animation started, with its start time.
    pub fn reactivate(&mut self, c: usize, now: Instant) -> (r: Result<Option<(PropertyAnimation, Instant)>, AccessError>)
        requires
            old(self).wf(),
            c < old(self).cells(),
        ensures
            old(self).reactivate_post(&*final(self), c as int, now, r),
    {
        let s = self.links[c];
        let (v, supplied) = match &self.bindings[s] {
            None => {
                return Ok(None);
            },
            Some(b) => {
                let v = b.source.evaluate();
                let supplied = match &b.animation {
                    AnimatedBindingKind::Transition(supplier) => Some(supplier.supply()),
                    _ => None,
                };
                (v, supplied)
            },
        };
        let r = self.apply_binding_output(c, &v, supplied, now);
        assert(old(self).binding_output_post(&*self, c as int, v, supplied, now, r));
        r
    }

    /// Links cells `a` and `b` two ways: from now on they share one state,
    /// which is that of `a`. Cells linked to `b` before join too.
    pub fn link_two_way(&mut self, a: usize, b: usize)
        requires
            old(self).wf(),
            a < old(self).cells(),
            b < old(self).cells(),
        ensures
            old(self).link_post(&*final(self), a as int, b as int),
    {
        let sa = self.links[a];
        let sb = self.links[b];
        let n = self.links.len();
        let mut i: usize = 0;
        while i < n
            invariant
                old(self).wf(),
                n == old(self).links@.len(),
                self.links@.len() == n,
                i <= n,
                sa == old(self).links@[a as int],
                sb == old(self).links@[b as int],
                a < n,
                self.values == old(self).values,
                self.animations == old(self).animations,
                self.bindings == old(self).bindings,
                forall|d: int| 0 <= d < i ==> #[trigger] self.links@[d] == if old(self).links@[d] == sb {
                    sa
                } else {
                    old(self).links@[d]
                },
                forall|d: int| i <= d < n ==> #[trigger] self.links@[d] == old(self).links@[d],
            decreases n - i,
        {
            if self.links[i] == sb {
                self.links.set(i, sa);
            }
            i += 1;
        }
        proof {
            assert forall|d: int| 0 <= d < self.links@.len() implies #[trigger] self.links@[d] < self.values@.len() by {
                assert(old(self).links@[d] < old(self).values@.len());
            }
        }
    }
}

} // verus!
