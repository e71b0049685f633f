use vstd::prelude::*;
use crate::animation::{AnimatedBindingKind, Binding, Instant, PropertyAnimation};
use crate::info::{set_binding_outcome, set_outcome, LocatedField, PropertyInfo};
use crate::property::{running_from, started_by, PropertyStore, RunningAnimation};
use crate::value::{lemma_lerp_bounds, lerp, AccessError, Value, ValueType};

verus! {

/// Reading a cell after a successful instantaneous write of `v` gives a value
/// that converts back to what `v` converted to.
pub proof fn lemma_set_then_get<T: ValueType>(
    old: PropertyStore<T>,
    new: PropertyStore<T>,
    c: int,
    v: Value,
    now: Instant,
    later: Instant,
    animates: bool,
)
    requires
        old.wf(),
        0 <= c < old.cells(),
        set_outcome(old, new, c, v, None, now, animates, Ok(())),
    ensures
        T::from_value_spec(v) == Some(new.current(c, later)),
        T::from_value_spec(T::to_value_spec(new.current(c, later))) == T::from_value_spec(v),
{
    T::lemma_round_trip(new.current(c, later));
}

/// The plain accessor refuses every animation given to `set`, and changes nothing.
pub proof fn lemma_plain_set_refuses_animation<T: ValueType>(
    f: LocatedField,
    old: PropertyStore<T>,
    new: PropertyStore<T>,
    v: Value,
    a: PropertyAnimation,
    now: Instant,
    r: Result<(), AccessError>,
)
    requires
        set_outcome(old, new, f.cell as int, v, Some(a), now, <LocatedField as PropertyInfo<T>>::animates(&f), r),
    ensures
        r == Err::<(), AccessError>(AccessError::AnimationUnsupported),
        new == old,
{
}

/// The plain accessor refuses every binding that is to be animated, and
/// changes nothing.
pub proof fn lemma_plain_binding_refuses_animation<T: ValueType>(
    f: LocatedField,
    old: PropertyStore<T>,
    new: PropertyStore<T>,
    binding: Box<dyn Binding>,
    animation: AnimatedBindingKind,
    r: Result<(), AccessError>,
)
    requires
        !(animation is NotAnimated),
        set_binding_outcome(old, new, f.cell as int, binding, animation, <LocatedField as PropertyInfo<T>>::animates(&f), r),
    ensures
        r == Err::<(), AccessError>(AccessError::AnimationUnsupported),
        new == old,
{
}

/// An animated write to an integer cell does not land at once: when it is
/// made the cell still shows its old value, and while the animation runs
/// it shows the linear interpolation from the old value to the new one,
/// which lies between them, strictly once a whole step has been covered.
pub proof fn lemma_animated_set_moves_over_time(
    old: PropertyStore<i64>,
    new: PropertyStore<i64>,
    c: int,
    v: Value,
    a: PropertyAnimation,
    now: Instant,
    sample: Instant,
)
    requires
        old.wf(),
        0 <= c < old.cells(),
        set_outcome(old, new, c, v, Some(a), now, true, Ok(())),
        now + a.delay <= sample < now + a.delay + a.duration,
    ensures
        ({
            let from = old.current(c, now) as int;
            let to = new.target(c) as int;
            let elapsed = (sample - now - a.delay) as nat;
            let shown = new.current(c, sample) as int;
            &&& i64::from_value_spec(v) == Some(new.target(c))
            &&& new.current(c, now) == old.current(c, now)
            &&& shown == lerp(from, to, elapsed, a.duration as nat)
            &&& from <= to ==> from <= shown <= to
            &&& to < from ==> to <= shown <= from
            &&& from < to && 0 < elapsed && (to - from) * elapsed >= a.duration ==> from < shown < to
            &&& to < from && 0 < elapsed && (from - to) * elapsed >= a.duration ==> to < shown < from
        }),
{
    let from = old.current(c, now) as int;
    let to = new.target(c) as int;
    let e = (sample - now - a.delay) as nat;
    let dur = a.duration as nat;
    assert(new.linked(c, c));
    lemma_lerp_bounds(from, to, e, dur);
    lemma_lerp_bounds(from, to, 0, dur);
    assert(0 * (to - from) == 0);
    assert(0 * (from - to) == 0);
    if 0 < e {
        let d = if from <= to { to - from } else { from - to };
        assert(d > 0 && d * e >= dur ==> d * e / (dur as int) >= 1) by (nonlinear_arith)
            requires 0 < dur;
        assert(d > 0 && e < dur ==> d * e / (dur as int) < d) by (nonlinear_arith)
            requires 0 < dur, 0 <= e;
    }
}

/// A transition binding's new values are animated as its supplier answers on
/// that very evaluation: after two evaluations answered by `x1` and then `x2`,
/// the animations in place follow `x1` and then `x2`, so two different answers
/// give two different transitions.
pub proof fn lemma_transition_follows_each_answer<T: ValueType>(
    s0: PropertyStore<T>,
    s1: PropertyStore<T>,
    s2: PropertyStore<T>,
    c: int,
    v1: Value,
    v2: Value,
    x1: (PropertyAnimation, Instant),
    x2: (PropertyAnimation, Instant),
    now1: Instant,
    now2: Instant,
    r1: Result<Option<(PropertyAnimation, Instant)>, AccessError>,
    r2: Result<Option<(PropertyAnimation, Instant)>, AccessError>,
)
    requires
        s0.wf(),
        0 <= c < s0.cells(),
        s0.binding_of(c) matches Some(b) && b.animation is Transition,
        T::from_value_spec(v1) is Some,
        T::from_value_spec(v2) is Some,
        s0.binding_output_post(&s1, c, v1, Some(x1), now1, r1),
        s1.binding_output_post(&s2, c, v2, Some(x2), now2, r2),
    ensures
        r1 == Ok::<Option<(PropertyAnimation, Instant)>, AccessError>(Some(x1)),
        r2 == Ok::<Option<(PropertyAnimation, Instant)>, AccessError>(Some(x2)),
        s1.animation_of(c) == Some(RunningAnimation { from: s0.current(c, now1), animation: x1.0, start: x1.1 }),
        s2.animation_of(c) == Some(RunningAnimation { from: s1.current(c, now2), animation: x2.0, start: x2.1 }),
        x1.0 != x2.0 ==> s1.animation_of(c) != s2.animation_of(c),
{
    assert(s0.linked(c, c));
    let b = s0.binding_of(c).unwrap();
    assert(s1.binding_of(c) == Some(b));
    assert(s1.linked(c, c));
    assert(s1.cells() == s0.cells());
    let t2 = T::from_value_spec(v2).unwrap();
    assert(s1.replaced(&s2, c, t2, running_from(s1.current(c, now2), Some(x2)), Some(b)));
    assert(s2.target(c) == t2);
}

/// When a binding animated by `a` yields a new value at `now`, the cell
/// starts from what it showed and reaches the converted new value once the
/// animation is over.
pub proof fn lemma_animated_binding_moves_to_new_value<T: ValueType>(
    s0: PropertyStore<T>,
    s1: PropertyStore<T>,
    c: int,
    v: Value,
    a: PropertyAnimation,
    supplied: Option<(PropertyAnimation, Instant)>,
    now: Instant,
    later: Instant,
    r: Result<Option<(PropertyAnimation, Instant)>, AccessError>,
)
    requires
        s0.wf(),
        0 <= c < s0.cells(),
        s0.binding_of(c) matches Some(b) && b.animation == AnimatedBindingKind::Animation(a),
        T::from_value_spec(v) is Some,
        s0.binding_output_post(&s1, c, v, supplied, now, r),
        later >= now + a.delay + a.duration,
    ensures
        r == Ok::<Option<(PropertyAnimation, Instant)>, AccessError>(Some((a, now))),
        T::from_value_spec(v) == Some(s1.target(c)),
        s1.animation_of(c) == Some(RunningAnimation { from: s0.current(c, now), animation: a, start: now }),
        T::from_value_spec(v) == Some(s1.current(c, later)),
{
    assert(s0.linked(c, c));
}

/// After `a` and `b` are linked two ways, a write to `a` is read from `b`.
pub proof fn lemma_link_then_set_first<T: ValueType>(
    s0: PropertyStore<T>,
    s1: PropertyStore<T>,
    s2: PropertyStore<T>,
    a: int,
    b: int,
    v: Value,
    now: Instant,
    later: Instant,
    animates: bool,
)
    requires
        s0.wf(),
        0 <= a < s0.cells(),
        0 <= b < s0.cells(),
        s0.link_post(&s1, a, b),
        set_outcome(s1, s2, a, v, None, now, animates, Ok(())),
    ensures
        T::from_value_spec(v) == Some(s2.current(b, later)),
        s2.current(a, later) == s2.current(b, later),
{
    assert(s0.linked(b, b));
    assert(s1.linked(a, b));
    assert(s2.linked(a, a));
}

/// After `a` and `b` are linked two ways, a write to `b` is read from `a`.
pub proof fn lemma_link_then_set_second<T: ValueType>(
    s0: PropertyStore<T>,
    s1: PropertyStore<T>,
    s2: PropertyStore<T>,
    a: int,
    b: int,
    v: Value,
    now: Instant,
    later: Instant,
    animates: bool,
)
    requires
        s0.wf(),
        0 <= a < s0.cells(),
        0 <= b < s0.cells(),
        s0.link_post(&s1, a, b),
        set_outcome(s1, s2, b, v, None, now, animates, Ok(())),
    ensures
        T::from_value_spec(v) == Some(s2.current(a, later)),
        s2.current(a, later) == s2.current(b, later),
{
    assert(s0.linked(b, b));
    assert(s1.linked(b, a));
    assert(s2.linked(b, b));
}

} // verus!
