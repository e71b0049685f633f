use vstd::prelude::*;
use crate::value::Value;

verus! {

/// A point in time, in milliseconds of the animation clock.
pub type Instant = u64;

/// How a change of value is animated: after `delay` milliseconds, linearly
/// over `duration` milliseconds.
#[derive(PartialEq, Eq, Structural, Clone, Copy, Debug)]
pub struct PropertyAnimation {
    pub delay: u32,
    pub duration: u32,
}

/// A binding: an expression that yields the value of a cell each time the
/// cell is re-evaluated. Its result may differ from one evaluation to the next.
pub trait Binding {
    fn evaluate(&self) -> Value;
}

/// Chooses the animation of a transition, and its start time, each time the
/// binding it belongs to produces a new value.
pub trait TransitionSupplier {
    fn supply(&self) -> (PropertyAnimation, Instant);
}

/// What kind of animation is on a binding.
pub enum AnimatedBindingKind {
    /// No animation is on the binding.
    NotAnimated,
    /// Every change of the binding's value is animated the same way.
    Animation(PropertyAnimation),
    /// Every change is animated as the supplier decides at that moment.
    Transition(Box<dyn TransitionSupplier>),
}

impl AnimatedBindingKind {
    /// The animation, if this is `Animation`.
    pub fn as_animation(self) -> (r: Option<PropertyAnimation>)
        ensures
            r == (match self {
                AnimatedBindingKind::Animation(a) => Some(a),
                _ => None,
            }),
    {
        match self {
            AnimatedBindingKind::NotAnimated => None,
            AnimatedBindingKind::Animation(a) => Some(a),
            AnimatedBindingKind::Transition(_) => None,
        }
    }
}

} // verus!
