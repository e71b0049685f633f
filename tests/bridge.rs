use std::cell::Cell;
use std::rc::Rc;

use rtti_bridge::animation::{AnimatedBindingKind, Binding, Instant, PropertyAnimation, TransitionSupplier};
use rtti_bridge::info::{attach_value, FieldInfo, LocatedField, MaybeAnimatedPropertyInfoWrapper, PropertyInfo};
use rtti_bridge::property::{BindingSlot, PropertyStore};
use rtti_bridge::registry::{property_accessor, Accessor, ItemDescriptor, RegistryError};
use rtti_bridge::value::{AccessError, Color, ImageFit, Resource, StandardListViewItem, TextHorizontalAlignment, Value};

struct Fixed(i64);

impl Binding for Fixed {
    fn evaluate(&self) -> Value {
        Value::Int64(self.0)
    }
}

/// Yields 10, 20, 30, ... on successive evaluations.
struct Counting(Rc<Cell<i64>>);

impl Binding for Counting {
    fn evaluate(&self) -> Value {
        self.0.set(self.0.get() + 10);
        Value::Int64(self.0.get())
    }
}

/// Yields text on its first evaluation and a boolean afterwards.
struct TextThenBool(Cell<bool>);

impl Binding for TextThenBool {
    fn evaluate(&self) -> Value {
        if self.0.get() {
            Value::Bool(true)
        } else {
            self.0.set(true);
            Value::Text("first".to_string())
        }
    }
}

/// Answers with a longer animation each time it is asked.
struct Lengthening(Rc<Cell<u32>>);

impl TransitionSupplier for Lengthening {
    fn supply(&self) -> (PropertyAnimation, Instant) {
        self.0.set(self.0.get() + 1);
        (PropertyAnimation { delay: 0, duration: 100 * self.0.get() }, 1000)
    }
}

fn anim(duration: u32) -> PropertyAnimation {
    PropertyAnimation { delay: 0, duration }
}

fn at(cell: usize) -> LocatedField {
    LocatedField { cell, byte_offset: 8 * cell }
}

#[test]
fn as_animation_gives_the_animation_only() {
    assert_eq!(AnimatedBindingKind::NotAnimated.as_animation(), None);
    assert_eq!(AnimatedBindingKind::Animation(anim(30)).as_animation(), Some(anim(30)));
    let tr = AnimatedBindingKind::Transition(Box::new(Lengthening(Rc::new(Cell::new(0)))));
    assert_eq!(tr.as_animation(), None);
}

#[test]
fn set_then_get_round_trips() {
    let mut store: PropertyStore<i32> = PropertyStore::new();
    let c = store.add_cell(0);
    let f = at(c);
    assert_eq!(f.set(&mut store, &Value::UInt32(5), None, 0), Ok(()));
    assert!(matches!(f.get(&store, 0), Ok(Value::Int32(5))));
    assert_eq!(f.set(&mut store, &Value::Int64(-7), None, 0), Ok(()));
    assert!(matches!(f.get(&store, 0), Ok(Value::Int32(-7))));
}

#[test]
fn set_out_of_range_integer_is_a_conversion_error() {
    let mut store: PropertyStore<u32> = PropertyStore::new();
    let c = store.add_cell(3);
    let f = at(c);
    assert_eq!(f.set(&mut store, &Value::Int32(-1), None, 0), Err(AccessError::ConversionError));
    assert_eq!(f.set(&mut store, &Value::UInt64(1 << 40), None, 0), Err(AccessError::ConversionError));
    assert!(matches!(f.get(&store, 0), Ok(Value::UInt32(3))));
}

#[test]
fn text_cell_refuses_boolean() {
    let mut store: PropertyStore<String> = PropertyStore::new();
    let c = store.add_cell("hello".to_string());
    let f = at(c);
    assert_eq!(f.set(&mut store, &Value::Bool(true), None, 0), Err(AccessError::ConversionError));
    match f.get(&store, 0) {
        Ok(Value::Text(s)) => assert_eq!(s, "hello"),
        _ => panic!("expected text"),
    }
    assert_eq!(f.set(&mut store, &Value::Text("world".to_string()), None, 0), Ok(()));
    match f.get(&store, 0) {
        Ok(Value::Text(s)) => assert_eq!(s, "world"),
        _ => panic!("expected text"),
    }
}

#[test]
fn plain_cell_refuses_animation() {
    let mut store: PropertyStore<bool> = PropertyStore::new();
    let c = store.add_cell(false);
    let f = at(c);
    assert_eq!(f.set(&mut store, &Value::Bool(true), Some(anim(10)), 0), Err(AccessError::AnimationUnsupported));
    assert!(matches!(f.get(&store, 0), Ok(Value::Bool(false))));
    let r = f.set_binding(&mut store, Box::new(Fixed(1)), AnimatedBindingKind::Animation(anim(10)));
    assert_eq!(r, Err(AccessError::AnimationUnsupported));
    let tr = AnimatedBindingKind::Transition(Box::new(Lengthening(Rc::new(Cell::new(0)))));
    assert_eq!(f.set_binding(&mut store, Box::new(Fixed(1)), tr), Err(AccessError::AnimationUnsupported));
}

#[test]
fn plain_accessor_on_integer_refuses_animation_too() {
    let mut store: PropertyStore<i64> = PropertyStore::new();
    let c = store.add_cell(1);
    let f = at(c);
    assert_eq!(f.set(&mut store, &Value::Int64(2), Some(anim(10)), 0), Err(AccessError::AnimationUnsupported));
}

#[test]
fn animated_set_moves_over_time() {
    let mut store: PropertyStore<i64> = PropertyStore::new();
    let c = store.add_cell(0);
    let w = MaybeAnimatedPropertyInfoWrapper(at(c));
    assert_eq!(w.set(&mut store, &Value::Int64(100), Some(anim(100)), 1000), Ok(()));
    assert!(matches!(w.get(&store, 1000), Ok(Value::Int64(0))));
    assert!(matches!(w.get(&store, 1050), Ok(Value::Int64(50))));
    assert!(matches!(w.get(&store, 1099), Ok(Value::Int64(99))));
    assert!(matches!(w.get(&store, 1100), Ok(Value::Int64(100))));
    assert!(matches!(w.get(&store, 5000), Ok(Value::Int64(100))));
}

#[test]
fn animated_set_downwards_with_delay() {
    let mut store: PropertyStore<i32> = PropertyStore::new();
    let c = store.add_cell(10);
    let w = MaybeAnimatedPropertyInfoWrapper(at(c));
    let a = PropertyAnimation { delay: 20, duration: 4 };
    assert_eq!(w.set(&mut store, &Value::Int32(0), Some(a), 100), Ok(()));
    assert!(matches!(w.get(&store, 110), Ok(Value::Int32(10))));
    assert!(matches!(w.get(&store, 123), Ok(Value::Int32(3))));
    assert!(matches!(w.get(&store, 124), Ok(Value::Int32(0))));
}

#[test]
fn animated_wrapper_without_animation_writes_at_once() {
    let mut store: PropertyStore<u64> = PropertyStore::new();
    let c = store.add_cell(4);
    let w = MaybeAnimatedPropertyInfoWrapper(at(c));
    assert_eq!(w.set(&mut store, &Value::UInt32(9), None, 0), Ok(()));
    assert!(matches!(w.get(&store, 0), Ok(Value::UInt64(9))));
    assert_eq!(w.set(&mut store, &Value::Bool(true), Some(anim(5)), 0), Err(AccessError::ConversionError));
}

#[test]
fn binding_is_evaluated_on_attach_and_reactivation() {
    let mut store: PropertyStore<i64> = PropertyStore::new();
    let c = store.add_cell(0);
    let f = at(c);
    let n = Rc::new(Cell::new(0));
    assert_eq!(f.set_binding(&mut store, Box::new(Counting(n.clone())), AnimatedBindingKind::NotAnimated), Ok(()));
    assert!(matches!(f.get(&store, 0), Ok(Value::Int64(10))));
    assert_eq!(store.reactivate(c, 0), Ok(None));
    assert!(matches!(f.get(&store, 0), Ok(Value::Int64(20))));
}

#[test]
fn binding_of_wrong_shape_is_refused_at_attach() {
    let mut store: PropertyStore<bool> = PropertyStore::new();
    let c = store.add_cell(true);
    let f = at(c);
    let r = f.set_binding(&mut store, Box::new(Fixed(3)), AnimatedBindingKind::NotAnimated);
    assert_eq!(r, Err(AccessError::ConversionError));
    assert_eq!(store.reactivate(c, 0), Ok(None));
    assert!(matches!(f.get(&store, 0), Ok(Value::Bool(true))));
}

#[test]
fn binding_that_changes_shape_later_is_reported() {
    let mut store: PropertyStore<String> = PropertyStore::new();
    let c = store.add_cell(String::new());
    let f = at(c);
    let r = f.set_binding(&mut store, Box::new(TextThenBool(Cell::new(false))), AnimatedBindingKind::NotAnimated);
    assert_eq!(r, Ok(()));
    assert_eq!(store.reactivate(c, 0), Err(AccessError::BindingTypeMismatch));
    match f.get(&store, 0) {
        Ok(Value::Text(s)) => assert_eq!(s, "first"),
        _ => panic!("expected text"),
    }
}

#[test]
fn animated_binding_animates_each_change() {
    let mut store: PropertyStore<i64> = PropertyStore::new();
    let c = store.add_cell(0);
    let w = MaybeAnimatedPropertyInfoWrapper(at(c));
    let n = Rc::new(Cell::new(0));
    let r = w.set_binding(&mut store, Box::new(Counting(n.clone())), AnimatedBindingKind::Animation(anim(10)));
    assert_eq!(r, Ok(()));
    assert!(matches!(w.get(&store, 0), Ok(Value::Int64(10))));
    assert_eq!(store.reactivate(c, 100), Ok(Some((anim(10), 100))));
    assert!(matches!(w.get(&store, 105), Ok(Value::Int64(15))));
    assert!(matches!(w.get(&store, 110), Ok(Value::Int64(20))));
}

#[test]
fn transition_supplier_is_asked_on_every_reactivation() {
    let mut store: PropertyStore<i64> = PropertyStore::new();
    let c = store.add_cell(0);
    let w = MaybeAnimatedPropertyInfoWrapper(at(c));
    let asked = Rc::new(Cell::new(0));
    let n = Rc::new(Cell::new(0));
    let tr = AnimatedBindingKind::Transition(Box::new(Lengthening(asked.clone())));
    assert_eq!(w.set_binding(&mut store, Box::new(Counting(n.clone())), tr), Ok(()));
    assert_eq!(asked.get(), 0);
    let first = store.reactivate(c, 1000);
    let second = store.reactivate(c, 2000);
    assert_eq!(first, Ok(Some((anim(100), 1000))));
    assert_eq!(second, Ok(Some((anim(200), 1000))));
    assert_ne!(first, second);
    assert_eq!(asked.get(), 2);
    // The second transition runs from 20 to 30 over 200 ms from 1000.
    assert!(matches!(w.get(&store, 1100), Ok(Value::Int64(25))));
}

#[test]
fn linked_cells_share_writes_both_ways() {
    let mut store: PropertyStore<i32> = PropertyStore::new();
    let a = store.add_cell(1);
    let b = store.add_cell(2);
    let fa = at(a);
    let fb = at(b);
    fa.link_two_ways(&mut store, b);
    assert!(matches!(fb.get(&store, 0), Ok(Value::Int32(1))));
    assert_eq!(fa.set(&mut store, &Value::Int32(42), None, 0), Ok(()));
    assert!(matches!(fb.get(&store, 0), Ok(Value::Int32(42))));
    assert_eq!(fb.set(&mut store, &Value::Int32(-3), None, 0), Ok(()));
    assert!(matches!(fa.get(&store, 0), Ok(Value::Int32(-3))));
}

#[test]
fn linking_joins_cells_already_linked() {
    let mut store: PropertyStore<u32> = PropertyStore::new();
    let a = store.add_cell(1);
    let b = store.add_cell(2);
    let c = store.add_cell(3);
    let d = store.add_cell(4);
    at(b).link_two_ways(&mut store, c);
    at(a).link_two_ways(&mut store, c);
    assert_eq!(at(b).set(&mut store, &Value::UInt32(7), None, 0), Ok(()));
    assert!(matches!(at(a).get(&store, 0), Ok(Value::UInt32(7))));
    assert!(matches!(at(c).get(&store, 0), Ok(Value::UInt32(7))));
    assert!(matches!(at(d).get(&store, 0), Ok(Value::UInt32(4))));
}

#[test]
fn plain_field_set_field() {
    let mut fields: Vec<i32> = vec![0, 0];
    let f = at(1);
    assert_eq!(f.set_field(&mut fields, &Value::Resource(Resource { id: 3 })), Err(AccessError::ConversionError));
    assert_eq!(fields, vec![0, 0]);
    assert_eq!(f.set_field(&mut fields, &Value::Int64(12)), Ok(()));
    assert_eq!(fields, vec![0, 12]);
}

#[test]
fn other_shapes_round_trip() {
    let mut colors: PropertyStore<Color> = PropertyStore::new();
    let c = colors.add_cell(Color { argb: 0 });
    assert_eq!(at(c).set(&mut colors, &Value::Color(Color { argb: 0xff00ff00 }), None, 0), Ok(()));
    assert!(matches!(at(c).get(&colors, 0), Ok(Value::Color(Color { argb: 0xff00ff00 }))));
    assert_eq!(at(c).set(&mut colors, &Value::UInt32(1), None, 0), Err(AccessError::ConversionError));

    let mut fits: PropertyStore<ImageFit> = PropertyStore::new();
    let c = fits.add_cell(ImageFit::Fill);
    assert_eq!(at(c).set(&mut fits, &Value::ImageFit(ImageFit::Contain), None, 0), Ok(()));
    assert!(matches!(at(c).get(&fits, 0), Ok(Value::ImageFit(ImageFit::Contain))));

    let mut rows: PropertyStore<StandardListViewItem> = PropertyStore::new();
    let c = rows.add_cell(StandardListViewItem { text: "a".to_string() });
    let row = Value::ListItem(StandardListViewItem { text: "b".to_string() });
    assert_eq!(at(c).set(&mut rows, &row, None, 0), Ok(()));
    match at(c).get(&rows, 0) {
        Ok(Value::ListItem(item)) => assert_eq!(item.text, "b"),
        _ => panic!("expected a list row"),
    }

    let mut align: PropertyStore<TextHorizontalAlignment> = PropertyStore::new();
    let c = align.add_cell(TextHorizontalAlignment::Left);
    assert_eq!(
        at(c).set(&mut align, &Value::HorizontalAlignment(TextHorizontalAlignment::Right), None, 0),
        Ok(())
    );
    assert!(matches!(at(c).get(&align, 0), Ok(Value::HorizontalAlignment(TextHorizontalAlignment::Right))));
}

#[test]
fn offset_reports_the_byte_offset() {
    let f = LocatedField { cell: 2, byte_offset: 24 };
    assert_eq!(PropertyInfo::<i32>::offset(&f), 24);
    assert_eq!(PropertyInfo::<i32>::offset(&MaybeAnimatedPropertyInfoWrapper(f)), 24);
}

#[test]
fn accessor_is_chosen_by_the_type() {
    let f = LocatedField { cell: 0, byte_offset: 0 };
    assert_eq!(property_accessor::<i32>(f), Accessor::AnimatedProperty(MaybeAnimatedPropertyInfoWrapper(f)));
    assert_eq!(property_accessor::<String>(f), Accessor::Property(f));
    assert_eq!(property_accessor::<bool>(f), Accessor::Property(f));
}

#[test]
fn descriptor_names_are_unique() {
    let mut d = ItemDescriptor::new("Rectangle".to_string());
    assert_eq!(d.name(), "Rectangle");
    let width = Accessor::AnimatedProperty(MaybeAnimatedPropertyInfoWrapper(at(0)));
    assert_eq!(d.add("width".to_string(), width), Ok(()));
    assert_eq!(d.add("clicked".to_string(), Accessor::Signal(16)), Ok(()));
    assert_eq!(d.add("width".to_string(), Accessor::Field(at(1))), Err(RegistryError::DuplicateName));
    assert_eq!(d.lookup(&"width".to_string()), Some(width));
    assert_eq!(d.lookup(&"clicked".to_string()), Some(Accessor::Signal(16)));
    assert_eq!(d.lookup(&"height".to_string()), None);
}

#[test]
fn integer_conversions_respect_the_target_range() {
    let mut store: PropertyStore<i32> = PropertyStore::new();
    let c = store.add_cell(0);
    let f = at(c);
    assert_eq!(f.set(&mut store, &Value::Int64(2147483647), None, 0), Ok(()));
    assert!(matches!(f.get(&store, 0), Ok(Value::Int32(2147483647))));
    assert_eq!(f.set(&mut store, &Value::Int64(2147483648), None, 0), Err(AccessError::ConversionError));
    assert_eq!(f.set(&mut store, &Value::Int64(-2147483648), None, 0), Ok(()));
    assert_eq!(f.set(&mut store, &Value::UInt64(u64::MAX), None, 0), Err(AccessError::ConversionError));

    let mut wide: PropertyStore<u64> = PropertyStore::new();
    let c = wide.add_cell(0);
    assert_eq!(at(c).set(&mut wide, &Value::UInt64(u64::MAX), None, 0), Ok(()));
    assert!(matches!(at(c).get(&wide, 0), Ok(Value::UInt64(u64::MAX))));
    assert_eq!(at(c).set(&mut wide, &Value::Int64(i64::MIN), None, 0), Err(AccessError::ConversionError));
}

#[test]
fn interpolation_rounds_towards_the_start() {
    let mut store: PropertyStore<i64> = PropertyStore::new();
    let up = store.add_cell(0);
    let down = store.add_cell(0);
    let wu = MaybeAnimatedPropertyInfoWrapper(at(up));
    let wd = MaybeAnimatedPropertyInfoWrapper(at(down));
    assert_eq!(wu.set(&mut store, &Value::Int64(10), Some(anim(3)), 0), Ok(()));
    assert_eq!(wd.set(&mut store, &Value::Int64(-10), Some(anim(3)), 0), Ok(()));
    assert!(matches!(wu.get(&store, 1), Ok(Value::Int64(3))));
    assert!(matches!(wu.get(&store, 2), Ok(Value::Int64(6))));
    assert!(matches!(wd.get(&store, 1), Ok(Value::Int64(-3))));
    assert!(matches!(wd.get(&store, 2), Ok(Value::Int64(-6))));
}

#[test]
fn interpolation_spans_the_whole_integer_range() {
    let mut store: PropertyStore<i64> = PropertyStore::new();
    let c = store.add_cell(i64::MIN);
    let w = MaybeAnimatedPropertyInfoWrapper(at(c));
    assert_eq!(w.set(&mut store, &Value::Int64(i64::MAX), Some(anim(2)), 0), Ok(()));
    assert!(matches!(w.get(&store, 1), Ok(Value::Int64(-1))));
}

#[test]
fn descriptor_built_with_the_chosen_accessors() {
    let mut d = ItemDescriptor::new("Text".to_string());
    let text = property_accessor::<String>(at(0));
    let x = property_accessor::<i32>(at(1));
    assert_eq!(d.add("text".to_string(), text), Ok(()));
    assert_eq!(d.add("x".to_string(), x), Ok(()));
    assert_eq!(d.add("x".to_string(), Accessor::Signal(0)), Err(RegistryError::DuplicateName));
    assert_eq!(d.lookup(&"text".to_string()), Some(Accessor::Property(at(0))));
    assert_eq!(d.lookup(&"x".to_string()), Some(Accessor::AnimatedProperty(MaybeAnimatedPropertyInfoWrapper(at(1)))));
}

#[test]
fn attach_value_keeps_the_binding_only_when_its_value_converts() {
    let mut store: PropertyStore<u32> = PropertyStore::new();
    let c = store.add_cell(1);
    let slot = BindingSlot { source: Box::new(Fixed(5)), animation: AnimatedBindingKind::NotAnimated };
    assert_eq!(attach_value(&mut store, c, slot, &Value::Bool(false)), Err(AccessError::ConversionError));
    assert_eq!(store.reactivate(c, 0), Ok(None));
    assert!(matches!(at(c).get(&store, 0), Ok(Value::UInt32(1))));
    let slot = BindingSlot { source: Box::new(Fixed(5)), animation: AnimatedBindingKind::NotAnimated };
    assert_eq!(attach_value(&mut store, c, slot, &Value::Int64(8)), Ok(()));
    assert!(matches!(at(c).get(&store, 0), Ok(Value::UInt32(8))));
    assert_eq!(store.reactivate(c, 0), Ok(None));
    assert!(matches!(at(c).get(&store, 0), Ok(Value::UInt32(5))));
}

#[test]
fn binding_output_follows_the_animation_kind() {
    let mut store: PropertyStore<i32> = PropertyStore::new();
    let c = store.add_cell(0);
    let w = MaybeAnimatedPropertyInfoWrapper(at(c));
    let tr = AnimatedBindingKind::Transition(Box::new(Lengthening(Rc::new(Cell::new(0)))));
    assert_eq!(w.set_binding(&mut store, Box::new(Fixed(0)), tr), Ok(()));
    let answer = Some((anim(40), 10));
    assert_eq!(store.apply_binding_output(c, &Value::Int32(80), answer, 10), Ok(answer));
    assert!(matches!(w.get(&store, 30), Ok(Value::Int32(40))));
    assert!(matches!(w.get(&store, 50), Ok(Value::Int32(80))));
    assert_eq!(store.apply_binding_output(c, &Value::Text("x".to_string()), answer, 60), Err(AccessError::BindingTypeMismatch));
    assert!(matches!(w.get(&store, 60), Ok(Value::Int32(80))));

    let mut plain: PropertyStore<i32> = PropertyStore::new();
    let d = plain.add_cell(0);
    let r = MaybeAnimatedPropertyInfoWrapper(at(d)).set_binding(
        &mut plain,
        Box::new(Fixed(0)),
        AnimatedBindingKind::Animation(anim(10)),
    );
    assert_eq!(r, Ok(()));
    assert_eq!(plain.apply_binding_output(d, &Value::Int32(20), None, 100), Ok(Some((anim(10), 100))));
    assert!(matches!(at(d).get(&plain, 105), Ok(Value::Int32(10))));
    assert!(matches!(at(d).get(&plain, 110), Ok(Value::Int32(20))));
}
