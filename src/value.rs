use vstd::prelude::*;

verus! {

/// A color as 8-bit alpha, red, green and blue channels packed in `0xAARRGGBB`.
#[derive(PartialEq, Eq, Structural, Clone, Copy, Debug)]
pub struct Color {
    pub argb: u32,
}

/// An opaque handle to an image or other resource, known by its identifier.
#[derive(PartialEq, Eq, Structural, Clone, Copy, Debug)]
pub struct Resource {
    pub id: u64,
}

#[derive(PartialEq, Eq, Structural, Clone, Copy, Debug)]
pub enum TextHorizontalAlignment {
    Left,
    Center,
    Right,
}

#[derive(PartialEq, Eq, Structural, Clone, Copy, Debug)]
pub enum TextVerticalAlignment {
    Top,
    Center,
    Bottom,
}

#[derive(PartialEq, Eq, Structural, Clone, Copy, Debug)]
pub enum ImageFit {
    Fill,
    Contain,
}

/// One row of a list view.
#[derive(Debug)]
pub struct StandardListViewItem {
    pub text: String,
}

/// The closed set of shapes that a dynamically typed caller reads and writes.
#[derive(Debug)]
pub enum Value {
    Bool(bool),
    UInt32(u32),
    UInt64(u64),
    Int32(i32),
    Int64(i64),
    Text(String),
    Resource(Resource),
    Color(Color),
    HorizontalAlignment(TextHorizontalAlignment),
    VerticalAlignment(TextVerticalAlignment),
    ListItem(StandardListViewItem),
    ImageFit(ImageFit),
}

/// The integer that an integer-shaped value holds, if it holds one.
pub open spec fn integer_of(v: Value) -> Option<int> {
    match v {
        Value::UInt32(x) => Some(x as int),
        Value::UInt64(x) => Some(x as int),
        Value::Int32(x) => Some(x as int),
        Value::Int64(x) => Some(x as int),
        _ => None,
    }
}

/// The integer that an integer-shaped value holds, if it holds one.
pub fn value_integer(v: &Value) -> (r: Option<i128>)
    ensures
        r matches Some(x) ==> integer_of(*v) == Some(x as int),
        r is None ==> integer_of(*v) is None,
{
    match v {
        Value::UInt32(x) => Some(*x as i128),
        Value::UInt64(x) => Some(*x as i128),
        Value::Int32(x) => Some(*x as i128),
        Value::Int64(x) => Some(*x as i128),
        _ => None,
    }
}

/// The concrete type of a reactive cell or plain field, convertible to and
/// from the dynamic value shape.
pub trait ValueType: Sized {
    /// The concrete value that `v` converts to, if the conversion succeeds.
    spec fn from_value_spec(v: Value) -> Option<Self>;

    /// The dynamic value that a concrete value converts to.
    spec fn to_value_spec(t: Self) -> Value;

    /// Whether the type can be animated between two values.
    spec fn interpolatable() -> bool;

    /// The value `elapsed / duration` of the way from `from` to `to`.
    spec fn interpolate_spec(from: Self, to: Self, elapsed: nat, duration: nat) -> Self;

    /// Whether the type can be animated, known from the type alone.
    fn is_interpolatable() -> (r: bool)
        ensures
            r == Self::interpolatable(),
    ;

    fn from_value(v: &Value) -> (r: Option<Self>)
        ensures
            r == Self::from_value_spec(*v),
    ;

    fn to_value(&self) -> (r: Value)
        ensures
            r == Self::to_value_spec(*self),
    ;

    fn duplicate(&self) -> (r: Self)
        ensures
            r == *self,
    ;

    fn interpolate(from: &Self, to: &Self, elapsed: u32, duration: u32) -> (r: Self)
        requires
            Self::interpolatable(),
            0 < duration,
            elapsed <= duration,
        ensures
            r == Self::interpolate_spec(*from, *to, elapsed as nat, duration as nat),
    ;

    /// Converting a concrete value to the dynamic shape and back gives it back.
    proof fn lemma_round_trip(t: Self)
        ensures
            Self::from_value_spec(Self::to_value_spec(t)) == Some(t),
    ;
}

/// Types whose cells can be animated.
pub trait Interpolated: ValueType {
    proof fn lemma_interpolatable()
        ensures
            Self::interpolatable(),
    ;
}

/// Linear interpolation of integers, rounded towards `from`.
pub open spec fn lerp(from: int, to: int, elapsed: nat, duration: nat) -> int {
    if from <= to {
        from + (to - from) * elapsed / (duration as int)
    } else {
        from - (from - to) * elapsed / (duration as int)
    }
}

/// Linear interpolation stays between its two ends.
pub proof fn lemma_lerp_bounds(from: int, to: int, elapsed: nat, duration: nat)
    requires
        0 < duration,
        elapsed <= duration,
    ensures
        from <= to ==> from <= lerp(from, to, elapsed, duration) <= to,
        to < from ==> to <= lerp(from, to, elapsed, duration) <= from,
{
    let d = if from <= to { to - from } else { from - to };
    assert(0 <= d * elapsed <= d * duration) by (nonlinear_arith)
        requires 0 <= d, elapsed <= duration;
    assert(d * duration / (duration as int) == d) by (nonlinear_arith)
        requires 0 < duration;
    assert(0 <= d * elapsed / (duration as int) <= d * duration / (duration as int)) by (nonlinear_arith)
        requires 0 <= d * elapsed <= d * duration, 0 < duration;
}

/// Integer interpolation computed without overflow.
fn lerp_i128(from: i128, to: i128, elapsed: u32, duration: u32) -> (r: i128)
    requires
        -0x1_0000_0000_0000_0000 <= from <= 0x1_0000_0000_0000_0000,
        -0x1_0000_0000_0000_0000 <= to <= 0x1_0000_0000_0000_0000,
        0 < duration,
        elapsed <= duration,
    ensures
        r == lerp(from as int, to as int, elapsed as nat, duration as nat),
{
    proof {
        lemma_lerp_bounds(from as int, to as int, elapsed as nat, duration as nat);
    }
    if from <= to {
        let d: i128 = to - from;
        assert(0 <= d * (elapsed as i128) <= 0x2_0000_0000_0000_0000 * 0x1_0000_0000) by (nonlinear_arith)
            requires 0 <= d <= 0x2_0000_0000_0000_0000, 0 <= elapsed <= 0x1_0000_0000;
        from + d * (elapsed as i128) / (duration as i128)
    } else {
        let d: i128 = from - to;
        assert(0 <= d * (elapsed as i128) <= 0x2_0000_0000_0000_0000 * 0x1_0000_0000) by (nonlinear_arith)
            requires 0 <= d <= 0x2_0000_0000_0000_0000, 0 <= elapsed <= 0x1_0000_0000;
        from - d * (elapsed as i128) / (duration as i128)
    }
}

impl ValueType for i32 {
    open spec fn from_value_spec(v: Value) -> Option<i32> {
        match integer_of(v) {
            Some(x) => if -0x8000_0000 <= x <= 0x7fff_ffff { Some(x as i32) } else { None },
            None => None,
        }
    }

    open spec fn to_value_spec(t: i32) -> Value {
        Value::Int32(t)
    }

    open spec fn interpolatable() -> bool {
        true
    }

    fn is_interpolatable() -> (r: bool) {
        true
    }

    open spec fn interpolate_spec(from: i32, to: i32, elapsed: nat, duration: nat) -> i32 {
        lerp(from as int, to as int, elapsed, duration) as i32
    }

    fn from_value(v: &Value) -> (r: Option<i32>) {
        match value_integer(v) {
            Some(x) => if -0x8000_0000 <= x && x <= 0x7fff_ffff { Some(x as i32) } else { None },
            None => None,
        }
    }

    fn to_value(&self) -> (r: Value) {
        Value::Int32(*self)
    }

    fn duplicate(&self) -> (r: i32) {
        *self
    }

    fn interpolate(from: &i32, to: &i32, elapsed: u32, duration: u32) -> (r: i32) {
        proof {
            lemma_lerp_bounds(*from as int, *to as int, elapsed as nat, duration as nat);
        }
        lerp_i128(*from as i128, *to as i128, elapsed, duration) as i32
    }

    proof fn lemma_round_trip(t: i32) {
    }
}

impl Interpolated for i32 {
    proof fn lemma_interpolatable() {
    }
}

impl ValueType for i64 {
    open spec fn from_value_spec(v: Value) -> Option<i64> {
        match integer_of(v) {
            Some(x) => if -0x8000_0000_0000_0000 <= x <= 0x7fff_ffff_ffff_ffff { Some(x as i64) } else { None },
            None => None,
        }
    }

    open spec fn to_value_spec(t: i64) -> Value {
        Value::Int64(t)
    }

    open spec fn interpolatable() -> bool {
        true
    }

    fn is_interpolatable() -> (r: bool) {
        true
    }

    open spec fn interpolate_spec(from: i64, to: i64, elapsed: nat, duration: nat) -> i64 {
        lerp(from as int, to as int, elapsed, duration) as i64
    }

    fn from_value(v: &Value) -> (r: Option<i64>) {
        match value_integer(v) {
            Some(x) => if -0x8000_0000_0000_0000 <= x && x <= 0x7fff_ffff_ffff_ffff { Some(x as i64) } else { None },
            None => None,
        }
    }

    fn to_value(&self) -> (r: Value) {
        Value::Int64(*self)
    }

    fn duplicate(&self) -> (r: i64) {
        *self
    }

    fn interpolate(from: &i64, to: &i64, elapsed: u32, duration: u32) -> (r: i64) {
        proof {
            lemma_lerp_bounds(*from as int, *to as int, elapsed as nat, duration as nat);
        }
        lerp_i128(*from as i128, *to as i128, elapsed, duration) as i64
    }

    proof fn lemma_round_trip(t: i64) {
    }
}

impl Interpolated for i64 {
    proof fn lemma_interpolatable() {
    }
}

impl ValueType for u32 {
    open spec fn from_value_spec(v: Value) -> Option<u32> {
        match integer_of(v) {
            Some(x) => if 0 <= x <= 0xffff_ffff { Some(x as u32) } else { None },
            None => None,
        }
    }

    open spec fn to_value_spec(t: u32) -> Value {
        Value::UInt32(t)
    }

    open spec fn interpolatable() -> bool {
        true
    }

    fn is_interpolatable() -> (r: bool) {
        true
    }

    open spec fn interpolate_spec(from: u32, to: u32, elapsed: nat, duration: nat) -> u32 {
        lerp(from as int, to as int, elapsed, duration) as u32
    }

    fn from_value(v: &Value) -> (r: Option<u32>) {
        match value_integer(v) {
            Some(x) => if 0 <= x && x <= 0xffff_ffff { Some(x as u32) } else { None },
            None => None,
        }
    }

    fn to_value(&self) -> (r: Value) {
        Value::UInt32(*self)
    }

    fn duplicate(&self) -> (r: u32) {
        *self
    }

    fn interpolate(from: &u32, to: &u32, elapsed: u32, duration: u32) -> (r: u32) {
        proof {
            lemma_lerp_bounds(*from as int, *to as int, elapsed as nat, duration as nat);
        }
        lerp_i128(*from as i128, *to as i128, elapsed, duration) as u32
    }

    proof fn lemma_round_trip(t: u32) {
    }
}

impl Interpolated for u32 {
    proof fn lemma_interpolatable() {
    }
}

impl ValueType for u64 {
    open spec fn from_value_spec(v: Value) -> Option<u64> {
        match integer_of(v) {
            Some(x) => if 0 <= x <= 0xffff_ffff_ffff_ffff { Some(x as u64) } else { None },
            None => None,
        }
    }

    open spec fn to_value_spec(t: u64) -> Value {
        Value::UInt64(t)
    }

    open spec fn interpolatable() -> bool {
        true
    }

    fn is_interpolatable() -> (r: bool) {
        true
    }

    open spec fn interpolate_spec(from: u64, to: u64, elapsed: nat, duration: nat) -> u64 {
        lerp(from as int, to as int, elapsed, duration) as u64
    }

    fn from_value(v: &Value) -> (r: Option<u64>) {
        match value_integer(v) {
            Some(x) => if 0 <= x && x <= 0xffff_ffff_ffff_ffff { Some(x as u64) } else { None },
            None => None,
        }
    }

    fn to_value(&self) -> (r: Value) {
        Value::UInt64(*self)
    }

    fn duplicate(&self) -> (r: u64) {
        *self
    }

    fn interpolate(from: &u64, to: &u64, elapsed: u32, duration: u32) -> (r: u64) {
        proof {
            lemma_lerp_bounds(*from as int, *to as int, elapsed as nat, duration as nat);
        }
        lerp_i128(*from as i128, *to as i128, elapsed, duration) as u64
    }

    proof fn lemma_round_trip(t: u64) {
    }
}

impl Interpolated for u64 {
    proof fn lemma_interpolatable() {
    }
}

impl ValueType for bool {
    open spec fn from_value_spec(v: Value) -> Option<bool> {
        match v {
            Value::Bool(x) => Some(x),
            _ => None,
        }
    }

    open spec fn to_value_spec(t: bool) -> Value {
        Value::Bool(t)
    }

    open spec fn interpolatable() -> bool {
        false
    }

    fn is_interpolatable() -> (r: bool) {
        false
    }

    open spec fn interpolate_spec(from: bool, to: bool, elapsed: nat, duration: nat) -> bool {
        to
    }

    fn from_value(v: &Value) -> (r: Option<bool>) {
        match v {
            Value::Bool(x) => Some(*x),
            _ => None,
        }
    }

    fn to_value(&self) -> (r: Value) {
        Value::Bool(*self)
    }

    fn duplicate(&self) -> (r: bool) {
        *self
    }

    fn interpolate(from: &bool, to: &bool, elapsed: u32, duration: u32) -> (r: bool) {
        *to
    }

    proof fn lemma_round_trip(t: bool) {
    }
}

impl ValueType for Color {
    open spec fn from_value_spec(v: Value) -> Option<Color> {
        match v {
            Value::Color(x) => Some(x),
            _ => None,
        }
    }

    open spec fn to_value_spec(t: Color) -> Value {
        Value::Color(t)
    }

    open spec fn interpolatable() -> bool {
        false
    }

    fn is_interpolatable() -> (r: bool) {
        false
    }

    open spec fn interpolate_spec(from: Color, to: Color, elapsed: nat, duration: nat) -> Color {
        to
    }

    fn from_value(v: &Value) -> (r: Option<Color>) {
        match v {
            Value::Color(x) => Some(*x),
            _ => None,
        }
    }

    fn to_value(&self) -> (r: Value) {
        Value::Color(*self)
    }

    fn duplicate(&self) -> (r: Color) {
        *self
    }

    fn interpolate(from: &Color, to: &Color, elapsed: u32, duration: u32) -> (r: Color) {
        *to
    }

    proof fn lemma_round_trip(t: Color) {
    }
}

impl ValueType for Resource {
    open spec fn from_value_spec(v: Value) -> Option<Resource> {
        match v {
            Value::Resource(x) => Some(x),
            _ => None,
        }
    }

    open spec fn to_value_spec(t: Resource) -> Value {
        Value::Resource(t)
    }

    open spec fn interpolatable() -> bool {
        false
    }

    fn is_interpolatable() -> (r: bool) {
        false
    }

    open spec fn interpolate_spec(from: Resource, to: Resource, elapsed: nat, duration: nat) -> Resource {
        to
    }

    fn from_value(v: &Value) -> (r: Option<Resource>) {
        match v {
            Value::Resource(x) => Some(*x),
            _ => None,
        }
    }

    fn to_value(&self) -> (r: Value) {
        Value::Resource(*self)
    }

    fn duplicate(&self) -> (r: Resource) {
        *self
    }

    fn interpolate(from: &Resource, to: &Resource, elapsed: u32, duration: u32) -> (r: Resource) {
        *to
    }

    proof fn lemma_round_trip(t: Resource) {
    }
}

impl ValueType for TextHorizontalAlignment {
    open spec fn from_value_spec(v: Value) -> Option<TextHorizontalAlignment> {
        match v {
            Value::HorizontalAlignment(x) => Some(x),
            _ => None,
        }
    }

    open spec fn to_value_spec(t: TextHorizontalAlignment) -> Value {
        Value::HorizontalAlignment(t)
    }

    open spec fn interpolatable() -> bool {
        false
    }

    fn is_interpolatable() -> (r: bool) {
        false
    }

    open spec fn interpolate_spec(from: TextHorizontalAlignment, to: TextHorizontalAlignment, elapsed: nat, duration: nat) -> TextHorizontalAlignment {
        to
    }

    fn from_value(v: &Value) -> (r: Option<TextHorizontalAlignment>) {
        match v {
            Value::HorizontalAlignment(x) => Some(*x),
            _ => None,
        }
    }

    fn to_value(&self) -> (r: Value) {
        Value::HorizontalAlignment(*self)
    }

    fn duplicate(&self) -> (r: TextHorizontalAlignment) {
        *self
    }

    fn interpolate(from: &TextHorizontalAlignment, to: &TextHorizontalAlignment, elapsed: u32, duration: u32) -> (r: TextHorizontalAlignment) {
        *to
    }

    proof fn lemma_round_trip(t: TextHorizontalAlignment) {
    }
}

impl ValueType for TextVerticalAlignment {
    open spec fn from_value_spec(v: Value) -> Option<TextVerticalAlignment> {
        match v {
            Value::VerticalAlignment(x) => Some(x),
            _ => None,
        }
    }

    open spec fn to_value_spec(t: TextVerticalAlignment) -> Value {
        Value::VerticalAlignment(t)
    }

    open spec fn interpolatable() -> bool {
        false
    }

    fn is_interpolatable() -> (r: bool) {
        false
    }

    open spec fn interpolate_spec(from: TextVerticalAlignment, to: TextVerticalAlignment, elapsed: nat, duration: nat) -> TextVerticalAlignment {
        to
    }

    fn from_value(v: &Value) -> (r: Option<TextVerticalAlignment>) {
        match v {
            Value::VerticalAlignment(x) => Some(*x),
            _ => None,
        }
    }

    fn to_value(&self) -> (r: Value) {
        Value::VerticalAlignment(*self)
    }

    fn duplicate(&self) -> (r: TextVerticalAlignment) {
        *self
    }

    fn interpolate(from: &TextVerticalAlignment, to: &TextVerticalAlignment, elapsed: u32, duration: u32) -> (r: TextVerticalAlignment) {
        *to
    }

    proof fn lemma_round_trip(t: TextVerticalAlignment) {
    }
}

impl ValueType for ImageFit {
    open spec fn from_value_spec(v: Value) -> Option<ImageFit> {
        match v {
            Value::ImageFit(x) => Some(x),
            _ => None,
        }
    }

    open spec fn to_value_spec(t: ImageFit) -> Value {
        Value::ImageFit(t)
    }

    open spec fn interpolatable() -> bool {
        false
    }

    fn is_interpolatable() -> (r: bool) {
        false
    }

    open spec fn interpolate_spec(from: ImageFit, to: ImageFit, elapsed: nat, duration: nat) -> ImageFit {
        to
    }

    fn from_value(v: &Value) -> (r: Option<ImageFit>) {
        match v {
            Value::ImageFit(x) => Some(*x),
            _ => None,
        }
    }

    fn to_value(&self) -> (r: Value) {
        Value::ImageFit(*self)
    }

    fn duplicate(&self) -> (r: ImageFit) {
        *self
    }

    fn interpolate(from: &ImageFit, to: &ImageFit, elapsed: u32, duration: u32) -> (r: ImageFit) {
        *to
    }

    proof fn lemma_round_trip(t: ImageFit) {
    }
}

impl ValueType for String {
    open spec fn from_value_spec(v: Value) -> Option<String> {
        match v {
            Value::Text(x) => Some(x),
            _ => None,
        }
    }

    open spec fn to_value_spec(t: String) -> Value {
        Value::Text(t)
    }

    open spec fn interpolatable() -> bool {
        false
    }

    fn is_interpolatable() -> (r: bool) {
        false
    }

    open spec fn interpolate_spec(from: String, to: String, elapsed: nat, duration: nat) -> String {
        to
    }

    fn from_value(v: &Value) -> (r: Option<String>) {
        match v {
            Value::Text(x) => Some(x.clone()),
            _ => None,
        }
    }

    fn to_value(&self) -> (r: Value) {
        Value::Text(self.duplicate())
    }

    fn duplicate(&self) -> (r: String) {
        self.clone()
    }

    fn interpolate(from: &String, to: &String, elapsed: u32, duration: u32) -> (r: String) {
        to.duplicate()
    }

    proof fn lemma_round_trip(t: String) {
    }
}

impl ValueType for StandardListViewItem {
    open spec fn from_value_spec(v: Value) -> Option<StandardListViewItem> {
        match v {
            Value::ListItem(x) => Some(x),
            _ => None,
        }
    }

    open spec fn to_value_spec(t: StandardListViewItem) -> Value {
        Value::ListItem(t)
    }

    open spec fn interpolatable() -> bool {
        false
    }

    fn is_interpolatable() -> (r: bool) {
        false
    }

    open spec fn interpolate_spec(from: StandardListViewItem, to: StandardListViewItem, elapsed: nat, duration: nat) -> StandardListViewItem {
        to
    }

    fn from_value(v: &Value) -> (r: Option<StandardListViewItem>) {
        match v {
            Value::ListItem(x) => Some(StandardListViewItem { text: x.text.clone() }),
            _ => None,
        }
    }

    fn to_value(&self) -> (r: Value) {
        Value::ListItem(self.duplicate())
    }

    fn duplicate(&self) -> (r: StandardListViewItem) {
        StandardListViewItem { text: self.text.clone() }
    }

    fn interpolate(from: &StandardListViewItem, to: &StandardListViewItem, elapsed: u32, duration: u32) -> (r: StandardListViewItem) {
        to.duplicate()
    }

    proof fn lemma_round_trip(t: StandardListViewItem) {
    }
}

} // verus!

verus! {

/// Why an access through a type-erased accessor failed.
#[derive(PartialEq, Eq, Structural, Clone, Copy, Debug)]
pub enum AccessError {
    /// The concrete type and the dynamic value shape do not match.
    ConversionError,
    /// An animation was asked of a cell whose type cannot be animated.
    AnimationUnsupported,
    /// A binding that was attached earlier produced a value of the wrong shape.
    BindingTypeMismatch,
}

} // verus!
