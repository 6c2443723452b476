//! The argument conversion layer.
//!
//! The host hands each call a row of raw, tagged argument slots and one raw
//! result slot.  This module defines the native counterparts of those slots
//! and the type-directed conversions between the two: [`decode`] turns a raw
//! slot into a [`NativeValue`] under a declared [`ValueType`], and [`encode`]
//! turns a native value back into a raw slot.
//!
//! The declared type of every slot is fixed when the caller loads the
//! function.  A mismatch between the declared and the actual type is
//! undefined behaviour at the host's binary interface and is never guessed
//! against here: it is a documented caller responsibility, written into the
//! `requires` clauses.  For the correctly declared path, decoding and
//! encoding are exact inverses, and narrowing a 64-bit integer into a 32-bit
//! slot truncates to the low 32 bits, matching the host's coercion.
//!
//! Real and complex numbers cross the boundary as raw 64-bit patterns of the
//! host's doubles; the patterns are moved unchanged, never interpreted.

use vstd::prelude::*;

verus! {

broadcast use vstd::std_specs::vec::group_vec_axioms;

/// The declared type of an argument or result slot.
#[derive(Clone, Copy, PartialEq, Eq, Structural, Debug)]
pub enum ValueType {
    /// A boolean flag.
    Boolean,
    /// A 64-bit machine integer.
    Integer,
    /// A real number (a 64-bit pattern of the host's double).
    Real,
    /// A complex number (two 64-bit patterns: real part, imaginary part).
    Complex,
    /// An owned string.
    Text,
    /// A typed array.
    Array,
    /// A structured record.
    Record,
    /// An expression tree; such arguments travel over the channel, never
    /// through a raw slot.
    Expression,
}

/// The element type of a typed array.
///
/// Real element kinds hold raw bit patterns of the host's floating-point
/// formats; they are moved across the boundary unchanged.
#[derive(Clone, Copy, PartialEq, Eq, Structural, Debug)]
pub enum ElementType {
    /// Signed 8-bit integers.
    Int8,
    /// Unsigned 8-bit integers.
    UInt8,
    /// Signed 16-bit integers.
    Int16,
    /// Unsigned 16-bit integers.
    UInt16,
    /// Signed 32-bit integers.
    Int32,
    /// Unsigned 32-bit integers.
    UInt32,
    /// Signed 64-bit integers.
    Int64,
    /// Unsigned 64-bit integers.
    UInt64,
    /// 32-bit reals, as bit patterns.
    Real32,
    /// 64-bit reals, as bit patterns.
    Real64,
}

/// Who owns a typed array's buffer, and so who must free it.
#[derive(Clone, Copy, PartialEq, Eq, Structural, Debug)]
pub enum OwnershipMode {
    /// Borrowed from the host for the duration of the call; the callee must
    /// never mutate or free it.
    BorrowedConstant,
    /// Owned by this library, which frees it exactly once when done.
    LibraryOwned,
    /// Shared between host and library under the host's reference count.
    Shared,
}

/// A contiguous, element-type-tagged buffer with an ownership mode.
///
/// Each element is stored as its raw 64-bit pattern, whatever the element
/// type; narrower elements occupy the low bits of their slot.
#[derive(PartialEq, Debug)]
pub struct TypedArray {
    /// The element type tag.
    element_type: ElementType,
    /// The ownership mode the caller declared the array with.
    mode: OwnershipMode,
    /// The elements, as raw 64-bit patterns.
    data: Vec<u64>,
}

impl TypedArray {
    /// The element type tag.
    pub closed spec fn element_type_spec(self) -> ElementType {
        self.element_type
    }

    /// The ownership mode.
    pub closed spec fn mode_spec(self) -> OwnershipMode {
        self.mode
    }

    /// The elements, as raw 64-bit patterns, in order.
    pub closed spec fn elements(self) -> Seq<u64> {
        self.data@
    }

    /// A new array over the given buffer.
    pub fn new(element_type: ElementType, mode: OwnershipMode, data: Vec<u64>) -> (r: TypedArray)
        ensures
            r.element_type_spec() == element_type,
            r.mode_spec() == mode,
            r.elements() == data@,
    {
        TypedArray { element_type, mode, data }
    }

    /// The element type tag.
    pub fn element_type(&self) -> (r: ElementType)
        ensures
            r == self.element_type_spec(),
    {
        self.element_type
    }

    /// The ownership mode.
    pub fn mode(&self) -> (r: OwnershipMode)
        ensures
            r == self.mode_spec(),
    {
        self.mode
    }

    /// The number of elements.
    pub fn len(&self) -> (r: usize)
        ensures
            r == self.elements().len(),
    {
        self.data.len()
    }

    /// The element at `index`.
    pub fn get(&self, index: usize) -> (r: u64)
        requires
            index < self.elements().len(),
        ensures
            r == self.elements()[index as int],
    {
        self.data[index]
    }

    /// Overwrites the element at `index`.
    ///
    /// A borrowed-constant array must never be mutated by the callee, so
    /// that mode is excluded here.
    pub fn set(&mut self, index: usize, value: u64)
        requires
            index < old(self).elements().len(),
            old(self).mode_spec() != OwnershipMode::BorrowedConstant,
        ensures
            final(self).elements() == old(self).elements().update(index as int, value),
            final(self).element_type_spec() == old(self).element_type_spec(),
            final(self).mode_spec() == old(self).mode_spec(),
    {
        self.data.set(index, value);
    }
}

/// One value a structured record can hold.
#[derive(PartialEq, Debug)]
pub enum RecordValue {
    /// A boolean.
    Boolean(bool),
    /// A 64-bit machine integer.
    Integer(i64),
    /// A real number, as the 64-bit pattern of the host's double.
    Real(u64),
    /// An owned string.
    Text(String),
    /// A typed array.
    Array(TypedArray),
    /// A nested record.
    Record(Box<StructuredRecord>),
}

/// One named node of a structured record.
#[derive(PartialEq, Debug)]
pub struct RecordNode {
    /// The node's name; the empty string stands for an unnamed node.
    pub name: String,
    /// The node's value.
    pub value: RecordValue,
}

/// A named tree of heterogeneous typed values, used for record-like data
/// interchange without full expression-tree overhead.
///
/// Nodes are append-only and keep their insertion order; whichever side
/// allocated the record owns it until it is explicitly transferred.
#[derive(PartialEq, Debug)]
pub struct StructuredRecord {
    nodes: Vec<RecordNode>,
}

impl StructuredRecord {
    /// The nodes, in insertion order.
    pub closed spec fn nodes_spec(self) -> Seq<RecordNode> {
        self.nodes@
    }

    /// A new, empty record.
    pub fn new() -> (r: StructuredRecord)
        ensures
            r.nodes_spec() == Seq::<RecordNode>::empty(),
    {
        StructuredRecord { nodes: Vec::new() }
    }

    /// Appends a named node.
    pub fn add(&mut self, name: String, value: RecordValue)
        ensures
            final(self).nodes_spec() == old(self).nodes_spec().push(RecordNode { name, value }),
    {
        self.nodes.push(RecordNode { name, value });
    }

    /// The number of nodes.
    pub fn len(&self) -> (r: usize)
        ensures
            r == self.nodes_spec().len(),
    {
        self.nodes.len()
    }

    /// The node at `index`, in insertion order.
    pub fn node_at(&self, index: usize) -> (r: &RecordNode)
        requires
            index < self.nodes_spec().len(),
        ensures
            *r == self.nodes_spec()[index as int],
    {
        &self.nodes[index]
    }
}

/// A raw, host-owned argument or result slot: one tagged payload.
///
/// Expression trees have no raw slot; they travel over the channel.
#[derive(PartialEq, Debug)]
pub enum RawArgument {
    /// A boolean flag; any value other than 0 means true.
    Boolean(i32),
    /// A 64-bit machine integer.
    Integer(i64),
    /// A real number, as the 64-bit pattern of the host's double.
    Real(u64),
    /// A complex number: real part pattern, imaginary part pattern.
    Complex(u64, u64),
    /// An owned string.
    Text(String),
    /// A typed array.
    Array(TypedArray),
    /// A structured record.
    Record(StructuredRecord),
}

/// The decoded, native-side counterpart of a raw slot.
#[derive(PartialEq, Debug)]
pub enum NativeValue {
    /// A boolean.
    Boolean(bool),
    /// A 64-bit machine integer.
    Integer(i64),
    /// A real number, as the 64-bit pattern of the host's double.
    Real(u64),
    /// A complex number: real part pattern, imaginary part pattern.
    Complex(u64, u64),
    /// An owned string.
    Text(String),
    /// A typed array.
    Array(TypedArray),
    /// A structured record.
    Record(StructuredRecord),
    /// An expression tree, decoded from the channel rather than from a raw
    /// slot.
    Expression(crate::expr::Expr),
}

/// The runtime tag of a raw slot.
pub open spec fn raw_tag(arg: RawArgument) -> ValueType {
    match arg {
        RawArgument::Boolean(_) => ValueType::Boolean,
        RawArgument::Integer(_) => ValueType::Integer,
        RawArgument::Real(_) => ValueType::Real,
        RawArgument::Complex(_, _) => ValueType::Complex,
        RawArgument::Text(_) => ValueType::Text,
        RawArgument::Array(_) => ValueType::Array,
        RawArgument::Record(_) => ValueType::Record,
    }
}

/// The type a native value would be declared with.
pub open spec fn native_tag(v: NativeValue) -> ValueType {
    match v {
        NativeValue::Boolean(_) => ValueType::Boolean,
        NativeValue::Integer(_) => ValueType::Integer,
        NativeValue::Real(_) => ValueType::Real,
        NativeValue::Complex(_, _) => ValueType::Complex,
        NativeValue::Text(_) => ValueType::Text,
        NativeValue::Array(_) => ValueType::Array,
        NativeValue::Record(_) => ValueType::Record,
        NativeValue::Expression(_) => ValueType::Expression,
    }
}

/// What decoding a raw slot yields.
pub open spec fn decode_model(arg: RawArgument) -> NativeValue {
    match arg {
        RawArgument::Boolean(flag) => NativeValue::Boolean(flag != 0),
        RawArgument::Integer(i) => NativeValue::Integer(i),
        RawArgument::Real(bits) => NativeValue::Real(bits),
        RawArgument::Complex(re, im) => NativeValue::Complex(re, im),
        RawArgument::Text(s) => NativeValue::Text(s),
        RawArgument::Array(a) => NativeValue::Array(a),
        RawArgument::Record(r) => NativeValue::Record(r),
    }
}

/// What encoding a native value yields.
///
/// Expression values never enter a raw slot (they travel over the channel),
/// so the `Expression` arm is unreachable under the recommended use.
pub open spec fn encode_model(v: NativeValue) -> RawArgument
    recommends
        !(v is Expression),
{
    match v {
        NativeValue::Boolean(b) => RawArgument::Boolean(if b { 1i32 } else { 0i32 }),
        NativeValue::Integer(i) => RawArgument::Integer(i),
        NativeValue::Real(bits) => RawArgument::Real(bits),
        NativeValue::Complex(re, im) => RawArgument::Complex(re, im),
        NativeValue::Text(s) => RawArgument::Text(s),
        NativeValue::Array(a) => RawArgument::Array(a),
        NativeValue::Record(r) => RawArgument::Record(r),
        NativeValue::Expression(_) => RawArgument::Integer(0i64),
    }
}

/// Decodes one raw slot under its declared type.
///
/// The host's binary interface leaves a tag/declaration mismatch undefined;
/// accordingly the match is a caller obligation here, and the conversion is
/// directed by the declared type, as the generated entry points direct it.
pub fn decode(arg: RawArgument, declared: ValueType) -> (r: NativeValue)
    requires
        raw_tag(arg) == declared,
    ensures
        r == decode_model(arg),
{
    match (declared, arg) {
        (ValueType::Boolean, RawArgument::Boolean(flag)) => NativeValue::Boolean(flag != 0),
        (ValueType::Integer, RawArgument::Integer(i)) => NativeValue::Integer(i),
        (ValueType::Real, RawArgument::Real(bits)) => NativeValue::Real(bits),
        (ValueType::Complex, RawArgument::Complex(re, im)) => NativeValue::Complex(re, im),
        (ValueType::Text, RawArgument::Text(s)) => NativeValue::Text(s),
        (ValueType::Array, RawArgument::Array(a)) => NativeValue::Array(a),
        (ValueType::Record, RawArgument::Record(r)) => NativeValue::Record(r),
        _ => vstd::pervasive::unreached(),
    }
}

/// Encodes one native value into a raw result slot.
///
/// Encoding is infallible for every value that has a raw representation;
/// expression results travel over the channel instead.
pub fn encode(v: NativeValue) -> (r: RawArgument)
    requires
        !(v is Expression),
    ensures
        r == encode_model(v),
{
    match v {
        NativeValue::Boolean(b) => RawArgument::Boolean(if b { 1 } else { 0 }),
        NativeValue::Integer(i) => RawArgument::Integer(i),
        NativeValue::Real(bits) => RawArgument::Real(bits),
        NativeValue::Complex(re, im) => RawArgument::Complex(re, im),
        NativeValue::Text(s) => RawArgument::Text(s),
        NativeValue::Array(a) => RawArgument::Array(a),
        NativeValue::Record(r) => RawArgument::Record(r),
        NativeValue::Expression(_) => vstd::pervasive::unreached(),
    }
}

/// Decoding is the inverse of encoding: for every native value that has a
/// raw representation, the round trip through a slot returns it unchanged,
/// and the slot carries the matching tag.
pub proof fn lemma_decode_encode(v: NativeValue)
    requires
        !(v is Expression),
    ensures
        decode_model(encode_model(v)) == v,
        raw_tag(encode_model(v)) == native_tag(v),
{
}

/// Converts the host's raw boolean flag: any value other than 0 is true.
pub fn bool_from_mbool(flag: i32) -> (r: bool)
    ensures
        r == (flag != 0),
{
    flag != 0
}

/// Widens a 32-bit signed integer into a 64-bit slot; exact.
pub fn widen_integer_32(x: i32) -> (r: i64)
    ensures
        r == x as i64,
{
    x as i64
}

/// Widens a 32-bit unsigned integer into a 64-bit slot; exact.
pub fn widen_unsigned_32(x: u32) -> (r: i64)
    ensures
        r == x as i64,
{
    x as i64
}

/// Narrows a 64-bit integer slot to a 32-bit signed integer.
///
/// Out-of-range values truncate to the low 32 bits, matching the host's
/// documented coercion.
pub fn narrow_integer_32(x: i64) -> (r: i32)
    ensures
        r == x as i32,
{
    #[verifier::truncate]
    (x as i32)
}

/// Narrows a 64-bit integer slot to a 32-bit unsigned integer.
///
/// Out-of-range values truncate to the low 32 bits, matching the host's
/// documented coercion.
pub fn narrow_unsigned_32(x: i64) -> (r: u32)
    ensures
        r == x as u32,
{
    #[verifier::truncate]
    (x as u32)
}

/// A 64-bit integer in 32-bit signed range narrows and widens back to
/// itself.
pub proof fn lemma_narrow_integer_32_in_range(x: i64)
    requires
        -0x8000_0000 <= x < 0x8000_0000,
    ensures
        (x as i32) as i64 == x,
{
    assert((x as i32) as i64 == x) by (bit_vector)
        requires
            -0x8000_0000 <= x < 0x8000_0000,
    ;
}

/// Narrowing a 64-bit integer to 32 bits keeps exactly the low 32 bits of
/// its two's-complement pattern: the host's truncation rule.
pub proof fn lemma_narrow_integer_32_truncates(x: i64)
    ensures
        (x as i32) as u32 == x as u32,
        (x as u32) as u64 == (x as u64) & 0xFFFF_FFFF,
{
    assert((x as i32) as u32 == x as u32) by (bit_vector);
    assert((x as u32) as u64 == (x as u64) & 0xFFFF_FFFF) by (bit_vector);
}

/// A 64-bit integer in 32-bit unsigned range narrows and widens back to
/// itself.
pub proof fn lemma_narrow_unsigned_32_in_range(x: i64)
    requires
        0 <= x < 0x1_0000_0000,
    ensures
        (x as u32) as i64 == x,
{
    assert((x as u32) as i64 == x) by (bit_vector)
        requires
            0 <= x < 0x1_0000_0000,
    ;
}

} // verus!
