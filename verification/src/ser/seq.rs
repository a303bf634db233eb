//! The handle through which a sequence is encoded.
use vstd::prelude::*;
use vstd::slice::slice_to_vec;
use vstd::string::StringSliceAdditionalSpecFns;
use vstd::utf8::encode_utf8;
use crate::bits::{pack, pack_bits};
use crate::error::Error;
use crate::headers::ArrayKind;
use crate::scalar::Scalar;
use crate::headers::ObjectKind;
use crate::ser::map::MapSerializer;
use crate::ser::{list_fits, Serializer};
use crate::text::char_to_string;
use crate::size::SIZE_LIMIT;
use crate::value::{kind_width, Value};

verus! {

/// Collects the elements of one sequence. The elements are buffered until
/// `end`: if they all share one scalar kind the array is built in that
/// homogeneous layout, otherwise as a generic array. A handle made by `new`
/// then writes the array to its serializer; a handle nested in another
/// collection only hands the array back, for its parent to buffer.
pub struct SeqSerializer<'a> {
    pub serializer: &'a mut Serializer,
    /// The one kind that all elements so far share, `Generic` once two of
    /// them differ, nothing before the first.
    pub kind: Option<ArrayKind>,
    pub elements: Vec<Value>,
    /// Whether `end` writes the array.
    pub write: bool,
    /// The variant index that `end` wraps the array in, if any.
    pub tag: Option<u32>,
}

/// The kind of a sequence after an element of kind `new` has joined it.
pub open spec fn merge_kind(kind: Option<ArrayKind>, new: ArrayKind) -> Option<ArrayKind> {
    match kind {
        None => Some(new),
        Some(ArrayKind::Generic) => Some(ArrayKind::Generic),
        Some(k) => if k == new {
            Some(k)
        } else {
            Some(ArrayKind::Generic)
        },
    }
}

/// Every element can stand in a homogeneous array of `kind`.
pub open spec fn uniform(elements: Seq<Value>, kind: ArrayKind) -> bool {
    forall|i: int| 0 <= i < elements.len() ==> (#[trigger] elements[i]).spec_element_kind() == kind
}

/// The layout in which a sequence is emitted: the kind it was tracked as
/// if all elements are of it, and `Generic` otherwise. The 16-bit floats
/// have no encoder and a sequence is never homogeneous in them.
pub open spec fn layout(kind: Option<ArrayKind>, elements: Seq<Value>) -> ArrayKind {
    match kind {
        Some(k) => if k != ArrayKind::Generic && k != ArrayKind::BF16 && k != ArrayKind::F16
            && uniform(elements, k) {
            k
        } else {
            ArrayKind::Generic
        },
        None => ArrayKind::Generic,
    }
}

/// For each element whether it is `True`.
pub open spec fn flags(elements: Seq<Value>) -> Seq<bool> {
    Seq::new(elements.len(), |i: int| elements[i] == Value::True)
}

/// `a` holds the numbers of `elements`, which are all of `kind`.
pub open spec fn nums_hold<T: Scalar>(a: Seq<T>, kind: ArrayKind, elements: Seq<Value>) -> bool {
    &&& a.len() == elements.len()
    &&& forall|i: int|
        0 <= i < a.len() ==> (#[trigger] elements[i]).spec_scalar_bits() == Some(
            (kind, a[i].bits()),
        )
}

/// `array` is the array of `elements` in the given layout.
pub open spec fn holds(array: Value, layout: ArrayKind, elements: Seq<Value>) -> bool {
    match layout {
        ArrayKind::Generic => array matches Value::GenericArray(vs) && vs@ == elements,
        ArrayKind::String => array matches Value::StringArray(a) && a@.len() == elements.len()
            && forall|i: int| 0 <= i < a@.len() ==> elements[i] == Value::String(#[trigger] a@[i]),
        ArrayKind::Boolean => array matches Value::BoolArray(count, bits) && count
            == elements.len() && bits@ == pack(flags(elements)),
        ArrayKind::I8 => array matches Value::I8Array(a) && nums_hold(a@, layout, elements),
        ArrayKind::I16 => array matches Value::I16Array(a) && nums_hold(a@, layout, elements),
        ArrayKind::I32 => array matches Value::I32Array(a) && nums_hold(a@, layout, elements),
        ArrayKind::I64 => array matches Value::I64Array(a) && nums_hold(a@, layout, elements),
        ArrayKind::I128 => array matches Value::I128Array(a) && nums_hold(a@, layout, elements),
        ArrayKind::U8 => array matches Value::U8Array(a) && nums_hold(a@, layout, elements),
        ArrayKind::U16 => array matches Value::U16Array(a) && nums_hold(a@, layout, elements),
        ArrayKind::U32 => array matches Value::U32Array(a) && nums_hold(a@, layout, elements),
        ArrayKind::U64 => array matches Value::U64Array(a) && nums_hold(a@, layout, elements),
        ArrayKind::U128 => array matches Value::U128Array(a) && nums_hold(a@, layout, elements),
        ArrayKind::F32 => array matches Value::F32Array(a) && nums_hold(a@, layout, elements),
        ArrayKind::F64 => array matches Value::F64Array(a) && nums_hold(a@, layout, elements),
        ArrayKind::BF16 | ArrayKind::F16 => false,
    }
}

/// `result` is the array of `elements` in the given layout, wrapped in the
/// variant tag if there is one.
pub open spec fn yields(
    result: Value,
    tag: Option<u32>,
    layout: ArrayKind,
    elements: Seq<Value>,
) -> bool {
    match tag {
        None => holds(result, layout, elements),
        Some(index) => result matches Value::Tag(i, inner) && i == index && holds(
            *inner,
            layout,
            elements,
        ),
    }
}

/// The array of a sequence fits the format exactly when the sequence does,
/// and can be written when its elements can.
proof fn lemma_array_fits(array: Value, layout: ArrayKind, elements: Seq<Value>)
    requires
        holds(array, layout, elements),
        layout != ArrayKind::Generic ==> uniform(elements, layout),
    ensures
        array.fits() == list_fits(elements),
        (forall|i: int| 0 <= i < elements.len() ==> (#[trigger] elements[i]).serializable())
            ==> array.serializable(),
{
    match layout {
        ArrayKind::Generic => {},
        ArrayKind::String => {
            let a = array->StringArray_0;
            assert forall|i: int| 0 <= i < elements.len() implies (#[trigger] elements[i]).fits()
                == (a@[i]@.len() < SIZE_LIMIT) by {
                assert(elements[i] == Value::String(a@[i]));
            }
            if array.fits() {
                assert forall|i: int| 0 <= i < elements.len() implies (#[trigger] elements[
                    i
                ]).fits() by {
                    assert(a@[i]@.len() < SIZE_LIMIT);
                }
            }
            if list_fits(elements) {
                assert forall|i: int| 0 <= i < a@.len() implies (#[trigger] a@[i])@.len()
                    < SIZE_LIMIT by {
                    assert(elements[i].fits());
                }
            }
        },
        _ => {
            assert forall|i: int| 0 <= i < elements.len() implies (
            #[trigger] elements[i]).fits() by {
                assert(elements[i].spec_element_kind() == layout);
            }
        },
    }
}

/// The numbers of `elements`, which are all numbers of `kind`.
fn gather<T: Scalar>(elements: &Vec<Value>, kind: ArrayKind) -> (a: Vec<T>)
    requires
        kind_width(kind) == T::width(),
        forall|i: int|
            0 <= i < elements@.len() ==> ((#[trigger] elements@[i]).spec_scalar_bits() matches Some(
                (k, _),
            ) && k == kind),
    ensures
        nums_hold(a@, kind, elements@),
{
    let mut a: Vec<T> = Vec::new();
    let mut i: usize = 0;
    while i < elements.len()
        invariant
            i <= elements@.len(),
            a@.len() == i,
            kind_width(kind) == T::width(),
            forall|j: int|
                0 <= j < elements@.len()
                    ==> ((#[trigger] elements@[j]).spec_scalar_bits() matches Some(
                    (k, _),
                ) && k == kind),
            forall|j: int|
                0 <= j < i ==> (#[trigger] elements@[j]).spec_scalar_bits() == Some(
                    (kind, a@[j].bits()),
                ),
        decreases elements@.len() - i,
    {
        let bits: u128 = match elements[i].scalar_bits() {
            Some((_, bits)) => bits,
            None => 0,
        };
        a.push(T::from_bits(bits));
        i = i + 1;
    }
    a
}

/// For each element whether it is `True`.
fn gather_bools(elements: &Vec<Value>) -> (a: Vec<bool>)
    ensures
        a@ == flags(elements@),
{
    let mut a: Vec<bool> = Vec::new();
    let mut i: usize = 0;
    while i < elements.len()
        invariant
            i <= elements@.len(),
            a@.len() == i,
            forall|j: int| 0 <= j < i ==> a@[j] == (elements@[j] == Value::True),
        decreases elements@.len() - i,
    {
        let set = match &elements[i] {
            Value::True => true,
            _ => false,
        };
        a.push(set);
        i = i + 1;
    }
    assert(a@ =~= flags(elements@));
    a
}

/// The strings of `elements`, which are all strings.
fn gather_strings(elements: Vec<Value>) -> (a: Vec<Vec<u8>>)
    requires
        uniform(elements@, ArrayKind::String),
    ensures
        a@.len() == elements@.len(),
        forall|i: int| 0 <= i < a@.len() ==> elements@[i] == Value::String(#[trigger] a@[i]),
{
    let mut elements = elements;
    let ghost before = elements@;
    let mut a: Vec<Vec<u8>> = Vec::new();
    let mut i: usize = 0;
    while i < elements.len()
        invariant
            i <= elements@.len(),
            elements@.len() == before.len(),
            a@.len() == i,
            uniform(before, ArrayKind::String),
            forall|j: int| i <= j < elements@.len() ==> elements@[j] == before[j],
            forall|j: int| 0 <= j < i ==> before[j] == Value::String(#[trigger] a@[j]),
        decreases elements@.len() - i,
    {
        let mut taken = Value::Null;
        core::mem::swap(&mut elements[i], &mut taken);
        assert(taken == before[i as int]);
        assert(before[i as int].spec_element_kind() == ArrayKind::String);
        match taken {
            Value::String(bytes) => a.push(bytes),
            _ => a.push(Vec::new()),
        }
        i = i + 1;
    }
    a
}

impl<'a> SeqSerializer<'a> {
    /// A handle for a sequence that is written to `serializer` when it
    /// ends.
    pub fn new(serializer: &'a mut Serializer) -> (seq: Self)
        ensures
            seq.kind is None,
            seq.elements@.len() == 0,
            seq.write,
            seq.tag is None,
            *seq.serializer == *old(serializer),
            *final(seq.serializer) == *final(serializer),
    {
        Self { serializer, kind: None, elements: Vec::new(), write: true, tag: None }
    }

    /// A handle for a sequence that stands inside a buffered collection:
    /// when it ends it hands its array back and writes nothing. With a
    /// `tag` the array is wrapped in that variant.
    pub fn nested(serializer: &'a mut Serializer, tag: Option<u32>) -> (seq: Self)
        ensures
            seq.kind is None,
            seq.elements@.len() == 0,
            !seq.write,
            seq.tag == tag,
            *seq.serializer == *old(serializer),
            *final(seq.serializer) == *final(serializer),
    {
        Self { serializer, kind: None, elements: Vec::new(), write: false, tag }
    }

    /// The handle is as it is made: without elements, with the given kind,
    /// and with the given say on writing and on wrapping.
    pub open spec fn fresh(self, kind: Option<ArrayKind>, write: bool, tag: Option<u32>) -> bool {
        &&& self.kind == kind
        &&& self.elements@.len() == 0
        &&& self.write == write
        &&& self.tag == tag
    }

    /// Notes that an element of kind `new` joins the sequence.
    pub fn update_type(&mut self, new: ArrayKind)
        ensures
            final(self).kind == merge_kind(old(self).kind, new),
            final(self).elements == old(self).elements,
            final(self).write == old(self).write,
            final(self).tag == old(self).tag,
            *final(self).serializer == *old(self).serializer,
            *final(final(self).serializer) == *final(old(self).serializer),
    {
        match self.kind {
            None => self.kind = Some(new),
            Some(ArrayKind::Generic) => {},
            Some(kind) => {
                if kind != new {
                    self.kind = Some(ArrayKind::Generic);
                }
            },
        }
    }

    /// Notes that an element joins that no homogeneous array can hold.
    pub fn ensure_generic(&mut self)
        ensures
            final(self).kind == Some(ArrayKind::Generic),
            final(self).elements == old(self).elements,
            final(self).write == old(self).write,
            final(self).tag == old(self).tag,
            *final(self).serializer == *old(self).serializer,
            *final(final(self).serializer) == *final(old(self).serializer),
    {
        self.kind = Some(ArrayKind::Generic);
    }

    /// Adds `value` as the next element.
    pub fn serialize_element(&mut self, value: Value) -> (r: Result<(), Error>)
        ensures
            r == Ok::<(), Error>(()),
            final(self).kind == merge_kind(old(self).kind, value.spec_element_kind()),
            final(self).elements@ == old(self).elements@.push(value),
            final(self).write == old(self).write,
            final(self).tag == old(self).tag,
            *final(self).serializer == *old(self).serializer,
            *final(final(self).serializer) == *final(old(self).serializer),
    {
        self.update_type(value.element_kind());
        self.elements.push(value);
        Ok(())
    }

    /// The layout in which the sequence will be emitted.
    pub fn detect(&self) -> (kind: ArrayKind)
        ensures
            kind == layout(self.kind, self.elements@),
    {
        match self.kind {
            None | Some(ArrayKind::Generic) | Some(ArrayKind::BF16) | Some(ArrayKind::F16) => {
                ArrayKind::Generic
            },
            Some(kind) => {
                let mut i: usize = 0;
                while i < self.elements.len()
                    invariant
                        i <= self.elements@.len(),
                        self.kind == Some(kind),
                        kind != ArrayKind::Generic && kind != ArrayKind::BF16 && kind
                            != ArrayKind::F16,
                        forall|j: int|
                            0 <= j < i ==> (#[trigger] self.elements@[j]).spec_element_kind()
                                == kind,
                    decreases self.elements@.len() - i,
                {
                    if self.elements[i].element_kind() != kind {
                        assert(self.elements@[i as int].spec_element_kind() != kind);
                        return ArrayKind::Generic;
                    }
                    i = i + 1;
                }
                kind
            },
        }
    }

    /// Ends the sequence and builds its array: homogeneous in the tracked
    /// kind where every element is of it, generic otherwise; booleans are
    /// packed eight to a byte. A handle with a tag wraps the array in that
    /// variant.
    ///
    /// A handle that writes appends the encoding of the result to its
    /// serializer. It fails with `TooLong`, and writes nothing, exactly when a
    /// length in the result is 2^62 or more. A nested handle writes nothing
    /// and never fails.
    pub fn end(self) -> (r: Result<Value, Error>)
        requires
            self.write ==> forall|i: int|
                0 <= i < self.elements@.len() ==> (#[trigger] self.elements@[i]).serializable(),
        ensures
            self.write && !list_fits(self.elements@) ==> r == Err::<Value, Error>(Error::TooLong)
                && final(self.serializer)@ == old(self.serializer)@,
            !self.write || list_fits(self.elements@) ==> (r matches Ok(v) && yields(
                v,
                self.tag,
                layout(self.kind, self.elements@),
                self.elements@,
            ) && if self.write {
                final(self.serializer)@ == old(self.serializer)@ + v.wire()
            } else {
                final(self.serializer)@ == old(self.serializer)@
            }),
    {
        let layout = self.detect();
        let ghost elements = self.elements@;
        let serializer = self.serializer;
        let array = match layout {
            ArrayKind::I8 => Value::I8Array(gather(&self.elements, layout)),
            ArrayKind::I16 => Value::I16Array(gather(&self.elements, layout)),
            ArrayKind::I32 => Value::I32Array(gather(&self.elements, layout)),
            ArrayKind::I64 => Value::I64Array(gather(&self.elements, layout)),
            ArrayKind::I128 => Value::I128Array(gather(&self.elements, layout)),
            ArrayKind::U8 => Value::U8Array(gather(&self.elements, layout)),
            ArrayKind::U16 => Value::U16Array(gather(&self.elements, layout)),
            ArrayKind::U32 => Value::U32Array(gather(&self.elements, layout)),
            ArrayKind::U64 => Value::U64Array(gather(&self.elements, layout)),
            ArrayKind::U128 => Value::U128Array(gather(&self.elements, layout)),
            ArrayKind::F32 => Value::F32Array(gather(&self.elements, layout)),
            ArrayKind::F64 => Value::F64Array(gather(&self.elements, layout)),
            ArrayKind::String => Value::StringArray(gather_strings(self.elements)),
            ArrayKind::Boolean => {
                let bools = gather_bools(&self.elements);
                Value::BoolArray(bools.len(), pack_bits(&bools))
            },
            _ => Value::GenericArray(self.elements),
        };
        proof {
            lemma_array_fits(array, layout, elements);
        }
        let out = match self.tag {
            None => array,
            Some(index) => Value::Tag(index as usize, Box::new(array)),
        };
        assert(yields(out, self.tag, layout, elements));
        if self.write {
            serializer.serialize_value(&out)?;
        }
        Ok(out)
    }

    /// `self` is `pre` after an element of kind `new` was announced:
    /// nothing but the tracked kind has changed.
    pub open spec fn noted(self, pre: Self, new: ArrayKind) -> bool {
        &&& self.kind == merge_kind(pre.kind, new)
        &&& self.elements == pre.elements
        &&& self.write == pre.write
        &&& self.tag == pre.tag
        &&& *self.serializer == *pre.serializer
    }

    /// Builds the element for a boolean.
    pub fn serialize_bool(&mut self, v: bool) -> (r: Result<Value, Error>)
        ensures
            r == Ok::<Value, Error>(if v { Value::True } else { Value::False }),
            final(self).noted(*old(self), ArrayKind::Boolean),
            *final(final(self).serializer) == *final(old(self).serializer),
    {
        self.update_type(ArrayKind::Boolean);
        Ok(if v {
            Value::True
        } else {
            Value::False
        })
    }

    /// Builds the element for an integer.
    pub fn serialize_i8(&mut self, v: i8) -> (r: Result<Value, Error>)
        ensures
            r == Ok::<Value, Error>(Value::I8(v)),
            final(self).noted(*old(self), ArrayKind::I8),
            *final(final(self).serializer) == *final(old(self).serializer),
    {
        self.update_type(ArrayKind::I8);
        Ok(Value::I8(v))
    }

    /// Builds the element for an integer.
    pub fn serialize_i16(&mut self, v: i16) -> (r: Result<Value, Error>)
        ensures
            r == Ok::<Value, Error>(Value::I16(v)),
            final(self).noted(*old(self), ArrayKind::I16),
            *final(final(self).serializer) == *final(old(self).serializer),
    {
        self.update_type(ArrayKind::I16);
        Ok(Value::I16(v))
    }

    /// Builds the element for an integer.
    pub fn serialize_i32(&mut self, v: i32) -> (r: Result<Value, Error>)
        ensures
            r == Ok::<Value, Error>(Value::I32(v)),
            final(self).noted(*old(self), ArrayKind::I32),
            *final(final(self).serializer) == *final(old(self).serializer),
    {
        self.update_type(ArrayKind::I32);
        Ok(Value::I32(v))
    }

    /// Builds the element for an integer.
    pub fn serialize_i64(&mut self, v: i64) -> (r: Result<Value, Error>)
        ensures
            r == Ok::<Value, Error>(Value::I64(v)),
            final(self).noted(*old(self), ArrayKind::I64),
            *final(final(self).serializer) == *final(old(self).serializer),
    {
        self.update_type(ArrayKind::I64);
        Ok(Value::I64(v))
    }

    /// Builds the element for an integer.
    pub fn serialize_i128(&mut self, v: i128) -> (r: Result<Value, Error>)
        ensures
            r == Ok::<Value, Error>(Value::I128(v)),
            final(self).noted(*old(self), ArrayKind::I128),
            *final(final(self).serializer) == *final(old(self).serializer),
    {
        self.update_type(ArrayKind::I128);
        Ok(Value::I128(v))
    }

    /// Builds the element for an integer.
    pub fn serialize_u8(&mut self, v: u8) -> (r: Result<Value, Error>)
        ensures
            r == Ok::<Value, Error>(Value::U8(v)),
            final(self).noted(*old(self), ArrayKind::U8),
            *final(final(self).serializer) == *final(old(self).serializer),
    {
        self.update_type(ArrayKind::U8);
        Ok(Value::U8(v))
    }

    /// Builds the element for an integer.
    pub fn serialize_u16(&mut self, v: u16) -> (r: Result<Value, Error>)
        ensures
            r == Ok::<Value, Error>(Value::U16(v)),
            final(self).noted(*old(self), ArrayKind::U16),
            *final(final(self).serializer) == *final(old(self).serializer),
    {
        self.update_type(ArrayKind::U16);
        Ok(Value::U16(v))
    }

    /// Builds the element for an integer.
    pub fn serialize_u32(&mut self, v: u32) -> (r: Result<Value, Error>)
        ensures
            r == Ok::<Value, Error>(Value::U32(v)),
            final(self).noted(*old(self), ArrayKind::U32),
            *final(final(self).serializer) == *final(old(self).serializer),
    {
        self.update_type(ArrayKind::U32);
        Ok(Value::U32(v))
    }

    /// Builds the element for an integer.
    pub fn serialize_u64(&mut self, v: u64) -> (r: Result<Value, Error>)
        ensures
            r == Ok::<Value, Error>(Value::U64(v)),
            final(self).noted(*old(self), ArrayKind::U64),
            *final(final(self).serializer) == *final(old(self).serializer),
    {
        self.update_type(ArrayKind::U64);
        Ok(Value::U64(v))
    }

    /// Builds the element for an integer.
    pub fn serialize_u128(&mut self, v: u128) -> (r: Result<Value, Error>)
        ensures
            r == Ok::<Value, Error>(Value::U128(v)),
            final(self).noted(*old(self), ArrayKind::U128),
            *final(final(self).serializer) == *final(old(self).serializer),
    {
        self.update_type(ArrayKind::U128);
        Ok(Value::U128(v))
    }

    /// Builds the element for the bit pattern of a float.
    pub fn serialize_f32(&mut self, v: u32) -> (r: Result<Value, Error>)
        ensures
            r == Ok::<Value, Error>(Value::F32(v)),
            final(self).noted(*old(self), ArrayKind::F32),
            *final(final(self).serializer) == *final(old(self).serializer),
    {
        self.update_type(ArrayKind::F32);
        Ok(Value::F32(v))
    }

    /// Builds the element for the bit pattern of a float.
    pub fn serialize_f64(&mut self, v: u64) -> (r: Result<Value, Error>)
        ensures
            r == Ok::<Value, Error>(Value::F64(v)),
            final(self).noted(*old(self), ArrayKind::F64),
            *final(final(self).serializer) == *final(old(self).serializer),
    {
        self.update_type(ArrayKind::F64);
        Ok(Value::F64(v))
    }

    /// Builds the element for a character: the string of that character.
    pub fn serialize_char(&mut self, v: char) -> (r: Result<Value, Error>)
        ensures
            r matches Ok(Value::String(bytes)) && bytes@ == encode_utf8(seq![v]),
            final(self).noted(*old(self), ArrayKind::String),
            *final(final(self).serializer) == *final(old(self).serializer),
    {
        let s = char_to_string(v);
        self.serialize_str(s.as_str())
    }

    /// Builds the element for a string: its UTF-8 bytes.
    pub fn serialize_str(&mut self, v: &str) -> (r: Result<Value, Error>)
        ensures
            r matches Ok(Value::String(bytes)) && bytes@ == v.spec_bytes(),
            final(self).noted(*old(self), ArrayKind::String),
            *final(final(self).serializer) == *final(old(self).serializer),
    {
        self.update_type(ArrayKind::String);
        Ok(Value::String(slice_to_vec(v.as_bytes())))
    }

    /// Builds the element for bytes: an array of 8-bit unsigned integers.
    /// The sequence that holds it is generic.
    pub fn serialize_bytes(&mut self, v: &[u8]) -> (r: Result<Value, Error>)
        ensures
            r matches Ok(Value::U8Array(bytes)) && bytes@ == v@,
            final(self).noted(*old(self), ArrayKind::Generic),
            *final(final(self).serializer) == *final(old(self).serializer),
    {
        self.ensure_generic();
        Ok(Value::U8Array(slice_to_vec(v)))
    }

    /// Builds the element for an absent value: null.
    pub fn serialize_none(&mut self) -> (r: Result<Value, Error>)
        ensures
            r == Ok::<Value, Error>(Value::Null),
            final(self).noted(*old(self), ArrayKind::Generic),
            *final(final(self).serializer) == *final(old(self).serializer),
    {
        self.serialize_unit()
    }

    /// Builds the element for the unit value: null. The sequence that
    /// holds it is generic.
    pub fn serialize_unit(&mut self) -> (r: Result<Value, Error>)
        ensures
            r == Ok::<Value, Error>(Value::Null),
            final(self).noted(*old(self), ArrayKind::Generic),
            *final(final(self).serializer) == *final(old(self).serializer),
    {
        self.ensure_generic();
        Ok(Value::Null)
    }

    /// Builds the element for a variant without a payload.
    pub fn serialize_unit_variant(&mut self, variant_index: u32) -> (r: Result<Value, Error>)
        ensures
            r matches Ok(Value::Tag(index, inner)) && index == variant_index && *inner
                == Value::Null,
            final(self).noted(*old(self), ArrayKind::Generic),
            *final(final(self).serializer) == *final(old(self).serializer),
    {
        self.ensure_generic();
        Ok(Value::Tag(variant_index as usize, Box::new(Value::Null)))
    }

    /// Builds the element for a variant with one value.
    pub fn serialize_newtype_variant(&mut self, variant_index: u32, value: Value) -> (r: Result<
        Value,
        Error,
    >)
        ensures
            r matches Ok(Value::Tag(index, inner)) && index == variant_index && *inner == value,
            final(self).noted(*old(self), ArrayKind::Generic),
            *final(final(self).serializer) == *final(old(self).serializer),
    {
        self.ensure_generic();
        Ok(Value::Tag(variant_index as usize, Box::new(value)))
    }

    /// Begins a sequence as an element: a nested handle, whose array the
    /// caller adds as an element when it has ended.
    pub fn serialize_seq(&mut self, _len: Option<usize>) -> (r: Result<SeqSerializer<'_>, Error>)
        ensures
            r matches Ok(seq) && seq.fresh(None, false, None)
                && *seq.serializer == *old(self).serializer
                && *final(self).serializer == *final(seq.serializer),
            final(self).kind == Some(ArrayKind::Generic),
            final(self).elements == old(self).elements,
            final(self).write == old(self).write,
            final(self).tag == old(self).tag,
            *final(final(self).serializer) == *final(old(self).serializer),
    {
        self.ensure_generic();
        Ok(SeqSerializer::nested(&mut *self.serializer, None))
    }

    /// Begins a tuple as an element: a nested handle whose elements make a
    /// generic array, whatever their kinds.
    pub fn serialize_tuple(&mut self, _len: usize) -> (r: Result<SeqSerializer<'_>, Error>)
        ensures
            r matches Ok(seq) && seq.fresh(Some(ArrayKind::Generic), false, None)
                && *seq.serializer == *old(self).serializer
                && *final(self).serializer == *final(seq.serializer),
            final(self).kind == Some(ArrayKind::Generic),
            final(self).elements == old(self).elements,
            final(self).write == old(self).write,
            final(self).tag == old(self).tag,
            *final(final(self).serializer) == *final(old(self).serializer),
    {
        self.ensure_generic();
        let mut seq = SeqSerializer::nested(&mut *self.serializer, None);
        seq.ensure_generic();
        Ok(seq)
    }

    /// Begins a tuple variant as an element: a nested handle whose generic
    /// array is wrapped in the variant.
    pub fn serialize_tuple_variant(&mut self, variant_index: u32, _len: usize) -> (r: Result<
        SeqSerializer<'_>,
        Error,
    >)
        ensures
            r matches Ok(seq) && seq.fresh(Some(ArrayKind::Generic), false, Some(variant_index))
                && *seq.serializer == *old(self).serializer
                && *final(self).serializer == *final(seq.serializer),
            final(self).kind == Some(ArrayKind::Generic),
            final(self).elements == old(self).elements,
            final(self).write == old(self).write,
            final(self).tag == old(self).tag,
            *final(final(self).serializer) == *final(old(self).serializer),
    {
        self.ensure_generic();
        let mut seq = SeqSerializer::nested(&mut *self.serializer, Some(variant_index));
        seq.ensure_generic();
        Ok(seq)
    }

    /// Begins a map as an element: a nested handle, whose object the
    /// caller adds as an element when it has ended.
    pub fn serialize_map(&mut self, _len: Option<usize>) -> (r: Result<MapSerializer<'_>, Error>)
        ensures
            r matches Ok(map) && map.fresh(None, false, None)
                && *map.serializer == *old(self).serializer
                    && *final(self).serializer == *final(map.serializer),
            final(self).kind == Some(ArrayKind::Generic),
            final(self).elements == old(self).elements,
            final(self).write == old(self).write,
            final(self).tag == old(self).tag,
            *final(final(self).serializer) == *final(old(self).serializer),
    {
        self.ensure_generic();
        Ok(MapSerializer::nested(&mut *self.serializer, None, None))
    }

    /// Begins a struct as an element: a nested map with string keys.
    pub fn serialize_struct(&mut self, _len: usize) -> (r: Result<MapSerializer<'_>, Error>)
        ensures
            r matches Ok(map) && map.fresh(Some(ObjectKind::String), false, None)
                && *map.serializer == *old(self).serializer
                    && *final(self).serializer == *final(map.serializer),
            final(self).kind == Some(ArrayKind::Generic),
            final(self).elements == old(self).elements,
            final(self).write == old(self).write,
            final(self).tag == old(self).tag,
            *final(final(self).serializer) == *final(old(self).serializer),
    {
        self.ensure_generic();
        Ok(MapSerializer::nested(&mut *self.serializer, Some(ObjectKind::String), None))
    }

    /// Begins a struct variant as an element: a nested struct whose
    /// object is wrapped in the variant.
    pub fn serialize_struct_variant(&mut self, variant_index: u32, _len: usize) -> (r: Result<
        MapSerializer<'_>,
        Error,
    >)
        ensures
            r matches Ok(map) && map.fresh(Some(ObjectKind::String), false, Some(variant_index))
                && *map.serializer == *old(self).serializer
                    && *final(self).serializer == *final(map.serializer),
            final(self).kind == Some(ArrayKind::Generic),
            final(self).elements == old(self).elements,
            final(self).write == old(self).write,
            final(self).tag == old(self).tag,
            *final(final(self).serializer) == *final(old(self).serializer),
    {
        self.ensure_generic();
        Ok(
            MapSerializer::nested(
                &mut *self.serializer,
                Some(ObjectKind::String),
                Some(variant_index),
            ),
        )
    }
}

} // verus!
