//! The handle through which a map or a struct is encoded.
use vstd::prelude::*;
use vstd::slice::slice_to_vec;
use vstd::string::StringSliceAdditionalSpecFns;
use vstd::utf8::encode_utf8;
use crate::error::Error;
use crate::headers::{ArrayKind, ObjectKind};
use crate::scalar::Scalar;
use crate::ser::seq::SeqSerializer;
use crate::ser::Serializer;
use crate::text::char_to_string;
use crate::size::SIZE_LIMIT;
use crate::value::{kind_width, Value};

verus! {

/// Collects the entries of one object. The first key fixes the kind of
/// all keys; keys and values are buffered until `end`. A handle made by
/// `new` then writes the object to its serializer; a handle nested in
/// another collection only hands the object back, for its parent to buffer.
pub struct MapSerializer<'a> {
    pub serializer: &'a mut Serializer,
    /// The kind of the keys: that of the first key, or the kind the handle
    /// was made with.
    pub kind: Option<ObjectKind>,
    pub keys: Vec<Value>,
    pub values: Vec<Value>,
    /// Whether what is being serialized stands in the place of a key.
    pub key: bool,
    /// Whether `end` writes the object.
    pub write: bool,
    /// The variant index that `end` wraps the object in, if any.
    pub tag: Option<u32>,
}

/// What a key of kind `expected` meets in an object whose kind is `kind`:
/// it fixes the kind of a fresh object, passes where it agrees, and is a
/// mismatch where it does not.
pub open spec fn check_kind(kind: Option<ObjectKind>, expected: ObjectKind) -> Result<
    Option<ObjectKind>,
    Error,
> {
    match kind {
        None => Ok(Some(expected)),
        Some(found) => if found == expected {
            Ok(kind)
        } else {
            Err(Error::MismatchedKeyType { expected, found })
        },
    }
}

/// What a key or value of kind `expected` meets: in the place of a key it
/// is held against the kind of the object, in the place of a value
/// nothing is checked.
pub open spec fn position_kind(key: bool, kind: Option<ObjectKind>, expected: ObjectKind) -> Result<
    Option<ObjectKind>,
    Error,
> {
    if key {
        check_kind(kind, expected)
    } else {
        Ok(kind)
    }
}

/// What a value in the place of a key meets in an object of `kind`.
pub open spec fn check_key(kind: Option<ObjectKind>, key: Value) -> Result<
    Option<ObjectKind>,
    Error,
> {
    match key.spec_key_kind() {
        None => Err(Error::InvalidKey),
        Some(expected) => check_kind(kind, expected),
    }
}

/// Every key is of `kind`.
pub open spec fn keys_ok(keys: Seq<Value>, kind: ObjectKind) -> bool {
    forall|i: int| 0 <= i < keys.len() ==> (#[trigger] keys[i]).spec_key_kind() == Some(kind)
}

/// The key at `i` is the first that is not of `kind`.
pub open spec fn first_bad_key(keys: Seq<Value>, kind: ObjectKind, i: int) -> bool {
    &&& 0 <= i < keys.len()
    &&& keys[i].spec_key_kind() != Some(kind)
    &&& forall|j: int| 0 <= j < i ==> (#[trigger] keys[j]).spec_key_kind() == Some(kind)
}

/// The number of entries of an object: keys without a value and values
/// without a key are left out.
pub open spec fn pairs(keys: Seq<Value>, values: Seq<Value>) -> nat {
    if keys.len() <= values.len() {
        keys.len()
    } else {
        values.len()
    }
}

/// The number of entries, every key and every value fit the format.
pub open spec fn object_fits(kind: Option<ObjectKind>, keys: Seq<Value>,
    values: Seq<Value>) -> bool {
    kind is Some ==> {
        &&& pairs(keys, values) < SIZE_LIMIT
        &&& forall|i: int| 0 <= i < pairs(keys, values) ==> (#[trigger] keys[i]).fits()
        &&& forall|i: int| 0 <= i < pairs(keys, values) ==> (#[trigger] values[i]).fits()
    }
}

/// `es` pairs the numbers of the keys with the values.
pub open spec fn entries_hold<T: Scalar>(
    es: Seq<(T, Value)>,
    kind: ArrayKind,
    keys: Seq<Value>,
    values: Seq<Value>,
) -> bool {
    &&& es.len() == pairs(keys, values)
    &&& forall|i: int|
        0 <= i < es.len() ==> (#[trigger] keys[i]).spec_scalar_bits() == Some(
            (kind, es[i].0.bits()),
        )
    &&& forall|i: int| 0 <= i < es.len() ==> (#[trigger] es[i]).1 == values[i]
}

/// `object` is the object of the given keys and values. Without a kind,
/// that is before any key, it is the empty string-keyed object.
pub open spec fn object_holds(
    object: Value,
    kind: Option<ObjectKind>,
    keys: Seq<Value>,
    values: Seq<Value>,
) -> bool {
    match kind {
        None => object matches Value::StringObject(es) && es@.len() == 0,
        Some(ObjectKind::String) => object matches Value::StringObject(es) && es@.len() == pairs(
            keys,
            values,
        ) && (forall|i: int| 0 <= i < es@.len() ==> keys[i] == Value::String((#[trigger] es@[i]).0))
            && (forall|i: int| 0 <= i < es@.len() ==> (#[trigger] es@[i]).1 == values[i]),
        Some(ObjectKind::I8) => object matches Value::I8Object(es) && entries_hold(
            es@,
            ArrayKind::I8,
            keys,
            values,
        ),
        Some(ObjectKind::I16) => object matches Value::I16Object(es) && entries_hold(
            es@,
            ArrayKind::I16,
            keys,
            values,
        ),
        Some(ObjectKind::I32) => object matches Value::I32Object(es) && entries_hold(
            es@,
            ArrayKind::I32,
            keys,
            values,
        ),
        Some(ObjectKind::I64) => object matches Value::I64Object(es) && entries_hold(
            es@,
            ArrayKind::I64,
            keys,
            values,
        ),
        Some(ObjectKind::I128) => object matches Value::I128Object(es) && entries_hold(
            es@,
            ArrayKind::I128,
            keys,
            values,
        ),
        Some(ObjectKind::U8) => object matches Value::U8Object(es) && entries_hold(
            es@,
            ArrayKind::U8,
            keys,
            values,
        ),
        Some(ObjectKind::U16) => object matches Value::U16Object(es) && entries_hold(
            es@,
            ArrayKind::U16,
            keys,
            values,
        ),
        Some(ObjectKind::U32) => object matches Value::U32Object(es) && entries_hold(
            es@,
            ArrayKind::U32,
            keys,
            values,
        ),
        Some(ObjectKind::U64) => object matches Value::U64Object(es) && entries_hold(
            es@,
            ArrayKind::U64,
            keys,
            values,
        ),
        Some(ObjectKind::U128) => object matches Value::U128Object(es) && entries_hold(
            es@,
            ArrayKind::U128,
            keys,
            values,
        ),
    }
}

/// `result` is the object of the given keys and values, wrapped in the
/// variant tag if there is one.
pub open spec fn object_yields(
    result: Value,
    tag: Option<u32>,
    kind: Option<ObjectKind>,
    keys: Seq<Value>,
    values: Seq<Value>,
) -> bool {
    match tag {
        None => object_holds(result, kind, keys, values),
        Some(index) => result matches Value::Tag(i, inner) && i == index && object_holds(
            *inner,
            kind,
            keys,
            values,
        ),
    }
}

/// The object of a map fits the format exactly when its entries do, and
/// can be written when its values can.
proof fn lemma_object_fits(
    object: Value,
    kind: Option<ObjectKind>,
    keys: Seq<Value>,
    values: Seq<Value>,
)
    requires
        object_holds(object, kind, keys, values),
        kind matches Some(k) ==> keys_ok(keys, k),
    ensures
        object.fits() == object_fits(kind, keys, values),
        (forall|i: int| 0 <= i < values.len() ==> (#[trigger] values[i]).serializable())
            ==> object.serializable(),
{
    reveal_with_fuel(Value::fits, 2);
    reveal_with_fuel(Value::serializable, 2);
    reveal_with_fuel(crate::value::entries_fit, 2);
    reveal_with_fuel(crate::value::entries_ok, 2);
    match kind {
        None => {},
        Some(ObjectKind::String) => {
            let es = object->StringObject_0;
            assert forall|i: int| 0 <= i < es@.len() implies (#[trigger] keys[i]).fits() == (
            es@[i].0@.len() < SIZE_LIMIT) by {
                assert(keys[i] == Value::String(es@[i].0));
            }
            if object.fits() {
                assert forall|i: int| 0 <= i < es@.len() implies (#[trigger] keys[i]).fits() by {
                    assert(es@[i].0@.len() < SIZE_LIMIT);
                }
                assert forall|i: int| 0 <= i < es@.len() implies (#[trigger] values[i]).fits() by {
                    assert(es@[i].1.fits());
                }
            }
            if object_fits(kind, keys, values) {
                assert forall|i: int| 0 <= i < es@.len() implies (#[trigger] es@[i]).0@.len()
                    < SIZE_LIMIT by {
                    assert(keys[i].fits());
                }
                assert forall|i: int| 0 <= i < es@.len() implies (#[trigger] es@[i]).1.fits() by {
                    assert(values[i].fits());
                }
            }
            if forall|i: int| 0 <= i < values.len() ==> (#[trigger] values[i]).serializable() {
                assert forall|i: int| 0 <= i < es@.len() implies (
                #[trigger] es@[i]).1.serializable() by {
                    assert(values[i].serializable());
                }
            }
        },
        Some(ObjectKind::I8) => lemma_entries_fit(object->I8Object_0@, ArrayKind::I8, keys, values),
        Some(ObjectKind::I16) => lemma_entries_fit(
            object->I16Object_0@,
            ArrayKind::I16,
            keys,
            values,
        ),
        Some(ObjectKind::I32) => lemma_entries_fit(
            object->I32Object_0@,
            ArrayKind::I32,
            keys,
            values,
        ),
        Some(ObjectKind::I64) => lemma_entries_fit(
            object->I64Object_0@,
            ArrayKind::I64,
            keys,
            values,
        ),
        Some(ObjectKind::I128) => lemma_entries_fit(
            object->I128Object_0@,
            ArrayKind::I128,
            keys,
            values,
        ),
        Some(ObjectKind::U8) => lemma_entries_fit(object->U8Object_0@, ArrayKind::U8, keys, values),
        Some(ObjectKind::U16) => lemma_entries_fit(
            object->U16Object_0@,
            ArrayKind::U16,
            keys,
            values,
        ),
        Some(ObjectKind::U32) => lemma_entries_fit(
            object->U32Object_0@,
            ArrayKind::U32,
            keys,
            values,
        ),
        Some(ObjectKind::U64) => lemma_entries_fit(
            object->U64Object_0@,
            ArrayKind::U64,
            keys,
            values,
        ),
        Some(ObjectKind::U128) => lemma_entries_fit(
            object->U128Object_0@,
            ArrayKind::U128,
            keys,
            values,
        ),
    }
}

/// The entries of an object with integer keys fit the format exactly when
/// the keys and values that they were made of do.
proof fn lemma_entries_fit<T: Scalar>(
    es: Seq<(T, Value)>,
    kind: ArrayKind,
    keys: Seq<Value>,
    values: Seq<Value>,
)
    requires
        entries_hold(es, kind, keys, values),
    ensures
        crate::value::entries_fit(es) == {
            &&& pairs(keys, values) < SIZE_LIMIT
            &&& forall|i: int| 0 <= i < pairs(keys, values) ==> (#[trigger] keys[i]).fits()
            &&& forall|i: int| 0 <= i < pairs(keys, values) ==> (#[trigger] values[i]).fits()
        },
        (forall|i: int| 0 <= i < values.len() ==> (#[trigger] values[i]).serializable())
            ==> crate::value::entries_ok(es),
{
    reveal_with_fuel(crate::value::entries_fit, 2);
    reveal_with_fuel(crate::value::entries_ok, 2);
    assert forall|i: int| 0 <= i < es.len() implies (#[trigger] keys[i]).fits() by {
        assert(keys[i].spec_scalar_bits() is Some);
    }
    if crate::value::entries_fit(es) {
        assert forall|i: int| 0 <= i < es.len() implies (#[trigger] values[i]).fits() by {
            assert(es[i].1.fits());
        }
    }
    if forall|i: int| 0 <= i < pairs(keys, values) ==> (#[trigger] values[i]).fits() {
        assert forall|i: int| 0 <= i < es.len() implies (#[trigger] es[i]).1.fits() by {
            assert(values[i].fits());
        }
    }
    if forall|i: int| 0 <= i < values.len() ==> (#[trigger] values[i]).serializable() {
        assert forall|i: int| 0 <= i < es.len() implies (#[trigger] es[i]).1.serializable() by {
            assert(values[i].serializable());
        }
    }
}

/// Pairs the numbers of the keys, which are all numbers of `kind`, with
/// the values.
fn zip_nums<T: Scalar>(keys: &Vec<Value>, values: Vec<Value>, kind: ArrayKind) -> (es: Vec<
    (T, Value),
>)
    requires
        kind_width(kind) == T::width(),
        forall|i: int|
            0 <= i < keys@.len() ==> ((#[trigger] keys@[i]).spec_scalar_bits() matches Some((k, _))
                && k == kind),
    ensures
        entries_hold(es@, kind, keys@, values@),
{
    let mut values = values;
    let ghost before = values@;
    let n: usize = if keys.len() <= values.len() {
        keys.len()
    } else {
        values.len()
    };
    let mut es: Vec<(T, Value)> = Vec::new();
    let mut i: usize = 0;
    while i < n
        invariant
            i <= n,
            n == pairs(keys@, before),
            values@.len() == before.len(),
            es@.len() == i,
            kind_width(kind) == T::width(),
            forall|j: int|
                0 <= j < keys@.len() ==> ((#[trigger] keys@[j]).spec_scalar_bits() matches Some(
                    (k, _),
                ) && k == kind),
            forall|j: int| i <= j < values@.len() ==> values@[j] == before[j],
            forall|j: int|
                0 <= j < i ==> (#[trigger] keys@[j]).spec_scalar_bits() == Some(
                    (kind, es@[j].0.bits()),
                ),
            forall|j: int| 0 <= j < i ==> (#[trigger] es@[j]).1 == before[j],
        decreases n - i,
    {
        let bits: u128 = match keys[i].scalar_bits() {
            Some((_, bits)) => bits,
            None => 0,
        };
        let mut taken = Value::Null;
        core::mem::swap(&mut values[i], &mut taken);
        es.push((T::from_bits(bits), taken));
        i = i + 1;
    }
    es
}

/// Pairs the strings of the keys, which are all strings, with the values.
fn zip_strings(keys: Vec<Value>, values: Vec<Value>) -> (es: Vec<(Vec<u8>, Value)>)
    requires
        keys_ok(keys@, ObjectKind::String),
    ensures
        es@.len() == pairs(keys@, values@),
        forall|i: int| 0 <= i < es@.len() ==> keys@[i] == Value::String((#[trigger] es@[i]).0),
        forall|i: int| 0 <= i < es@.len() ==> (#[trigger] es@[i]).1 == values@[i],
{
    let mut keys = keys;
    let mut values = values;
    let ghost first_keys = keys@;
    let ghost before = values@;
    let n: usize = if keys.len() <= values.len() {
        keys.len()
    } else {
        values.len()
    };
    let mut es: Vec<(Vec<u8>, Value)> = Vec::new();
    let mut i: usize = 0;
    while i < n
        invariant
            i <= n,
            n == pairs(first_keys, before),
            values@.len() == before.len(),
            keys@.len() == first_keys.len(),
            es@.len() == i,
            keys_ok(first_keys, ObjectKind::String),
            forall|j: int| i <= j < values@.len() ==> values@[j] == before[j],
            forall|j: int| i <= j < keys@.len() ==> keys@[j] == first_keys[j],
            forall|j: int| 0 <= j < i ==> first_keys[j] == Value::String((#[trigger] es@[j]).0),
            forall|j: int| 0 <= j < i ==> (#[trigger] es@[j]).1 == before[j],
        decreases n - i,
    {
        let mut key = Value::Null;
        core::mem::swap(&mut keys[i], &mut key);
        let mut taken = Value::Null;
        core::mem::swap(&mut values[i], &mut taken);
        assert(key == first_keys[i as int]);
        assert(first_keys[i as int].spec_key_kind() == Some(ObjectKind::String));
        match key {
            Value::String(bytes) => es.push((bytes, taken)),
            _ => es.push((Vec::new(), taken)),
        }
        i = i + 1;
    }
    es
}

/// Finds the first key that is not of `kind`.
fn find_bad_key(keys: &Vec<Value>, kind: ObjectKind) -> (r: Option<usize>)
    ensures
        match r {
            Some(i) => first_bad_key(keys@, kind, i as int),
            None => keys_ok(keys@, kind),
        },
{
    let mut i: usize = 0;
    while i < keys.len()
        invariant
            i <= keys@.len(),
            forall|j: int| 0 <= j < i ==> (#[trigger] keys@[j]).spec_key_kind() == Some(kind),
        decreases keys@.len() - i,
    {
        match keys[i].key_kind() {
            Some(k) => {
                if k != kind {
                    return Some(i);
                }
            },
            None => {
                return Some(i);
            },
        }
        i = i + 1;
    }
    None
}

impl<'a> MapSerializer<'a> {
    /// A handle for an object that is written to `serializer` when it ends.
    /// A struct starts with the kind of string keys, a map with none.
    pub fn new(serializer: &'a mut Serializer, kind: Option<ObjectKind>) -> (map: Self)
        ensures
            map.kind == kind,
            map.keys@.len() == 0,
            map.values@.len() == 0,
            !map.key,
            map.write,
            map.tag is None,
            *map.serializer == *old(serializer),
            *final(map.serializer) == *final(serializer),
    {
        Self {
            serializer,
            kind,
            keys: Vec::new(),
            values: Vec::new(),
            key: false,
            write: true,
            tag: None,
        }
    }

    /// A handle for an object that stands inside a buffered collection:
    /// when it ends it hands its object back and writes nothing. With a
    /// `tag` the object is wrapped in that variant.
    pub fn nested(serializer: &'a mut Serializer, kind: Option<ObjectKind>,
        tag: Option<u32>) -> (map:
        Self)
        ensures
            map.kind == kind,
            map.keys@.len() == 0,
            map.values@.len() == 0,
            !map.key,
            !map.write,
            map.tag == tag,
            *map.serializer == *old(serializer),
            *final(map.serializer) == *final(serializer),
    {
        Self {
            serializer,
            kind,
            keys: Vec::new(),
            values: Vec::new(),
            key: false,
            write: false,
            tag,
        }
    }

    /// The handle is as it is made: without entries, in the place of a
    /// value, with the given kind of keys, and with the given say on writing
    /// and on wrapping.
    pub open spec fn fresh(self, kind: Option<ObjectKind>, write: bool, tag: Option<u32>) -> bool {
        &&& self.kind == kind
        &&& self.keys@.len() == 0
        &&& self.values@.len() == 0
        &&& !self.key
        &&& self.write == write
        &&& self.tag == tag
    }

    /// Holds a key of kind `expected` against the kind of the object. In
    /// the place of a value nothing is checked.
    pub fn ensure_kind(&mut self, expected: ObjectKind) -> (r: Result<(), Error>)
        ensures
            !old(self).key ==> r == Ok::<(), Error>(()) && final(self).kind == old(self).kind,
            old(self).key ==> match check_kind(old(self).kind, expected) {
                Ok(kind) => r == Ok::<(), Error>(()) && final(self).kind == kind,
                Err(e) => r == Err::<(), Error>(e) && final(self).kind == old(self).kind,
            },
            final(self).keys == old(self).keys,
            final(self).values == old(self).values,
            final(self).key == old(self).key,
            final(self).write == old(self).write,
            final(self).tag == old(self).tag,
            *final(self).serializer == *old(self).serializer,
            *final(final(self).serializer) == *final(old(self).serializer),
    {
        if self.key {
            match self.kind {
                None => self.kind = Some(expected),
                Some(found) => {
                    if found != expected {
                        return Err(Error::MismatchedKeyType { expected, found });
                    }
                },
            }
        }
        Ok(())
    }

    /// Adds `key` as the next key. The first key fixes the kind of the
    /// keys; a later key of another kind is a mismatch, and a key that is
    /// neither an integer nor a string is invalid. A key that fails is not
    /// added.
    pub fn serialize_key(&mut self, key: Value) -> (r: Result<(), Error>)
        ensures
            match check_key(old(self).kind, key) {
                Ok(kind) => r == Ok::<(), Error>(()) && final(self).kind == kind
                    && final(self).keys@ == old(self).keys@.push(key),
                Err(e) => r == Err::<(), Error>(e) && final(self).kind == old(self).kind
                    && final(self).keys == old(self).keys,
            },
            final(self).key,
            final(self).values == old(self).values,
            final(self).write == old(self).write,
            final(self).tag == old(self).tag,
            *final(self).serializer == *old(self).serializer,
            *final(final(self).serializer) == *final(old(self).serializer),
    {
        self.key = true;
        match key.key_kind() {
            None => Err(Error::InvalidKey),
            Some(expected) => {
                self.ensure_kind(expected)?;
                self.keys.push(key);
                Ok(())
            },
        }
    }

    /// Adds `value` as the next value.
    pub fn serialize_value(&mut self, value: Value) -> (r: Result<(), Error>)
        ensures
            r == Ok::<(), Error>(()),
            final(self).values@ == old(self).values@.push(value),
            !final(self).key,
            final(self).kind == old(self).kind,
            final(self).keys == old(self).keys,
            final(self).write == old(self).write,
            final(self).tag == old(self).tag,
            *final(self).serializer == *old(self).serializer,
            *final(final(self).serializer) == *final(old(self).serializer),
    {
        self.key = false;
        self.values.push(value);
        Ok(())
    }

    /// Ends the object and builds it from the keys and values, in the kind
    /// of its keys; without a key it is the empty string-keyed object. A
    /// handle with a tag wraps the object in that variant.
    ///
    /// The first key that is not of the kind of the object fails the call:
    /// as an invalid key if it is neither an integer nor a string, as a
    /// mismatch otherwise. A handle that writes then appends the encoding
    /// of the result to its serializer; it fails with `TooLong` exactly
    /// when a length in the result is 2^62 or more. Nothing is written by
    /// a call that fails, nor by a nested handle.
    pub fn end(self) -> (r: Result<Value, Error>)
        requires
            self.write ==> forall|i: int|
                0 <= i < self.values@.len() ==> (#[trigger] self.values@[i]).serializable(),
        ensures
            (self.kind matches Some(k) && !keys_ok(self.keys@, k)) ==> (r matches Err(e) && exists|
                i: int,
            |
                first_bad_key(self.keys@, self.kind->Some_0, i) && e == (match (
                #[trigger] self.keys@[i]).spec_key_kind() {
                    None => Error::InvalidKey,
                    Some(expected) => Error::MismatchedKeyType {
                        expected,
                        found: self.kind->Some_0,
                    },
                })) && final(self.serializer)@ == old(self.serializer)@,
            (self.kind matches Some(k) ==> keys_ok(self.keys@, k)) ==> {
                if self.write && !object_fits(self.kind, self.keys@, self.values@) {
                    r == Err::<Value, Error>(Error::TooLong)
                        && final(self.serializer)@ == old(self.serializer)@
                } else {
                    r matches Ok(v) && object_yields(
                        v,
                        self.tag,
                        self.kind,
                        self.keys@,
                        self.values@,
                    ) && if self.write {
                        final(self.serializer)@ == old(self.serializer)@ + v.wire()
                    } else {
                        final(self.serializer)@ == old(self.serializer)@
                    }
                }
            },
    {
        let ghost keys = self.keys@;
        let ghost values = self.values@;
        let serializer = self.serializer;
        let object = match self.kind {
            None => Value::StringObject(Vec::new()),
            Some(kind) => {
                match find_bad_key(&self.keys, kind) {
                    Some(i) => {
                        let e = match self.keys[i].key_kind() {
                            None => Error::InvalidKey,
                            Some(expected) => Error::MismatchedKeyType { expected, found: kind },
                        };
                        return Err(e);
                    },
                    None => {},
                }
                match kind {
                    ObjectKind::String => Value::StringObject(zip_strings(self.keys, self.values)),
                    ObjectKind::I8 => Value::I8Object(
                        zip_nums(&self.keys, self.values, ArrayKind::I8),
                    ),
                    ObjectKind::I16 => Value::I16Object(
                        zip_nums(&self.keys, self.values, ArrayKind::I16),
                    ),
                    ObjectKind::I32 => Value::I32Object(
                        zip_nums(&self.keys, self.values, ArrayKind::I32),
                    ),
                    ObjectKind::I64 => Value::I64Object(
                        zip_nums(&self.keys, self.values, ArrayKind::I64),
                    ),
                    ObjectKind::I128 => Value::I128Object(
                        zip_nums(&self.keys, self.values, ArrayKind::I128),
                    ),
                    ObjectKind::U8 => Value::U8Object(
                        zip_nums(&self.keys, self.values, ArrayKind::U8),
                    ),
                    ObjectKind::U16 => Value::U16Object(
                        zip_nums(&self.keys, self.values, ArrayKind::U16),
                    ),
                    ObjectKind::U32 => Value::U32Object(
                        zip_nums(&self.keys, self.values, ArrayKind::U32),
                    ),
                    ObjectKind::U64 => Value::U64Object(
                        zip_nums(&self.keys, self.values, ArrayKind::U64),
                    ),
                    ObjectKind::U128 => Value::U128Object(
                        zip_nums(&self.keys, self.values, ArrayKind::U128),
                    ),
                }
            },
        };
        proof {
            lemma_object_fits(object, self.kind, keys, values);
        }
        let out = match self.tag {
            None => object,
            Some(index) => Value::Tag(index as usize, Box::new(object)),
        };
        if self.write {
            serializer.serialize_value(&out)?;
        }
        Ok(out)
    }

    /// `self` is `pre` but for the kind of the keys.
    pub open spec fn same(self, pre: Self) -> bool {
        &&& self.keys == pre.keys
        &&& self.values == pre.values
        &&& self.key == pre.key
        &&& self.write == pre.write
        &&& self.tag == pre.tag
        &&& *self.serializer == *pre.serializer
    }

    /// Builds the value for a boolean. In the place of a key it is invalid.
    pub fn serialize_bool(&mut self, v: bool) -> (r: Result<Value, Error>)
        ensures
            old(self).key ==> r == Err::<Value, Error>(Error::InvalidKey),
            !old(self).key
                ==> (r == Ok::<Value, Error>(if v { Value::True } else { Value::False })),
            final(self).kind == old(self).kind,
            final(self).same(*old(self)),
            *final(final(self).serializer) == *final(old(self).serializer),
    {
        if self.key {
            Err(Error::InvalidKey)
        } else {
            Ok(if v {
                Value::True
            } else {
                Value::False
            })
        }
    }

    /// Builds the key or value for an integer. In the place of a key it is
    /// held against the kind of the object.
    pub fn serialize_i8(&mut self, v: i8) -> (r: Result<Value, Error>)
        ensures
            match position_kind(old(self).key, old(self).kind, ObjectKind::I8) {
                Ok(kind) => r == Ok::<Value, Error>(Value::I8(v)) && final(self).kind == kind,
                Err(e) => r == Err::<Value, Error>(e) && final(self).kind == old(self).kind,
            },
            final(self).same(*old(self)),
            *final(final(self).serializer) == *final(old(self).serializer),
    {
        self.ensure_kind(ObjectKind::I8)?;
        Ok(Value::I8(v))
    }

    /// Builds the key or value for an integer. In the place of a key it is
    /// held against the kind of the object.
    pub fn serialize_i16(&mut self, v: i16) -> (r: Result<Value, Error>)
        ensures
            match position_kind(old(self).key, old(self).kind, ObjectKind::I16) {
                Ok(kind) => r == Ok::<Value, Error>(Value::I16(v)) && final(self).kind == kind,
                Err(e) => r == Err::<Value, Error>(e) && final(self).kind == old(self).kind,
            },
            final(self).same(*old(self)),
            *final(final(self).serializer) == *final(old(self).serializer),
    {
        self.ensure_kind(ObjectKind::I16)?;
        Ok(Value::I16(v))
    }

    /// Builds the key or value for an integer. In the place of a key it is
    /// held against the kind of the object.
    pub fn serialize_i32(&mut self, v: i32) -> (r: Result<Value, Error>)
        ensures
            match position_kind(old(self).key, old(self).kind, ObjectKind::I32) {
                Ok(kind) => r == Ok::<Value, Error>(Value::I32(v)) && final(self).kind == kind,
                Err(e) => r == Err::<Value, Error>(e) && final(self).kind == old(self).kind,
            },
            final(self).same(*old(self)),
            *final(final(self).serializer) == *final(old(self).serializer),
    {
        self.ensure_kind(ObjectKind::I32)?;
        Ok(Value::I32(v))
    }

    /// Builds the key or value for an integer. In the place of a key it is
    /// held against the kind of the object.
    pub fn serialize_i64(&mut self, v: i64) -> (r: Result<Value, Error>)
        ensures
            match position_kind(old(self).key, old(self).kind, ObjectKind::I64) {
                Ok(kind) => r == Ok::<Value, Error>(Value::I64(v)) && final(self).kind == kind,
                Err(e) => r == Err::<Value, Error>(e) && final(self).kind == old(self).kind,
            },
            final(self).same(*old(self)),
            *final(final(self).serializer) == *final(old(self).serializer),
    {
        self.ensure_kind(ObjectKind::I64)?;
        Ok(Value::I64(v))
    }

    /// Builds the key or value for an integer. In the place of a key it is
    /// held against the kind of the object.
    pub fn serialize_i128(&mut self, v: i128) -> (r: Result<Value, Error>)
        ensures
            match position_kind(old(self).key, old(self).kind, ObjectKind::I128) {
                Ok(kind) => r == Ok::<Value, Error>(Value::I128(v)) && final(self).kind == kind,
                Err(e) => r == Err::<Value, Error>(e) && final(self).kind == old(self).kind,
            },
            final(self).same(*old(self)),
            *final(final(self).serializer) == *final(old(self).serializer),
    {
        self.ensure_kind(ObjectKind::I128)?;
        Ok(Value::I128(v))
    }

    /// Builds the key or value for an integer. In the place of a key it is
    /// held against the kind of the object.
    pub fn serialize_u8(&mut self, v: u8) -> (r: Result<Value, Error>)
        ensures
            match position_kind(old(self).key, old(self).kind, ObjectKind::U8) {
                Ok(kind) => r == Ok::<Value, Error>(Value::U8(v)) && final(self).kind == kind,
                Err(e) => r == Err::<Value, Error>(e) && final(self).kind == old(self).kind,
            },
            final(self).same(*old(self)),
            *final(final(self).serializer) == *final(old(self).serializer),
    {
        self.ensure_kind(ObjectKind::U8)?;
        Ok(Value::U8(v))
    }

    /// Builds the key or value for an integer. In the place of a key it is
    /// held against the kind of the object.
    pub fn serialize_u16(&mut self, v: u16) -> (r: Result<Value, Error>)
        ensures
            match position_kind(old(self).key, old(self).kind, ObjectKind::U16) {
                Ok(kind) => r == Ok::<Value, Error>(Value::U16(v)) && final(self).kind == kind,
                Err(e) => r == Err::<Value, Error>(e) && final(self).kind == old(self).kind,
            },
            final(self).same(*old(self)),
            *final(final(self).serializer) == *final(old(self).serializer),
    {
        self.ensure_kind(ObjectKind::U16)?;
        Ok(Value::U16(v))
    }

    /// Builds the key or value for an integer. In the place of a key it is
    /// held against the kind of the object.
    pub fn serialize_u32(&mut self, v: u32) -> (r: Result<Value, Error>)
        ensures
            match position_kind(old(self).key, old(self).kind, ObjectKind::U32) {
                Ok(kind) => r == Ok::<Value, Error>(Value::U32(v)) && final(self).kind == kind,
                Err(e) => r == Err::<Value, Error>(e) && final(self).kind == old(self).kind,
            },
            final(self).same(*old(self)),
            *final(final(self).serializer) == *final(old(self).serializer),
    {
        self.ensure_kind(ObjectKind::U32)?;
        Ok(Value::U32(v))
    }

    /// Builds the key or value for an integer. In the place of a key it is
    /// held against the kind of the object.
    pub fn serialize_u64(&mut self, v: u64) -> (r: Result<Value, Error>)
        ensures
            match position_kind(old(self).key, old(self).kind, ObjectKind::U64) {
                Ok(kind) => r == Ok::<Value, Error>(Value::U64(v)) && final(self).kind == kind,
                Err(e) => r == Err::<Value, Error>(e) && final(self).kind == old(self).kind,
            },
            final(self).same(*old(self)),
            *final(final(self).serializer) == *final(old(self).serializer),
    {
        self.ensure_kind(ObjectKind::U64)?;
        Ok(Value::U64(v))
    }

    /// Builds the key or value for an integer. In the place of a key it is
    /// held against the kind of the object.
    pub fn serialize_u128(&mut self, v: u128) -> (r: Result<Value, Error>)
        ensures
            match position_kind(old(self).key, old(self).kind, ObjectKind::U128) {
                Ok(kind) => r == Ok::<Value, Error>(Value::U128(v)) && final(self).kind == kind,
                Err(e) => r == Err::<Value, Error>(e) && final(self).kind == old(self).kind,
            },
            final(self).same(*old(self)),
            *final(final(self).serializer) == *final(old(self).serializer),
    {
        self.ensure_kind(ObjectKind::U128)?;
        Ok(Value::U128(v))
    }

    /// Builds the value for the bit pattern of a float. In the place of a key it is invalid.
    pub fn serialize_f32(&mut self, v: u32) -> (r: Result<Value, Error>)
        ensures
            old(self).key ==> r == Err::<Value, Error>(Error::InvalidKey),
            !old(self).key ==> (r == Ok::<Value, Error>(Value::F32(v))),
            final(self).kind == old(self).kind,
            final(self).same(*old(self)),
            *final(final(self).serializer) == *final(old(self).serializer),
    {
        if self.key {
            Err(Error::InvalidKey)
        } else {
            Ok(Value::F32(v))
        }
    }

    /// Builds the value for the bit pattern of a float. In the place of a key it is invalid.
    pub fn serialize_f64(&mut self, v: u64) -> (r: Result<Value, Error>)
        ensures
            old(self).key ==> r == Err::<Value, Error>(Error::InvalidKey),
            !old(self).key ==> (r == Ok::<Value, Error>(Value::F64(v))),
            final(self).kind == old(self).kind,
            final(self).same(*old(self)),
            *final(final(self).serializer) == *final(old(self).serializer),
    {
        if self.key {
            Err(Error::InvalidKey)
        } else {
            Ok(Value::F64(v))
        }
    }

    /// Builds the key or value for a character: the string of that
    /// character.
    pub fn serialize_char(&mut self, v: char) -> (r: Result<Value, Error>)
        ensures
            match position_kind(old(self).key, old(self).kind, ObjectKind::String) {
                Ok(kind) => r matches Ok(Value::String(bytes)) && bytes@ == encode_utf8(seq![v])
                    && final(self).kind == kind,
                Err(e) => r == Err::<Value, Error>(e) && final(self).kind == old(self).kind,
            },
            final(self).same(*old(self)),
            *final(final(self).serializer) == *final(old(self).serializer),
    {
        let s = char_to_string(v);
        self.serialize_str(s.as_str())
    }

    /// Builds the key or value for a string. In the place of a key it is
    /// held against the kind of the object.
    pub fn serialize_str(&mut self, v: &str) -> (r: Result<Value, Error>)
        ensures
            match position_kind(old(self).key, old(self).kind, ObjectKind::String) {
                Ok(kind) => r matches Ok(Value::String(bytes)) && bytes@ == v.spec_bytes()
                    && final(self).kind == kind,
                Err(e) => r == Err::<Value, Error>(e) && final(self).kind == old(self).kind,
            },
            final(self).same(*old(self)),
            *final(final(self).serializer) == *final(old(self).serializer),
    {
        self.ensure_kind(ObjectKind::String)?;
        Ok(Value::String(slice_to_vec(v.as_bytes())))
    }

    /// Builds the value for bytes: an array of 8-bit unsigned integers. In
    /// the place of a key it is invalid.
    pub fn serialize_bytes(&mut self, v: &[u8]) -> (r: Result<Value, Error>)
        ensures
            old(self).key ==> r == Err::<Value, Error>(Error::InvalidKey),
            !old(self).key ==> (r matches Ok(Value::U8Array(bytes)) && bytes@ == v@),
            final(self).kind == old(self).kind,
            final(self).same(*old(self)),
            *final(final(self).serializer) == *final(old(self).serializer),
    {
        if self.key {
            Err(Error::InvalidKey)
        } else {
            Ok(Value::U8Array(slice_to_vec(v)))
        }
    }

    /// Builds the value for an absent value: null. In the place of a key it is invalid.
    pub fn serialize_none(&mut self) -> (r: Result<Value, Error>)
        ensures
            old(self).key ==> r == Err::<Value, Error>(Error::InvalidKey),
            !old(self).key ==> (r == Ok::<Value, Error>(Value::Null)),
            final(self).kind == old(self).kind,
            final(self).same(*old(self)),
            *final(final(self).serializer) == *final(old(self).serializer),
    {
        if self.key {
            Err(Error::InvalidKey)
        } else {
            Ok(Value::Null)
        }
    }

    /// Builds the value for the unit value: null. In the place of a key it is invalid.
    pub fn serialize_unit(&mut self) -> (r: Result<Value, Error>)
        ensures
            old(self).key ==> r == Err::<Value, Error>(Error::InvalidKey),
            !old(self).key ==> (r == Ok::<Value, Error>(Value::Null)),
            final(self).kind == old(self).kind,
            final(self).same(*old(self)),
            *final(final(self).serializer) == *final(old(self).serializer),
    {
        if self.key {
            Err(Error::InvalidKey)
        } else {
            Ok(Value::Null)
        }
    }

    /// Builds the value for a variant without a payload. In the place of a key it is invalid.
    pub fn serialize_unit_variant(&mut self, variant_index: u32) -> (r: Result<Value, Error>)
        ensures
            old(self).key ==> r == Err::<Value, Error>(Error::InvalidKey),
            !old(self).key ==> (r matches Ok(Value::Tag(index, inner)) && index == variant_index
                && *inner
                == Value::Null),
            final(self).kind == old(self).kind,
            final(self).same(*old(self)),
            *final(final(self).serializer) == *final(old(self).serializer),
    {
        if self.key {
            Err(Error::InvalidKey)
        } else {
            Ok(Value::Tag(variant_index as usize, Box::new(Value::Null)))
        }
    }

    /// Builds the value for a variant with one value. In the place of a key it is invalid.
    pub fn serialize_newtype_variant(&mut self, variant_index: u32,
        value: Value) -> (r: Result<Value, Error>)
        ensures
            old(self).key ==> r == Err::<Value, Error>(Error::InvalidKey),
            !old(self).key ==> (r matches Ok(Value::Tag(index, inner)) && index == variant_index
                && *inner
                == value),
            final(self).kind == old(self).kind,
            final(self).same(*old(self)),
            *final(final(self).serializer) == *final(old(self).serializer),
    {
        if self.key {
            Err(Error::InvalidKey)
        } else {
            Ok(Value::Tag(variant_index as usize, Box::new(value)))
        }
    }

    /// Begins a sequence as a value: a nested handle, whose array the
    /// caller adds as the value when it has ended. In the place of a key
    /// it is invalid.
    pub fn serialize_seq(&mut self, _len: Option<usize>) -> (r: Result<SeqSerializer<'_>, Error>)
        ensures
            old(self).key ==> (r matches Err(e) && e == Error::InvalidKey),
            !old(self).key ==> (r matches Ok(seq) && seq.fresh(None, false, None)
                && *seq.serializer == *old(self).serializer
                && *final(self).serializer == *final(seq.serializer)),
            final(self).kind == old(self).kind,
            final(self).keys == old(self).keys,
            final(self).values == old(self).values,
            final(self).key == old(self).key,
            final(self).write == old(self).write,
            final(self).tag == old(self).tag,
            *final(final(self).serializer) == *final(old(self).serializer),
    {
        if self.key {
            Err(Error::InvalidKey)
        } else {
            Ok(SeqSerializer::nested(&mut *self.serializer, None))
        }
    }

    /// Begins a tuple as a value: a nested handle whose elements make a
    /// generic array, whatever their kinds. In the place of a key it is
    /// invalid.
    pub fn serialize_tuple(&mut self, _len: usize) -> (r: Result<SeqSerializer<'_>, Error>)
        ensures
            old(self).key ==> (r matches Err(e) && e == Error::InvalidKey),
            !old(self).key ==> (r matches Ok(seq)
                && seq.fresh(Some(ArrayKind::Generic), false, None)
                && *seq.serializer == *old(self).serializer
                    && *final(self).serializer == *final(seq.serializer)),
            final(self).kind == old(self).kind,
            final(self).keys == old(self).keys,
            final(self).values == old(self).values,
            final(self).key == old(self).key,
            final(self).write == old(self).write,
            final(self).tag == old(self).tag,
            *final(final(self).serializer) == *final(old(self).serializer),
    {
        if self.key {
            Err(Error::InvalidKey)
        } else {
            let mut seq = SeqSerializer::nested(&mut *self.serializer, None);
            seq.ensure_generic();
            Ok(seq)
        }
    }

    /// Begins a tuple variant as a value: a nested handle whose generic
    /// array is wrapped in the variant. In the place of a key it is invalid.
    pub fn serialize_tuple_variant(&mut self, variant_index: u32, _len: usize) -> (r: Result<
        SeqSerializer<'_>,
        Error,
    >)
        ensures
            old(self).key ==> (r matches Err(e) && e == Error::InvalidKey),
            !old(self).key ==> (r matches Ok(seq)
                && seq.fresh(Some(ArrayKind::Generic), false, Some(variant_index))
                && *seq.serializer == *old(self).serializer
                    && *final(self).serializer == *final(seq.serializer)),
            final(self).kind == old(self).kind,
            final(self).keys == old(self).keys,
            final(self).values == old(self).values,
            final(self).key == old(self).key,
            final(self).write == old(self).write,
            final(self).tag == old(self).tag,
            *final(final(self).serializer) == *final(old(self).serializer),
    {
        if self.key {
            Err(Error::InvalidKey)
        } else {
            let mut seq = SeqSerializer::nested(&mut *self.serializer, Some(variant_index));
            seq.ensure_generic();
            Ok(seq)
        }
    }

    /// Begins a map as a value: a nested handle, whose object the caller
    /// adds as the value when it has ended. In the place of a key it is
    /// invalid.
    pub fn serialize_map(&mut self, _len: Option<usize>) -> (r: Result<MapSerializer<'_>, Error>)
        ensures
            old(self).key ==> (r matches Err(e) && e == Error::InvalidKey),
            !old(self).key ==> (r matches Ok(map) && map.fresh(None, false, None)
                && *map.serializer == *old(self).serializer
                && *final(self).serializer == *final(map.serializer)),
            final(self).kind == old(self).kind,
            final(self).keys == old(self).keys,
            final(self).values == old(self).values,
            final(self).key == old(self).key,
            final(self).write == old(self).write,
            final(self).tag == old(self).tag,
            *final(final(self).serializer) == *final(old(self).serializer),
    {
        if self.key {
            Err(Error::InvalidKey)
        } else {
            Ok(MapSerializer::nested(&mut *self.serializer, None, None))
        }
    }

    /// Begins a struct as a value: a nested map with string keys. In the
    /// place of a key it is invalid.
    pub fn serialize_struct(&mut self, _len: usize) -> (r: Result<MapSerializer<'_>, Error>)
        ensures
            old(self).key ==> (r matches Err(e) && e == Error::InvalidKey),
            !old(self).key ==> (r matches Ok(map)
                && map.fresh(Some(ObjectKind::String), false, None)
                && *map.serializer == *old(self).serializer
                && *final(self).serializer == *final(map.serializer)),
            final(self).kind == old(self).kind,
            final(self).keys == old(self).keys,
            final(self).values == old(self).values,
            final(self).key == old(self).key,
            final(self).write == old(self).write,
            final(self).tag == old(self).tag,
            *final(final(self).serializer) == *final(old(self).serializer),
    {
        if self.key {
            Err(Error::InvalidKey)
        } else {
            Ok(MapSerializer::nested(&mut *self.serializer, Some(ObjectKind::String), None))
        }
    }

    /// Begins a struct variant as a value: a nested struct whose object
    /// is wrapped in the variant. In the place of a key it is invalid.
    pub fn serialize_struct_variant(&mut self, variant_index: u32, _len: usize) -> (r: Result<
        MapSerializer<'_>,
        Error,
    >)
        ensures
            old(self).key ==> (r matches Err(e) && e == Error::InvalidKey),
            !old(self).key ==> (r matches Ok(map)
                && map.fresh(Some(ObjectKind::String), false, Some(variant_index))
                && *map.serializer == *old(self).serializer
                && *final(self).serializer == *final(map.serializer)),
            final(self).kind == old(self).kind,
            final(self).keys == old(self).keys,
            final(self).values == old(self).values,
            final(self).key == old(self).key,
            final(self).write == old(self).write,
            final(self).tag == old(self).tag,
            *final(final(self).serializer) == *final(old(self).serializer),
    {
        if self.key {
            Err(Error::InvalidKey)
        } else {
            Ok(
                MapSerializer::nested(
                    &mut *self.serializer,
                    Some(ObjectKind::String),
                    Some(variant_index),
                ),
            )
        }
    }

    /// Adds one field of a struct: its name as the key, then its value.
    pub fn serialize_field(&mut self, key: &'static str, value: Value) -> (r: Result<(), Error>)
        ensures
            match check_kind(old(self).kind, ObjectKind::String) {
                Ok(kind) => r == Ok::<(), Error>(()) && final(self).kind == kind
                    && final(self).keys@.len() == old(self).keys@.len() + 1
                    && final(self).keys@.drop_last() == old(self).keys@
                    && (final(self).keys@.last() matches Value::String(bytes) && bytes@
                    == key.spec_bytes()) && final(self).values@ == old(self).values@.push(value)
                    && !final(self).key,
                Err(e) => r == Err::<(), Error>(e) && final(self).kind == old(self).kind
                    && final(self).keys == old(self).keys && final(self).values == old(self).values
                    && final(self).key,
            },
            final(self).write == old(self).write,
            final(self).tag == old(self).tag,
            *final(self).serializer == *old(self).serializer,
            *final(final(self).serializer) == *final(old(self).serializer),
    {
        let name = Value::String(slice_to_vec(key.as_bytes()));
        self.serialize_key(name)?;
        assert(self.keys@.drop_last() =~= old(self).keys@);
        self.serialize_value(value)
    }
}

} // verus!
