use vstd::prelude::*;
use vstd::string::*;

use crate::error::ErrorKind;

verus! {

/// What reading a JavaScript `BigInt` as a `u64` gives: the low 64 bits (wrapped or
/// truncated when the value does not fit), and whether they hold it without loss.
#[derive(Debug, PartialEq, Eq)]
pub struct BigIntRead {
    pub value: u64,
    pub lossless: bool,
}

/// A JavaScript value as the bridge reads it. An object is an index into a
/// [`JsHeap`]; numbers, functions and symbols carry nothing the bridge reads.
#[derive(Debug, PartialEq, Eq)]
pub enum JsValue {
    Undefined,
    Null,
    Boolean(bool),
    Number,
    String(String),
    BigInt(BigIntRead),
    Object(usize),
    Other,
}

/// An object: its properties by key, and its elements when it is an array.
#[derive(Debug, PartialEq, Eq)]
pub struct JsObjectData {
    pub props: Vec<(String, JsValue)>,
    pub elements: Option<Vec<JsValue>>,
}

/// The objects that [`JsValue::Object`] values point into.
#[derive(Debug, PartialEq, Eq)]
pub struct JsHeap {
    pub objects: Vec<JsObjectData>,
}

/// The properties of a value: those of the object it points to, none for any
/// other value (or for an index past the heap's end).
pub open spec fn props_of(heap: &JsHeap, v: &JsValue) -> Seq<(String, JsValue)> {
    match v {
        JsValue::Object(i) => if *i < heap.objects@.len() {
            heap.objects@[*i as int].props@
        } else {
            Seq::empty()
        },
        _ => Seq::empty(),
    }
}

/// The elements of a value that is an array.
pub open spec fn elements_of(heap: &JsHeap, v: &JsValue) -> Option<Seq<JsValue>> {
    match v {
        JsValue::Object(i) => if *i < heap.objects@.len() {
            match heap.objects@[*i as int].elements {
                Some(es) => Some(es@),
                None => None,
            }
        } else {
            None
        },
        _ => None,
    }
}

/// The value of the first property with the given key; `undefined` when there is none.
pub open spec fn first_prop(props: Seq<(String, JsValue)>, key: Seq<char>) -> JsValue
    decreases props.len(),
{
    if props.len() == 0 {
        JsValue::Undefined
    } else if props[0].0@ == key {
        props[0].1
    } else {
        first_prop(props.drop_first(), key)
    }
}

/// The value of property `key` of `v`, as `Object::get_value` reads it.
pub open spec fn prop(heap: &JsHeap, v: &JsValue, key: Seq<char>) -> JsValue {
    first_prop(props_of(heap, v), key)
}

/// Reads property `key` of `v`; `None` stands for `undefined`.
pub fn get_prop<'a>(heap: &'a JsHeap, v: &JsValue, key: &str) -> (r: Option<&'a JsValue>)
    ensures
        match r {
            Some(x) => *x == prop(heap, v, key@),
            None => prop(heap, v, key@) == JsValue::Undefined,
        },
{
    match v {
        JsValue::Object(i) => {
            if *i < heap.objects.len() {
                let props = &heap.objects[*i].props;
                let wanted = String::from_str(key);
                let mut k: usize = 0;
                assert(props@.subrange(0, props@.len() as int) =~= props@);
                while k < props.len()
                    invariant
                        *i < heap.objects@.len(),
                        props@ == heap.objects@[*i as int].props@,
                        props_of(heap, v) == props@,
                        wanted@ == key@,
                        k <= props@.len(),
                        first_prop(props@, key@) == first_prop(
                            props@.subrange(k as int, props@.len() as int),
                            key@,
                        ),
                    decreases props@.len() - k,
                {
                    let ghost rest = props@.subrange(k as int, props@.len() as int);
                    assert(rest.drop_first() =~= props@.subrange(k + 1, props@.len() as int));
                    assert(rest[0] == props@[k as int]);
                    if props[k].0 == wanted {
                        return Some(&props[k].1);
                    }
                    k = k + 1;
                }
                None
            } else {
                None
            }
        },
        _ => None,
    }
}

/// The elements of `v` when it is an array.
pub fn get_elements<'a>(heap: &'a JsHeap, v: &JsValue) -> (r: Option<&'a Vec<JsValue>>)
    ensures
        match r {
            Some(es) => elements_of(heap, v) == Some(es@),
            None => elements_of(heap, v) is None,
        },
{
    match v {
        JsValue::Object(i) => {
            if *i < heap.objects.len() {
                match &heap.objects[*i].elements {
                    Some(es) => Some(es),
                    None => None,
                }
            } else {
                None
            }
        },
        _ => None,
    }
}

/// What the bridge throws into JavaScript: an `Error` or a `TypeError` with a
/// message, or the error that describes a client failure.
#[derive(Debug, PartialEq, Eq)]
pub enum Thrown<S = String> {
    Error(S),
    TypeError(S),
    Client(ErrorKind<S>),
}

impl View for Thrown {
    type V = Thrown<Seq<char>>;

    open spec fn view(&self) -> Thrown<Seq<char>> {
        match self {
            Thrown::Error(m) => Thrown::Error(m@),
            Thrown::TypeError(m) => Thrown::TypeError(m@),
            Thrown::Client(k) => Thrown::Client(k@),
        }
    }
}

/// The `TypeError` thrown when a JavaScript value is not of the type `name`.
pub open spec fn downcast_failure(name: Seq<char>) -> Thrown<Seq<char>> {
    Thrown::TypeError("failed to downcast any to "@ + name)
}

pub fn throw_downcast_failure(name: &str) -> (r: Thrown)
    ensures
        r@ == downcast_failure(name@),
{
    let mut m = String::from_str("failed to downcast any to ");
    m.append(name);
    Thrown::TypeError(m)
}

/// Argument `i` of a call, as a string: a `TypeError` when there are not that many
/// arguments, or when the argument is not a string.
pub open spec fn string_argument(args: Seq<JsValue>, i: int) -> Result<Seq<char>, Thrown<Seq<char>>> {
    if i >= args.len() {
        Err(Thrown::TypeError("not enough arguments"@))
    } else {
        match args[i] {
            JsValue::String(s) => Ok(s@),
            _ => Err(downcast_failure("string"@)),
        }
    }
}

/// Reads argument `i` of a call as a string.
pub fn get_string_argument(args: &Vec<JsValue>, i: usize) -> (r: Result<String, Thrown>)
    ensures
        match r {
            Ok(s) => string_argument(args@, i as int) == Ok::<Seq<char>, Thrown<Seq<char>>>(s@),
            Err(e) => string_argument(args@, i as int) == Err::<Seq<char>, Thrown<Seq<char>>>(e@),
        },
{
    if i >= args.len() {
        Err(Thrown::TypeError(String::from_str("not enough arguments")))
    } else {
        match &args[i] {
            JsValue::String(s) => Ok(s.clone()),
            _ => Err(throw_downcast_failure("string")),
        }
    }
}

} // verus!
