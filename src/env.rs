//! The scope token and the host it talks to.
//!
//! [`Env`] is handed to native code for each boundary call. It holds an
//! in-memory host: a heap of values addressed by handles, property and element
//! tables, the pending-exception slot, the last-error slot, the records of
//! current callback invocations, promises and native attachments. Each method
//! of the boundary returns a [`Status`] and changes the host only as its
//! contract states.
use vstd::prelude::*;
use crate::sys::{Status, ValueType};
use crate::text::{decimal_of, format_int, number_of_text, parse_number};
use vstd::slice::slice_to_vec;
use vstd::string::StringSliceAdditionalSpecFns;
use crate::error::{JsError, error_after};
use crate::types::{JsNull, JsString, JsUndefined};
use crate::types::string::string_created;
use crate::value::JsValue;
use crate::JsResult;

verus! {

/// A number as the host holds it: an integer, or not a number.
#[derive(Clone, Copy, Debug, PartialEq, Eq, Structural)]
pub enum Num {
    Int(i64),
    NaN,
}

/// A value on the host's heap.
#[derive(Debug)]
pub enum HostValue {
    Undefined,
    Null,
    Boolean(bool),
    Number(Num),
    /// UTF-8 bytes.
    Str(Vec<u8>),
    Object,
    /// An array of the given length; its elements live in the element table.
    Array(u32),
    /// A function, with its name, whose calls go to the native registration
    /// named by the link.
    Function(Link, Vec<u8>),
    Buffer(Vec<u8>),
    /// A promise, by its index in the promise table.
    Promise(usize),
}

/// The opaque data that a native function or an attachment carries: the tag
/// of the native registry that owns the payload and the slot in it.
#[derive(Clone, Copy, Debug, PartialEq, Eq, Structural)]
pub struct Link {
    pub tag: u64,
    pub slot: usize,
}

/// A named property of an object. The table is a log: the last entry for an
/// owner and a key decides, and `None` records a deletion.
#[derive(Debug)]
pub struct Prop {
    pub owner: usize,
    pub key: Vec<u8>,
    pub value: Option<usize>,
}

/// An element of an array, logged as properties are.
#[derive(Clone, Copy, Debug, PartialEq, Eq, Structural)]
pub struct Elem {
    pub owner: usize,
    pub index: u32,
    pub value: Option<usize>,
}

/// An exception that the host holds until it reaches the caller.
#[derive(Debug)]
pub struct Exception {
    pub code: Option<Vec<u8>>,
    pub message: Vec<u8>,
}

/// One invocation of a native function, as the host recorded it.
#[derive(Debug)]
pub struct Frame {
    pub this: usize,
    pub args: Vec<usize>,
    pub data: Link,
}

/// The settlement state of a promise.
#[derive(Clone, Copy, Debug, PartialEq, Eq, Structural)]
pub enum PromiseState {
    Pending,
    Resolved(usize),
    Rejected(usize),
}

/// A native payload attached to an object.
#[derive(Clone, Copy, Debug, PartialEq, Eq, Structural)]
pub struct Attachment {
    pub object: usize,
    /// `None` records that the payload was removed.
    pub link: Option<Link>,
}

/// The state of the host, as contracts speak of it.
pub struct HostModel {
    pub heap: Seq<HostValue>,
    pub props: Seq<Prop>,
    pub elems: Seq<Elem>,
    pub pending: Option<Exception>,
    pub last_status: Status,
    pub frames: Seq<Frame>,
    pub promises: Seq<PromiseState>,
    pub attachments: Seq<Attachment>,
    pub next_tag: u64,
}

/// The scope token: every operation of the layer goes through it.
pub struct Env {
    heap: Vec<HostValue>,
    props: Vec<Prop>,
    elems: Vec<Elem>,
    pending: Option<Exception>,
    last_status: Status,
    frames: Vec<Frame>,
    promises: Vec<PromiseState>,
    attachments: Vec<Attachment>,
    next_tag: u64,
}

impl View for Env {
    type V = HostModel;

    closed spec fn view(&self) -> HostModel {
        HostModel {
            heap: self.heap@,
            props: self.props@,
            elems: self.elems@,
            pending: self.pending,
            last_status: self.last_status,
            frames: self.frames@,
            promises: self.promises@,
            attachments: self.attachments@,
            next_tag: self.next_tag,
        }
    }
}

/// The handle names a value on the heap.
pub open spec fn valid(m: HostModel, h: usize) -> bool {
    h < m.heap.len()
}

/// The host after a call that failed with `s`: only the last-error slot changes.
pub open spec fn failed(m: HostModel, s: Status) -> HostModel {
    HostModel { last_status: s, ..m }
}

/// The host after a new value was placed on its heap.
pub open spec fn with_value(m: HostModel, v: HostValue) -> HostModel {
    HostModel { heap: m.heap.push(v), ..m }
}

/// The type tag that the host reports for a value.
pub open spec fn type_of_value(v: HostValue) -> ValueType {
    match v {
        HostValue::Undefined => ValueType::Undefined,
        HostValue::Null => ValueType::Null,
        HostValue::Boolean(_) => ValueType::Boolean,
        HostValue::Number(_) => ValueType::Number,
        HostValue::Str(_) => ValueType::String,
        HostValue::Function(_, _) => ValueType::Function,
        _ => ValueType::Object,
    }
}

/// Objects, arrays, functions, buffers and promises: what can own properties.
pub open spec fn is_object_like(v: HostValue) -> bool {
    match v {
        HostValue::Object | HostValue::Array(_) | HostValue::Function(_, _) | HostValue::Buffer(_)
        | HostValue::Promise(_) => true,
        _ => false,
    }
}

/// The host's rule for reading a value as a boolean.
pub open spec fn bool_of(v: HostValue) -> bool {
    match v {
        HostValue::Undefined | HostValue::Null => false,
        HostValue::Boolean(b) => b,
        HostValue::Number(Num::Int(n)) => n != 0,
        HostValue::Number(Num::NaN) => false,
        HostValue::Str(s) => s@.len() > 0,
        _ => true,
    }
}

/// The host's rule for reading a value as a number.
pub open spec fn number_of(v: HostValue) -> Num {
    match v {
        HostValue::Null => Num::Int(0),
        HostValue::Boolean(b) => Num::Int(if b { 1 } else { 0 }),
        HostValue::Number(n) => n,
        HostValue::Str(s) => number_of_text(s@),
        _ => Num::NaN,
    }
}

/// The host's rule for reading a value as text.
pub open spec fn text_of(v: HostValue) -> Seq<u8> {
    match v {
        HostValue::Undefined => "undefined".spec_bytes(),
        HostValue::Null => "null".spec_bytes(),
        HostValue::Boolean(b) => if b { "true".spec_bytes() } else { "false".spec_bytes() },
        HostValue::Number(Num::Int(n)) => decimal_of(n as int),
        HostValue::Number(Num::NaN) => "NaN".spec_bytes(),
        HostValue::Str(s) => s@,
        HostValue::Function(_, _) => "function".spec_bytes(),
        _ => "[object Object]".spec_bytes(),
    }
}

/// The value holds the text `s`.
pub open spec fn holds_text(v: HostValue, s: Seq<u8>) -> bool {
    match v {
        HostValue::Str(b) => b@ == s,
        _ => false,
    }
}

/// `post` is `pre` with a record of a call with a receiver, arguments and
/// registration data added.
pub open spec fn frame_pushed(pre: HostModel, post: HostModel, this: usize, args: Seq<usize>, data: Link) -> bool {
    &&& post == HostModel { frames: post.frames, ..pre }
    &&& post.frames.drop_last() == pre.frames
    &&& post.frames.len() == pre.frames.len() + 1
    &&& post.frames.last().this == this
    &&& post.frames.last().args@ == args
    &&& post.frames.last().data == data
}

/// The host after the latest call record is removed, when there is one.
pub open spec fn frame_ended(m: HostModel) -> HostModel {
    if m.frames.len() > 0 {
        HostModel { frames: m.frames.drop_last(), ..m }
    } else {
        m
    }
}

/// The value is a function with the link and the name.
pub open spec fn holds_function(v: HostValue, link: Link, name: Seq<u8>) -> bool {
    match v {
        HostValue::Function(l, n) => l == link && n@ == name,
        _ => false,
    }
}

/// The value is a buffer that holds the bytes `s`.
pub open spec fn holds_bytes(v: HostValue, s: Seq<u8>) -> bool {
    match v {
        HostValue::Buffer(b) => b@ == s,
        _ => false,
    }
}

/// `post` is `pre` with one more value on the heap, and `fits` holds of it.
pub open spec fn heap_grew(pre: HostModel, post: HostModel) -> bool {
    &&& post == HostModel { heap: post.heap, ..pre }
    &&& post.heap.len() == pre.heap.len() + 1
    &&& post.heap.subrange(0, pre.heap.len() as int) == pre.heap
}

/// The last entry of the property log for an owner and a key.
pub open spec fn prop_lookup(props: Seq<Prop>, owner: usize, key: Seq<u8>) -> Option<usize>
    decreases props.len(),
{
    if props.len() == 0 {
        None
    } else if props.last().owner == owner && props.last().key@ == key {
        props.last().value
    } else {
        prop_lookup(props.drop_last(), owner, key)
    }
}

/// The last entry of the element log for an owner and an index.
pub open spec fn elem_lookup(elems: Seq<Elem>, owner: usize, index: u32) -> Option<usize>
    decreases elems.len(),
{
    if elems.len() == 0 {
        None
    } else if elems.last().owner == owner && elems.last().index == index {
        elems.last().value
    } else {
        elem_lookup(elems.drop_last(), owner, index)
    }
}

/// The payload attached to an object, if any.
pub open spec fn attachment_of(atts: Seq<Attachment>, object: usize) -> Option<Link>
    decreases atts.len(),
{
    if atts.len() == 0 {
        None
    } else if atts.last().object == object {
        atts.last().link
    } else {
        attachment_of(atts.drop_last(), object)
    }
}

/// `post` is `pre` with one more property entry.
pub open spec fn prop_logged(pre: HostModel, post: HostModel, owner: usize, key: Seq<u8>, value: Option<usize>) -> bool {
    &&& post == HostModel { props: post.props, ..pre }
    &&& post.props.len() == pre.props.len() + 1
    &&& post.props.drop_last() == pre.props
    &&& post.props.last().owner == owner
    &&& post.props.last().key@ == key
    &&& post.props.last().value == value
}

/// The exception carries the given code and message.
pub open spec fn exception_is(e: Exception, code: Option<Seq<u8>>, message: Seq<u8>) -> bool {
    &&& e.message@ == message
    &&& match (e.code, code) {
        (None, None) => true,
        (Some(c), Some(d)) => c@ == d,
        _ => false,
    }
}

/// `post` is `pre` with an exception now pending.
pub open spec fn threw(pre: HostModel, post: HostModel, code: Option<Seq<u8>>, message: Seq<u8>) -> bool {
    &&& post == HostModel { pending: post.pending, ..pre }
    &&& post.pending matches Some(e) && exception_is(e, code, message)
}

/// `post` is `pre` with the pending-exception slot emptied.
pub open spec fn cleared(m: HostModel) -> HostModel {
    HostModel { pending: None, ..m }
}

/// The call raised an exception and failed with `PendingException`.
pub open spec fn raised(pre: HostModel, post: HostModel, code: Option<Seq<u8>>, message: Seq<u8>) -> bool {
    &&& post.last_status == Status::PendingException
    &&& threw(pre, HostModel { last_status: pre.last_status, ..post }, code, message)
}

/// The array after an element was written at `index`: an array grows to hold it.
pub open spec fn grown_for(x: HostValue, index: u32) -> HostValue {
    match x {
        HostValue::Array(len) => if index >= len { HostValue::Array((index + 1) as u32) } else { x },
        _ => x,
    }
}

/// The host after an element was written or deleted.
pub open spec fn element_put(m: HostModel, v: usize, index: u32, value: Option<usize>) -> HostModel {
    HostModel {
        elems: m.elems.push(Elem { owner: v, index, value }),
        heap: if value is Some { m.heap.update(v as int, grown_for(m.heap[v as int], index)) } else { m.heap },
        ..m
    }
}

/// What reading the element of an object gives: the status, the handle
/// (zero on failure) and the host afterwards.
pub open spec fn element_read(m: HostModel, v: usize, index: u32) -> (Status, usize, HostModel) {
    if !valid(m, v) {
        (Status::InvalidArg, 0, failed(m, Status::InvalidArg))
    } else if m.pending is Some {
        (Status::PendingException, 0, failed(m, Status::PendingException))
    } else if !is_object_like(m.heap[v as int]) {
        (Status::ObjectExpected, 0, failed(m, Status::ObjectExpected))
    } else {
        match elem_lookup(m.elems, v, index) {
            Some(h) => (Status::Success, h, m),
            None => (Status::Success, m.heap.len() as usize, with_value(m, HostValue::Undefined)),
        }
    }
}

/// What reading the named property of an object gives, as `element_read`.
pub open spec fn named_read(m: HostModel, v: usize, key: Seq<u8>) -> (Status, usize, HostModel) {
    if !valid(m, v) {
        (Status::InvalidArg, 0, failed(m, Status::InvalidArg))
    } else if m.pending is Some {
        (Status::PendingException, 0, failed(m, Status::PendingException))
    } else if !is_object_like(m.heap[v as int]) {
        (Status::ObjectExpected, 0, failed(m, Status::ObjectExpected))
    } else {
        match prop_lookup(m.props, v, key) {
            Some(h) => (Status::Success, h, m),
            None => (Status::Success, m.heap.len() as usize, with_value(m, HostValue::Undefined)),
        }
    }
}

/// What asking whether an object has a named property gives, as `named_read`.
pub open spec fn named_has(m: HostModel, v: usize, key: Seq<u8>) -> (Status, bool, HostModel) {
    if !valid(m, v) {
        (Status::InvalidArg, false, failed(m, Status::InvalidArg))
    } else if m.pending is Some {
        (Status::PendingException, false, failed(m, Status::PendingException))
    } else if !is_object_like(m.heap[v as int]) {
        (Status::ObjectExpected, false, failed(m, Status::ObjectExpected))
    } else {
        (Status::Success, prop_lookup(m.props, v, key) is Some, m)
    }
}

/// What writing the named property of an object does.
pub open spec fn named_written(pre: HostModel, v: usize, key: Seq<u8>, value: usize, post: HostModel, r: Status) -> bool {
    if !valid(pre, v) || pre.pending is Some || !is_object_like(pre.heap[v as int]) || !valid(pre, value) {
        let s = if !valid(pre, v) { Status::InvalidArg }
            else if pre.pending is Some { Status::PendingException }
            else if !is_object_like(pre.heap[v as int]) { Status::ObjectExpected }
            else { Status::InvalidArg };
        r == s && post == failed(pre, s)
    } else {
        r == Status::Success && prop_logged(pre, post, v, key, Some(value))
    }
}

/// The text of a key handle, or `None` when it is not a string.
pub open spec fn key_text(m: HostModel, k: usize) -> Option<Seq<u8>> {
    if valid(m, k) {
        match m.heap[k as int] {
            HostValue::Str(b) => Some(b@),
            _ => None,
        }
    } else {
        None
    }
}

/// The status of a key handle that is not a string.
pub open spec fn key_failure(m: HostModel, k: usize) -> Status {
    if valid(m, k) { Status::NameExpected } else { Status::InvalidArg }
}

pub open spec fn min(a: int, b: int) -> int {
    if a <= b { a } else { b }
}

fn copy_bytes(b: &[u8]) -> (r: Vec<u8>)
    ensures
        r@ == b@,
{
    slice_to_vec(b)
}

fn bytes_eq(a: &[u8], b: &[u8]) -> (r: bool)
    ensures
        r == (a@ == b@),
{
    if a.len() != b.len() {
        return false;
    }
    let mut i: usize = 0;
    while i < a.len()
        invariant
            a@.len() == b@.len(),
            i <= a@.len(),
            forall|j: int| 0 <= j < i ==> a@[j] == b@[j],
        decreases a@.len() - i,
    {
        if a[i] != b[i] {
            return false;
        }
        i = i + 1;
    }
    assert(a@ =~= b@);
    true
}

impl Env {
    /// A host with an empty heap and nothing pending.
    pub fn new() -> (r: Env)
        ensures
            r@.heap.len() == 0,
            r@.props.len() == 0,
            r@.elems.len() == 0,
            r@.pending is None,
            r@.last_status == Status::Success,
            r@.frames.len() == 0,
            r@.promises.len() == 0,
            r@.attachments.len() == 0,
            r@.next_tag == 0,
    {
        Env {
            heap: Vec::new(),
            props: Vec::new(),
            elems: Vec::new(),
            pending: None,
            last_status: Status::Success,
            frames: Vec::new(),
            promises: Vec::new(),
            attachments: Vec::new(),
            next_tag: 0,
        }
    }

    fn fail(&mut self, s: Status) -> (r: Status)
        ensures
            r == s,
            final(self)@ == failed(old(self)@, s),
    {
        self.last_status = s;
        s
    }

    fn push_value(&mut self, v: HostValue) -> (h: usize)
        ensures
            h == old(self)@.heap.len(),
            final(self)@ == with_value(old(self)@, v),
    {
        let h = self.heap.len();
        self.heap.push(v);
        h
    }

    /// Boundary call: the type tag of a value.
    pub fn raw_typeof(&mut self, v: usize) -> (r: (Status, ValueType))
        ensures
            valid(old(self)@, v) ==> r.0 == Status::Success && r.1 == type_of_value(old(self)@.heap[v as int])
                && final(self)@ == old(self)@,
            !valid(old(self)@, v) ==> r.0 == Status::InvalidArg && final(self)@ == failed(old(self)@, Status::InvalidArg),
    {
        if v >= self.heap.len() {
            return (self.fail(Status::InvalidArg), ValueType::Undefined);
        }
        let t = match &self.heap[v] {
            HostValue::Undefined => ValueType::Undefined,
            HostValue::Null => ValueType::Null,
            HostValue::Boolean(_) => ValueType::Boolean,
            HostValue::Number(_) => ValueType::Number,
            HostValue::Str(_) => ValueType::String,
            HostValue::Function(_, _) => ValueType::Function,
            _ => ValueType::Object,
        };
        (Status::Success, t)
    }

    /// Boundary call: a handle to `undefined`.
    pub fn raw_get_undefined(&mut self) -> (r: (Status, usize))
        ensures
            r.0 == Status::Success,
            r.1 == old(self)@.heap.len(),
            final(self)@ == with_value(old(self)@, HostValue::Undefined),
    {
        (Status::Success, self.push_value(HostValue::Undefined))
    }

    /// Boundary call: a handle to `null`.
    pub fn raw_get_null(&mut self) -> (r: (Status, usize))
        ensures
            r.0 == Status::Success,
            r.1 == old(self)@.heap.len(),
            final(self)@ == with_value(old(self)@, HostValue::Null),
    {
        (Status::Success, self.push_value(HostValue::Null))
    }

    /// Boundary call: a handle to a boolean.
    pub fn raw_get_boolean(&mut self, b: bool) -> (r: (Status, usize))
        ensures
            r.0 == Status::Success,
            r.1 == old(self)@.heap.len(),
            final(self)@ == with_value(old(self)@, HostValue::Boolean(b)),
    {
        (Status::Success, self.push_value(HostValue::Boolean(b)))
    }

    /// Boundary call: a number from a 64-bit integer.
    pub fn raw_create_int64(&mut self, n: i64) -> (r: (Status, usize))
        ensures
            r.0 == Status::Success,
            r.1 == old(self)@.heap.len(),
            final(self)@ == with_value(old(self)@, HostValue::Number(Num::Int(n))),
    {
        (Status::Success, self.push_value(HostValue::Number(Num::Int(n))))
    }

    /// Boundary call: a new empty object.
    pub fn raw_create_object(&mut self) -> (r: (Status, usize))
        ensures
            r.0 == Status::Success,
            r.1 == old(self)@.heap.len(),
            final(self)@ == with_value(old(self)@, HostValue::Object),
    {
        (Status::Success, self.push_value(HostValue::Object))
    }

    /// Boundary call: a new array of the given length.
    pub fn raw_create_array_with_length(&mut self, len: u32) -> (r: (Status, usize))
        ensures
            r.0 == Status::Success,
            r.1 == old(self)@.heap.len(),
            final(self)@ == with_value(old(self)@, HostValue::Array(len)),
    {
        (Status::Success, self.push_value(HostValue::Array(len)))
    }

    /// Boundary call: a string holding a copy of UTF-8 bytes.
    pub fn raw_create_string_utf8(&mut self, bytes: &[u8]) -> (r: (Status, usize))
        ensures
            r.0 == Status::Success,
            r.1 == old(self)@.heap.len(),
            heap_grew(old(self)@, final(self)@),
            holds_text(final(self)@.heap.last(), bytes@),
    {
        let h = self.push_value(HostValue::Str(copy_bytes(bytes)));
        assert(self.heap@.subrange(0, h as int) =~= old(self).heap@);
        (Status::Success, h)
    }

    /// Boundary call: a buffer holding a copy of the bytes.
    pub fn raw_create_buffer_copy(&mut self, bytes: &[u8]) -> (r: (Status, usize))
        ensures
            r.0 == Status::Success,
            r.1 == old(self)@.heap.len(),
            heap_grew(old(self)@, final(self)@),
            holds_bytes(final(self)@.heap.last(), bytes@),
    {
        let h = self.push_value(HostValue::Buffer(copy_bytes(bytes)));
        assert(self.heap@.subrange(0, h as int) =~= old(self).heap@);
        (Status::Success, h)
    }

    /// Boundary call: the value of a boolean.
    pub fn raw_get_value_bool(&mut self, v: usize) -> (r: (Status, bool))
        ensures
            !valid(old(self)@, v) ==> r.0 == Status::InvalidArg && final(self)@ == failed(old(self)@, Status::InvalidArg),
            valid(old(self)@, v) ==> match old(self)@.heap[v as int] {
                HostValue::Boolean(b) => r == (Status::Success, b) && final(self)@ == old(self)@,
                _ => r.0 == Status::BooleanExpected && final(self)@ == failed(old(self)@, Status::BooleanExpected),
            },
    {
        if v >= self.heap.len() {
            return (self.fail(Status::InvalidArg), false);
        }
        match &self.heap[v] {
            HostValue::Boolean(b) => (Status::Success, *b),
            _ => (self.fail(Status::BooleanExpected), false),
        }
    }

    /// Boundary call: the value of a number as a 64-bit integer; not a number reads as zero.
    pub fn raw_get_value_int64(&mut self, v: usize) -> (r: (Status, i64))
        ensures
            !valid(old(self)@, v) ==> r.0 == Status::InvalidArg && final(self)@ == failed(old(self)@, Status::InvalidArg),
            valid(old(self)@, v) ==> match old(self)@.heap[v as int] {
                HostValue::Number(Num::Int(n)) => r == (Status::Success, n) && final(self)@ == old(self)@,
                HostValue::Number(Num::NaN) => r == (Status::Success, 0i64) && final(self)@ == old(self)@,
                _ => r.0 == Status::NumberExpected && final(self)@ == failed(old(self)@, Status::NumberExpected),
            },
    {
        if v >= self.heap.len() {
            return (self.fail(Status::InvalidArg), 0);
        }
        match &self.heap[v] {
            HostValue::Number(Num::Int(n)) => (Status::Success, *n),
            HostValue::Number(Num::NaN) => (Status::Success, 0),
            _ => (self.fail(Status::NumberExpected), 0),
        }
    }

    /// Boundary call: is an exception pending?
    pub fn raw_is_exception_pending(&self) -> (r: bool)
        ensures
            r == (self@.pending is Some),
    {
        self.pending.is_some()
    }

    /// Boundary call: the status of the last failed call.
    pub fn raw_get_last_error_info(&self) -> (r: Status)
        ensures
            r == self@.last_status,
    {
        self.last_status
    }

    /// Boundary call: raise an error with an optional code and a message.
    /// Refused while another exception is pending.
    pub fn raw_throw_error(&mut self, code: Option<&[u8]>, message: &[u8]) -> (r: Status)
        ensures
            old(self)@.pending is Some ==> r == Status::PendingException
                && final(self)@ == failed(old(self)@, Status::PendingException),
            old(self)@.pending is None ==> r == Status::Success && threw(old(self)@, final(self)@,
                match code { Some(c) => Some(c@), None => None }, message@),
    {
        if self.pending.is_some() {
            return self.fail(Status::PendingException);
        }
        let c = match code {
            Some(c) => Some(copy_bytes(c)),
            None => None,
        };
        self.pending = Some(Exception { code: c, message: copy_bytes(message) });
        Status::Success
    }

    /// Boundary call: take the pending exception, clearing the slot.
    pub fn raw_get_and_clear_last_exception(&mut self) -> (r: Option<Exception>)
        ensures
            r == old(self)@.pending,
            final(self)@ == cleared(old(self)@),
    {
        self.pending.take()
    }

    /// The host's text for a value on the heap.
    fn text_of_value(&self, v: usize) -> (r: Vec<u8>)
        requires
            valid(self@, v),
        ensures
            r@ == text_of(self@.heap[v as int]),
    {
        match &self.heap[v] {
            HostValue::Undefined => copy_bytes("undefined".as_bytes()),
            HostValue::Null => copy_bytes("null".as_bytes()),
            HostValue::Boolean(b) => if *b {
                copy_bytes("true".as_bytes())
            } else {
                copy_bytes("false".as_bytes())
            },
            HostValue::Number(Num::Int(n)) => format_int(*n),
            HostValue::Number(Num::NaN) => copy_bytes("NaN".as_bytes()),
            HostValue::Str(s) => copy_bytes(s.as_slice()),
            HostValue::Function(_, _) => copy_bytes("function".as_bytes()),
            _ => copy_bytes("[object Object]".as_bytes()),
        }
    }

    /// The host's number for a value on the heap.
    fn number_of_value(&self, v: usize) -> (r: Num)
        requires
            valid(self@, v),
        ensures
            r == number_of(self@.heap[v as int]),
    {
        match &self.heap[v] {
            HostValue::Null => Num::Int(0),
            HostValue::Boolean(b) => Num::Int(if *b { 1 } else { 0 }),
            HostValue::Number(n) => *n,
            HostValue::Str(s) => parse_number(s.as_slice()),
            _ => Num::NaN,
        }
    }

    /// The host's boolean for a value on the heap.
    fn bool_of_value(&self, v: usize) -> (r: bool)
        requires
            valid(self@, v),
        ensures
            r == bool_of(self@.heap[v as int]),
    {
        match &self.heap[v] {
            HostValue::Undefined | HostValue::Null => false,
            HostValue::Boolean(b) => *b,
            HostValue::Number(Num::Int(n)) => *n != 0,
            HostValue::Number(Num::NaN) => false,
            HostValue::Str(s) => s.len() > 0,
            _ => true,
        }
    }

    /// Boundary call: the value read as a boolean, as a new value.
    pub fn raw_coerce_to_bool(&mut self, v: usize) -> (r: (Status, usize))
        ensures
            !valid(old(self)@, v) ==> r.0 == Status::InvalidArg && final(self)@ == failed(old(self)@, Status::InvalidArg),
            valid(old(self)@, v) && old(self)@.pending is Some ==> r.0 == Status::PendingException
                && final(self)@ == failed(old(self)@, Status::PendingException),
            valid(old(self)@, v) && old(self)@.pending is None ==> r.0 == Status::Success
                && r.1 == old(self)@.heap.len()
                && final(self)@ == with_value(old(self)@, HostValue::Boolean(bool_of(old(self)@.heap[v as int]))),
    {
        if v >= self.heap.len() {
            return (self.fail(Status::InvalidArg), 0);
        }
        if self.pending.is_some() {
            return (self.fail(Status::PendingException), 0);
        }
        let b = self.bool_of_value(v);
        (Status::Success, self.push_value(HostValue::Boolean(b)))
    }

    /// Boundary call: the value read as a number, as a new value.
    pub fn raw_coerce_to_number(&mut self, v: usize) -> (r: (Status, usize))
        ensures
            !valid(old(self)@, v) ==> r.0 == Status::InvalidArg && final(self)@ == failed(old(self)@, Status::InvalidArg),
            valid(old(self)@, v) && old(self)@.pending is Some ==> r.0 == Status::PendingException
                && final(self)@ == failed(old(self)@, Status::PendingException),
            valid(old(self)@, v) && old(self)@.pending is None ==> r.0 == Status::Success
                && r.1 == old(self)@.heap.len()
                && final(self)@ == with_value(old(self)@, HostValue::Number(number_of(old(self)@.heap[v as int]))),
    {
        if v >= self.heap.len() {
            return (self.fail(Status::InvalidArg), 0);
        }
        if self.pending.is_some() {
            return (self.fail(Status::PendingException), 0);
        }
        let n = self.number_of_value(v);
        (Status::Success, self.push_value(HostValue::Number(n)))
    }

    /// Boundary call: the value read as text, as a new string.
    pub fn raw_coerce_to_string(&mut self, v: usize) -> (r: (Status, usize))
        ensures
            !valid(old(self)@, v) ==> r.0 == Status::InvalidArg && final(self)@ == failed(old(self)@, Status::InvalidArg),
            valid(old(self)@, v) && old(self)@.pending is Some ==> r.0 == Status::PendingException
                && final(self)@ == failed(old(self)@, Status::PendingException),
            valid(old(self)@, v) && old(self)@.pending is None ==> r.0 == Status::Success
                && r.1 == old(self)@.heap.len()
                && heap_grew(old(self)@, final(self)@)
                && holds_text(final(self)@.heap.last(), text_of(old(self)@.heap[v as int])),
    {
        if v >= self.heap.len() {
            return (self.fail(Status::InvalidArg), 0);
        }
        if self.pending.is_some() {
            return (self.fail(Status::PendingException), 0);
        }
        let t = self.text_of_value(v);
        let h = self.push_value(HostValue::Str(t));
        assert(self.heap@.subrange(0, h as int) =~= old(self).heap@);
        (Status::Success, h)
    }

    /// Boundary call: the value as an object. Objects stay as they are;
    /// `undefined` and `null` raise a type error; other values get a new
    /// wrapper object.
    pub fn raw_coerce_to_object(&mut self, v: usize) -> (r: (Status, usize))
        ensures
            !valid(old(self)@, v) ==> r.0 == Status::InvalidArg && final(self)@ == failed(old(self)@, Status::InvalidArg),
            valid(old(self)@, v) && old(self)@.pending is Some ==> r.0 == Status::PendingException
                && final(self)@ == failed(old(self)@, Status::PendingException),
            valid(old(self)@, v) && old(self)@.pending is None ==> {
                let x = old(self)@.heap[v as int];
                if is_object_like(x) {
                    r == (Status::Success, v) && final(self)@ == old(self)@
                } else if x is Undefined || x is Null {
                    r.0 == Status::PendingException
                        && raised(old(self)@, final(self)@, None, "cannot convert to object".spec_bytes())
                } else {
                    r.0 == Status::Success && r.1 == old(self)@.heap.len()
                        && final(self)@ == with_value(old(self)@, HostValue::Object)
                }
            },
    {
        if v >= self.heap.len() {
            return (self.fail(Status::InvalidArg), 0);
        }
        if self.pending.is_some() {
            return (self.fail(Status::PendingException), 0);
        }
        match &self.heap[v] {
            HostValue::Object | HostValue::Array(_) | HostValue::Function(_, _) | HostValue::Buffer(_)
            | HostValue::Promise(_) => (Status::Success, v),
            HostValue::Undefined | HostValue::Null => {
                self.pending = Some(Exception {
                    code: None,
                    message: copy_bytes("cannot convert to object".as_bytes()),
                });
                (self.fail(Status::PendingException), 0)
            },
            _ => (Status::Success, self.push_value(HostValue::Object)),
        }
    }

    /// Boundary call: UTF-8 bytes of a string. With no room it reports the
    /// length in bytes; with room for `capacity` bytes it copies at most
    /// `capacity - 1` of them, keeping one for the terminator, and reports
    /// how many it copied.
    pub fn raw_get_value_string_utf8(&mut self, v: usize, capacity: usize) -> (r: (Status, Vec<u8>, usize))
        ensures
            !valid(old(self)@, v) ==> r.0 == Status::InvalidArg && final(self)@ == failed(old(self)@, Status::InvalidArg),
            valid(old(self)@, v) ==> match old(self)@.heap[v as int] {
                HostValue::Str(b) => r.0 == Status::Success && final(self)@ == old(self)@ && if capacity == 0 {
                    r.1@.len() == 0 && r.2 == b@.len()
                } else {
                    r.2 == min(b@.len() as int, capacity - 1) && r.1@ == b@.subrange(0, r.2 as int)
                },
                _ => r.0 == Status::StringExpected && final(self)@ == failed(old(self)@, Status::StringExpected),
            },
    {
        if v >= self.heap.len() {
            return (self.fail(Status::InvalidArg), Vec::new(), 0);
        }
        let (n, out) = match &self.heap[v] {
            HostValue::Str(b) => {
                if capacity == 0 {
                    (b.len(), Vec::new())
                } else {
                    let n = if b.len() <= capacity - 1 { b.len() } else { capacity - 1 };
                    let mut out: Vec<u8> = Vec::new();
                    let mut i: usize = 0;
                    while i < n
                        invariant
                            n <= b@.len(),
                            i <= n,
                            out@ == b@.subrange(0, i as int),
                        decreases n - i,
                    {
                        out.push(b[i]);
                        i = i + 1;
                        assert(out@ =~= b@.subrange(0, i as int));
                    }
                    (n, out)
                }
            },
            _ => return (self.fail(Status::StringExpected), Vec::new(), 0),
        };
        (Status::Success, out, n)
    }

    /// Boundary call: is the value an array?
    pub fn raw_is_array(&mut self, v: usize) -> (r: (Status, bool))
        ensures
            !valid(old(self)@, v) ==> r.0 == Status::InvalidArg && final(self)@ == failed(old(self)@, Status::InvalidArg),
            valid(old(self)@, v) ==> r == (Status::Success, old(self)@.heap[v as int] is Array) && final(self)@ == old(self)@,
    {
        if v >= self.heap.len() {
            return (self.fail(Status::InvalidArg), false);
        }
        (Status::Success, match &self.heap[v] { HostValue::Array(_) => true, _ => false })
    }

    /// Boundary call: is the value a buffer?
    pub fn raw_is_buffer(&mut self, v: usize) -> (r: (Status, bool))
        ensures
            !valid(old(self)@, v) ==> r.0 == Status::InvalidArg && final(self)@ == failed(old(self)@, Status::InvalidArg),
            valid(old(self)@, v) ==> r == (Status::Success, old(self)@.heap[v as int] is Buffer) && final(self)@ == old(self)@,
    {
        if v >= self.heap.len() {
            return (self.fail(Status::InvalidArg), false);
        }
        (Status::Success, match &self.heap[v] { HostValue::Buffer(_) => true, _ => false })
    }

    /// Boundary call: is the value a promise?
    pub fn raw_is_promise(&mut self, v: usize) -> (r: (Status, bool))
        ensures
            !valid(old(self)@, v) ==> r.0 == Status::InvalidArg && final(self)@ == failed(old(self)@, Status::InvalidArg),
            valid(old(self)@, v) ==> r == (Status::Success, old(self)@.heap[v as int] is Promise) && final(self)@ == old(self)@,
    {
        if v >= self.heap.len() {
            return (self.fail(Status::InvalidArg), false);
        }
        (Status::Success, match &self.heap[v] { HostValue::Promise(_) => true, _ => false })
    }

    /// Boundary call: the bytes of a buffer, as a view into the host.
    pub fn raw_get_buffer_info(&self, v: usize) -> (r: Result<&[u8], Status>)
        ensures
            !valid(self@, v) ==> r == Err::<&[u8], Status>(Status::InvalidArg),
            valid(self@, v) ==> match self@.heap[v as int] {
                HostValue::Buffer(b) => r matches Ok(s) && s@ == b@,
                _ => r == Err::<&[u8], Status>(Status::InvalidArg),
            },
    {
        if v >= self.heap.len() {
            return Err(Status::InvalidArg);
        }
        match &self.heap[v] {
            HostValue::Buffer(b) => Ok(b.as_slice()),
            _ => Err(Status::InvalidArg),
        }
    }

    /// Records that a call failed with `InvalidArg`.
    pub fn raw_record_invalid_arg(&mut self) -> (r: Status)
        ensures
            r == Status::InvalidArg,
            final(self)@ == failed(old(self)@, Status::InvalidArg),
    {
        self.fail(Status::InvalidArg)
    }

    /// Boundary call: the length of an array.
    pub fn raw_get_array_length(&mut self, v: usize) -> (r: (Status, u32))
        ensures
            !valid(old(self)@, v) ==> r.0 == Status::InvalidArg && final(self)@ == failed(old(self)@, Status::InvalidArg),
            valid(old(self)@, v) ==> match old(self)@.heap[v as int] {
                HostValue::Array(n) => r == (Status::Success, n) && final(self)@ == old(self)@,
                _ => r.0 == Status::ArrayExpected && final(self)@ == failed(old(self)@, Status::ArrayExpected),
            },
    {
        if v >= self.heap.len() {
            return (self.fail(Status::InvalidArg), 0);
        }
        match &self.heap[v] {
            HostValue::Array(n) => (Status::Success, *n),
            _ => (self.fail(Status::ArrayExpected), 0),
        }
    }

    fn find_elem(&self, owner: usize, index: u32) -> (r: Option<usize>)
        ensures
            r == elem_lookup(self@.elems, owner, index),
    {
        let mut i = self.elems.len();
        assert(self.elems@.subrange(0, i as int) =~= self.elems@);
        while i > 0
            invariant
                i <= self.elems@.len(),
                elem_lookup(self.elems@, owner, index) == elem_lookup(self.elems@.subrange(0, i as int), owner, index),
            decreases i,
        {
            let ghost sub = self.elems@.subrange(0, i as int);
            assert(sub.drop_last() =~= self.elems@.subrange(0, i - 1));
            let e = self.elems[i - 1];
            if e.owner == owner && e.index == index {
                return e.value;
            }
            i = i - 1;
        }
        None
    }

    fn find_prop(&self, owner: usize, key: &[u8]) -> (r: Option<usize>)
        ensures
            r == prop_lookup(self@.props, owner, key@),
    {
        let mut i = self.props.len();
        assert(self.props@.subrange(0, i as int) =~= self.props@);
        while i > 0
            invariant
                i <= self.props@.len(),
                prop_lookup(self.props@, owner, key@) == prop_lookup(self.props@.subrange(0, i as int), owner, key@),
            decreases i,
        {
            let ghost sub = self.props@.subrange(0, i as int);
            assert(sub.drop_last() =~= self.props@.subrange(0, i - 1));
            let p = &self.props[i - 1];
            if p.owner == owner && bytes_eq(p.key.as_slice(), key) {
                return p.value;
            }
            i = i - 1;
        }
        None
    }

    fn find_attachment(&self, object: usize) -> (r: Option<Link>)
        ensures
            r == attachment_of(self@.attachments, object),
    {
        let mut i = self.attachments.len();
        assert(self.attachments@.subrange(0, i as int) =~= self.attachments@);
        while i > 0
            invariant
                i <= self.attachments@.len(),
                attachment_of(self.attachments@, object) == attachment_of(self.attachments@.subrange(0, i as int), object),
            decreases i,
        {
            let ghost sub = self.attachments@.subrange(0, i as int);
            assert(sub.drop_last() =~= self.attachments@.subrange(0, i - 1));
            let a = self.attachments[i - 1];
            if a.object == object {
                return a.link;
            }
            i = i - 1;
        }
        None
    }

    fn is_object_like_at(&self, v: usize) -> (r: bool)
        requires
            valid(self@, v),
        ensures
            r == is_object_like(self@.heap[v as int]),
    {
        match &self.heap[v] {
            HostValue::Object | HostValue::Array(_) | HostValue::Function(_, _) | HostValue::Buffer(_)
            | HostValue::Promise(_) => true,
            _ => false,
        }
    }

    /// Boundary call: the element of an object at an index; a missing
    /// element reads as a new `undefined`.
    pub fn raw_get_element(&mut self, v: usize, index: u32) -> (r: (Status, usize))
        ensures
            (r.0, r.1, final(self)@) == element_read(old(self)@, v, index),
    {
        if v >= self.heap.len() {
            return (self.fail(Status::InvalidArg), 0);
        }
        if self.pending.is_some() {
            return (self.fail(Status::PendingException), 0);
        }
        if !self.is_object_like_at(v) {
            return (self.fail(Status::ObjectExpected), 0);
        }
        match self.find_elem(v, index) {
            Some(h) => (Status::Success, h),
            None => (Status::Success, self.push_value(HostValue::Undefined)),
        }
    }

    /// Boundary call: does the object have an element at the index?
    pub fn raw_has_element(&mut self, v: usize, index: u32) -> (r: (Status, bool))
        ensures
            !valid(old(self)@, v) ==> r.0 == Status::InvalidArg && final(self)@ == failed(old(self)@, Status::InvalidArg),
            valid(old(self)@, v) && old(self)@.pending is Some ==> r.0 == Status::PendingException
                && final(self)@ == failed(old(self)@, Status::PendingException),
            valid(old(self)@, v) && old(self)@.pending is None && !is_object_like(old(self)@.heap[v as int])
                ==> r.0 == Status::ObjectExpected && final(self)@ == failed(old(self)@, Status::ObjectExpected),
            valid(old(self)@, v) && old(self)@.pending is None && is_object_like(old(self)@.heap[v as int])
                ==> r == (Status::Success, elem_lookup(old(self)@.elems, v, index) is Some) && final(self)@ == old(self)@,
    {
        if v >= self.heap.len() {
            return (self.fail(Status::InvalidArg), false);
        }
        if self.pending.is_some() {
            return (self.fail(Status::PendingException), false);
        }
        if !self.is_object_like_at(v) {
            return (self.fail(Status::ObjectExpected), false);
        }
        (Status::Success, self.find_elem(v, index).is_some())
    }

    /// Boundary call: write (`Some`) or delete (`None`) the element of an
    /// object at an index. An array grows to hold a written index.
    pub fn raw_put_element(&mut self, v: usize, index: u32, value: Option<usize>) -> (r: Status)
        ensures
            !valid(old(self)@, v) ==> r == Status::InvalidArg && final(self)@ == failed(old(self)@, Status::InvalidArg),
            valid(old(self)@, v) && old(self)@.pending is Some ==> r == Status::PendingException
                && final(self)@ == failed(old(self)@, Status::PendingException),
            valid(old(self)@, v) && old(self)@.pending is None && !is_object_like(old(self)@.heap[v as int])
                ==> r == Status::ObjectExpected && final(self)@ == failed(old(self)@, Status::ObjectExpected),
            valid(old(self)@, v) && old(self)@.pending is None && is_object_like(old(self)@.heap[v as int])
                && (index == u32::MAX || (value matches Some(x) && !valid(old(self)@, x)))
                ==> r == Status::InvalidArg && final(self)@ == failed(old(self)@, Status::InvalidArg),
            valid(old(self)@, v) && old(self)@.pending is None && is_object_like(old(self)@.heap[v as int])
                && index < u32::MAX && !(value matches Some(x) && !valid(old(self)@, x))
                ==> r == Status::Success && final(self)@ == element_put(old(self)@, v, index, value),
    {
        if v >= self.heap.len() {
            return self.fail(Status::InvalidArg);
        }
        if self.pending.is_some() {
            return self.fail(Status::PendingException);
        }
        if !self.is_object_like_at(v) {
            return self.fail(Status::ObjectExpected);
        }
        let bad_value = match value {
            Some(x) => x >= self.heap.len(),
            None => false,
        };
        if index == u32::MAX || bad_value {
            return self.fail(Status::InvalidArg);
        }
        self.elems.push(Elem { owner: v, index, value });
        let grown = match &self.heap[v] {
            HostValue::Array(len) => if value.is_some() && index >= *len { Some(index + 1) } else { None },
            _ => None,
        };
        if let Some(n) = grown {
            self.heap.set(v, HostValue::Array(n));
        }
        assert(self@.heap =~= element_put(old(self)@, v, index, value).heap);
        Status::Success
    }

    /// Boundary call: the named property of an object; a missing property
    /// reads as a new `undefined`.
    pub fn raw_get_named_property(&mut self, v: usize, key: &[u8]) -> (r: (Status, usize))
        ensures
            (r.0, r.1, final(self)@) == named_read(old(self)@, v, key@),
    {
        if v >= self.heap.len() {
            return (self.fail(Status::InvalidArg), 0);
        }
        if self.pending.is_some() {
            return (self.fail(Status::PendingException), 0);
        }
        if !self.is_object_like_at(v) {
            return (self.fail(Status::ObjectExpected), 0);
        }
        match self.find_prop(v, key) {
            Some(h) => (Status::Success, h),
            None => (Status::Success, self.push_value(HostValue::Undefined)),
        }
    }

    /// Boundary call: does the object have the named property?
    pub fn raw_has_named_property(&mut self, v: usize, key: &[u8]) -> (r: (Status, bool))
        ensures
            (r.0, r.1, final(self)@) == named_has(old(self)@, v, key@),
    {
        if v >= self.heap.len() {
            return (self.fail(Status::InvalidArg), false);
        }
        if self.pending.is_some() {
            return (self.fail(Status::PendingException), false);
        }
        if !self.is_object_like_at(v) {
            return (self.fail(Status::ObjectExpected), false);
        }
        (Status::Success, self.find_prop(v, key).is_some())
    }

    /// Boundary call: write the named property of an object.
    pub fn raw_set_named_property(&mut self, v: usize, key: &[u8], value: usize) -> (r: Status)
        ensures
            named_written(old(self)@, v, key@, value, final(self)@, r),
    {
        if v >= self.heap.len() {
            return self.fail(Status::InvalidArg);
        }
        if self.pending.is_some() {
            return self.fail(Status::PendingException);
        }
        if !self.is_object_like_at(v) || value >= self.heap.len() {
            return self.fail(if value >= self.heap.len() && self.is_object_like_at(v) {
                Status::InvalidArg
            } else {
                Status::ObjectExpected
            });
        }
        self.props.push(Prop { owner: v, key: copy_bytes(key), value: Some(value) });
        assert(self.props@.drop_last() =~= old(self).props@);
        Status::Success
    }

    /// The text that a string value holds, if it is one.
    fn text_at(&self, k: usize) -> (r: Option<Vec<u8>>)
        requires
            valid(self@, k),
        ensures
            match self@.heap[k as int] {
                HostValue::Str(b) => r matches Some(t) && t@ == b@,
                _ => r is None,
            },
    {
        match &self.heap[k] {
            HostValue::Str(b) => Some(copy_bytes(b.as_slice())),
            _ => None,
        }
    }

    /// Boundary call: the property of an object under a string key; a
    /// missing property reads as a new `undefined`.
    pub fn raw_get_property(&mut self, v: usize, k: usize) -> (r: (Status, usize))
        ensures
            key_text(old(self)@, k) matches Some(key) ==> (r.0, r.1, final(self)@) == named_read(old(self)@, v, key),
            key_text(old(self)@, k) is None ==> r.0 == key_failure(old(self)@, k)
                && final(self)@ == failed(old(self)@, r.0),
    {
        if k >= self.heap.len() {
            return (self.fail(Status::InvalidArg), 0);
        }
        match self.text_at(k) {
            Some(key) => self.raw_get_named_property(v, key.as_slice()),
            None => (self.fail(Status::NameExpected), 0),
        }
    }

    /// Boundary call: write the property of an object under a string key.
    pub fn raw_set_property(&mut self, v: usize, k: usize, value: usize) -> (r: Status)
        ensures
            key_text(old(self)@, k) matches Some(key) ==> named_written(old(self)@, v, key, value, final(self)@, r),
            key_text(old(self)@, k) is None ==> r == key_failure(old(self)@, k)
                && final(self)@ == failed(old(self)@, r),
    {
        if k >= self.heap.len() {
            return self.fail(Status::InvalidArg);
        }
        match self.text_at(k) {
            Some(key) => self.raw_set_named_property(v, key.as_slice(), value),
            None => self.fail(Status::NameExpected),
        }
    }

    /// Boundary call: does the object have a property under a string key?
    pub fn raw_has_property(&mut self, v: usize, k: usize) -> (r: (Status, bool))
        ensures
            key_text(old(self)@, k) matches Some(key) ==> (r.0, r.1, final(self)@) == named_has(old(self)@, v, key),
            key_text(old(self)@, k) is None ==> r.0 == key_failure(old(self)@, k)
                && final(self)@ == failed(old(self)@, r.0),
    {
        if k >= self.heap.len() {
            return (self.fail(Status::InvalidArg), false);
        }
        match self.text_at(k) {
            Some(key) => self.raw_has_named_property(v, key.as_slice()),
            None => (self.fail(Status::NameExpected), false),
        }
    }

    /// Boundary call: a function named `name` whose calls go to the native
    /// registration that `data` names.
    pub fn raw_create_function(&mut self, name: &[u8], data: Link) -> (r: (Status, usize))
        ensures
            r.0 == Status::Success,
            r.1 == old(self)@.heap.len(),
            heap_grew(old(self)@, final(self)@),
            holds_function(final(self)@.heap.last(), data, name@),
    {
        let h = self.push_value(HostValue::Function(data, copy_bytes(name)));
        assert(self.heap@.subrange(0, h as int) =~= old(self).heap@);
        (Status::Success, h)
    }

    /// Host side: the name of a function.
    pub fn function_name(&self, v: usize) -> (r: Option<&[u8]>)
        ensures
            valid(self@, v) ==> match self@.heap[v as int] {
                HostValue::Function(_, name) => r matches Some(n) && n@ == name@,
                _ => r is None,
            },
            !valid(self@, v) ==> r is None,
    {
        if v >= self.heap.len() {
            return None;
        }
        match &self.heap[v] {
            HostValue::Function(_, name) => Some(name.as_slice()),
            _ => None,
        }
    }

    /// Boundary call: a fresh tag for a native registry.
    pub fn raw_new_tag(&mut self) -> (r: (Status, u64))
        ensures
            old(self)@.next_tag == u64::MAX ==> r.0 == Status::GenericFailure
                && final(self)@ == failed(old(self)@, Status::GenericFailure),
            old(self)@.next_tag < u64::MAX ==> r == (Status::Success, old(self)@.next_tag)
                && final(self)@ == (HostModel { next_tag: (old(self)@.next_tag + 1) as u64, ..old(self)@ }),
    {
        if self.next_tag == u64::MAX {
            return (self.fail(Status::GenericFailure), 0);
        }
        let t = self.next_tag;
        self.next_tag = t + 1;
        (Status::Success, t)
    }

    /// Host side: start a call of a native function with a receiver and
    /// arguments. Returns the index of the invocation record.
    pub fn begin_call(&mut self, f: usize, this: usize, args: &[usize]) -> (r: (Status, usize))
        ensures
            !valid(old(self)@, f) ==> r.0 == Status::InvalidArg && final(self)@ == failed(old(self)@, Status::InvalidArg),
            valid(old(self)@, f) ==> match old(self)@.heap[f as int] {
                HostValue::Function(link, _) => {
                    &&& r.0 == Status::Success
                    &&& r.1 == old(self)@.frames.len()
                    &&& frame_pushed(old(self)@, final(self)@, this, args@, link)
                },
                _ => r.0 == Status::FunctionExpected && final(self)@ == failed(old(self)@, Status::FunctionExpected),
            },
    {
        if f >= self.heap.len() {
            return (self.fail(Status::InvalidArg), 0);
        }
        let link = match &self.heap[f] {
            HostValue::Function(link, _) => *link,
            _ => return (self.fail(Status::FunctionExpected), 0),
        };
        let info = self.frames.len();
        self.frames.push(Frame { this, args: slice_to_vec(args), data: link });
        assert(self.frames@.drop_last() =~= old(self).frames@);
        (Status::Success, info)
    }

    /// Host side: end the latest call.
    pub fn end_call(&mut self)
        requires
            old(self)@.frames.len() > 0,
        ensures
            final(self)@ == (HostModel { frames: old(self)@.frames.drop_last(), ..old(self)@ }),
    {
        self.frames.pop();
    }

    /// Boundary call: the record of an invocation. Copies at most `capacity`
    /// argument handles and reports how many arguments there are.
    pub fn raw_get_cb_info(&mut self, info: usize, capacity: usize) -> (r: (Status, usize, Vec<usize>, usize, Link))
        ensures
            info >= old(self)@.frames.len() ==> r.0 == Status::InvalidArg
                && final(self)@ == failed(old(self)@, Status::InvalidArg),
            info < old(self)@.frames.len() ==> {
                let fr = old(self)@.frames[info as int];
                &&& r.0 == Status::Success
                &&& final(self)@ == old(self)@
                &&& r.1 == fr.args@.len()
                &&& r.2@ == fr.args@.subrange(0, min(capacity as int, fr.args@.len() as int))
                &&& r.3 == fr.this
                &&& r.4 == fr.data
            },
    {
        if info >= self.frames.len() {
            return (self.fail(Status::InvalidArg), 0, Vec::new(), 0, Link { tag: 0, slot: 0 });
        }
        let fr = &self.frames[info];
        let argc = fr.args.len();
        let n = if capacity < argc { capacity } else { argc };
        let mut out: Vec<usize> = Vec::new();
        let mut i: usize = 0;
        while i < n
            invariant
                n <= fr.args@.len(),
                i <= n,
                out@ == fr.args@.subrange(0, i as int),
            decreases n - i,
        {
            out.push(fr.args[i]);
            i = i + 1;
            assert(out@ =~= fr.args@.subrange(0, i as int));
        }
        (Status::Success, argc, out, fr.this, fr.data)
    }

    /// Boundary call: attach a native payload to an object. An object holds
    /// at most one.
    pub fn raw_wrap(&mut self, v: usize, link: Link) -> (r: Status)
        ensures
            !valid(old(self)@, v) ==> r == Status::InvalidArg && final(self)@ == failed(old(self)@, Status::InvalidArg),
            valid(old(self)@, v) && old(self)@.pending is Some ==> r == Status::PendingException
                && final(self)@ == failed(old(self)@, Status::PendingException),
            valid(old(self)@, v) && old(self)@.pending is None && !is_object_like(old(self)@.heap[v as int])
                ==> r == Status::ObjectExpected && final(self)@ == failed(old(self)@, Status::ObjectExpected),
            valid(old(self)@, v) && old(self)@.pending is None && is_object_like(old(self)@.heap[v as int])
                && attachment_of(old(self)@.attachments, v) is Some
                ==> r == Status::InvalidArg && final(self)@ == failed(old(self)@, Status::InvalidArg),
            valid(old(self)@, v) && old(self)@.pending is None && is_object_like(old(self)@.heap[v as int])
                && attachment_of(old(self)@.attachments, v) is None
                ==> r == Status::Success && final(self)@ == (HostModel {
                    attachments: old(self)@.attachments.push(Attachment { object: v, link: Some(link) }),
                    ..old(self)@
                }),
    {
        if v >= self.heap.len() {
            return self.fail(Status::InvalidArg);
        }
        if self.pending.is_some() {
            return self.fail(Status::PendingException);
        }
        if !self.is_object_like_at(v) {
            return self.fail(Status::ObjectExpected);
        }
        if self.find_attachment(v).is_some() {
            return self.fail(Status::InvalidArg);
        }
        self.attachments.push(Attachment { object: v, link: Some(link) });
        Status::Success
    }

    /// Boundary call: the native payload attached to an object.
    pub fn raw_unwrap(&mut self, v: usize) -> (r: (Status, Link))
        ensures
            !valid(old(self)@, v) ==> r.0 == Status::InvalidArg && final(self)@ == failed(old(self)@, Status::InvalidArg),
            valid(old(self)@, v) && !is_object_like(old(self)@.heap[v as int])
                ==> r.0 == Status::ObjectExpected && final(self)@ == failed(old(self)@, Status::ObjectExpected),
            valid(old(self)@, v) && is_object_like(old(self)@.heap[v as int]) ==> match attachment_of(old(self)@.attachments, v) {
                Some(link) => r == (Status::Success, link) && final(self)@ == old(self)@,
                None => r.0 == Status::InvalidArg && final(self)@ == failed(old(self)@, Status::InvalidArg),
            },
    {
        if v >= self.heap.len() {
            return (self.fail(Status::InvalidArg), Link { tag: 0, slot: 0 });
        }
        if !self.is_object_like_at(v) {
            return (self.fail(Status::ObjectExpected), Link { tag: 0, slot: 0 });
        }
        match self.find_attachment(v) {
            Some(link) => (Status::Success, link),
            None => (self.fail(Status::InvalidArg), Link { tag: 0, slot: 0 }),
        }
    }

    /// Boundary call: detach the native payload of an object, reporting
    /// what it was.
    pub fn raw_remove_wrap(&mut self, v: usize) -> (r: (Status, Link))
        ensures
            !valid(old(self)@, v) ==> r.0 == Status::InvalidArg && final(self)@ == failed(old(self)@, Status::InvalidArg),
            valid(old(self)@, v) && !is_object_like(old(self)@.heap[v as int])
                ==> r.0 == Status::ObjectExpected && final(self)@ == failed(old(self)@, Status::ObjectExpected),
            valid(old(self)@, v) && is_object_like(old(self)@.heap[v as int]) ==> match attachment_of(old(self)@.attachments, v) {
                Some(link) => r == (Status::Success, link) && final(self)@ == (HostModel {
                    attachments: old(self)@.attachments.push(Attachment { object: v, link: None }),
                    ..old(self)@
                }),
                None => r.0 == Status::InvalidArg && final(self)@ == failed(old(self)@, Status::InvalidArg),
            },
    {
        let (st, link) = self.raw_unwrap(v);
        if st != Status::Success {
            return (st, link);
        }
        self.attachments.push(Attachment { object: v, link: None });
        (Status::Success, link)
    }

    /// Boundary call: a new pending promise and the index of its deferred.
    pub fn raw_create_promise(&mut self) -> (r: (Status, usize, usize))
        ensures
            r.0 == Status::Success,
            r.1 == old(self)@.promises.len(),
            r.2 == old(self)@.heap.len(),
            final(self)@ == (HostModel {
                promises: old(self)@.promises.push(PromiseState::Pending),
                heap: old(self)@.heap.push(HostValue::Promise(r.1)),
                ..old(self)@
            }),
    {
        let d = self.promises.len();
        self.promises.push(PromiseState::Pending);
        let p = self.push_value(HostValue::Promise(d));
        (Status::Success, d, p)
    }

    /// Boundary call: settle the promise of a deferred, fulfilled or rejected
    /// with a value. Only a pending promise can be settled.
    pub fn raw_settle_deferred(&mut self, d: usize, value: usize, fulfil: bool) -> (r: Status)
        ensures
            old(self)@.pending is Some ==> r == Status::PendingException
                && final(self)@ == failed(old(self)@, Status::PendingException),
            old(self)@.pending is None && (d >= old(self)@.promises.len() || old(self)@.promises[d as int] != PromiseState::Pending
                || !valid(old(self)@, value)) ==> r == Status::InvalidArg
                && final(self)@ == failed(old(self)@, Status::InvalidArg),
            old(self)@.pending is None && d < old(self)@.promises.len() && old(self)@.promises[d as int] == PromiseState::Pending
                && valid(old(self)@, value) ==> r == Status::Success && final(self)@ == (HostModel {
                    promises: old(self)@.promises.update(d as int,
                        if fulfil { PromiseState::Resolved(value) } else { PromiseState::Rejected(value) }),
                    ..old(self)@
                }),
    {
        if self.pending.is_some() {
            return self.fail(Status::PendingException);
        }
        if d >= self.promises.len() || value >= self.heap.len() {
            return self.fail(Status::InvalidArg);
        }
        if self.promises[d] != PromiseState::Pending {
            return self.fail(Status::InvalidArg);
        }
        self.promises.set(d, if fulfil { PromiseState::Resolved(value) } else { PromiseState::Rejected(value) });
        Status::Success
    }

    /// Host side: the state of the promise that a value holds, if it holds one.
    pub fn promise_state(&self, v: usize) -> (r: Option<PromiseState>)
        ensures
            !valid(self@, v) ==> r is None,
            valid(self@, v) ==> match self@.heap[v as int] {
                HostValue::Promise(d) => if d < self@.promises.len() { r == Some(self@.promises[d as int]) } else { r is None },
                _ => r is None,
            },
    {
        if v >= self.heap.len() {
            return None;
        }
        match &self.heap[v] {
            HostValue::Promise(d) => if *d < self.promises.len() { Some(self.promises[*d]) } else { None },
            _ => None,
        }
    }
}


impl Env {
    /// Raises an error with an optional code and a message, and reports the
    /// exception now pending. Never raises a second exception over a
    /// pending one.
    pub fn throw(&mut self, code: Option<&str>, message: &str) -> (r: JsResult<()>)
        ensures
            r matches Err(JsError::PendingException),
            old(self)@.pending is Some ==> final(self)@ == failed(old(self)@, Status::PendingException),
            old(self)@.pending is None ==> threw(old(self)@, final(self)@,
                match code { Some(c) => Some(c.spec_bytes()), None => None }, message.spec_bytes()),
    {
        let c = match code {
            Some(c) => Some(c.as_bytes()),
            None => None,
        };
        let st = self.raw_throw_error(c, message.as_bytes());
        if st != Status::Success {
            return Err(JsError::from_env(self));
        }
        Err(JsError::PendingException)
    }

    /// The type tag of a value.
    pub fn type_of(&mut self, value: usize) -> (r: JsResult<ValueType>)
        ensures
            valid(old(self)@, value) ==> final(self)@ == old(self)@
                && r == Ok::<ValueType, JsError>(type_of_value(old(self)@.heap[value as int])),
            !valid(old(self)@, value) ==> final(self)@ == failed(old(self)@, Status::InvalidArg)
                && error_after(r, final(self)@),
    {
        let (st, t) = self.raw_typeof(value);
        if st != Status::Success {
            return Err(JsError::from_env(self));
        }
        Ok(t)
    }

    /// Is the type tag of a value `typ`?
    pub fn is_type_of(&mut self, value: usize, typ: ValueType) -> (r: JsResult<bool>)
        ensures
            valid(old(self)@, value) ==> final(self)@ == old(self)@
                && r == Ok::<bool, JsError>(type_of_value(old(self)@.heap[value as int]) == typ),
            !valid(old(self)@, value) ==> final(self)@ == failed(old(self)@, Status::InvalidArg)
                && error_after(r, final(self)@),
    {
        let t = self.type_of(value)?;
        Ok(t == typ)
    }

    /// A handle to `null`.
    pub fn null(&mut self) -> (r: JsResult<JsNull>)
        ensures
            final(self)@ == with_value(old(self)@, HostValue::Null),
            r matches Ok(x) && x.handle() == old(self)@.heap.len(),
    {
        JsNull::get(self)
    }

    /// A handle to `undefined`.
    pub fn undefined(&mut self) -> (r: JsResult<JsUndefined>)
        ensures
            final(self)@ == with_value(old(self)@, HostValue::Undefined),
            r matches Ok(x) && x.handle() == old(self)@.heap.len(),
    {
        JsUndefined::get(self)
    }

    /// A new string holding the text.
    pub fn string(&mut self, s: &str) -> (r: JsResult<JsString>)
        ensures
            string_created(old(self)@, s.spec_bytes(), final(self)@, r),
    {
        JsString::new(self, s)
    }

    /// Host side: how many invocations are in progress.
    pub fn frame_count(&self) -> (r: usize)
        ensures
            r == self@.frames.len(),
    {
        self.frames.len()
    }
}

} // verus!
