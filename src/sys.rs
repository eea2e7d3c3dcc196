//! The boundary's fixed enumerations.
use vstd::prelude::*;

verus! {

/// Status code returned by every boundary call.
#[derive(Clone, Copy, Debug, PartialEq, Eq, Structural)]
pub enum Status {
    Success,
    InvalidArg,
    ObjectExpected,
    StringExpected,
    NameExpected,
    FunctionExpected,
    NumberExpected,
    BooleanExpected,
    ArrayExpected,
    GenericFailure,
    PendingException,
    Cancelled,
    EscapeCalledTwice,
    HandleScopeMismatch,
    CallbackScopeMismatch,
    QueueFull,
    Closing,
    BigintExpected,
}

/// The type tag that the host reports for a value.
#[derive(Clone, Copy, Debug, PartialEq, Eq, Structural)]
pub enum ValueType {
    Undefined,
    Null,
    Boolean,
    Number,
    String,
    Symbol,
    Object,
    Function,
    External,
    Bigint,
}

/// Attributes of a property definition.
#[derive(Clone, Copy, Debug, PartialEq, Eq, Structural)]
pub enum PropertyAttributes {
    Default,
    Writable,
    Enumerable,
    Configurable,
    Static,
}

/// Element types of typed arrays.
#[derive(Clone, Copy, Debug, PartialEq, Eq, Structural)]
pub enum TypedArrayType {
    Int8,
    Uint8,
    Uint8Clamped,
    Int16,
    Uint16,
    Int32,
    Uint32,
    Float32,
    Float64,
    Bigint64,
    Biguint64,
}

/// How a threadsafe function call waits for room in the queue.
#[derive(Clone, Copy, Debug, PartialEq, Eq, Structural)]
pub enum ThreadsafeFunctionCallMode {
    NonBlocking,
    Blocking,
}

} // verus!
