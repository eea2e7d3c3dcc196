//! The concrete value variants.
pub mod array;
pub mod boolean;
pub mod buffer;
pub mod function;
pub mod number;
pub mod object;
pub mod string;
pub mod undefined;
pub mod wrap;

pub use self::array::JsArray;
pub use self::boolean::JsBool;
pub use self::buffer::JsBuffer;
pub use self::function::{JsArgv, JsFunction};
pub use self::number::JsNumber;
pub use self::object::JsObject;
pub use self::string::JsString;
pub use self::undefined::{JsNull, JsUndefined};
pub use self::wrap::{JsWrap, WrapRegistry};
