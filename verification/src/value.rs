//! Values crossing between the host and the interpreter.
//!
//! A [`Value`] is a script value as the interpreter reports it; a [`Host`] is
//! what the host side hands over or asks for. The two conversions are exact
//! where a counterpart exists and fail with a typed error where none does:
//! nothing is coerced and nothing is guessed.

use crate::error::{Error, ErrorView, NulError, NulErrorView};
use crate::text::{
    checked, decode_text, decoded, find_nul, first_nul, lemma_encoded_nul, lemma_first_nul_is,
};
use vstd::prelude::*;
use vstd::string::StringSliceAdditionalSpecFns;
use vstd::utf8::encode_utf8;

verus! {

/// A script value, scoped to the context that produced it.
#[derive(Debug, Clone, PartialEq, Eq)]
pub enum Value {
    Undefined,
    Null,
    Bool(bool),
    Int(i32),
    /// The bytes of a script string, as the interpreter holds them.
    String(Vec<u8>),
    /// An object, known by its native handle only.
    Object(usize),
    /// A function, known by its native handle only.
    Function(usize),
    /// An exception raised by a script, with the bytes of its rendered
    /// message where the interpreter could render one.
    Exception(Option<Vec<u8>>),
}

/// Mathematical content of a [`Value`].
pub enum ValueView {
    Undefined,
    Null,
    Bool(bool),
    Int(i32),
    String(Seq<u8>),
    Object(usize),
    Function(usize),
    Exception(Option<Seq<u8>>),
}

impl ValueView {
    /// Name of the value's type category, as it appears in errors.
    pub open spec fn tag_name(self) -> Seq<char> {
        match self {
            ValueView::Undefined => "undefined"@,
            ValueView::Null => "null"@,
            ValueView::Bool(_) => "bool"@,
            ValueView::Int(_) => "int"@,
            ValueView::String(_) => "string"@,
            ValueView::Object(_) => "object"@,
            ValueView::Function(_) => "function"@,
            ValueView::Exception(_) => "exception"@,
        }
    }
}

impl View for Value {
    type V = ValueView;

    open spec fn view(&self) -> ValueView {
        match *self {
            Value::Undefined => ValueView::Undefined,
            Value::Null => ValueView::Null,
            Value::Bool(b) => ValueView::Bool(b),
            Value::Int(i) => ValueView::Int(i),
            Value::String(bytes) => ValueView::String(bytes@),
            Value::Object(handle) => ValueView::Object(handle),
            Value::Function(handle) => ValueView::Function(handle),
            Value::Exception(message) => ValueView::Exception(
                match message {
                    Some(bytes) => Some(bytes@),
                    None => None,
                },
            ),
        }
    }
}

impl Value {
    /// Name of the value's type category, as it appears in errors.
    pub fn tag_name(&self) -> (name: &'static str)
        ensures
            name@ == self@.tag_name(),
    {
        match self {
            Value::Undefined => "undefined",
            Value::Null => "null",
            Value::Bool(_) => "bool",
            Value::Int(_) => "int",
            Value::String(_) => "string",
            Value::Object(_) => "object",
            Value::Function(_) => "function",
            Value::Exception(_) => "exception",
        }
    }
}

/// The host types that have a counterpart among the script values.
#[derive(Debug, Clone, Copy, PartialEq, Eq)]
pub enum HostKind {
    Unit,
    Bool,
    Int,
    Text,
}

impl HostKind {
    /// Name of the host type, as it appears in errors.
    pub open spec fn spec_name(self) -> Seq<char> {
        match self {
            HostKind::Unit => "unit"@,
            HostKind::Bool => "bool"@,
            HostKind::Int => "int"@,
            HostKind::Text => "string"@,
        }
    }

    /// Name of the host type, as it appears in errors.
    pub fn name(self) -> (name: &'static str)
        ensures
            name@ == self.spec_name(),
    {
        match self {
            HostKind::Unit => "unit",
            HostKind::Bool => "bool",
            HostKind::Int => "int",
            HostKind::Text => "string",
        }
    }
}

/// A host value on its way to or from the interpreter.
#[derive(Debug, Clone, PartialEq, Eq)]
pub enum Host {
    Unit,
    Bool(bool),
    Int(i32),
    Text(String),
    /// A value of a host type that has no counterpart among the script
    /// values, known by the name of its type.
    Other(&'static str),
}

/// Mathematical content of a [`Host`].
pub enum HostView {
    Unit,
    Bool(bool),
    Int(i32),
    Text(Seq<char>),
    Other(Seq<char>),
}

impl View for Host {
    type V = HostView;

    open spec fn view(&self) -> HostView {
        match *self {
            Host::Unit => HostView::Unit,
            Host::Bool(b) => HostView::Bool(b),
            Host::Int(i) => HostView::Int(i),
            Host::Text(text) => HostView::Text(text@),
            Host::Other(name) => HostView::Other(name@),
        }
    }
}

/// Name of the destination of every conversion towards the interpreter.
pub open spec fn script_value_name() -> Seq<char> {
    "value"@
}

/// The script value that stands for `host`, or why there is none.
///
/// Text travels as its UTF-8 bytes and must not hold a zero byte. A host type
/// without a counterpart is refused by name.
pub open spec fn to_js_spec(host: HostView) -> Result<ValueView, ErrorView> {
    match host {
        HostView::Unit => Ok(ValueView::Undefined),
        HostView::Bool(b) => Ok(ValueView::Bool(b)),
        HostView::Int(i) => Ok(ValueView::Int(i)),
        HostView::Text(text) => match checked(encode_utf8(text)) {
            Ok(bytes) => Ok(ValueView::String(bytes)),
            Err(nul) => Err(ErrorView::InvalidString(nul)),
        },
        HostView::Other(name) => Err(
            ErrorView::ToJsConversion { from: name, to: script_value_name(), message: None },
        ),
    }
}

/// The host value of type `kind` that `value` stands for, or why there is
/// none.
///
/// An exception never converts: it becomes the error that carries its
/// message. A value of another type category than the one asked for is
/// refused by name.
pub open spec fn from_js_spec(value: ValueView, kind: HostKind) -> Result<HostView, ErrorView> {
    match value {
        ValueView::Exception(None) => Err(ErrorView::Unknown),
        ValueView::Exception(Some(bytes)) => match decoded(bytes) {
            Ok(text) => Err(ErrorView::Exception(text)),
            Err(e) => Err(ErrorView::Utf8(e)),
        },
        _ => match (value, kind) {
            (ValueView::Undefined, HostKind::Unit) => Ok(HostView::Unit),
            (ValueView::Bool(b), HostKind::Bool) => Ok(HostView::Bool(b)),
            (ValueView::Int(i), HostKind::Int) => Ok(HostView::Int(i)),
            (ValueView::String(bytes), HostKind::Text) => match decoded(bytes) {
                Ok(text) => Ok(HostView::Text(text)),
                Err(e) => Err(ErrorView::Utf8(e)),
            },
            _ => Err(
                ErrorView::FromJsConversion {
                    from: value.tag_name(),
                    to: kind.spec_name(),
                    message: None,
                },
            ),
        },
    }
}

/// Converts a host value to the script value that stands for it.
pub fn to_js(host: Host) -> (result: Result<Value, Error>)
    ensures
        match result {
            Ok(value) => to_js_spec(host@) == Ok::<ValueView, ErrorView>(value@),
            Err(e) => to_js_spec(host@) == Err::<ValueView, ErrorView>(e@),
        },
{
    match host {
        Host::Unit => Ok(Value::Undefined),
        Host::Bool(b) => Ok(Value::Bool(b)),
        Host::Int(i) => Ok(Value::Int(i)),
        Host::Text(text) => {
            let bytes = vstd::slice::slice_to_vec(text.as_str().as_bytes());
            match find_nul(bytes.as_slice()) {
                Some(position) => {
                    proof {
                        lemma_first_nul_is(bytes@, position as int);
                    }
                    Err(Error::InvalidString(NulError::new(position, bytes)))
                },
                None => Ok(Value::String(bytes)),
            }
        },
        Host::Other(name) => Err(Error::ToJsConversion { from: name, to: "value", message: None }),
    }
}

/// Converts a script value to the host value of type `kind` that it stands
/// for.
pub fn from_js(value: Value, kind: HostKind) -> (result: Result<Host, Error>)
    ensures
        match result {
            Ok(host) => from_js_spec(value@, kind) == Ok::<HostView, ErrorView>(host@),
            Err(e) => from_js_spec(value@, kind) == Err::<HostView, ErrorView>(e@),
        },
{
    match value {
        Value::Exception(None) => Err(Error::Unknown),
        Value::Exception(Some(bytes)) => match decode_text(bytes.as_slice()) {
            Ok(text) => Err(Error::Exception(text)),
            Err(e) => Err(Error::Utf8(e)),
        },
        Value::Undefined => match kind {
            HostKind::Unit => Ok(Host::Unit),
            _ => Err(mismatch("undefined", kind)),
        },
        Value::Bool(b) => match kind {
            HostKind::Bool => Ok(Host::Bool(b)),
            _ => Err(mismatch("bool", kind)),
        },
        Value::Int(i) => match kind {
            HostKind::Int => Ok(Host::Int(i)),
            _ => Err(mismatch("int", kind)),
        },
        Value::String(bytes) => match kind {
            HostKind::Text => match decode_text(bytes.as_slice()) {
                Ok(text) => Ok(Host::Text(text)),
                Err(e) => Err(Error::Utf8(e)),
            },
            _ => Err(mismatch("string", kind)),
        },
        Value::Null => Err(mismatch("null", kind)),
        Value::Object(_) => Err(mismatch("object", kind)),
        Value::Function(_) => Err(mismatch("function", kind)),
    }
}

/// The error for a script value of category `from` asked for as `kind`.
fn mismatch(from: &'static str, kind: HostKind) -> (e: Error)
    ensures
        e@ == (ErrorView::FromJsConversion { from: from@, to: kind.spec_name(), message: None }),
{
    Error::FromJsConversion { from, to: kind.name(), message: None }
}

impl HostView {
    /// The host type of a value that has a counterpart among the script
    /// values.
    pub open spec fn kind(self) -> HostKind
        recommends
            !(self is Other),
    {
        match self {
            HostView::Bool(_) => HostKind::Bool,
            HostView::Int(_) => HostKind::Int,
            HostView::Text(_) => HostKind::Text,
            _ => HostKind::Unit,
        }
    }
}

/// Whatever converts to a script value converts back to itself: when a host
/// value has a counterpart, reading that counterpart as the host value's own
/// type gives the host value again.
pub proof fn lemma_round_trip(host: HostView)
    requires
        to_js_spec(host) is Ok,
    ensures
        from_js_spec(to_js_spec(host)->Ok_0, host.kind()) == Ok::<HostView, ErrorView>(host),
{
    if let HostView::Text(text) = host {
        vstd::utf8::encode_utf8_valid_utf8(text);
        vstd::utf8::encode_utf8_decode_utf8(text);
    }
}

/// Text without the zero character survives the round trip through the
/// interpreter's representation unchanged.
pub proof fn lemma_text_round_trip(text: Seq<char>)
    requires
        !text.contains('\0'),
    ensures
        to_js_spec(HostView::Text(text)) == Ok::<ValueView, ErrorView>(
            ValueView::String(encode_utf8(text)),
        ),
        from_js_spec(ValueView::String(encode_utf8(text)), HostKind::Text) == Ok::<
            HostView,
            ErrorView,
        >(HostView::Text(text)),
{
    lemma_encoded_nul(text);
    lemma_round_trip(HostView::Text(text));
}

/// Text with the zero character is refused on its way to the interpreter,
/// with a report of the first zero byte of its encoding.
pub proof fn lemma_text_with_nul_is_refused(text: Seq<char>)
    requires
        text.contains('\0'),
    ensures
        to_js_spec(HostView::Text(text)) == Err::<ValueView, ErrorView>(
            ErrorView::InvalidString(
                NulErrorView {
                    position: first_nul(encode_utf8(text)) as nat,
                    bytes: encode_utf8(text),
                },
            ),
        ),
{
    lemma_encoded_nul(text);
}

/// A host value without a counterpart is refused with an error that names
/// where it came from and where it was headed, and neither name is left
/// empty when the host type has a name.
pub proof fn lemma_unsupported_host_is_refused(name: Seq<char>)
    ensures
        to_js_spec(HostView::Other(name)) == Err::<ValueView, ErrorView>(
            ErrorView::ToJsConversion { from: name, to: script_value_name(), message: None },
        ),
        script_value_name().len() > 0,
{
    reveal_strlit("value");
}

} // verus!
