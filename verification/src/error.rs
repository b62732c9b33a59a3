//! The closed set of failures shared by every part of the crate.

use vstd::prelude::*;
use vstd::string::StringExecFns;

verus! {

/// The character that writes the digit `d`.
pub open spec fn digit(d: nat) -> char
    recommends
        d < 10,
{
    if d == 0 {
        '0'
    } else if d == 1 {
        '1'
    } else if d == 2 {
        '2'
    } else if d == 3 {
        '3'
    } else if d == 4 {
        '4'
    } else if d == 5 {
        '5'
    } else if d == 6 {
        '6'
    } else if d == 7 {
        '7'
    } else if d == 8 {
        '8'
    } else {
        '9'
    }
}

/// `n` written in decimal, without leading zeros.
pub open spec fn decimal(n: nat) -> Seq<char>
    decreases n,
{
    if n < 10 {
        seq![digit(n)]
    } else {
        decimal(n / 10).push(digit(n % 10))
    }
}

/// The text of one decimal digit.
fn digit_text(d: usize) -> (text: &'static str)
    requires
        d < 10,
    ensures
        text@ == seq![digit(d as nat)],
{
    proof {
        reveal_strlit("0");
        reveal_strlit("1");
        reveal_strlit("2");
        reveal_strlit("3");
        reveal_strlit("4");
        reveal_strlit("5");
        reveal_strlit("6");
        reveal_strlit("7");
        reveal_strlit("8");
        reveal_strlit("9");
    }
    let text = if d == 0 {
        "0"
    } else if d == 1 {
        "1"
    } else if d == 2 {
        "2"
    } else if d == 3 {
        "3"
    } else if d == 4 {
        "4"
    } else if d == 5 {
        "5"
    } else if d == 6 {
        "6"
    } else if d == 7 {
        "7"
    } else if d == 8 {
        "8"
    } else {
        "9"
    };
    assert(text@ =~= seq![digit(d as nat)]);
    text
}

/// Appends `n`, written in decimal, to `out`.
fn append_decimal(out: &mut String, n: usize)
    ensures
        final(out)@ == old(out)@ + decimal(n as nat),
    decreases n,
{
    if n >= 10 {
        append_decimal(out, n / 10);
    }
    out.append(digit_text(n % 10));
    assert(out@ =~= old(out)@ + decimal(n as nat));
}

/// Reports a zero byte found inside a byte string that was meant to be handed
/// to the interpreter as terminated text.
#[derive(Debug, Clone, PartialEq, Eq)]
pub struct NulError {
    position: usize,
    bytes: Vec<u8>,
}

/// Mathematical content of a [`NulError`].
pub struct NulErrorView {
    pub position: nat,
    pub bytes: Seq<u8>,
}

impl View for NulError {
    type V = NulErrorView;

    closed spec fn view(&self) -> NulErrorView {
        NulErrorView { position: self.position as nat, bytes: self.bytes@ }
    }
}

impl NulError {
    pub(crate) fn new(position: usize, bytes: Vec<u8>) -> (e: NulError)
        ensures
            e@ == (NulErrorView { position: position as nat, bytes: bytes@ }),
    {
        NulError { position, bytes }
    }

    /// Index of the offending zero byte.
    pub fn nul_position(&self) -> (position: usize)
        ensures
            position == self@.position,
    {
        self.position
    }

    /// Gives back the bytes that were rejected.
    pub fn into_vec(self) -> (bytes: Vec<u8>)
        ensures
            bytes@ == self@.bytes,
    {
        self.bytes
    }
}

/// Reports where a byte string read back from the interpreter stops being
/// valid UTF-8.
#[derive(Debug, Clone, Copy, PartialEq, Eq)]
pub struct Utf8Error {
    valid_up_to: usize,
    error_len: Option<usize>,
}

/// Mathematical content of a [`Utf8Error`].
pub struct Utf8ErrorView {
    pub valid_up_to: nat,
    pub error_len: Option<nat>,
}

impl View for Utf8Error {
    type V = Utf8ErrorView;

    closed spec fn view(&self) -> Utf8ErrorView {
        Utf8ErrorView {
            valid_up_to: self.valid_up_to as nat,
            error_len: match self.error_len {
                Some(n) => Some(n as nat),
                None => None,
            },
        }
    }
}

impl Utf8Error {
    pub(crate) fn new(valid_up_to: usize, error_len: Option<usize>) -> (e: Utf8Error)
        ensures
            e@.valid_up_to == valid_up_to,
            e@.error_len == match error_len {
                Some(n) => Some(n as nat),
                None => None,
            },
    {
        Utf8Error { valid_up_to, error_len }
    }

    /// Length of the longest prefix of the input that is valid UTF-8.
    pub fn valid_up_to(&self) -> (n: usize)
        ensures
            n == self@.valid_up_to,
    {
        self.valid_up_to
    }

    /// Length of the invalid sequence that follows the valid prefix, or `None`
    /// when the input ended in the middle of a character.
    pub fn error_len(&self) -> (n: Option<usize>)
        ensures
            match n {
                Some(k) => self@.error_len == Some(k as nat),
                None => self@.error_len is None,
            },
    {
        self.error_len
    }
}

/// Every way an operation of this crate can fail.
#[derive(Debug, Clone, PartialEq)]
pub enum Error {
    /// The native allocator handed back a null handle.
    Allocation,
    /// Text bound for the interpreter held an embedded zero byte.
    InvalidString(NulError),
    /// Bytes read back from the interpreter were not valid text.
    Utf8(Utf8Error),
    /// The native layer reported a failure that cannot be classified further.
    Unknown,
    /// The interpreter raised a script-level exception; the payload is its
    /// rendered message.
    Exception(String),
    /// A script value did not have the shape of the requested host type.
    FromJsConversion { from: &'static str, to: &'static str, message: Option<String> },
    /// A host value has no counterpart among the script values.
    ToJsConversion { from: &'static str, to: &'static str, message: Option<String> },
}

/// Mathematical content of an [`Error`].
pub enum ErrorView {
    Allocation,
    InvalidString(NulErrorView),
    Utf8(Utf8ErrorView),
    Unknown,
    Exception(Seq<char>),
    FromJsConversion { from: Seq<char>, to: Seq<char>, message: Option<Seq<char>> },
    ToJsConversion { from: Seq<char>, to: Seq<char>, message: Option<Seq<char>> },
}

/// View of an optional piece of text.
pub open spec fn text_view(text: Option<String>) -> Option<Seq<char>> {
    match text {
        Some(t) => Some(t@),
        None => None,
    }
}

/// The detail that ends a conversion error's message: the free text where
/// there is some, else nothing.
pub open spec fn detail(message: Option<Seq<char>>) -> Seq<char> {
    match message {
        Some(text) => text,
        None => Seq::empty(),
    }
}

impl ErrorView {
    /// The error rendered for a reader, from what the error itself carries.
    pub open spec fn message(self) -> Seq<char> {
        match self {
            ErrorView::Allocation => "Allocation failed while creating object"@,
            ErrorView::InvalidString(e) => "string contained internal null bytes: "@
                + "nul byte found in provided data at position: "@ + decimal(e.position),
            ErrorView::Utf8(e) => match e.error_len {
                Some(n) => "Conversion from string failed: "@ + "invalid utf-8 sequence of "@
                    + decimal(n) + " bytes from index "@ + decimal(e.valid_up_to),
                None => "Conversion from string failed: "@
                    + "incomplete utf-8 byte sequence from index "@ + decimal(e.valid_up_to),
            },
            ErrorView::Unknown => "quickjs library created a unknown error"@,
            ErrorView::Exception(text) => "exception generated by quickjs: "@ + text,
            ErrorView::FromJsConversion { from, to, message } =>
                "error converting from js from type '"@ + from + "', to '"@ + to + "': "@ + detail(
                    message,
                ),
            ErrorView::ToJsConversion { from, to, message } => "error converting from type '"@
                + from + "', to '"@ + to + "': "@ + detail(message),
        }
    }
}

impl View for Error {
    type V = ErrorView;

    open spec fn view(&self) -> ErrorView {
        match *self {
            Error::Allocation => ErrorView::Allocation,
            Error::InvalidString(e) => ErrorView::InvalidString(e@),
            Error::Utf8(e) => ErrorView::Utf8(e@),
            Error::Unknown => ErrorView::Unknown,
            Error::Exception(text) => ErrorView::Exception(text@),
            Error::FromJsConversion { from, to, message } => ErrorView::FromJsConversion {
                from: from@,
                to: to@,
                message: text_view(message),
            },
            Error::ToJsConversion { from, to, message } => ErrorView::ToJsConversion {
                from: from@,
                to: to@,
                message: text_view(message),
            },
        }
    }
}

impl Error {
    /// Renders the error for a reader. Everything the text needs is carried
    /// by the error itself.
    pub fn message(&self) -> (text: String)
        ensures
            text@ == self@.message(),
    {
        match self {
            Error::Allocation => String::from_str("Allocation failed while creating object"),
            Error::InvalidString(e) => {
                let mut text = String::from_str("string contained internal null bytes: ");
                text.append("nul byte found in provided data at position: ");
                append_decimal(&mut text, e.position);
                text
            },
            Error::Utf8(e) => {
                let mut text = String::from_str("Conversion from string failed: ");
                match e.error_len {
                    Some(n) => {
                        text.append("invalid utf-8 sequence of ");
                        append_decimal(&mut text, n);
                        text.append(" bytes from index ");
                    },
                    None => {
                        text.append("incomplete utf-8 byte sequence from index ");
                    },
                }
                append_decimal(&mut text, e.valid_up_to);
                text
            },
            Error::Unknown => String::from_str("quickjs library created a unknown error"),
            Error::Exception(e) => {
                let mut text = String::from_str("exception generated by quickjs: ");
                text.append(e.as_str());
                text
            },
            Error::FromJsConversion { from, to, message } => {
                let mut text = String::from_str("error converting from js from type '");
                append_conversion(&mut text, from, to, message);
                text
            },
            Error::ToJsConversion { from, to, message } => {
                let mut text = String::from_str("error converting from type '");
                append_conversion(&mut text, from, to, message);
                text
            },
        }
    }
}

/// Appends what the two conversion errors' messages have in common.
fn append_conversion(out: &mut String, from: &str, to: &str, message: &Option<String>)
    ensures
        final(out)@ == old(out)@ + from@ + "', to '"@ + to@ + "': "@ + detail(text_view(*message)),
{
    out.append(from);
    out.append("', to '");
    out.append(to);
    out.append("': ");
    match message {
        Some(text) => {
            out.append(text.as_str());
        },
        None => {
            assert(out@ + Seq::<char>::empty() =~= out@);
        },
    }
}

impl From<NulError> for Error {
    fn from(e: NulError) -> (err: Error) {
        Error::InvalidString(e)
    }
}

impl vstd::std_specs::convert::FromSpecImpl<NulError> for Error {
    open spec fn obeys_from_spec() -> bool {
        true
    }

    open spec fn from_spec(e: NulError) -> Error {
        Error::InvalidString(e)
    }
}

impl From<Utf8Error> for Error {
    fn from(e: Utf8Error) -> (err: Error) {
        Error::Utf8(e)
    }
}

impl vstd::std_specs::convert::FromSpecImpl<Utf8Error> for Error {
    open spec fn obeys_from_spec() -> bool {
        true
    }

    open spec fn from_spec(e: Utf8Error) -> Error {
        Error::Utf8(e)
    }
}

} // verus!
