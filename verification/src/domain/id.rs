//! Opaque identifiers.
use vstd::prelude::*;
use vstd::string::*;
use vstd::utf8::*;

use crate::error::{outcome, PrintError, PrintErrorView, PrintResult};
use crate::text::{blank, is_blank, same, utf8_len};
use crate::unique::{is_random_text, law_random_text, random_text};

verus! {

/// Text that an identifier may hold: not blank, and at most 512 bytes long.
pub open spec fn valid_id(value: Seq<char>) -> bool {
    !is_blank(value) && encode_utf8(value).len() <= 512
}

/// What parsing `value` as an identifier yields; `label` names the kind.
pub open spec fn parsed_id(label: Seq<char>, value: Seq<char>) -> core::result::Result<
    Seq<char>,
    PrintErrorView,
> {
    if valid_id(value) {
        Ok(value)
    } else {
        Err(PrintErrorView::Invalid(label + " must contain 1 to 512 characters"@))
    }
}

fn parse_text(label: &str, value: &str) -> (r: PrintResult<String>)
    ensures
        outcome(r) == parsed_id(label@, value@),
{
    if blank(value) || utf8_len(value) > 512 {
        let mut message = label.to_string();
        message.append(" must contain 1 to 512 characters");
        return Err(PrintError::Invalid(message));
    }
    Ok(value.to_string())
}

/// A device of the local network.
#[derive(Debug, PartialEq, Eq, Hash)]
pub struct DeviceId(String);

impl View for DeviceId {
    type V = Seq<char>;

    closed spec fn view(&self) -> Seq<char> {
        self.0@
    }
}

impl Clone for DeviceId {
    fn clone(&self) -> (r: Self)
        ensures
            r@ == self@,
    {
        DeviceId(self.0.clone())
    }
}

impl DeviceId {
    /// Accepts text that is not blank and has at most 512 bytes.
    pub fn parse(value: &str) -> (r: PrintResult<Self>)
        ensures
            outcome(r) == parsed_id("device id"@, value@),
    {
        match parse_text("device id", value) {
            Ok(text) => Ok(DeviceId(text)),
            Err(error) => Err(error),
        }
    }

    /// The identifier that was stored as `value`.
    pub fn restore(value: String) -> (r: Self)
        ensures
            r@ == value@,
    {
        DeviceId(value)
    }

    /// The text of the identifier.
    pub fn as_str(&self) -> (r: &str)
        ensures
            r@ == self@,
    {
        self.0.as_str()
    }

    /// The text of the identifier.
    pub fn into_string(self) -> (r: String)
        ensures
            r@ == self@,
    {
        self.0
    }

    /// A copy of the text of the identifier.
    pub fn to_string(&self) -> (r: String)
        ensures
            r@ == self@,
    {
        self.0.clone()
    }

    /// Whether both identifiers hold the same text.
    pub fn same(&self, other: &Self) -> (r: bool)
        ensures
            r == (self@ == other@),
    {
        same(self.0.as_str(), other.0.as_str())
    }
}

/// A printer known to the operating system.
#[derive(Debug, PartialEq, Eq, Hash)]
pub struct LocalPrinterId(String);

impl View for LocalPrinterId {
    type V = Seq<char>;

    closed spec fn view(&self) -> Seq<char> {
        self.0@
    }
}

impl Clone for LocalPrinterId {
    fn clone(&self) -> (r: Self)
        ensures
            r@ == self@,
    {
        LocalPrinterId(self.0.clone())
    }
}

impl LocalPrinterId {
    /// Accepts text that is not blank and has at most 512 bytes.
    pub fn parse(value: &str) -> (r: PrintResult<Self>)
        ensures
            outcome(r) == parsed_id("local printer id"@, value@),
    {
        match parse_text("local printer id", value) {
            Ok(text) => Ok(LocalPrinterId(text)),
            Err(error) => Err(error),
        }
    }

    /// The identifier that was stored as `value`.
    pub fn restore(value: String) -> (r: Self)
        ensures
            r@ == value@,
    {
        LocalPrinterId(value)
    }

    /// The text of the identifier.
    pub fn as_str(&self) -> (r: &str)
        ensures
            r@ == self@,
    {
        self.0.as_str()
    }

    /// The text of the identifier.
    pub fn into_string(self) -> (r: String)
        ensures
            r@ == self@,
    {
        self.0
    }

    /// A copy of the text of the identifier.
    pub fn to_string(&self) -> (r: String)
        ensures
            r@ == self@,
    {
        self.0.clone()
    }

    /// Whether both identifiers hold the same text.
    pub fn same(&self, other: &Self) -> (r: bool)
        ensures
            r == (self@ == other@),
    {
        same(self.0.as_str(), other.0.as_str())
    }
}

/// A print queue of the operating system.
#[derive(Debug, PartialEq, Eq, Hash)]
pub struct SystemQueueId(String);

impl View for SystemQueueId {
    type V = Seq<char>;

    closed spec fn view(&self) -> Seq<char> {
        self.0@
    }
}

impl Clone for SystemQueueId {
    fn clone(&self) -> (r: Self)
        ensures
            r@ == self@,
    {
        SystemQueueId(self.0.clone())
    }
}

impl SystemQueueId {
    /// Accepts text that is not blank and has at most 512 bytes.
    pub fn parse(value: &str) -> (r: PrintResult<Self>)
        ensures
            outcome(r) == parsed_id("system queue id"@, value@),
    {
        match parse_text("system queue id", value) {
            Ok(text) => Ok(SystemQueueId(text)),
            Err(error) => Err(error),
        }
    }

    /// The identifier that was stored as `value`.
    pub fn restore(value: String) -> (r: Self)
        ensures
            r@ == value@,
    {
        SystemQueueId(value)
    }

    /// The text of the identifier.
    pub fn as_str(&self) -> (r: &str)
        ensures
            r@ == self@,
    {
        self.0.as_str()
    }

    /// The text of the identifier.
    pub fn into_string(self) -> (r: String)
        ensures
            r@ == self@,
    {
        self.0
    }

    /// A copy of the text of the identifier.
    pub fn to_string(&self) -> (r: String)
        ensures
            r@ == self@,
    {
        self.0.clone()
    }

    /// Whether both identifiers hold the same text.
    pub fn same(&self, other: &Self) -> (r: bool)
        ensures
            r == (self@ == other@),
    {
        same(self.0.as_str(), other.0.as_str())
    }
}

/// A job of the operating system's spooler.
#[derive(Debug, PartialEq, Eq, Hash)]
pub struct NativeJobId(String);

impl View for NativeJobId {
    type V = Seq<char>;

    closed spec fn view(&self) -> Seq<char> {
        self.0@
    }
}

impl Clone for NativeJobId {
    fn clone(&self) -> (r: Self)
        ensures
            r@ == self@,
    {
        NativeJobId(self.0.clone())
    }
}

impl NativeJobId {
    /// Accepts text that is not blank and has at most 512 bytes.
    pub fn parse(value: &str) -> (r: PrintResult<Self>)
        ensures
            outcome(r) == parsed_id("native job id"@, value@),
    {
        match parse_text("native job id", value) {
            Ok(text) => Ok(NativeJobId(text)),
            Err(error) => Err(error),
        }
    }

    /// The identifier that was stored as `value`.
    pub fn restore(value: String) -> (r: Self)
        ensures
            r@ == value@,
    {
        NativeJobId(value)
    }

    /// The text of the identifier.
    pub fn as_str(&self) -> (r: &str)
        ensures
            r@ == self@,
    {
        self.0.as_str()
    }

    /// The text of the identifier.
    pub fn into_string(self) -> (r: String)
        ensures
            r@ == self@,
    {
        self.0
    }

    /// A copy of the text of the identifier.
    pub fn to_string(&self) -> (r: String)
        ensures
            r@ == self@,
    {
        self.0.clone()
    }

    /// Whether both identifiers hold the same text.
    pub fn same(&self, other: &Self) -> (r: bool)
        ensures
            r == (self@ == other@),
    {
        same(self.0.as_str(), other.0.as_str())
    }
}

/// A job as the submitting client names it.
#[derive(Debug, PartialEq, Eq, Hash)]
pub struct ClientJobId(String);

impl View for ClientJobId {
    type V = Seq<char>;

    closed spec fn view(&self) -> Seq<char> {
        self.0@
    }
}

impl Clone for ClientJobId {
    fn clone(&self) -> (r: Self)
        ensures
            r@ == self@,
    {
        ClientJobId(self.0.clone())
    }
}

impl ClientJobId {
    /// Accepts text that is not blank and has at most 512 bytes.
    pub fn parse(value: &str) -> (r: PrintResult<Self>)
        ensures
            outcome(r) == parsed_id("client job id"@, value@),
    {
        match parse_text("client job id", value) {
            Ok(text) => Ok(ClientJobId(text)),
            Err(error) => Err(error),
        }
    }

    /// The identifier that was stored as `value`.
    pub fn restore(value: String) -> (r: Self)
        ensures
            r@ == value@,
    {
        ClientJobId(value)
    }

    /// The text of the identifier.
    pub fn as_str(&self) -> (r: &str)
        ensures
            r@ == self@,
    {
        self.0.as_str()
    }

    /// The text of the identifier.
    pub fn into_string(self) -> (r: String)
        ensures
            r@ == self@,
    {
        self.0
    }

    /// A copy of the text of the identifier.
    pub fn to_string(&self) -> (r: String)
        ensures
            r@ == self@,
    {
        self.0.clone()
    }

    /// Whether both identifiers hold the same text.
    pub fn same(&self, other: &Self) -> (r: bool)
        ensures
            r == (self@ == other@),
    {
        same(self.0.as_str(), other.0.as_str())
    }
}

/// A published printer.
#[derive(Debug, PartialEq, Eq, Hash)]
pub struct PrinterShareId(String);

impl View for PrinterShareId {
    type V = Seq<char>;

    closed spec fn view(&self) -> Seq<char> {
        self.0@
    }
}

impl Clone for PrinterShareId {
    fn clone(&self) -> (r: Self)
        ensures
            r@ == self@,
    {
        PrinterShareId(self.0.clone())
    }
}

impl PrinterShareId {
    /// Accepts text that is not blank and has at most 512 bytes.
    pub fn parse(value: &str) -> (r: PrintResult<Self>)
        ensures
            outcome(r) == parsed_id("printer share id"@, value@),
    {
        match parse_text("printer share id", value) {
            Ok(text) => Ok(PrinterShareId(text)),
            Err(error) => Err(error),
        }
    }

    /// The identifier that was stored as `value`.
    pub fn restore(value: String) -> (r: Self)
        ensures
            r@ == value@,
    {
        PrinterShareId(value)
    }

    /// The text of the identifier.
    pub fn as_str(&self) -> (r: &str)
        ensures
            r@ == self@,
    {
        self.0.as_str()
    }

    /// The text of the identifier.
    pub fn into_string(self) -> (r: String)
        ensures
            r@ == self@,
    {
        self.0
    }

    /// A copy of the text of the identifier.
    pub fn to_string(&self) -> (r: String)
        ensures
            r@ == self@,
    {
        self.0.clone()
    }

    /// Whether both identifiers hold the same text.
    pub fn same(&self, other: &Self) -> (r: bool)
        ensures
            r == (self@ == other@),
    {
        same(self.0.as_str(), other.0.as_str())
    }

    /// A fresh identifier: the text of a random UUID.
    pub fn random() -> (r: Self)
        ensures
            is_random_text(r@),
            valid_id(r@),
    {
        let text = random_text();
        proof {
            law_random_text(text@);
        }
        PrinterShareId(text)
    }
}

/// A local queue bound to a published printer.
#[derive(Debug, PartialEq, Eq, Hash)]
pub struct QueueBindingId(String);

impl View for QueueBindingId {
    type V = Seq<char>;

    closed spec fn view(&self) -> Seq<char> {
        self.0@
    }
}

impl Clone for QueueBindingId {
    fn clone(&self) -> (r: Self)
        ensures
            r@ == self@,
    {
        QueueBindingId(self.0.clone())
    }
}

impl QueueBindingId {
    /// Accepts text that is not blank and has at most 512 bytes.
    pub fn parse(value: &str) -> (r: PrintResult<Self>)
        ensures
            outcome(r) == parsed_id("queue binding id"@, value@),
    {
        match parse_text("queue binding id", value) {
            Ok(text) => Ok(QueueBindingId(text)),
            Err(error) => Err(error),
        }
    }

    /// The identifier that was stored as `value`.
    pub fn restore(value: String) -> (r: Self)
        ensures
            r@ == value@,
    {
        QueueBindingId(value)
    }

    /// The text of the identifier.
    pub fn as_str(&self) -> (r: &str)
        ensures
            r@ == self@,
    {
        self.0.as_str()
    }

    /// The text of the identifier.
    pub fn into_string(self) -> (r: String)
        ensures
            r@ == self@,
    {
        self.0
    }

    /// A copy of the text of the identifier.
    pub fn to_string(&self) -> (r: String)
        ensures
            r@ == self@,
    {
        self.0.clone()
    }

    /// Whether both identifiers hold the same text.
    pub fn same(&self, other: &Self) -> (r: bool)
        ensures
            r == (self@ == other@),
    {
        same(self.0.as_str(), other.0.as_str())
    }

    /// A fresh identifier: the text of a random UUID.
    pub fn random() -> (r: Self)
        ensures
            is_random_text(r@),
            valid_id(r@),
    {
        let text = random_text();
        proof {
            law_random_text(text@);
        }
        QueueBindingId(text)
    }
}

/// A print job.
#[derive(Debug, PartialEq, Eq, Hash)]
pub struct PrintJobId(String);

impl View for PrintJobId {
    type V = Seq<char>;

    closed spec fn view(&self) -> Seq<char> {
        self.0@
    }
}

impl Clone for PrintJobId {
    fn clone(&self) -> (r: Self)
        ensures
            r@ == self@,
    {
        PrintJobId(self.0.clone())
    }
}

impl PrintJobId {
    /// Accepts text that is not blank and has at most 512 bytes.
    pub fn parse(value: &str) -> (r: PrintResult<Self>)
        ensures
            outcome(r) == parsed_id("print job id"@, value@),
    {
        match parse_text("print job id", value) {
            Ok(text) => Ok(PrintJobId(text)),
            Err(error) => Err(error),
        }
    }

    /// The identifier that was stored as `value`.
    pub fn restore(value: String) -> (r: Self)
        ensures
            r@ == value@,
    {
        PrintJobId(value)
    }

    /// The text of the identifier.
    pub fn as_str(&self) -> (r: &str)
        ensures
            r@ == self@,
    {
        self.0.as_str()
    }

    /// The text of the identifier.
    pub fn into_string(self) -> (r: String)
        ensures
            r@ == self@,
    {
        self.0
    }

    /// A copy of the text of the identifier.
    pub fn to_string(&self) -> (r: String)
        ensures
            r@ == self@,
    {
        self.0.clone()
    }

    /// Whether both identifiers hold the same text.
    pub fn same(&self, other: &Self) -> (r: bool)
        ensures
            r == (self@ == other@),
    {
        same(self.0.as_str(), other.0.as_str())
    }

    /// A fresh identifier: the text of a random UUID.
    pub fn random() -> (r: Self)
        ensures
            is_random_text(r@),
            valid_id(r@),
    {
        let text = random_text();
        proof {
            law_random_text(text@);
        }
        PrintJobId(text)
    }
}

/// A random identifier, written out and read back, is accepted unchanged.
pub proof fn law_random_id_parses(label: Seq<char>, value: Seq<char>)
    requires
        is_random_text(value),
    ensures
        parsed_id(label, value) == Ok::<Seq<char>, PrintErrorView>(value),
{
    law_random_text(value);
}

} // verus!
