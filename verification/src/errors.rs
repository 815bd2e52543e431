//! The failures that decoding, checking and rendering a log line can end in.
use vstd::prelude::*;
use crate::json::JsonSyntaxError;

verus! {

/// A level name or number that could not be read.
#[derive(Debug, Clone)]
pub struct LogLevelParseError {
    pub input: String,
}

impl LogLevelParseError {
    /// What went wrong, in words.
    pub fn description(&self) -> (text: &'static str)
        ensures
            text@ == "Unable to parse log level from input value"@,
    {
        "Unable to parse log level from input value"
    }

    /// The failure as it is shown: the description, a colon, and the
    /// description once more.
    pub fn message(&self) -> (text: String)
        ensures
            text@ == "Unable to parse log level from input value: "@
                + "Unable to parse log level from input value"@,
    {
        let mut text = String::from_str("Unable to parse log level from input value: ");
        text.append(self.description());
        text
    }
}

/// A record whose parts do not have the shape that rendering expects.
#[derive(Debug, Clone)]
pub struct BunyanLogParseError {
    msg: String,
}

impl View for BunyanLogParseError {
    type V = Seq<char>;

    closed spec fn view(&self) -> Seq<char> {
        self.msg@
    }
}

impl BunyanLogParseError {
    pub fn new(msg: &str) -> (error: BunyanLogParseError)
        ensures
            error@ == msg@,
    {
        BunyanLogParseError { msg: msg.to_owned() }
    }

    /// The message that the error was made with.
    pub fn description(&self) -> (text: &str)
        ensures
            text@ == self@,
    {
        self.msg.as_str()
    }
}

/// Why a JSON value could not be read as an unsigned 16-bit number: it has
/// the wrong shape, or it is a string that spells no such number.
#[derive(Debug, Clone)]
pub enum ParseIntFromJsonError {
    Structure(BunyanLogParseError),
    Numeric(String),
}

impl ParseIntFromJsonError {
    /// What the failure says: of a failure of structure its message, of a
    /// numeric failure the string that spells no number.
    pub open spec fn spec_message(&self) -> Seq<char> {
        match *self {
            ParseIntFromJsonError::Structure(e) => e@,
            ParseIntFromJsonError::Numeric(text) => "not a number from 0 to 65535: "@ + text@,
        }
    }

    /// What the failure says.
    pub fn message(&self) -> (text: String)
        ensures
            text@ == self.spec_message(),
    {
        match self {
            ParseIntFromJsonError::Structure(e) => String::from_str(e.description()),
            ParseIntFromJsonError::Numeric(found) => {
                let mut text = String::from_str("not a number from 0 to 65535: ");
                text.append(found.as_str());
                text
            },
        }
    }
}

/// The cause of a failed line.
#[derive(Debug)]
pub enum Kind {
    BunyanLogParse(BunyanLogParseError),
    Json(JsonSyntaxError),
}

/// A failed line: the cause, the line as it was read, its number and, where
/// the JSON reader gave one, the column.
#[derive(Debug)]
pub struct Error {
    kind: Kind,
    line: String,
    line_no: usize,
    column: Option<usize>,
}

impl Error {
    pub closed spec fn spec_kind(&self) -> Kind {
        self.kind
    }

    pub closed spec fn spec_line(&self) -> Seq<char> {
        self.line@
    }

    pub closed spec fn spec_line_no(&self) -> usize {
        self.line_no
    }

    pub closed spec fn spec_column(&self) -> Option<usize> {
        self.column
    }

    pub fn new(kind: Kind, line: String, line_no: usize, column: Option<usize>) -> (error: Error)
        ensures
            error.spec_kind() == kind,
            error.spec_line() == line@,
            error.spec_line_no() == line_no,
            error.spec_column() == column,
    {
        Error { kind, line, line_no, column }
    }

    pub fn kind(&self) -> (kind: &Kind)
        ensures
            *kind == self.spec_kind(),
    {
        &self.kind
    }

    pub fn line(&self) -> (line: &String)
        ensures
            line@ == self.spec_line(),
    {
        &self.line
    }

    pub fn line_no(&self) -> (line_no: usize)
        ensures
            line_no == self.spec_line_no(),
    {
        self.line_no
    }

    pub fn column(&self) -> (column: Option<usize>)
        ensures
            column == self.spec_column(),
    {
        self.column
    }

    /// What the cause says.
    pub open spec fn spec_message(&self) -> Seq<char> {
        match self.spec_kind() {
            Kind::BunyanLogParse(e) => e@,
            Kind::Json(e) => e.message@,
        }
    }

    /// What the cause says.
    pub fn message(&self) -> (text: &str)
        ensures
            text@ == self.spec_message(),
    {
        match &self.kind {
            Kind::BunyanLogParse(e) => e.description(),
            Kind::Json(e) => e.message.as_str(),
        }
    }
}

impl From<BunyanLogParseError> for Kind {
    #[inline]
    fn from(error: BunyanLogParseError) -> (kind: Kind) {
        Kind::BunyanLogParse(error)
    }
}

impl vstd::std_specs::convert::FromSpecImpl<BunyanLogParseError> for Kind {
    open spec fn obeys_from_spec() -> bool {
        true
    }

    open spec fn from_spec(error: BunyanLogParseError) -> Kind {
        Kind::BunyanLogParse(error)
    }
}

impl From<JsonSyntaxError> for Kind {
    #[inline]
    fn from(error: JsonSyntaxError) -> (kind: Kind) {
        Kind::Json(error)
    }
}

impl vstd::std_specs::convert::FromSpecImpl<JsonSyntaxError> for Kind {
    open spec fn obeys_from_spec() -> bool {
        true
    }

    open spec fn from_spec(error: JsonSyntaxError) -> Kind {
        Kind::Json(error)
    }
}

} // verus!
