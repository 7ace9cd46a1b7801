//! Failures of lookups and conversions, and the source positions attached to them.

use vstd::prelude::*;
use vstd::string::*;

verus! {

/// The tag of a field value: which variant of the closed type set it is.
#[derive(Debug, Clone, Copy, PartialEq, Eq, Structural)]
pub enum InitKind {
    Unset,
    Bit,
    Bits,
    Int,
    String,
    Code,
    List,
    Dag,
    Def,
}

/// The host type that a conversion was asked to produce.
#[derive(Debug, Clone, Copy, PartialEq, Eq, Structural)]
pub enum HostType {
    Bool,
    BoolVec,
    Int,
    String,
    Str,
    Record,
    List,
    Dag,
}

/// A position in the source text of one parsed database: the identity of the
/// buffer it points into, and the offset of a character in that buffer.
#[derive(Debug, Clone, Copy, PartialEq, Eq, Structural)]
pub struct SourceLocation {
    pub buffer: u64,
    pub offset: usize,
}

/// Something that was written at a place in the source text.
pub trait SourceLoc {
    spec fn location_spec(&self) -> SourceLocation;

    /// The place where it was written.
    fn source_location(&self) -> (l: SourceLocation)
        ensures
            l == self.location_spec(),
    ;
}

impl SourceLoc for SourceLocation {
    open spec fn location_spec(&self) -> SourceLocation {
        *self
    }

    fn source_location(&self) -> (l: SourceLocation) {
        *self
    }
}

/// What went wrong, without a position.
#[derive(Debug, Clone, PartialEq, Eq)]
pub enum TableGenError {
    /// The value's variant is not the one that the requested host type needs.
    InvalidConversion { from: InitKind, to: HostType },
    /// The record has no field of this name.
    MissingValue(String),
    /// A name or a string payload is not valid UTF-8.
    InvalidEncoding,
    /// The parser's own diagnostic, carried as it came.
    ParseError(String),
    /// A position could not be resolved against the source text given.
    InvalidSourceLocation,
}

/// The mathematical value of a [`TableGenError`]: texts are character sequences.
pub enum TableGenErrorView {
    InvalidConversion { from: InitKind, to: HostType },
    MissingValue(Seq<char>),
    InvalidEncoding,
    ParseError(Seq<char>),
    InvalidSourceLocation,
}

/// A failure together with the position it was raised at, if one was attached.
#[derive(Debug, Clone, PartialEq, Eq)]
pub struct Error {
    pub kind: TableGenError,
    pub location: Option<SourceLocation>,
}

/// The mathematical value of an [`Error`].
pub struct ErrorView {
    pub kind: TableGenErrorView,
    pub location: Option<SourceLocation>,
}

impl InitKind {
    /// The tag's name as it appears in messages.
    pub open spec fn name_spec(self) -> Seq<char> {
        match self {
            InitKind::Unset => "Unset"@,
            InitKind::Bit => "Bit"@,
            InitKind::Bits => "Bits"@,
            InitKind::Int => "Int"@,
            InitKind::String => "String"@,
            InitKind::Code => "Code"@,
            InitKind::List => "List"@,
            InitKind::Dag => "Dag"@,
            InitKind::Def => "Def"@,
        }
    }

    pub fn name(self) -> (s: &'static str)
        ensures
            s@ == self.name_spec(),
    {
        match self {
            InitKind::Unset => "Unset",
            InitKind::Bit => "Bit",
            InitKind::Bits => "Bits",
            InitKind::Int => "Int",
            InitKind::String => "String",
            InitKind::Code => "Code",
            InitKind::List => "List",
            InitKind::Dag => "Dag",
            InitKind::Def => "Def",
        }
    }
}

impl HostType {
    /// The host type's full name as it appears in messages.
    pub open spec fn name_spec(self) -> Seq<char> {
        match self {
            HostType::Bool => "bool"@,
            HostType::BoolVec => "alloc::vec::Vec<bool>"@,
            HostType::Int => "i64"@,
            HostType::String => "alloc::string::String"@,
            HostType::Str => "&str"@,
            HostType::Record => "tblgen::record::Record"@,
            HostType::List => "tblgen::init::ListInit"@,
            HostType::Dag => "tblgen::init::DagInit"@,
        }
    }

    pub fn name(self) -> (s: &'static str)
        ensures
            s@ == self.name_spec(),
    {
        match self {
            HostType::Bool => "bool",
            HostType::BoolVec => "alloc::vec::Vec<bool>",
            HostType::Int => "i64",
            HostType::String => "alloc::string::String",
            HostType::Str => "&str",
            HostType::Record => "tblgen::record::Record",
            HostType::List => "tblgen::init::ListInit",
            HostType::Dag => "tblgen::init::DagInit",
        }
    }
}

impl View for TableGenError {
    type V = TableGenErrorView;

    open spec fn view(&self) -> TableGenErrorView {
        match self {
            TableGenError::InvalidConversion { from, to } => TableGenErrorView::InvalidConversion {
                from: *from,
                to: *to,
            },
            TableGenError::MissingValue(name) => TableGenErrorView::MissingValue(name@),
            TableGenError::InvalidEncoding => TableGenErrorView::InvalidEncoding,
            TableGenError::ParseError(text) => TableGenErrorView::ParseError(text@),
            TableGenError::InvalidSourceLocation => TableGenErrorView::InvalidSourceLocation,
        }
    }
}

impl TableGenErrorView {
    /// The message of a failure, without any position.
    pub open spec fn message(self) -> Seq<char> {
        match self {
            TableGenErrorView::InvalidConversion { from, to } => "invalid conversion from "@
                + from.name_spec() + " to "@ + to.name_spec(),
            TableGenErrorView::MissingValue(name) => "expected field "@ + name + " in record"@,
            TableGenErrorView::InvalidEncoding => "invalid UTF-8 string"@,
            TableGenErrorView::ParseError(text) => text,
            TableGenErrorView::InvalidSourceLocation => "invalid source location"@,
        }
    }

    /// This failure, raised at `location`.
    pub open spec fn at(self, location: SourceLocation) -> ErrorView {
        ErrorView { kind: self, location: Some(location) }
    }

    /// This failure, with no position.
    pub open spec fn bare(self) -> ErrorView {
        ErrorView { kind: self, location: None }
    }
}

impl TableGenError {
    /// The message of this failure.
    pub fn message(&self) -> (text: String)
        ensures
            text@ == self@.message(),
    {
        match self {
            TableGenError::InvalidConversion { from, to } => {
                let mut text = String::from_str("invalid conversion from ");
                text.append(from.name());
                text.append(" to ");
                text.append(to.name());
                text
            },
            TableGenError::MissingValue(name) => {
                let mut text = String::from_str("expected field ");
                text.append(name.as_str());
                text.append(" in record");
                text
            },
            TableGenError::InvalidEncoding => String::from_str("invalid UTF-8 string"),
            TableGenError::ParseError(diagnostic) => diagnostic.clone(),
            TableGenError::InvalidSourceLocation => String::from_str("invalid source location"),
        }
    }

    /// Raises this failure at the place of `origin`.
    pub fn with_location<L: SourceLoc>(self, origin: &L) -> (e: Error)
        ensures
            e@ == self@.at(origin.location_spec()),
            e.kind == self,
    {
        Error { kind: self, location: Some(origin.source_location()) }
    }
}

impl View for Error {
    type V = ErrorView;

    open spec fn view(&self) -> ErrorView {
        ErrorView { kind: self.kind@, location: self.location }
    }
}

impl ErrorView {
    /// The same failure, now raised at `location`, whatever position it had.
    pub open spec fn relocated(self, location: SourceLocation) -> ErrorView {
        ErrorView { kind: self.kind, location: Some(location) }
    }
}

impl Error {
    /// A failure with no position yet.
    pub fn new(kind: TableGenError) -> (e: Error)
        ensures
            e@ == kind@.bare(),
            e.kind == kind,
    {
        Error { kind, location: None }
    }

    /// Returns this failure raised at the place of `origin`. A position
    /// attached earlier is overwritten.
    pub fn set_location<L: SourceLoc>(self, origin: &L) -> (e: Error)
        ensures
            e@ == self@.relocated(origin.location_spec()),
            e.kind == self.kind,
    {
        Error { kind: self.kind, location: Some(origin.source_location()) }
    }

    /// The position attached to this failure, if any.
    pub fn location(&self) -> (l: Option<SourceLocation>)
        ensures
            l == self.location,
    {
        self.location
    }

    /// The message of this failure, without its position.
    pub fn message(&self) -> (text: String)
        ensures
            text@ == self@.kind.message(),
    {
        self.kind.message()
    }
}

/// The source text of one parsed database, under the identity that the
/// positions raised from that database carry.
#[derive(Debug, Clone, PartialEq, Eq)]
pub struct SourceInfo {
    pub buffer: u64,
    pub text: String,
}

/// Where the line that holds position `at` begins: just behind the nearest
/// line break before `at`, or at the start of the text.
pub open spec fn line_start(text: Seq<char>, at: int) -> int
    decreases at,
{
    if at <= 0 {
        0
    } else if text[at - 1] == '\n' {
        at
    } else {
        line_start(text, at - 1)
    }
}

/// Where the line that holds position `at` ends: at the nearest line break at
/// or behind `at`, or at the end of the text.
pub open spec fn line_end(text: Seq<char>, at: int) -> int
    decreases text.len() - at,
{
    if at >= text.len() {
        text.len() as int
    } else if text[at] == '\n' {
        at
    } else {
        line_end(text, at + 1)
    }
}

/// `n` blanks.
pub open spec fn blanks(n: int) -> Seq<char>
    decreases n,
{
    if n <= 0 {
        Seq::empty()
    } else {
        blanks(n - 1) + " "@
    }
}

/// The pointer to position `at`: the line that holds it, and below it a caret
/// in the column of `at`.
pub open spec fn pointer(text: Seq<char>, at: int) -> Seq<char> {
    text.subrange(line_start(text, at), line_end(text, at)) + "\n"@ + blanks(
        at - line_start(text, at),
    ) + "^"@
}

impl SourceInfo {
    pub fn new(buffer: u64, text: String) -> (info: SourceInfo)
        ensures
            info.buffer == buffer,
            info.text == text,
    {
        SourceInfo { buffer, text }
    }

    /// Whether `location` can be resolved against this text: it was raised
    /// from this buffer and lies within it.
    pub open spec fn resolves(&self, location: Option<SourceLocation>) -> bool {
        location matches Some(l) && l.buffer == self.buffer && l.offset <= self.text@.len()
    }

    /// Resolves `location` into the line it lies on and a caret below it.
    /// Fails with `InvalidSourceLocation` exactly when the position does not
    /// belong to this text.
    pub fn resolve(&self, location: Option<SourceLocation>) -> (r: Result<String, TableGenError>)
        ensures
            match r {
                Ok(p) => self.resolves(location) && p@ == pointer(
                    self.text@,
                    location->0.offset as int,
                ),
                Err(e) => !self.resolves(location) && e == TableGenError::InvalidSourceLocation,
            },
    {
        let at: usize = match location {
            Some(l) => {
                if l.buffer != self.buffer {
                    return Err(TableGenError::InvalidSourceLocation);
                }
                l.offset
            },
            None => {
                return Err(TableGenError::InvalidSourceLocation);
            },
        };
        let text = self.text.as_str();
        let len: usize = text.unicode_len();
        if at > len {
            return Err(TableGenError::InvalidSourceLocation);
        }
        let mut start: usize = at;
        while start > 0 && text.get_char(start - 1) != '\n'
            invariant
                start <= at <= text@.len(),
                line_start(text@, at as int) == line_start(text@, start as int),
            decreases start,
        {
            start -= 1;
        }
        let mut end: usize = at;
        while end < len && text.get_char(end) != '\n'
            invariant
                at <= end <= len == text@.len(),
                line_end(text@, at as int) == line_end(text@, end as int),
            decreases len - end,
        {
            end += 1;
        }
        let mut out = String::from_str(text.substring_char(start, end));
        out.append("\n");
        let mut column: usize = 0;
        while column < at - start
            invariant
                start <= at,
                column <= at - start,
                out@ == text@.subrange(start as int, end as int) + "\n"@ + blanks(column as int),
            decreases at - start - column,
        {
            out.append(" ");
            column += 1;
            assert(out@ =~= text@.subrange(start as int, end as int) + "\n"@ + blanks(
                column as int,
            ));
        }
        out.append("^");
        Ok(out)
    }
}

impl ErrorView {
    /// The text shown for this failure. Without source text it is the message.
    /// With source text it is the message and the pointer to the failure's
    /// position, or, where the position does not resolve against that text,
    /// the message and a line that says so.
    pub open spec fn rendered(self, info: Option<SourceInfo>) -> Seq<char> {
        match info {
            None => self.kind.message(),
            Some(source) => if source.resolves(self.location) {
                "error: "@ + self.kind.message() + "\n"@ + pointer(
                    source.text@,
                    self.location->0.offset as int,
                )
            } else {
                self.kind.message() + "\nfailed to print source information: "@
                    + TableGenErrorView::InvalidSourceLocation.message()
            },
        }
    }
}

impl Error {
    /// Renders this failure, against the source text where one is given. The
    /// message is always part of the result.
    pub fn render(&self, info: Option<&SourceInfo>) -> (text: String)
        ensures
            text@ == self@.rendered(
                match info {
                    Some(source) => Some(*source),
                    None => None,
                },
            ),
    {
        let message = self.kind.message();
        match info {
            None => message,
            Some(source) => match source.resolve(self.location) {
                Ok(pointer) => {
                    let mut text = String::from_str("error: ");
                    text.append(message.as_str());
                    text.append("\n");
                    text.append(pointer.as_str());
                    text
                },
                Err(failure) => {
                    let mut text = message;
                    text.append("\nfailed to print source information: ");
                    text.append(failure.message().as_str());
                    text
                },
            },
        }
    }
}

/// Where the message begins in the rendered text.
pub open spec fn message_offset(e: ErrorView, info: Option<SourceInfo>) -> int {
    if info is Some && info->0.resolves(e.location) {
        "error: "@.len() as int
    } else {
        0
    }
}

/// Attaching a position again overwrites the one attached before.
pub proof fn lemma_relocation_overwrites(
    e: ErrorView,
    first: SourceLocation,
    second: SourceLocation,
)
    ensures
        e.relocated(first).relocated(second) == e.relocated(second),
        e.relocated(first).kind == e.kind,
{
}

/// However a failure is rendered, its message is part of the text: the
/// characters from `message_offset` on, as many as the message has.
pub proof fn lemma_rendered_holds_message(e: ErrorView, info: Option<SourceInfo>)
    ensures
        0 <= message_offset(e, info) <= e.rendered(info).len() - e.kind.message().len(),
        e.rendered(info).subrange(
            message_offset(e, info),
            message_offset(e, info) + e.kind.message().len(),
        ) == e.kind.message(),
{
    let shown = e.rendered(info);
    let at = message_offset(e, info);
    assert(shown.subrange(at, at + e.kind.message().len()) =~= e.kind.message());
}

} // verus!
