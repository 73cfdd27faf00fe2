//! Structured error types returned by parsing, config loading, and formatting.
//!
//! Line and column numbers carried by these errors are 1-based; columns count
//! characters, not bytes.

use vstd::prelude::*;
use crate::text::{push_str, usize_to_string, copy_string, owned};

verus! {

broadcast use vstd::string::group_string_axioms;

#[verifier::external_type_specification]
#[verifier::external_body]
pub struct ExIoError(std::io::Error);

/// Structured config/spec deserialization failure metadata.
#[derive(Debug, Clone, PartialEq, Eq)]
pub struct FileParseError {
    /// Parser format name, such as `TOML` or `YAML`.
    pub format: &'static str,
    /// Human-readable parser message.
    pub message: String,
    /// Optional 1-based line number.
    pub line: Option<usize>,
    /// Optional 1-based column number.
    pub column: Option<usize>,
}

impl FileParseError {
    /// The text shown for this error: its message.
    pub fn render(&self) -> (r: String)
        ensures
            r@ == self.message@,
    {
        copy_string(&self.message)
    }
}

/// Parser diagnostics: a message and a 1-based line and column.
#[derive(Debug, Clone, PartialEq, Eq)]
pub struct ParseDiagnostic {
    /// Human-readable parser detail.
    pub message: String,
    /// 1-based source line number.
    pub line: usize,
    /// 1-based source column number, in characters.
    pub column: usize,
}

impl ParseDiagnostic {
    /// The text shown for this diagnostic: its message.
    pub fn render(&self) -> (r: String)
        ensures
            r@ == self.message@,
    {
        copy_string(&self.message)
    }
}

/// Parse error returned by the public library API.
#[derive(Debug, Clone, PartialEq, Eq)]
pub struct ParseError {
    /// Human-facing source name, for example a path or `<stdin>`.
    pub display_name: String,
    /// The source text that failed to parse.
    pub source_text: String,
    /// The 1-based source line number where this parser chunk started.
    pub start_line: usize,
    /// Structured parser diagnostic.
    pub diagnostic: ParseDiagnostic,
}

/// `parse error in {display_name}: {message}`.
pub open spec fn parse_error_text(e: ParseError) -> Seq<char> {
    "parse error in "@ + e.display_name@ + ": "@ + e.diagnostic.message@
}

impl ParseError {
    /// The same error under another source name.
    pub fn with_display_name(self, display_name: &str) -> (r: Self)
        ensures
            r.display_name@ == display_name@,
            r.source_text == self.source_text,
            r.start_line == self.start_line,
            r.diagnostic == self.diagnostic,
    {
        let mut e = self;
        e.display_name = owned(display_name);
        e
    }

    /// `parse error in {display_name}: {message}`.
    pub fn render(&self) -> (r: String)
        ensures
            r@ == parse_error_text(*self),
    {
        let mut s = owned("parse error in ");
        push_str(&mut s, self.display_name.as_str());
        push_str(&mut s, ": ");
        push_str(&mut s, self.diagnostic.message.as_str());
        s
    }
}

/// Config-file parse error.
#[derive(Debug, Clone, PartialEq, Eq)]
pub struct ConfigError {
    /// The config file that failed to deserialize, as text.
    pub path: String,
    /// Structured parser details for the failure.
    pub details: FileParseError,
}

impl ConfigError {
    /// Build a `ConfigError` from its component parts.
    pub fn new(
        path: String,
        format: &'static str,
        message: String,
        line: Option<usize>,
        column: Option<usize>,
    ) -> (r: Self)
        ensures
            r.path == path,
            r.details.format == format,
            r.details.message == message,
            r.details.line == line,
            r.details.column == column,
    {
        ConfigError { path, details: FileParseError { format, message, line, column } }
    }

    /// `config error in {path}: {message}`.
    pub fn render(&self) -> (r: String)
        ensures
            r@ == "config error in "@ + self.path@ + ": "@ + self.details.message@,
    {
        let mut s = owned("config error in ");
        push_str(&mut s, self.path.as_str());
        push_str(&mut s, ": ");
        push_str(&mut s, self.details.message.as_str());
        s
    }
}

/// Command-spec parse error.
#[derive(Debug, Clone, PartialEq, Eq)]
pub struct SpecError {
    /// The spec file that failed to deserialize, as text.
    pub path: String,
    /// Structured parser details for the failure.
    pub details: FileParseError,
}

impl SpecError {
    /// Build a `SpecError` from its component parts.
    pub fn new(
        path: String,
        format: &'static str,
        message: String,
        line: Option<usize>,
        column: Option<usize>,
    ) -> (r: Self)
        ensures
            r.path == path,
            r.details.format == format,
            r.details.message == message,
            r.details.line == line,
            r.details.column == column,
    {
        SpecError { path, details: FileParseError { format, message, line, column } }
    }

    /// `spec error in {path}: {message}`.
    pub fn render(&self) -> (r: String)
        ensures
            r@ == "spec error in "@ + self.path@ + ": "@ + self.details.message@,
    {
        let mut s = owned("spec error in ");
        push_str(&mut s, self.path.as_str());
        push_str(&mut s, ": ");
        push_str(&mut s, self.details.message.as_str());
        s
    }
}

/// Errors returned by parsing, config loading, spec loading, or formatting.
#[derive(Debug)]
pub enum Error {
    /// A parser error annotated with source text and line-offset context.
    Parse(ParseError),
    /// A user config parse error.
    Config(ConfigError),
    /// A built-in or user override spec parse error.
    Spec(SpecError),
    /// A filesystem or stream I/O failure.
    Io(std::io::Error),
    /// A formatter error that does not fit another variant.
    Formatter(String),
    /// A formatted line exceeded the configured line width.
    LayoutTooWide {
        /// 1-based line number in the formatted output.
        line_no: usize,
        /// Actual character width of the offending line.
        width: usize,
        /// Configured line width limit.
        limit: usize,
    },
}

/// Convenience alias for crate-level results.
pub type Result<T> = std::result::Result<T, Error>;

/// Text of an I/O error, as its `Display` implementation renders it.
///
/// Trusted: formats `std::io::Error` through `Display`. Nothing is stated of
/// the text: for operating-system errors it depends on the platform.
#[verifier::external_body]
pub(crate) fn io_error_text(e: &std::io::Error) -> String {
    format!("{e}")
}

/// Text of a layout error.
pub open spec fn layout_too_wide_text(line_no: nat, width: nat, limit: nat) -> Seq<char> {
    "line "@ + crate::text::decimal(line_no) + " is "@ + crate::text::decimal(width)
        + " characters wide, exceeding the configured limit of "@ + crate::text::decimal(limit)
}

impl Error {
    /// Attach a human-facing source name to a parse error; any other
    /// variant is returned unchanged.
    pub fn with_display_name(self, display_name: &str) -> (r: Self)
        ensures
            match self {
                Error::Parse(p) => r matches Error::Parse(q) && q.display_name@ == display_name@
                    && q.source_text == p.source_text && q.start_line == p.start_line
                    && q.diagnostic == p.diagnostic,
                _ => r == self,
            },
    {
        match self {
            Error::Parse(parse) => Error::Parse(parse.with_display_name(display_name)),
            other => other,
        }
    }

    /// The text shown for this error.
    pub fn render(&self) -> (r: String)
        ensures
            self matches Error::Parse(p) ==> r@ == parse_error_text(*p),
            self matches Error::Config(c) ==> r@ == "config error in "@ + c.path@ + ": "@
                + c.details.message@,
            self matches Error::Spec(c) ==> r@ == "spec error in "@ + c.path@ + ": "@
                + c.details.message@,
            self matches Error::Formatter(m) ==> r@ == "formatter error: "@ + m@,
            self matches Error::LayoutTooWide { line_no, width, limit } ==> r@
                == layout_too_wide_text(*line_no as nat, *width as nat, *limit as nat),
            self is Io ==> r@.subrange(0, 11) == "I/O error: "@,
    {
        match self {
            Error::Parse(p) => p.render(),
            Error::Config(c) => c.render(),
            Error::Spec(c) => c.render(),
            Error::Io(e) => {
                let mut s = owned("I/O error: ");
                let t = io_error_text(e);
                push_str(&mut s, t.as_str());
                proof {
                    reveal_strlit("I/O error: ");
                }
                assert(s@.subrange(0, 11) =~= "I/O error: "@);
                s
            },
            Error::Formatter(m) => {
                let mut s = owned("formatter error: ");
                push_str(&mut s, m.as_str());
                s
            },
            Error::LayoutTooWide { line_no, width, limit } => {
                let mut s = owned("line ");
                push_str(&mut s, usize_to_string(*line_no).as_str());
                push_str(&mut s, " is ");
                push_str(&mut s, usize_to_string(*width).as_str());
                push_str(&mut s, " characters wide, exceeding the configured limit of ");
                push_str(&mut s, usize_to_string(*limit).as_str());
                s
            },
        }
    }
}

impl From<std::io::Error> for Error {
    fn from(e: std::io::Error) -> (r: Error) {
        Error::Io(e)
    }
}

impl vstd::std_specs::convert::FromSpecImpl<std::io::Error> for Error {
    open spec fn obeys_from_spec() -> bool {
        true
    }

    open spec fn from_spec(e: std::io::Error) -> Error {
        Error::Io(e)
    }
}

} // verus!
