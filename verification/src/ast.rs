//! The syntax tree of a CMake source file, and its mathematical model.

use vstd::prelude::*;

verus! {

/// A parsed CMake source file.
#[derive(Debug, Clone, PartialEq, Eq)]
pub struct File {
    pub statements: Vec<Statement>,
}

/// A top-level statement in a CMake file.
#[derive(Debug, Clone, PartialEq, Eq)]
pub enum Statement {
    /// A command invocation, e.g. `target_link_libraries(foo PUBLIC bar)`.
    Command(CommandInvocation),
    /// A standalone comment (on its own line).
    Comment(Comment),
    /// One or more consecutive blank lines between statements (>= 1).
    BlankLines(usize),
    /// A configure-file placeholder line such as `@PACKAGE_INIT@`.
    TemplatePlaceholder(String),
}

/// A CMake command invocation.
#[derive(Debug, PartialEq, Eq)]
pub struct CommandInvocation {
    /// The command name, as written in the source.
    pub name: String,
    /// The argument list, in source order.
    pub arguments: Vec<Argument>,
    /// A comment after the closing paren on the same line.
    pub trailing_comment: Option<Comment>,
    /// Byte span (start, end) of the invocation in the source.
    pub span: (usize, usize),
}

impl Clone for CommandInvocation {
    fn clone(&self) -> (r: Self) {
        CommandInvocation {
            name: self.name.clone(),
            arguments: self.arguments.clone(),
            trailing_comment: self.trailing_comment.clone(),
            span: (self.span.0, self.span.1),
        }
    }
}

/// A single argument (or inline comment) in an argument list.
#[derive(Debug, Clone, PartialEq, Eq)]
pub enum Argument {
    /// `[[...]]`, `[=[...]=]`, etc. Content is verbatim.
    Bracket(BracketArgument),
    /// `"..."`, including the surrounding quotes.
    Quoted(String),
    /// Any other token: unquoted text, variable references, generator
    /// expressions, parenthesised groups.
    Unquoted(String),
    /// A comment that appears between arguments.
    InlineComment(Comment),
}

/// A bracket argument with its `=` nesting level.
#[derive(Debug, Clone, PartialEq, Eq)]
pub struct BracketArgument {
    /// Number of `=` characters between the outer brackets.
    pub level: usize,
    /// The raw source text, e.g. `[==[content]==]`.
    pub raw: String,
}

/// A CMake comment.
#[derive(Debug, Clone, PartialEq, Eq)]
pub enum Comment {
    /// `# text to end of line`, stored with its leading `#`.
    Line(String),
    /// `#[[...]]` or `#[=[...]=]`, stored as the full raw text.
    Bracket(String),
}

/// Model of a comment.
pub enum SComment {
    Line(Seq<char>),
    Bracket(Seq<char>),
}

/// Model of an argument.
pub enum SArgument {
    Bracket(nat, Seq<char>),
    Quoted(Seq<char>),
    Unquoted(Seq<char>),
    InlineComment(SComment),
}

/// Model of a command invocation.
pub struct SCommand {
    pub name: Seq<char>,
    pub arguments: Seq<SArgument>,
    pub trailing: Option<SComment>,
    pub span: (int, int),
}

/// Model of a statement.
pub enum SStatement {
    Command(SCommand),
    Comment(SComment),
    BlankLines(nat),
    TemplatePlaceholder(Seq<char>),
}

impl View for Comment {
    type V = SComment;

    open spec fn view(&self) -> SComment {
        match self {
            Comment::Line(s) => SComment::Line(s@),
            Comment::Bracket(s) => SComment::Bracket(s@),
        }
    }
}

impl View for Argument {
    type V = SArgument;

    open spec fn view(&self) -> SArgument {
        match self {
            Argument::Bracket(b) => SArgument::Bracket(b.level as nat, b.raw@),
            Argument::Quoted(s) => SArgument::Quoted(s@),
            Argument::Unquoted(s) => SArgument::Unquoted(s@),
            Argument::InlineComment(c) => SArgument::InlineComment(c@),
        }
    }
}

/// Model of an optional comment.
pub open spec fn opt_comment_view(c: Option<Comment>) -> Option<SComment> {
    match c {
        Some(c) => Some(c@),
        None => None,
    }
}

/// Model of an argument list.
pub open spec fn args_view(args: Seq<Argument>) -> Seq<SArgument> {
    args.map_values(|a: Argument| a@)
}

impl View for CommandInvocation {
    type V = SCommand;

    open spec fn view(&self) -> SCommand {
        SCommand {
            name: self.name@,
            arguments: args_view(self.arguments@),
            trailing: opt_comment_view(self.trailing_comment),
            span: (self.span.0 as int, self.span.1 as int),
        }
    }
}

impl View for Statement {
    type V = SStatement;

    open spec fn view(&self) -> SStatement {
        match self {
            Statement::Command(c) => SStatement::Command(c@),
            Statement::Comment(c) => SStatement::Comment(c@),
            Statement::BlankLines(n) => SStatement::BlankLines(*n as nat),
            Statement::TemplatePlaceholder(s) => SStatement::TemplatePlaceholder(s@),
        }
    }
}

/// Model of a statement list.
pub open spec fn stmts_view(stmts: Seq<Statement>) -> Seq<SStatement> {
    stmts.map_values(|s: Statement| s@)
}

impl View for File {
    type V = Seq<SStatement>;

    open spec fn view(&self) -> Seq<SStatement> {
        stmts_view(self.statements@)
    }
}

/// Source text of a comment model.
pub open spec fn comment_text(c: SComment) -> Seq<char> {
    match c {
        SComment::Line(s) => s,
        SComment::Bracket(s) => s,
    }
}

/// Source text of an argument model.
pub open spec fn argument_text(a: SArgument) -> Seq<char> {
    match a {
        SArgument::Bracket(_, s) => s,
        SArgument::Quoted(s) => s,
        SArgument::Unquoted(s) => s,
        SArgument::InlineComment(c) => comment_text(c),
    }
}

impl Comment {
    /// The source text of this comment.
    pub fn as_str(&self) -> (r: &str)
        ensures
            r@ == comment_text(self@),
    {
        match self {
            Comment::Line(s) => s.as_str(),
            Comment::Bracket(s) => s.as_str(),
        }
    }
}

impl Argument {
    /// The source text of this argument.
    pub fn as_str(&self) -> (r: &str)
        ensures
            r@ == argument_text(self@),
    {
        match self {
            Argument::Bracket(b) => b.raw.as_str(),
            Argument::Quoted(s) => s.as_str(),
            Argument::Unquoted(s) => s.as_str(),
            Argument::InlineComment(c) => c.as_str(),
        }
    }

    /// Whether this argument is an inline comment.
    pub fn is_comment(&self) -> (r: bool)
        ensures
            r == (self@ is InlineComment),
    {
        match self {
            Argument::InlineComment(_) => true,
            _ => false,
        }
    }
}

} // verus!
