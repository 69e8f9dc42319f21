//! What an invocation expands to: a string literal, or a compile error for
//! an invocation whose argument has the wrong shape.

use vstd::prelude::*;
use crate::args::{is_string_literal, path_of_tokens, ArgsTokenStream, Error, PresumedPathToTex};
use crate::tex::{markdown_text, MarkdownTex, TexFileContents};

verus! {

/// The expansion of one invocation.
#[derive(Debug, PartialEq, Eq)]
pub enum Expansion {
    /// A string literal with this content.
    StringLiteral(String),
    /// A `compile_error!` with this message.
    CompileError(String),
}

/// The mathematical value of an [`Expansion`].
pub enum ExpansionView {
    StringLiteral(Seq<char>),
    CompileError(Seq<char>),
}

impl View for Expansion {
    type V = ExpansionView;

    open spec fn view(&self) -> ExpansionView {
        match *self {
            Expansion::StringLiteral(text) => ExpansionView::StringLiteral(text@),
            Expansion::CompileError(message) => ExpansionView::CompileError(message@),
        }
    }
}

/// The name under which the macro is invoked.
pub open spec fn macro_name() -> Seq<char> {
    "include_display_mode_tex"@
}

/// What the macro has to say of `error`, behind its own name.
pub open spec fn complaint(error: Error) -> Seq<char> {
    match error {
        Error::TheMacroAcceptsOnlyOneArgument => " accepts only one argument"@,
        Error::TheMacroExpectedAnArgument =>
            " expected an argument, specifically a string literal"@,
        Error::TheOnlyArgumentMustBeAStringLiteral => " expected a string literal as an argument"@,
    }
}

/// The message of the compile error that reports `error`: the macro's name
/// and its complaint.
pub open spec fn error_message(error: Error) -> Seq<char> {
    macro_name() + complaint(error)
}

/// The expansion of an invocation whose tokens name `path`, before any file
/// is touched: the path goes on to be read, an error ends in a compile error.
pub open spec fn path_or_compile_error(path: Result<Seq<char>, Error>) -> Result<
    Seq<char>,
    ExpansionView,
> {
    match path {
        Ok(presumed) => Ok(presumed),
        Err(error) => Err(ExpansionView::CompileError(error_message(error))),
    }
}

/// The content of the string literal that reports what reading the file came
/// to: the markdown of what was read, or the description of the failure.
pub open spec fn text_of_read(read: Result<Seq<char>, Seq<char>>) -> Seq<char> {
    match read {
        Ok(contents) => markdown_text(contents),
        Err(description) => description,
    }
}

impl Error {
    /// The fixed message that reports this error.
    pub fn message(&self) -> (message: String)
        ensures
            message@ == error_message(*self),
    {
        let mut message = String::from_str("include_display_mode_tex");
        match self {
            Error::TheMacroAcceptsOnlyOneArgument => {
                message.append(" accepts only one argument");
            },
            Error::TheMacroExpectedAnArgument => {
                message.append(" expected an argument, specifically a string literal");
            },
            Error::TheOnlyArgumentMustBeAStringLiteral => {
                message.append(" expected a string literal as an argument");
            },
        }
        message
    }

    /// An error in the shape of the argument stops compilation: it expands
    /// to a compile error with the error's message.
    pub fn into_expansion(self) -> (expansion: Expansion)
        ensures
            expansion@ == ExpansionView::CompileError(error_message(self)),
    {
        Expansion::CompileError(self.message())
    }
}

/// Whether `parsed` is the compile error that reports `error`.
pub open spec fn is_compile_error(
    parsed: Result<PresumedPathToTex, Expansion>,
    error: Error,
) -> bool {
    parsed matches Err(expansion) && expansion@ == ExpansionView::CompileError(
        error_message(error),
    )
}

impl ArgsTokenStream {
    /// The first half of an expansion, which looks at the tokens alone: the
    /// presumed path of a well-formed invocation, or the compile error that
    /// the invocation expands to.
    pub fn presumed_path_or_expansion(self) -> (parsed: Result<PresumedPathToTex, Expansion>)
        ensures
            match parsed {
                Ok(presumed) => path_or_compile_error(path_of_tokens(self@)) == Ok::<
                    Seq<char>,
                    ExpansionView,
                >(presumed@),
                Err(expansion) => path_or_compile_error(path_of_tokens(self@)) == Err::<
                    Seq<char>,
                    ExpansionView,
                >(expansion@),
            },
            self@.len() == 0 ==> is_compile_error(parsed, Error::TheMacroExpectedAnArgument),
            self@.len() >= 2 ==> is_compile_error(parsed, Error::TheMacroAcceptsOnlyOneArgument),
            self@.len() == 1 && !is_string_literal(self@[0]) ==> is_compile_error(
                parsed,
                Error::TheOnlyArgumentMustBeAStringLiteral,
            ),
            self@.len() == 1 && is_string_literal(self@[0]) ==> parsed is Ok,
    {
        match self.try_get_args() {
            Ok(args) => Ok(args.presumed_path_to_tex),
            Err(error) => Err(error.into_expansion()),
        }
    }
}

impl Expansion {
    /// The second half of an expansion, once the file has been read or has
    /// failed to: always a string literal, which holds the markdown on
    /// success and the description of the failure otherwise.
    pub fn from_outcome(outcome: Result<MarkdownTex, String>) -> (expansion: Expansion)
        ensures
            expansion@ == ExpansionView::StringLiteral(
                match outcome {
                    Ok(markdown) => markdown@,
                    Err(description) => description@,
                },
            ),
    {
        match outcome {
            Ok(markdown) => Expansion::StringLiteral(markdown.0),
            Err(description) => Expansion::StringLiteral(description),
        }
    }

    /// The expansion for what reading the file came to: the contents are
    /// escaped and wrapped, a failure is reported by its description.
    pub fn from_read(read: Result<TexFileContents, String>) -> (expansion: Expansion)
        ensures
            expansion@ == ExpansionView::StringLiteral(
                text_of_read(
                    match read {
                        Ok(contents) => Ok(contents@),
                        Err(description) => Err(description@),
                    },
                ),
            ),
    {
        match read {
            Ok(contents) => Expansion::from_outcome(Ok(contents.into_markdown_tex())),
            Err(description) => Expansion::from_outcome(Err(description)),
        }
    }
}

} // verus!
