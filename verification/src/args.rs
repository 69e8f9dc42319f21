//! The argument of an invocation: exactly one token, and that token a string
//! literal that holds the path to a TeX file.

use vstd::prelude::*;

verus! {

/// Why the tokens of an invocation are not an argument.
#[allow(clippy::enum_variant_names)]
#[derive(Clone, Copy, Debug, PartialEq, Eq, Structural)]
pub enum Error {
    TheOnlyArgumentMustBeAStringLiteral,
    TheMacroExpectedAnArgument,
    TheMacroAcceptsOnlyOneArgument,
}

/// One token tree of the invocation, as far as the argument rules read it:
/// its kind and, for a literal, the text it was written as.
#[derive(Debug, PartialEq, Eq)]
pub enum ArgToken {
    Group,
    Ident,
    Punct,
    Literal(String),
}

/// The mathematical value of an [`ArgToken`].
pub enum ArgTokenView {
    Group,
    Ident,
    Punct,
    Literal(Seq<char>),
}

impl View for ArgToken {
    type V = ArgTokenView;

    open spec fn view(&self) -> ArgTokenView {
        match *self {
            ArgToken::Group => ArgTokenView::Group,
            ArgToken::Ident => ArgTokenView::Ident,
            ArgToken::Punct => ArgTokenView::Punct,
            ArgToken::Literal(text) => ArgTokenView::Literal(text@),
        }
    }
}

/// The value that a string literal written as `text` stands for, with its
/// quotes stripped and its escape sequences decoded; `None` where `text` is
/// not one string literal.
pub uninterp spec fn string_literal_value(text: Seq<char>) -> Option<Seq<char>>;

/// Parses `text` with `syn::parse_str` as a `syn::LitStr` and reads the
/// literal's decoded content with `LitStr::value`. The contract only names
/// the outcome: it is `string_literal_value` of the text, `None` standing for
/// a parse error.
#[verifier::external_body]
fn parse_string_literal(text: &str) -> (value: Option<String>)
    ensures
        string_literal_value(text@) == match value {
            Some(decoded) => Some(decoded@),
            None => None,
        },
{
    match syn::parse_str::<syn::LitStr>(text) {
        Ok(literal) => Some(literal.value()),
        Err(_) => None,
    }
}

/// The only token of an invocation, or the reason why there is none.
pub open spec fn only_token(tokens: Seq<ArgTokenView>) -> Result<ArgTokenView, Error> {
    if tokens.len() == 0 {
        Err(Error::TheMacroExpectedAnArgument)
    } else if tokens.len() > 1 {
        Err(Error::TheMacroAcceptsOnlyOneArgument)
    } else {
        Ok(tokens[0])
    }
}

/// The path that a decoded string literal gives, or the error for a token
/// that did not decode.
pub open spec fn path_of_decoded(decoded: Option<Seq<char>>) -> Result<Seq<char>, Error> {
    match decoded {
        Some(path) => Ok(path),
        None => Err(Error::TheOnlyArgumentMustBeAStringLiteral),
    }
}

/// The path that one token names: the value of a string literal. Any other
/// token, and a literal of another kind, is an error.
pub open spec fn path_of_token(token: ArgTokenView) -> Result<Seq<char>, Error> {
    match token {
        ArgTokenView::Literal(text) => path_of_decoded(string_literal_value(text)),
        _ => Err(Error::TheOnlyArgumentMustBeAStringLiteral),
    }
}

/// Whether `token` is a string literal: a literal whose text decodes.
pub open spec fn is_string_literal(token: ArgTokenView) -> bool {
    token matches ArgTokenView::Literal(text) && string_literal_value(text) is Some
}

/// The path that the tokens of an invocation name.
pub open spec fn path_of_tokens(tokens: Seq<ArgTokenView>) -> Result<Seq<char>, Error> {
    match only_token(tokens) {
        Ok(token) => path_of_token(token),
        Err(error) => Err(error),
    }
}

/// The tokens that an invocation was given.
#[derive(Debug, PartialEq, Eq)]
pub struct ArgsTokenStream(pub Vec<ArgToken>);

impl View for ArgsTokenStream {
    type V = Seq<ArgTokenView>;

    open spec fn view(&self) -> Seq<ArgTokenView> {
        self.0@.map_values(|token: ArgToken| token@)
    }
}

/// The single token of an invocation.
#[derive(Debug, PartialEq, Eq)]
pub struct ArgTokenTrees {
    pub presumed_string_literal_with_path_to_tex: ArgToken,
}

impl View for ArgTokenTrees {
    type V = ArgTokenView;

    open spec fn view(&self) -> ArgTokenView {
        self.presumed_string_literal_with_path_to_tex@
    }
}

/// A path as the invocation wrote it: not yet known to exist, and possibly
/// relative.
#[derive(Debug, PartialEq, Eq)]
pub struct PresumedPathToTex(pub String);

impl View for PresumedPathToTex {
    type V = Seq<char>;

    open spec fn view(&self) -> Seq<char> {
        self.0@
    }
}

impl From<String> for PresumedPathToTex {
    fn from(path: String) -> (presumed: Self) {
        PresumedPathToTex(path)
    }
}

impl vstd::std_specs::convert::FromSpecImpl<String> for PresumedPathToTex {
    open spec fn obeys_from_spec() -> bool {
        true
    }

    open spec fn from_spec(path: String) -> Self {
        PresumedPathToTex(path)
    }
}

/// The arguments of an invocation.
#[derive(Debug, PartialEq, Eq)]
pub struct Args {
    pub presumed_path_to_tex: PresumedPathToTex,
}

impl View for Args {
    type V = Seq<char>;

    open spec fn view(&self) -> Seq<char> {
        self.presumed_path_to_tex@
    }
}

/// Whether `args` is what `expected` says: the same path, or the same error.
pub open spec fn args_are(args: Result<Args, Error>, expected: Result<Seq<char>, Error>) -> bool {
    match args {
        Ok(found) => expected == Ok::<Seq<char>, Error>(found@),
        Err(error) => expected == Err::<Seq<char>, Error>(error),
    }
}

impl ArgsTokenStream {
    pub fn new(ts: Vec<ArgToken>) -> (stream: Self)
        ensures
            stream.0 == ts,
    {
        ArgsTokenStream(ts)
    }

    /// Takes the only token: no token is `TheMacroExpectedAnArgument`, a
    /// second token is `TheMacroAcceptsOnlyOneArgument` whatever it is.
    pub fn extract_arg_token_trees(self) -> (extracted: Result<ArgTokenTrees, Error>)
        ensures
            match extracted {
                Ok(trees) => only_token(self@) == Ok::<ArgTokenView, Error>(trees@),
                Err(error) => only_token(self@) == Err::<ArgTokenView, Error>(error),
            },
    {
        let mut tokens = self.0;
        if tokens.len() == 0 {
            return Err(Error::TheMacroExpectedAnArgument);
        }
        if tokens.len() > 1 {
            return Err(Error::TheMacroAcceptsOnlyOneArgument);
        }
        let presumed_string_literal_with_path_to_tex = tokens.pop().unwrap();
        Ok(ArgTokenTrees { presumed_string_literal_with_path_to_tex })
    }

    /// The arguments that the tokens hold: the path in the string literal
    /// that is the only token.
    pub fn try_get_args(self) -> (args: Result<Args, Error>)
        ensures
            args_are(args, path_of_tokens(self@)),
    {
        match self.extract_arg_token_trees() {
            Ok(trees) => trees.try_get_args(),
            Err(error) => Err(error),
        }
    }
}

impl ArgTokenTrees {
    /// The arguments that the token holds. A token that is no literal is
    /// refused at once; a literal is read again as a string literal, which
    /// refuses the other kinds of literal and decodes the path.
    pub fn try_get_args(self) -> (args: Result<Args, Error>)
        ensures
            args_are(args, path_of_token(self@)),
    {
        match self.presumed_string_literal_with_path_to_tex {
            ArgToken::Literal(text) => args_from_decoded(parse_string_literal(text.as_str())),
            _ => Err(Error::TheOnlyArgumentMustBeAStringLiteral),
        }
    }
}

/// The arguments that a literal gives once it has been read as a string
/// literal: its decoded value is the path, and a literal that did not decode
/// is `TheOnlyArgumentMustBeAStringLiteral`.
pub fn args_from_decoded(decoded: Option<String>) -> (args: Result<Args, Error>)
    ensures
        match decoded {
            Some(path) => args matches Ok(found) && found@ == path@,
            None => args == Err::<Args, Error>(Error::TheOnlyArgumentMustBeAStringLiteral),
        },
{
    match decoded {
        Some(path) => Ok(Args { presumed_path_to_tex: PresumedPathToTex::from(path) }),
        None => Err(Error::TheOnlyArgumentMustBeAStringLiteral),
    }
}

} // verus!
