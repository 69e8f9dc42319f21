use display_mode_tex::args::{
    args_from_decoded, ArgToken, ArgTokenTrees, Args, ArgsTokenStream, Error, PresumedPathToTex,
};

fn literal(text: &str) -> ArgToken {
    ArgToken::Literal(text.to_string())
}

fn path_of(tokens: Vec<ArgToken>) -> Result<String, Error> {
    ArgsTokenStream::new(tokens).try_get_args().map(|args| args.presumed_path_to_tex.0)
}

#[test]
fn no_token_is_a_missing_argument() {
    assert_eq!(path_of(vec![]), Err(Error::TheMacroExpectedAnArgument));
    assert_eq!(
        ArgsTokenStream::new(vec![]).extract_arg_token_trees(),
        Err(Error::TheMacroExpectedAnArgument)
    );
}

#[test]
fn second_token_is_one_too_many_whatever_it_is() {
    for second in [
        ArgToken::Group,
        ArgToken::Ident,
        ArgToken::Punct,
        literal("\"other.tex\""),
        literal("1"),
    ] {
        assert_eq!(
            path_of(vec![literal("\"formula.tex\""), second]),
            Err(Error::TheMacroAcceptsOnlyOneArgument)
        );
    }
    assert_eq!(
        path_of(vec![ArgToken::Ident, ArgToken::Punct, ArgToken::Ident]),
        Err(Error::TheMacroAcceptsOnlyOneArgument)
    );
}

#[test]
fn arity_is_checked_before_the_kind_of_the_first_token() {
    assert_eq!(
        path_of(vec![ArgToken::Ident, literal("\"formula.tex\"")]),
        Err(Error::TheMacroAcceptsOnlyOneArgument)
    );
}

#[test]
fn single_token_is_handed_on_as_it_is() {
    assert_eq!(
        ArgsTokenStream::new(vec![literal("\"formula.tex\"")]).extract_arg_token_trees(),
        Ok(ArgTokenTrees { presumed_string_literal_with_path_to_tex: literal("\"formula.tex\"") })
    );
    assert_eq!(
        ArgsTokenStream::new(vec![ArgToken::Group]).extract_arg_token_trees(),
        Ok(ArgTokenTrees { presumed_string_literal_with_path_to_tex: ArgToken::Group })
    );
}

#[test]
fn token_that_is_no_literal_is_refused() {
    for token in [ArgToken::Group, ArgToken::Ident, ArgToken::Punct] {
        assert_eq!(path_of(vec![token]), Err(Error::TheOnlyArgumentMustBeAStringLiteral));
    }
}

#[test]
fn literal_of_another_kind_is_refused() {
    for text in ["42", "1.5", "0xff_u8", "'a'", "b'a'", "b\"formula.tex\"", "br\"formula.tex\""] {
        assert_eq!(
            path_of(vec![literal(text)]),
            Err(Error::TheOnlyArgumentMustBeAStringLiteral)
        );
    }
}

#[test]
fn text_that_is_not_one_string_literal_is_refused() {
    for text in ["", "formula.tex", "\"formula.tex", "\"a\" \"b\"", "\"a\", \"b\""] {
        assert_eq!(
            path_of(vec![literal(text)]),
            Err(Error::TheOnlyArgumentMustBeAStringLiteral)
        );
    }
}

#[test]
fn string_literal_gives_its_value_without_the_quotes() {
    assert_eq!(path_of(vec![literal("\"formula.tex\"")]), Ok("formula.tex".to_string()));
    assert_eq!(
        path_of(vec![literal("\"/abs/path/formula.tex\"")]),
        Ok("/abs/path/formula.tex".to_string())
    );
    assert_eq!(path_of(vec![literal("\"\"")]), Ok(String::new()));
}

#[test]
fn escape_sequences_of_the_literal_are_decoded() {
    assert_eq!(path_of(vec![literal("\"tex\\\\formula.tex\"")]), Ok("tex\\formula.tex".to_string()));
    assert_eq!(path_of(vec![literal("\"a\\tb\\u{e9}\\x41\"")]), Ok("a\tb\u{e9}A".to_string()));
    assert_eq!(path_of(vec![literal("\"say \\\"tex\\\"\"")]), Ok("say \"tex\"".to_string()));
}

#[test]
fn raw_string_literal_is_taken_as_written() {
    assert_eq!(path_of(vec![literal("r\"tex\\formula.tex\"")]), Ok("tex\\formula.tex".to_string()));
    assert_eq!(path_of(vec![literal("r#\"a\"b\"#")]), Ok("a\"b".to_string()));
}

#[test]
fn token_trees_decode_their_literal() {
    let trees = ArgTokenTrees { presumed_string_literal_with_path_to_tex: literal("\"f.tex\"") };
    assert_eq!(
        trees.try_get_args(),
        Ok(Args { presumed_path_to_tex: PresumedPathToTex("f.tex".to_string()) })
    );
    let trees = ArgTokenTrees { presumed_string_literal_with_path_to_tex: ArgToken::Punct };
    assert_eq!(trees.try_get_args(), Err(Error::TheOnlyArgumentMustBeAStringLiteral));
}

#[test]
fn decoded_value_becomes_the_presumed_path() {
    assert_eq!(
        args_from_decoded(Some("formula.tex".to_string())),
        Ok(Args { presumed_path_to_tex: PresumedPathToTex("formula.tex".to_string()) })
    );
    assert_eq!(args_from_decoded(None), Err(Error::TheOnlyArgumentMustBeAStringLiteral));
}

#[test]
fn presumed_path_is_made_from_a_string() {
    assert_eq!(
        PresumedPathToTex::from("formula.tex".to_string()),
        PresumedPathToTex("formula.tex".to_string())
    );
}
