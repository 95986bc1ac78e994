//! The forms in which the macros are called.
//!
//! A call is read as the list of its tokens. Two lists are accepted: one
//! string literal, the variable's name; or a string literal, a comma and a
//! second string literal, the name and the words to show where the variable
//! is not set.

use vstd::prelude::*;

use crate::diagnostic::{syntax_error, syntax_message, Diagnostic, DiagnosticKind, MacroKind};
use crate::text::view_some;

verus! {

/// One token of a call, as far as the forms tell tokens apart.
#[derive(Clone, Debug, PartialEq, Eq)]
pub enum Token {
    /// A literal, held as it is written in the source, quotes and all.
    Literal(String),
    /// A single punctuation character.
    Punct(char),
    /// An identifier or a bracketed group.
    Other,
}

/// What a call asks for.
#[derive(Clone, Debug, PartialEq, Eq)]
pub enum Input {
    /// A variable to look up at build time.
    VariableName(String),
    /// A variable to look up at build time, and the words to show if it is
    /// not set.
    VariableNameAndAbortMessage {
        /// The variable to look up.
        variable_name: String,
        /// The words to show if the variable is not set.
        abort_message: String,
    },
}

/// What a call asks for, with its texts taken as their characters.
pub struct Request {
    pub variable_name: Seq<char>,
    pub abort_message: Option<Seq<char>>,
}

impl View for Input {
    type V = Request;

    open spec fn view(&self) -> Request {
        match self {
            Input::VariableName(variable_name) => Request {
                variable_name: variable_name@,
                abort_message: None,
            },
            Input::VariableNameAndAbortMessage { variable_name, abort_message } => Request {
                variable_name: variable_name@,
                abort_message: Some(abort_message@),
            },
        }
    }
}

impl Input {
    /// The name of the variable that the call asks for.
    pub fn variable_name(&self) -> (name: &String)
        ensures
            name@ == self@.variable_name,
    {
        match self {
            Input::VariableName(variable_name) => variable_name,
            Input::VariableNameAndAbortMessage { variable_name, .. } => variable_name,
        }
    }
}

/// What stands between the quotes of `literal`, where it begins and ends
/// with a double quote. Nothing between them is unescaped.
pub open spec fn unquoted(literal: Seq<char>) -> Option<Seq<char>> {
    if literal.len() >= 2 && literal[0] == '"' && literal[literal.len() - 1] == '"' {
        Some(literal.subrange(1, literal.len() - 1))
    } else {
        None
    }
}

/// The string that a token holds, where it is a string literal.
pub open spec fn string_of(token: Token) -> Option<Seq<char>> {
    match token {
        Token::Literal(literal) => unquoted(literal@),
        _ => None,
    }
}

/// What the call made of `tokens` asks for, where it has one of the two
/// forms.
pub open spec fn parsed(tokens: Seq<Token>) -> Option<Request> {
    if tokens.len() == 1 {
        match string_of(tokens[0]) {
            Some(variable_name) => Some(Request { variable_name, abort_message: None }),
            None => None,
        }
    } else if tokens.len() == 3 {
        match (string_of(tokens[0]), tokens[1], string_of(tokens[2])) {
            (Some(variable_name), Token::Punct(','), Some(abort_message)) => Some(
                Request { variable_name, abort_message: Some(abort_message) },
            ),
            _ => None,
        }
    } else {
        None
    }
}

/// Gives what stands between the quotes of a literal, where it is a string
/// literal, and `None` otherwise.
pub fn stringify(literal: &str) -> (value: Option<String>)
    ensures
        view_some(value) == unquoted(literal@),
{
    let len = literal.unicode_len();
    if len >= 2 && literal.get_char(0) == '"' && literal.get_char(len - 1) == '"' {
        Some(literal.substring_char(1, len - 1).to_owned())
    } else {
        None
    }
}

/// Reads the tokens of a call of the macro `macro_name`.
///
/// A call in one of the two forms gives what it asks for; every other list
/// of tokens gives the error that names the forms of that macro.
pub fn parse(tokens: &[Token], macro_name: MacroKind) -> (input: Result<Input, Diagnostic>)
    ensures
        parsed(tokens@) matches Some(request) ==> (input matches Ok(found) && found@ == request),
        parsed(tokens@) is None ==> (input matches Err(diagnostic) && diagnostic@ == (
            DiagnosticKind::InvalidSyntax,
            syntax_message(macro_name),
        )),
{
    if tokens.len() == 1 {
        match &tokens[0] {
            Token::Literal(variable_literal) => match stringify(variable_literal.as_str()) {
                Some(variable) => Ok(Input::VariableName(variable)),
                None => Err(syntax_error(macro_name)),
            },
            _ => Err(syntax_error(macro_name)),
        }
    } else if tokens.len() == 3 {
        match (&tokens[0], &tokens[1], &tokens[2]) {
            (
                Token::Literal(variable_literal),
                Token::Punct(comma),
                Token::Literal(message_literal),
            ) => match (
                stringify(variable_literal.as_str()),
                *comma == ',',
                stringify(message_literal.as_str()),
            ) {
                (Some(variable_name), true, Some(abort_message)) => Ok(
                    Input::VariableNameAndAbortMessage { variable_name, abort_message },
                ),
                _ => Err(syntax_error(macro_name)),
            },
            _ => Err(syntax_error(macro_name)),
        }
    } else {
        Err(syntax_error(macro_name))
    }
}

} // verus!
