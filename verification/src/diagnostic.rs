//! What a build is told when it cannot go on.

use vstd::prelude::*;

use crate::text::view_some;

verus! {

/// The macro on whose behalf the build step works.
#[derive(Clone, Copy, Debug, PartialEq, Eq, Structural)]
pub enum MacroKind {
    /// `envc!`: the variable is required.
    Envc,
    /// `option_envc!`: the variable may be missing.
    OptionEnvc,
}

/// The sorts of error that end a build.
#[derive(Clone, Copy, Debug, PartialEq, Eq, Structural)]
pub enum DiagnosticKind {
    /// The macro was not called in one of its forms.
    InvalidSyntax,
    /// A required variable is not set.
    NotDefined,
    /// The variable is set to something that is not Unicode text.
    NotUnicode,
}

/// An error that ends a build: its sort, and the words shown at the place of
/// the call.
#[derive(Clone, Debug, PartialEq, Eq)]
pub struct Diagnostic {
    pub kind: DiagnosticKind,
    pub message: String,
}

impl View for Diagnostic {
    type V = (DiagnosticKind, Seq<char>);

    open spec fn view(&self) -> (DiagnosticKind, Seq<char>) {
        (self.kind, self.message@)
    }
}

/// The words for a call of `envc!` in none of its forms.
pub const ENVC_SYNTAX: &'static str =
    "Invalid syntax. Valid forms are `envc!(\"VAR_NAME\")` and `envc!(\"VAR_NAME\", \"custom error message\")`.";

/// The words for a call of `option_envc!` in another form than its one.
pub const OPTION_ENVC_SYNTAX: &'static str =
    "Invalid syntax. Expected input of the form `option_envc!(\"VAR_NAME\")`";

/// The words for a call of the macro `kind` in none of its forms.
pub open spec fn syntax_message(kind: MacroKind) -> Seq<char> {
    match kind {
        MacroKind::Envc => ENVC_SYNTAX@,
        MacroKind::OptionEnvc => OPTION_ENVC_SYNTAX@,
    }
}

/// The words for a required variable that is not set and for which the call
/// gave no words of its own.
pub open spec fn not_defined_message(name: Seq<char>) -> Seq<char> {
    "environment variable '"@ + name + "' not defined"@
}

/// The words for a required variable that is not set: those that the call
/// gave, or else words that name the variable.
pub open spec fn abort_words(name: Seq<char>, abort_message: Option<Seq<char>>) -> Seq<char> {
    match abort_message {
        Some(words) => words,
        None => not_defined_message(name),
    }
}

/// The words for a variable whose value is not Unicode text.
pub open spec fn not_unicode_message(name: Seq<char>) -> Seq<char> {
    "Environment variable $"@ + name + " contains non-unicode value"@
}

/// The error for a call of the macro `kind` in none of its forms.
pub fn syntax_error(kind: MacroKind) -> (diagnostic: Diagnostic)
    ensures
        diagnostic@ == (DiagnosticKind::InvalidSyntax, syntax_message(kind)),
{
    let message = match kind {
        MacroKind::Envc => String::from_str(ENVC_SYNTAX),
        MacroKind::OptionEnvc => String::from_str(OPTION_ENVC_SYNTAX),
    };
    Diagnostic { kind: DiagnosticKind::InvalidSyntax, message }
}

/// The error for a required variable that is not set: in the words that the
/// call gave, or else in words that name the variable.
pub fn not_defined(name: &str, abort_message: Option<String>) -> (diagnostic: Diagnostic)
    ensures
        diagnostic@ == (DiagnosticKind::NotDefined, abort_words(name@, view_some(abort_message))),
{
    let message = match abort_message {
        Some(words) => words,
        None => {
            let mut words = String::from_str("environment variable '");
            words.append(name);
            words.append("' not defined");
            words
        },
    };
    Diagnostic { kind: DiagnosticKind::NotDefined, message }
}

/// The error for a variable whose value is not Unicode text.
pub fn not_unicode(name: &str) -> (diagnostic: Diagnostic)
    ensures
        diagnostic@ == (DiagnosticKind::NotUnicode, not_unicode_message(name@)),
{
    let mut message = String::from_str("Environment variable $");
    message.append(name);
    message.append(" contains non-unicode value");
    Diagnostic { kind: DiagnosticKind::NotUnicode, message }
}

} // verus!
