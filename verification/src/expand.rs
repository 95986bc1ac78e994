//! What the build step decides for one call of a macro.
//!
//! The caller reads the call's tokens and looks the variable up in the
//! build's environment; what it found comes here as a `Lookup`. From there on
//! everything is decided here: which error ends the build, or what is written
//! in place of the call.

use vstd::prelude::*;
use vstd::utf8::encode_utf8;

use crate::cipher::{can_seal, sealable};
use crate::diagnostic::{
    abort_words, not_defined, not_unicode, not_unicode_message, syntax_error, syntax_message,
    Diagnostic, DiagnosticKind, MacroKind,
};
use crate::encrypt::{drawn, encrypt, gives_back, Emitted, Expansion};
use crate::syntax::{Input, Request};
use crate::text::view_some;
use crate::variable::Variable;

verus! {

/// What looking a variable up in the build's environment gave.
#[derive(Clone, Debug, PartialEq, Eq)]
pub enum Lookup {
    /// The variable is set, to this text.
    Present(String),
    /// The variable is not set.
    NotPresent,
    /// The variable is set, to something that is not Unicode text.
    NotUnicode,
}

impl Lookup {
    /// Whether the value found, where one was found, is short enough to be
    /// sealed.
    pub open spec fn fits(self) -> bool {
        self matches Lookup::Present(value) ==> sealable(encode_utf8(value@).len())
    }

    /// Tells whether the value found, where one was found, is short enough
    /// to be sealed.
    pub fn can_encode(&self) -> (short: bool)
        ensures
            short == self.fits(),
    {
        match self {
            Lookup::Present(value) => can_seal(value.as_str().as_bytes().len()),
            _ => true,
        }
    }
}

/// Whether `outcome` is what the build step owes for the variable `name`,
/// given what the lookup found.
///
/// - A value that was found is sealed under a key and a nonce of its own,
///   and what is written gives it back.
/// - A value that is not Unicode text ends the build, required or not.
/// - A missing value ends the build if the variable is required, in the
///   words of `message` or else in words that name the variable; if it is
///   not required, absence is written and nothing is sealed.
pub open spec fn encoded(
    name: Seq<char>,
    required: bool,
    message: Option<Seq<char>>,
    lookup: Lookup,
    outcome: Result<Expansion, Diagnostic>,
) -> bool {
    match lookup {
        Lookup::Present(value) => {
            let variable = Variable { optional: !required, value: Some(value@) };
            &&& outcome matches Ok(expansion)
            &&& drawn(expansion@, variable)
            &&& gives_back(expansion@, variable)
        },
        Lookup::NotUnicode => {
            &&& outcome matches Err(diagnostic)
            &&& diagnostic@ == (DiagnosticKind::NotUnicode, not_unicode_message(name))
        },
        Lookup::NotPresent => if required {
            &&& outcome matches Err(diagnostic)
            &&& diagnostic@ == (DiagnosticKind::NotDefined, abort_words(name, message))
        } else {
            &&& outcome matches Ok(expansion)
            &&& expansion@ == Emitted::Absent
        },
    }
}

/// Decides what the build does for the variable `name`, given what the
/// lookup found: it seals the value, writes absence, or ends the build.
///
/// `missing_message` is used only where a required variable is missing.
pub fn encode(
    name: &str,
    required: bool,
    missing_message: Option<String>,
    lookup: Lookup,
) -> (outcome: Result<Expansion, Diagnostic>)
    requires
        lookup.fits(),
    ensures
        encoded(name@, required, view_some(missing_message), lookup, outcome),
{
    match lookup {
        Lookup::Present(variable) => {
            if required {
                Ok(encrypt(variable))
            } else {
                Ok(encrypt(Some(variable)))
            }
        },
        Lookup::NotUnicode => Err(not_unicode(name)),
        Lookup::NotPresent => {
            if required {
                Err(not_defined(name, missing_message))
            } else {
                let absent: Option<String> = None;
                Ok(encrypt(absent))
            }
        },
    }
}

/// The build step of `envc!`: the variable is required.
pub fn envc(input: Input, lookup: Lookup) -> (outcome: Result<Expansion, Diagnostic>)
    requires
        lookup.fits(),
    ensures
        encoded(input@.variable_name, true, input@.abort_message, lookup, outcome),
{
    match input {
        Input::VariableName(variable_name) => encode(variable_name.as_str(), true, None, lookup),
        Input::VariableNameAndAbortMessage { variable_name, abort_message } => encode(
            variable_name.as_str(),
            true,
            Some(abort_message),
            lookup,
        ),
    }
}

/// Whether the macro `macro_name` takes a call of the form of `request`:
/// `envc!` takes both forms, `option_envc!` the name alone.
pub open spec fn admits(macro_name: MacroKind, request: Request) -> bool {
    macro_name == MacroKind::OptionEnvc ==> request.abort_message is None
}

/// Holds a call that was read against the forms that its macro takes.
///
/// This comes before anything is looked up: a call refused here ends the
/// build whatever the variable is set to.
pub fn check_form(input: &Input, macro_name: MacroKind) -> (outcome: Result<(), Diagnostic>)
    ensures
        admits(macro_name, input@) ==> outcome is Ok,
        !admits(macro_name, input@) ==> (outcome matches Err(diagnostic) && diagnostic@ == (
            DiagnosticKind::InvalidSyntax,
            syntax_message(macro_name),
        )),
{
    match (macro_name, input) {
        (MacroKind::OptionEnvc, Input::VariableNameAndAbortMessage { .. }) => Err(
            syntax_error(macro_name),
        ),
        _ => Ok(()),
    }
}

/// The build step of `option_envc!`: the variable may be missing, and the
/// call takes a name and nothing else. A call with a second literal is
/// refused without a look at what was found.
pub fn option_envc(input: Input, lookup: Lookup) -> (outcome: Result<Expansion, Diagnostic>)
    requires
        input@.abort_message is None ==> lookup.fits(),
    ensures
        input@.abort_message is Some ==> (outcome matches Err(diagnostic) && diagnostic@ == (
            DiagnosticKind::InvalidSyntax,
            syntax_message(MacroKind::OptionEnvc),
        )),
        input@.abort_message is None ==> encoded(
            input@.variable_name,
            false,
            None,
            lookup,
            outcome,
        ),
{
    match check_form(&input, MacroKind::OptionEnvc) {
        Err(diagnostic) => Err(diagnostic),
        Ok(_) => encode(input.variable_name().as_str(), false, None, lookup),
    }
}

} // verus!
