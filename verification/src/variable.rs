//! The value that a build is asked to embed.

use vstd::prelude::*;

verus! {

/// What a variable is, apart from how it is stored: whether its absence is
/// tolerated, and its value where it has one. A variable whose absence is
/// not tolerated has a value.
pub struct Variable {
    pub optional: bool,
    pub value: Option<Seq<char>>,
}

/// The two sorts of variable that can be embedded: one that must be there,
/// and one that may be missing.
#[derive(Clone, Debug, PartialEq, Eq)]
pub enum UnencryptedVariable {
    /// A variable without which the build fails.
    Required(String),
    /// A variable that the build may find unset.
    Optional(Option<String>),
}

impl View for UnencryptedVariable {
    type V = Variable;

    open spec fn view(&self) -> Variable {
        match self {
            UnencryptedVariable::Required(value) => Variable {
                optional: false,
                value: Some(value@),
            },
            UnencryptedVariable::Optional(Some(value)) => Variable {
                optional: true,
                value: Some(value@),
            },
            UnencryptedVariable::Optional(None) => Variable { optional: true, value: None },
        }
    }
}

impl From<String> for UnencryptedVariable {
    fn from(unencrypted_variable: String) -> (variable: Self) {
        UnencryptedVariable::Required(unencrypted_variable)
    }
}

impl vstd::std_specs::convert::FromSpecImpl<String> for UnencryptedVariable {
    open spec fn obeys_from_spec() -> bool {
        true
    }

    open spec fn from_spec(unencrypted_variable: String) -> Self {
        UnencryptedVariable::Required(unencrypted_variable)
    }
}

impl From<Option<String>> for UnencryptedVariable {
    fn from(option_unencrypted_variable: Option<String>) -> (variable: Self) {
        UnencryptedVariable::Optional(option_unencrypted_variable)
    }
}

impl vstd::std_specs::convert::FromSpecImpl<Option<String>> for UnencryptedVariable {
    open spec fn obeys_from_spec() -> bool {
        true
    }

    open spec fn from_spec(option_unencrypted_variable: Option<String>) -> Self {
        UnencryptedVariable::Optional(option_unencrypted_variable)
    }
}

impl UnencryptedVariable {
    /// The value of the variable, where it has one.
    pub fn inner(&self) -> (value: Option<&String>)
        ensures
            value matches Some(text) ==> self@.value == Some(text@),
            value is None ==> self@.value is None,
    {
        match self {
            UnencryptedVariable::Optional(option) => option.as_ref(),
            UnencryptedVariable::Required(v) => Some(v),
        }
    }

    /// Whether the variable may be missing.
    pub fn is_optional(&self) -> (optional: bool)
        ensures
            optional == self@.optional,
    {
        match self {
            UnencryptedVariable::Optional(_) => true,
            UnencryptedVariable::Required(_) => false,
        }
    }
}

} // verus!
