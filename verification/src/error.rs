use vstd::prelude::*;
use crate::kind::AccessorKind;

verus! {

/// A fatal configuration error raised while resolving one annotation
/// occurrence or synthesizing one accessor. Every error aborts generation
/// for the whole structure; there is no partial output.
#[derive(Clone, Debug, PartialEq, Eq)]
pub enum ConfigError {
    /// A bare tag that is not a recognized kind tag.
    UnknownKind(String),
    /// Two kind tags in one occurrence: the tag seen first, then the new one.
    DuplicateKind(String, String),
    /// A grouped sub-list where a flat entry was expected.
    UnsupportedNesting,
    /// The value of the named key is not a quoted text literal.
    UnsupportedValueType(String),
    /// A key outside the active vocabulary.
    UnknownKey(String),
    /// The value of the name key does not parse as an identifier.
    InvalidIdentifier(String),
    /// The value of the visibility key does not parse as a visibility qualifier.
    InvalidVisibility(String),
    /// The value of the type key does not parse as a type expression.
    InvalidType(String),
    /// No kind selected in an occurrence.
    MissingKind,
    /// No valid method name: no override given and the default derived for
    /// this kind is not a valid identifier.
    MissingName(AccessorKind),
    /// The kind requires a type override and none was given.
    MissingType(AccessorKind),
    /// Annotations applied to something that is not a structure with fields;
    /// reported by the host boundary before the engine is invoked.
    UnsupportedStructureShape,
}

/// Model of a configuration error.
#[verifier::ext_equal]
pub enum ErrorV {
    UnknownKind(Seq<char>),
    DuplicateKind(Seq<char>, Seq<char>),
    UnsupportedNesting,
    UnsupportedValueType(Seq<char>),
    UnknownKey(Seq<char>),
    InvalidIdentifier(Seq<char>),
    InvalidVisibility(Seq<char>),
    InvalidType(Seq<char>),
    MissingKind,
    MissingName(AccessorKind),
    MissingType(AccessorKind),
    UnsupportedStructureShape,
}

impl View for ConfigError {
    type V = ErrorV;

    open spec fn view(&self) -> ErrorV {
        match self {
            ConfigError::UnknownKind(t) => ErrorV::UnknownKind(t@),
            ConfigError::DuplicateKind(a, b) => ErrorV::DuplicateKind(a@, b@),
            ConfigError::UnsupportedNesting => ErrorV::UnsupportedNesting,
            ConfigError::UnsupportedValueType(k) => ErrorV::UnsupportedValueType(k@),
            ConfigError::UnknownKey(k) => ErrorV::UnknownKey(k@),
            ConfigError::InvalidIdentifier(t) => ErrorV::InvalidIdentifier(t@),
            ConfigError::InvalidVisibility(t) => ErrorV::InvalidVisibility(t@),
            ConfigError::InvalidType(t) => ErrorV::InvalidType(t@),
            ConfigError::MissingKind => ErrorV::MissingKind,
            ConfigError::MissingName(k) => ErrorV::MissingName(*k),
            ConfigError::MissingType(k) => ErrorV::MissingType(*k),
            ConfigError::UnsupportedStructureShape => ErrorV::UnsupportedStructureShape,
        }
    }
}

} // verus!
