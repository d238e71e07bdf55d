use vstd::prelude::*;
use crate::kind::{BodyShape, Receiver};
use crate::layout::opt_text_view;

verus! {

/// Return type of a generated method, relative to the field's declared type
/// `T`, to the target `Target` reached by one level of the field type's
/// indirection-unwrap contract, and to the generated method's own type.
#[derive(Clone, Debug, PartialEq, Eq)]
pub enum ReturnType {
    /// `&T`
    RefField,
    /// `&mut T`
    RefMutField,
    /// `T`
    Field,
    /// `&Target`
    RefTarget,
    /// `&mut Target`
    RefMutTarget,
    /// `Target`
    Target,
    /// `()`
    Unit,
    /// `&mut Self`
    RefMutSelf,
    /// `Self`
    SelfValue,
    /// The caller-supplied type text, verbatim.
    Override(String),
}

/// Model of a return type.
#[verifier::ext_equal]
pub enum RetV {
    RefField,
    RefMutField,
    Field,
    RefTarget,
    RefMutTarget,
    Target,
    Unit,
    RefMutSelf,
    SelfValue,
    Override(Seq<char>),
}

impl View for ReturnType {
    type V = RetV;

    open spec fn view(&self) -> RetV {
        match self {
            ReturnType::RefField => RetV::RefField,
            ReturnType::RefMutField => RetV::RefMutField,
            ReturnType::Field => RetV::Field,
            ReturnType::RefTarget => RetV::RefTarget,
            ReturnType::RefMutTarget => RetV::RefMutTarget,
            ReturnType::Target => RetV::Target,
            ReturnType::Unit => RetV::Unit,
            ReturnType::RefMutSelf => RetV::RefMutSelf,
            ReturnType::SelfValue => RetV::SelfValue,
            ReturnType::Override(t) => RetV::Override(t@),
        }
    }
}

/// The field identity that the synthesizer works from: the field's name, or
/// its stringified positional index for unnamed fields, and the text of its
/// declared type.
#[derive(Clone, Debug, PartialEq, Eq)]
pub struct FieldRef {
    pub name_or_index: String,
    pub declared_type: String,
}

/// Model of a field reference.
#[verifier::ext_equal]
pub struct FieldRefV {
    pub name_or_index: Seq<char>,
    pub declared_type: Seq<char>,
}

impl View for FieldRef {
    type V = FieldRefV;

    open spec fn view(&self) -> FieldRefV {
        FieldRefV { name_or_index: self.name_or_index@, declared_type: self.declared_type@ }
    }
}

/// The models of a sequence of text lines.
pub open spec fn texts_view(ss: Seq<String>) -> Seq<Seq<char>> {
    ss.map_values(|s: String| s@)
}

/// One generated accessor method: everything the host toolchain needs to
/// assemble its source text.
#[derive(Clone, Debug, PartialEq, Eq)]
pub struct GeneratedMethod {
    /// Doc-comment lines copied verbatim from the field's documentation.
    pub doc_lines: Vec<String>,
    /// Visibility qualifier, or none for the host-language default.
    pub visibility: Option<String>,
    /// The method's name.
    pub name: String,
    /// Receiver mode of the method.
    pub receiver: Receiver,
    /// Whether the method takes one value parameter of the field's type.
    pub takes_value: bool,
    /// The field's name-or-index, as it appears in the body.
    pub field: String,
    /// The text of the field's declared type.
    pub field_type: String,
    /// Body shape of the method.
    pub body: BodyShape,
    /// Return type of the method.
    pub return_type: ReturnType,
}

/// Model of a generated method.
#[verifier::ext_equal]
pub struct MethodV {
    pub doc_lines: Seq<Seq<char>>,
    pub visibility: Option<Seq<char>>,
    pub name: Seq<char>,
    pub receiver: Receiver,
    pub takes_value: bool,
    pub field: Seq<char>,
    pub field_type: Seq<char>,
    pub body: BodyShape,
    pub return_type: RetV,
}

impl View for GeneratedMethod {
    type V = MethodV;

    open spec fn view(&self) -> MethodV {
        MethodV {
            doc_lines: texts_view(self.doc_lines@),
            visibility: opt_text_view(self.visibility),
            name: self.name@,
            receiver: self.receiver,
            takes_value: self.takes_value,
            field: self.field@,
            field_type: self.field_type@,
            body: self.body,
            return_type: self.return_type@,
        }
    }
}

} // verus!
