//! A declarative accessor-generation engine.
//!
//! Given a structure definition whose fields carry lightweight annotations
//! describing desired accessor methods (borrowed reads, copies, dereferencing
//! reads, setters, and so on), this library resolves each annotation
//! occurrence into a validated configuration and synthesizes, for each one,
//! the description of one accessor method: its name, receiver mode, body
//! shape and return type.
//!
//! The annotation vocabulary (the external spellings of the kind tags and of
//! the `name`/`vis`/`ty` keys) is table-driven, so a host toolchain can
//! configure the exact wire spellings it accepts.

use vstd::prelude::*;

mod engine;
mod entry;
mod error;
mod kind;
mod laws;
mod layout;
mod message;
mod method;
mod numeral;
mod printable;
mod synth;
mod validate;
mod vocab;

pub use engine::{
    derive_getset, fields_view, methods_view, spec_derive, spec_derive_from, spec_field_methods,
    spec_field_methods_from, spec_field_ref, spec_name_or_index, spec_occurrence_method,
    FieldInput, FieldV,
};
pub use entry::{entries_view, EntryV, MetaEntry};
pub use error::{ConfigError, ErrorV};
pub use kind::{AccessorKind, BodyShape, Receiver};
pub use kind::{
    default_name, kind_body, kind_is_mut_read, kind_is_write, kind_needs_type_override,
    kind_receiver,
};
pub use laws::{
    lemma_batch_per_field, lemma_code_shape_table, lemma_declaration_order, lemma_default_names,
    lemma_duplicate_kind_pair, lemma_missing_type, lemma_name_override,
    lemma_no_occurrences_no_methods, lemma_no_occurrences_skipped, lemma_positional_field_ref,
    lemma_resolved_name_override_never_missing, lemma_resolved_overrides_are_valid,
    lemma_two_kind_flags_never_resolve,
};
pub use layout::{
    initial_state, opt_text_view, spec_resolve, spec_resolve_from, spec_resolve_step,
    AttributeLayout, LayoutV, ResolveStateV,
};
pub use message::{
    spec_backticked, spec_backticked_tags, spec_kind_tag_text, spec_message, spec_tag_list,
};
pub use method::{texts_view, FieldRef, FieldRefV, GeneratedMethod, MethodV, RetV, ReturnType};
pub use printable::{spec_joined_upto, spec_rendered, AsPrintable, Printable};
pub use numeral::{dec_digit, spec_decimal, usize_to_decimal};
pub use synth::{effective_name, spec_return_type, spec_synthesize, synthesize};
pub use validate::{check_ident, check_type, check_visibility, ident_ok, type_ok, vis_ok};
pub use vocab::{kind_tag, standard_vocab, tag_lookup, VocabV, Vocabulary};

verus! {

/// The model of a result whose two sides both carry a model.
pub open spec fn result_view<A: View, B: View>(r: Result<A, B>) -> Result<A::V, B::V> {
    match r {
        Ok(a) => Ok(a@),
        Err(b) => Err(b@),
    }
}

} // verus!
