use vstd::prelude::*;
use crate::engine::{
    spec_derive_from, spec_field_methods, spec_field_methods_from, spec_field_ref,
    spec_occurrence_method, FieldV,
};
use crate::entry::EntryV;
use crate::error::ErrorV;
use crate::kind::{
    default_name, kind_body, kind_is_mut_read, kind_is_write, kind_needs_type_override,
    kind_receiver, AccessorKind,
};
use crate::layout::{spec_resolve, spec_resolve_from, spec_resolve_step, LayoutV, ResolveStateV};
use crate::method::{FieldRefV, MethodV, RetV};
use crate::numeral::spec_decimal;
use crate::synth::{effective_name, spec_return_type, spec_synthesize};
use crate::vocab::{tag_lookup, VocabV};

verus! {

/// Law: a successfully synthesized method follows the per-kind code-shape
/// table exactly. Its return type is the caller's override verbatim when one
/// was supplied, and the kind's entry of the default table otherwise; its
/// receiver mode, body shape, value parameter and visibility follow the kind
/// and the layout alone.
pub proof fn lemma_code_shape_table(l: LayoutV, f: FieldRefV, docs: Seq<Seq<char>>)
    requires
        l.kind is Some,
        spec_synthesize(l, f, docs) is Ok,
    ensures
        spec_synthesize(l, f, docs)->Ok_0.return_type == spec_return_type(
            l.kind->0,
            l.type_override,
        ),
        l.type_override is Some ==> spec_synthesize(l, f, docs)->Ok_0.return_type
            == RetV::Override(l.type_override->0),
        l.type_override is None ==> spec_synthesize(l, f, docs)->Ok_0.return_type == (match l.kind
            ->0 {
            AccessorKind::Read => RetV::RefField,
            AccessorKind::ReadMut => RetV::RefMutField,
            AccessorKind::ReadCopy => RetV::Field,
            AccessorKind::ReadThrough => RetV::RefTarget,
            AccessorKind::ReadThroughMut => RetV::RefMutTarget,
            AccessorKind::ReadThroughCopy => RetV::Target,
            AccessorKind::Write => RetV::Unit,
            AccessorKind::WriteBorrowed => RetV::RefMutSelf,
            AccessorKind::WriteOwned => RetV::SelfValue,
            _ => arbitrary(),
        }),
        spec_synthesize(l, f, docs)->Ok_0.receiver == kind_receiver(l.kind->0),
        spec_synthesize(l, f, docs)->Ok_0.body == kind_body(l.kind->0),
        spec_synthesize(l, f, docs)->Ok_0.takes_value == kind_is_write(l.kind->0),
        spec_synthesize(l, f, docs)->Ok_0.visibility == l.visibility,
        spec_synthesize(l, f, docs)->Ok_0.doc_lines == docs,
        spec_synthesize(l, f, docs)->Ok_0.field == f.name_or_index,
        spec_synthesize(l, f, docs)->Ok_0.field_type == f.declared_type,
{
    let k = l.kind->0;
    if l.type_override is None {
        assert(!kind_needs_type_override(k));
    }
}

/// Law: the `MissingType` error arises exactly for the three kinds whose
/// return type cannot be inferred, when their mandatory type override is
/// omitted (and the method name itself was derivable); no other kind ever
/// yields it. When a kind does need the override and none is given, the
/// occurrence never synthesizes successfully.
pub proof fn lemma_missing_type(l: LayoutV, f: FieldRefV, docs: Seq<Seq<char>>)
    requires
        l.kind is Some,
    ensures
        spec_synthesize(l, f, docs) == Err::<MethodV, ErrorV>(ErrorV::MissingType(l.kind->0))
            <==> (kind_needs_type_override(l.kind->0) && l.type_override is None && crate::validate::ident_ok(
            effective_name(l, f.name_or_index),
        )),
        !kind_needs_type_override(l.kind->0) ==> spec_synthesize(l, f, docs) != Err::<
            MethodV,
            ErrorV,
        >(ErrorV::MissingType(l.kind->0)),
        kind_needs_type_override(l.kind->0) && l.type_override is None ==> spec_synthesize(
            l,
            f,
            docs,
        ) is Err,
{
}

/// Law: a second kind flag in one occurrence is reported as `DuplicateKind`,
/// naming first the tag that selected the kind and then the new tag, in the
/// order they stand; this holds for any two tags, whichever kind each one
/// spells, as long as the first one is recognized.
pub proof fn lemma_duplicate_kind_pair(v: VocabV, t1: Seq<char>, t2: Seq<char>)
    requires
        tag_lookup(v.tags, t1) is Some,
    ensures
        spec_resolve(v, seq![EntryV::Flag(t1), EntryV::Flag(t2)]) == Err::<LayoutV, ErrorV>(
            ErrorV::DuplicateKind(t1, t2),
        ),
{
    let es = seq![EntryV::Flag(t1), EntryV::Flag(t2)];
    assert(es[0] == EntryV::Flag(t1));
    assert(es[1] == EntryV::Flag(t2));
    let st0 = crate::layout::initial_state();
    let step0 = spec_resolve_step(v, es[0], st0);
    assert(step0 is Ok);
    let st1 = step0->Ok_0;
    assert(st1.kind_tag == Some(t1));
    assert(spec_resolve_step(v, es[1], st1) == Err::<ResolveStateV, ErrorV>(
        ErrorV::DuplicateKind(t1, t2),
    ));
    assert(spec_resolve_from(v, es, 1, st1) == Err::<LayoutV, ErrorV>(
        ErrorV::DuplicateKind(t1, t2),
    ));
    assert(spec_resolve_from(v, es, 0, st0) == Err::<LayoutV, ErrorV>(
        ErrorV::DuplicateKind(t1, t2),
    ));
}

/// Once a kind is selected, any later kind flag makes resolution fail.
proof fn lemma_kind_set_then_flag_fails(v: VocabV, es: Seq<EntryV>, i: int, j: int, st: ResolveStateV)
    requires
        st.layout.kind is Some,
        0 <= i <= j < es.len(),
        es[j] is Flag,
    ensures
        spec_resolve_from(v, es, i, st) is Err,
    decreases j - i,
{
    if i == j {
        assert(spec_resolve_step(v, es[i], st) is Err);
    } else {
        match spec_resolve_step(v, es[i], st) {
            Ok(st2) => {
                assert(st2.layout.kind is Some);
                lemma_kind_set_then_flag_fails(v, es, i + 1, j, st2);
            },
            Err(_) => {},
        }
    }
}

/// Law: an occurrence holding two kind flags never resolves successfully,
/// wherever the two flags stand and whatever stands between them, as long as
/// the earlier one is a recognized tag.
pub proof fn lemma_two_kind_flags_never_resolve(v: VocabV, es: Seq<EntryV>, i: int, j: int)
    requires
        0 <= i < j < es.len(),
        es[i] is Flag,
        tag_lookup(v.tags, es[i]->Flag_0) is Some,
        es[j] is Flag,
    ensures
        spec_resolve(v, es) is Err,
{
    lemma_flags_fail_from(v, es, i, j, 0, crate::layout::initial_state());
}

/// Helper for the two-flag law, inducting over the position reached.
proof fn lemma_flags_fail_from(
    v: VocabV,
    es: Seq<EntryV>,
    i: int,
    j: int,
    at: int,
    st: ResolveStateV,
)
    requires
        0 <= at <= i < j < es.len(),
        es[i] is Flag,
        tag_lookup(v.tags, es[i]->Flag_0) is Some,
        es[j] is Flag,
    ensures
        spec_resolve_from(v, es, at, st) is Err,
    decreases i - at,
{
    if at == i {
        match st.layout.kind {
            Some(_) => {
                lemma_kind_set_then_flag_fails(v, es, at, j, st);
            },
            None => {
                match spec_resolve_step(v, es[at], st) {
                    Ok(st2) => {
                        assert(st2.layout.kind is Some);
                        lemma_kind_set_then_flag_fails(v, es, at + 1, j, st2);
                    },
                    Err(_) => {},
                }
            },
        }
    } else {
        match spec_resolve_step(v, es[at], st) {
            Ok(st2) => {
                lemma_flags_fail_from(v, es, i, j, at + 1, st2);
            },
            Err(_) => {},
        }
    }
}

/// Resolution steps only ever store validated override texts.
proof fn lemma_resolve_keeps_valid_overrides(v: VocabV, es: Seq<EntryV>, i: int, st: ResolveStateV)
    requires
        st.layout.name_override is Some ==> crate::validate::ident_ok(
            st.layout.name_override->0,
        ),
        st.layout.visibility is Some ==> crate::validate::vis_ok(st.layout.visibility->0),
        st.layout.type_override is Some ==> crate::validate::type_ok(st.layout.type_override->0),
        spec_resolve_from(v, es, i, st) is Ok,
    ensures
        spec_resolve_from(v, es, i, st)->Ok_0.name_override is Some ==> crate::validate::ident_ok(
            spec_resolve_from(v, es, i, st)->Ok_0.name_override->0,
        ),
        spec_resolve_from(v, es, i, st)->Ok_0.visibility is Some ==> crate::validate::vis_ok(
            spec_resolve_from(v, es, i, st)->Ok_0.visibility->0,
        ),
        spec_resolve_from(v, es, i, st)->Ok_0.type_override is Some ==> crate::validate::type_ok(
            spec_resolve_from(v, es, i, st)->Ok_0.type_override->0,
        ),
    decreases es.len() - i,
{
    if 0 <= i < es.len() {
        match spec_resolve_step(v, es[i], st) {
            Ok(st2) => {
                lemma_resolve_keeps_valid_overrides(v, es, i + 1, st2);
            },
            Err(_) => {},
        }
    }
}

/// Law: a successfully resolved layout is validated: its name override
/// parses as an identifier, its visibility override as a visibility
/// qualifier, and its type override as a type expression.
pub proof fn lemma_resolved_overrides_are_valid(v: VocabV, es: Seq<EntryV>)
    requires
        spec_resolve(v, es) is Ok,
    ensures
        spec_resolve(v, es)->Ok_0.name_override is Some ==> crate::validate::ident_ok(
            spec_resolve(v, es)->Ok_0.name_override->0,
        ),
        spec_resolve(v, es)->Ok_0.visibility is Some ==> crate::validate::vis_ok(
            spec_resolve(v, es)->Ok_0.visibility->0,
        ),
        spec_resolve(v, es)->Ok_0.type_override is Some ==> crate::validate::type_ok(
            spec_resolve(v, es)->Ok_0.type_override->0,
        ),
{
    lemma_resolve_keeps_valid_overrides(v, es, 0, crate::layout::initial_state());
}

/// Law: a layout that resolution produced with a name override never fails
/// synthesis for want of a name: the override was already validated.
pub proof fn lemma_resolved_name_override_never_missing(
    v: VocabV,
    es: Seq<EntryV>,
    f: FieldRefV,
    docs: Seq<Seq<char>>,
)
    requires
        spec_resolve(v, es) is Ok,
        spec_resolve(v, es)->Ok_0.name_override is Some,
        spec_resolve(v, es)->Ok_0.kind is Some,
    ensures
        spec_synthesize(spec_resolve(v, es)->Ok_0, f, docs) != Err::<MethodV, ErrorV>(
            ErrorV::MissingName(spec_resolve(v, es)->Ok_0.kind->0),
        ),
{
    lemma_resolved_overrides_are_valid(v, es);
}

/// Law: a field with zero annotation occurrences produces zero generated
/// methods and zero errors.
pub proof fn lemma_no_occurrences_no_methods(v: VocabV, f: FieldV, idx: int)
    requires
        f.occurrences.len() == 0,
    ensures
        spec_field_methods(v, f, idx) == Ok::<Seq<MethodV>, ErrorV>(Seq::<MethodV>::empty()),
{
}

/// Law: a field with zero annotation occurrences contributes nothing to the
/// structure's batch: deriving from its position equals deriving from the
/// next one.
pub proof fn lemma_no_occurrences_skipped(v: VocabV, fs: Seq<FieldV>, p: int)
    requires
        0 <= p < fs.len(),
        fs[p].occurrences.len() == 0,
    ensures
        spec_derive_from(v, fs, p) == spec_derive_from(v, fs, p + 1),
{
    lemma_no_occurrences_no_methods(v, fs[p], p);
    match spec_derive_from(v, fs, p + 1) {
        Ok(rest) => {
            assert(Seq::<MethodV>::empty() + rest =~= rest);
        },
        Err(_) => {},
    }
}

/// Law: with no name override, the method name is the kind-specific default
/// derived from the field's name-or-index: plain read kinds use it verbatim,
/// mutable read kinds append `_mut`, write kinds prepend `set_`.
pub proof fn lemma_default_names(l: LayoutV, f: FieldRefV, docs: Seq<Seq<char>>)
    requires
        l.name_override is None,
        l.kind is Some,
        spec_synthesize(l, f, docs) is Ok,
    ensures
        spec_synthesize(l, f, docs)->Ok_0.name == default_name(l.kind->0, f.name_or_index),
        !kind_is_mut_read(l.kind->0) && !kind_is_write(l.kind->0) ==> spec_synthesize(
            l,
            f,
            docs,
        )->Ok_0.name == f.name_or_index,
        kind_is_mut_read(l.kind->0) ==> spec_synthesize(l, f, docs)->Ok_0.name
            == f.name_or_index + "_mut"@,
        kind_is_write(l.kind->0) ==> spec_synthesize(l, f, docs)->Ok_0.name == "set_"@
            + f.name_or_index,
{
}

/// Law: with a name override, the method name is the override verbatim.
pub proof fn lemma_name_override(l: LayoutV, f: FieldRefV, docs: Seq<Seq<char>>)
    requires
        l.name_override is Some,
        l.kind is Some,
        spec_synthesize(l, f, docs) is Ok,
    ensures
        spec_synthesize(l, f, docs)->Ok_0.name == l.name_override->0,
{
}

/// Law: an unnamed field standing at position `idx` is addressed by its
/// stringified index: the synthesizer sees the decimal numeral of `idx` as
/// the field's name-or-index.
pub proof fn lemma_positional_field_ref(f: FieldV, idx: int)
    requires
        f.ident is None,
    ensures
        spec_field_ref(f, idx).name_or_index == spec_decimal(idx as nat),
{
}

/// Helper for the declaration-order law, inducting over the occurrences.
proof fn lemma_field_order_from(v: VocabV, f: FieldV, idx: int, j: int)
    requires
        0 <= j <= f.occurrences.len(),
        spec_field_methods_from(v, f, idx, j) is Ok,
    ensures
        spec_field_methods_from(v, f, idx, j)->Ok_0.len() == f.occurrences.len() - j,
        forall|jj: int|
            j <= jj < f.occurrences.len() ==> #[trigger] spec_occurrence_method(v, f, idx, jj)
                == Ok::<MethodV, ErrorV>(spec_field_methods_from(v, f, idx, j)->Ok_0[jj - j]),
    decreases f.occurrences.len() - j,
{
    if j < f.occurrences.len() {
        lemma_field_order_from(v, f, idx, j + 1);
    }
}

/// Law: a successful batch covers every field: deriving from position `i`
/// succeeds only when every later field's own derivation succeeds, and the
/// batch opens with the first field's methods, followed by the batch of the
/// remaining fields.
pub proof fn lemma_batch_per_field(v: VocabV, fs: Seq<FieldV>, i: int)
    requires
        0 <= i <= fs.len(),
        spec_derive_from(v, fs, i) is Ok,
    ensures
        forall|p: int| i <= p < fs.len() ==> #[trigger] spec_field_methods(v, fs[p], p) is Ok,
        i < fs.len() ==> spec_derive_from(v, fs, i)->Ok_0 == spec_field_methods(v, fs[i], i)->Ok_0
            + spec_derive_from(v, fs, i + 1)->Ok_0,
    decreases fs.len() - i,
{
    if i < fs.len() {
        lemma_batch_per_field(v, fs, i + 1);
    }
}

/// Law: declaration order is preserved. When every occurrence of a field
/// resolves and synthesizes successfully, the field's batch holds exactly
/// one method per occurrence, and the method at each position is the one its
/// occurrence yields: stacked occurrences come out in the order they were
/// declared.
pub proof fn lemma_declaration_order(v: VocabV, f: FieldV, idx: int)
    requires
        spec_field_methods(v, f, idx) is Ok,
    ensures
        spec_field_methods(v, f, idx)->Ok_0.len() == f.occurrences.len(),
        forall|j: int|
            0 <= j < f.occurrences.len() ==> #[trigger] spec_occurrence_method(v, f, idx, j)
                == Ok::<MethodV, ErrorV>(spec_field_methods(v, f, idx)->Ok_0[j]),
{
    lemma_field_order_from(v, f, idx, 0);
}

} // verus!
