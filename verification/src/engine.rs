use vstd::prelude::*;
use crate::entry::{entries_view, EntryV, MetaEntry};
use crate::error::{ConfigError, ErrorV};
use crate::layout::{opt_text_view, AttributeLayout};
use crate::method::{texts_view, FieldRef, FieldRefV, GeneratedMethod, MethodV};
use crate::numeral::{spec_decimal, usize_to_decimal};
use crate::synth::{spec_synthesize, synthesize};
use crate::vocab::{VocabV, Vocabulary};

verus! {

/// One field of the host structure, as handed over by the host toolchain:
/// its identifier (or none for a positional field), the text of its declared
/// type, its doc-comment lines, and its annotation occurrences in
/// declaration order.
#[derive(Clone, Debug, PartialEq, Eq)]
pub struct FieldInput {
    /// The field's identifier, or none for a positional field.
    pub ident: Option<String>,
    /// The text of the field's declared type.
    pub declared_type: String,
    /// Doc-comment lines attached to the field, copied verbatim onto each
    /// generated method.
    pub doc_lines: Vec<String>,
    /// The field's annotation occurrences, each an ordered entry list.
    pub occurrences: Vec<Vec<MetaEntry>>,
}

/// Model of one field.
#[verifier::ext_equal]
pub struct FieldV {
    pub ident: Option<Seq<char>>,
    pub declared_type: Seq<char>,
    pub doc_lines: Seq<Seq<char>>,
    pub occurrences: Seq<Seq<EntryV>>,
}

impl View for FieldInput {
    type V = FieldV;

    open spec fn view(&self) -> FieldV {
        FieldV {
            ident: opt_text_view(self.ident),
            declared_type: self.declared_type@,
            doc_lines: texts_view(self.doc_lines@),
            occurrences: self.occurrences@.map_values(|o: Vec<MetaEntry>| entries_view(o@)),
        }
    }
}

/// The models of a sequence of fields.
pub open spec fn fields_view(fs: Seq<FieldInput>) -> Seq<FieldV> {
    fs.map_values(|f: FieldInput| f@)
}

/// The models of a sequence of generated methods.
pub open spec fn methods_view(ms: Seq<GeneratedMethod>) -> Seq<MethodV> {
    ms.map_values(|m: GeneratedMethod| m@)
}

/// The name-or-index of a field standing at position `idx`: its identifier,
/// or its stringified index when it has none.
pub open spec fn spec_name_or_index(f: FieldV, idx: int) -> Seq<char> {
    match f.ident {
        Some(s) => s,
        None => spec_decimal(idx as nat),
    }
}

/// The field reference that the synthesizer sees for the field at `idx`.
pub open spec fn spec_field_ref(f: FieldV, idx: int) -> FieldRefV {
    FieldRefV { name_or_index: spec_name_or_index(f, idx), declared_type: f.declared_type }
}

/// The method that occurrence `j` of the field at position `idx` yields, or
/// the first error of its resolution or synthesis.
pub open spec fn spec_occurrence_method(v: VocabV, f: FieldV, idx: int, j: int) -> Result<
    MethodV,
    ErrorV,
> {
    match crate::layout::spec_resolve(v, f.occurrences[j]) {
        Ok(l) => spec_synthesize(l, spec_field_ref(f, idx), f.doc_lines),
        Err(e) => Err(e),
    }
}

/// The methods of the field at position `idx`, from occurrence `j` on, in
/// occurrence order; the first error aborts.
pub open spec fn spec_field_methods_from(v: VocabV, f: FieldV, idx: int, j: int) -> Result<
    Seq<MethodV>,
    ErrorV,
>
    decreases f.occurrences.len() - j,
{
    if j < 0 || j >= f.occurrences.len() {
        Ok(Seq::empty())
    } else {
        match spec_occurrence_method(v, f, idx, j) {
            Ok(m) => match spec_field_methods_from(v, f, idx, j + 1) {
                Ok(ms) => Ok(seq![m] + ms),
                Err(e) => Err(e),
            },
            Err(e) => Err(e),
        }
    }
}

/// All methods of the field at position `idx`, in occurrence order.
pub open spec fn spec_field_methods(v: VocabV, f: FieldV, idx: int) -> Result<
    Seq<MethodV>,
    ErrorV,
> {
    spec_field_methods_from(v, f, idx, 0)
}

/// The methods of the fields from position `i` on, in field-then-occurrence
/// declaration order; the first error aborts the whole batch.
pub open spec fn spec_derive_from(v: VocabV, fs: Seq<FieldV>, i: int) -> Result<
    Seq<MethodV>,
    ErrorV,
>
    decreases fs.len() - i,
{
    if i < 0 || i >= fs.len() {
        Ok(Seq::empty())
    } else {
        match spec_field_methods(v, fs[i], i) {
            Ok(ms) => match spec_derive_from(v, fs, i + 1) {
                Ok(rest) => Ok(ms + rest),
                Err(e) => Err(e),
            },
            Err(e) => Err(e),
        }
    }
}

/// What deriving accessors for a whole structure returns: one batch holding
/// every field's methods in declaration order, or the first error.
pub open spec fn spec_derive(v: VocabV, fs: Seq<FieldV>) -> Result<Seq<MethodV>, ErrorV> {
    spec_derive_from(v, fs, 0)
}

/// Derives the accessor batch of one structure: walks the fields in order,
/// resolves each annotation occurrence against the vocabulary, synthesizes
/// one method per occurrence, and concatenates everything in
/// field-then-occurrence declaration order. The first configuration error
/// aborts generation for the whole structure; there is no partial output.
#[verifier::loop_isolation(false)]
pub fn derive_getset(vocab: &Vocabulary, fields: &Vec<FieldInput>) -> (r: Result<
    Vec<GeneratedMethod>,
    ConfigError,
>)
    ensures
        match r {
            Ok(ms) => spec_derive(vocab@, fields_view(fields@)) == Ok::<_, ErrorV>(
                methods_view(ms@),
            ),
            Err(e) => spec_derive(vocab@, fields_view(fields@)) == Err::<Seq<MethodV>, _>(e@),
        },
{
    let ghost fsv: Seq<FieldV> = fields_view(fields@);
    let mut out: Vec<GeneratedMethod> = Vec::new();
    let nf = fields.len();
    let mut i: usize = 0;
    while i < nf
        invariant
            0 <= i <= nf,
            match spec_derive_from(vocab@, fsv, i as int) {
                Ok(rest) => spec_derive(vocab@, fsv) == Ok::<_, ErrorV>(
                    methods_view(out@) + rest,
                ),
                Err(e) => spec_derive(vocab@, fsv) == Err::<Seq<MethodV>, _>(e),
            },
        decreases nf - i,
    {
        let f = &fields[i];
        let ghost fv: FieldV = fsv[i as int];
        proof {
            assert(fv == f@);
        }
        let name_or_index: String = match &f.ident {
            Some(s) => s.clone(),
            None => usize_to_decimal(i),
        };
        let fref = FieldRef { name_or_index, declared_type: f.declared_type.clone() };
        proof {
            assert(fref@ == spec_field_ref(fv, i as int));
        }
        let no = f.occurrences.len();
        let mut fms: Vec<GeneratedMethod> = Vec::new();
        let mut j: usize = 0;
        while j < no
            invariant
                0 <= j <= no,
                match spec_field_methods_from(vocab@, fv, i as int, j as int) {
                    Ok(rest) => spec_field_methods(vocab@, fv, i as int) == Ok::<_, ErrorV>(
                        methods_view(fms@) + rest,
                    ),
                    Err(e) => spec_field_methods(vocab@, fv, i as int) == Err::<Seq<MethodV>, _>(
                        e,
                    ),
                },
            decreases no - j,
        {
            let occ = &f.occurrences[j];
            proof {
                assert(fv.occurrences[j as int] == entries_view(occ@));
            }
            let layout = match AttributeLayout::resolve(vocab, occ) {
                Ok(l) => l,
                Err(e) => {
                    return Err(e);
                },
            };
            let m = match synthesize(&layout, &fref, &f.doc_lines) {
                Ok(m) => m,
                Err(e) => {
                    return Err(e);
                },
            };
            let ghost fms_before: Seq<GeneratedMethod> = fms@;
            fms.push(m);
            proof {
                assert(spec_occurrence_method(vocab@, fv, i as int, j as int) == Ok::<_, ErrorV>(
                    m@,
                ));
                assert(methods_view(fms@) =~= methods_view(fms_before) + seq![m@]);
                let rest1 = spec_field_methods_from(vocab@, fv, i as int, j as int + 1);
                if rest1 is Ok {
                    assert((methods_view(fms_before) + seq![m@]) + rest1->Ok_0
                        =~= methods_view(fms_before) + (seq![m@] + rest1->Ok_0));
                }
            }
            j = j + 1;
        }
        let ghost out_before: Seq<GeneratedMethod> = out@;
        let ghost fms_final: Seq<GeneratedMethod> = fms@;
        out.append(&mut fms);
        proof {
            assert(spec_field_methods_from(vocab@, fv, i as int, no as int) == Ok::<
                Seq<MethodV>,
                ErrorV,
            >(Seq::empty()));
            assert(methods_view(fms_final) + Seq::<MethodV>::empty() =~= methods_view(fms_final));
            assert(methods_view(out@) =~= methods_view(out_before) + methods_view(fms_final));
            let rest1 = spec_derive_from(vocab@, fsv, i as int + 1);
            if rest1 is Ok {
                assert((methods_view(out_before) + methods_view(fms_final)) + rest1->Ok_0
                    =~= methods_view(out_before) + (methods_view(fms_final) + rest1->Ok_0));
            }
        }
        i = i + 1;
    }
    Ok(out)
}

} // verus!
