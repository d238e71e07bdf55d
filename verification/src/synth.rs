use vstd::prelude::*;
use vstd::string::StringExecFns;
use crate::error::{ConfigError, ErrorV};
use crate::kind::{
    default_name, kind_body, kind_is_write, kind_needs_type_override, kind_receiver, AccessorKind,
    BodyShape, Receiver,
};
use crate::layout::{AttributeLayout, LayoutV};
use crate::method::{texts_view, FieldRef, FieldRefV, GeneratedMethod, MethodV, RetV, ReturnType};
use crate::validate::{check_ident, ident_ok};

verus! {

/// Return type of a method of kind `k` under type override `ty`: the
/// override verbatim when one is supplied, else the kind's entry of the
/// default table. The kinds that require an override never reach the table.
pub open spec fn spec_return_type(k: AccessorKind, ty: Option<Seq<char>>) -> RetV {
    match ty {
        Some(t) => RetV::Override(t),
        None => match k {
            AccessorKind::Read => RetV::RefField,
            AccessorKind::ReadMut => RetV::RefMutField,
            AccessorKind::ReadCopy => RetV::Field,
            AccessorKind::ReadThrough => RetV::RefTarget,
            AccessorKind::ReadThroughMut => RetV::RefMutTarget,
            AccessorKind::ReadThroughCopy => RetV::Target,
            AccessorKind::ReadAsRef => arbitrary(),
            AccessorKind::ReadAsThrough => arbitrary(),
            AccessorKind::ReadAsThroughMut => arbitrary(),
            AccessorKind::Write => RetV::Unit,
            AccessorKind::WriteBorrowed => RetV::RefMutSelf,
            AccessorKind::WriteOwned => RetV::SelfValue,
        },
    }
}

/// The method name a layout asks for: the override when one was supplied,
/// else the kind-specific default derived from the field's name-or-index.
pub open spec fn effective_name(l: LayoutV, name_or_index: Seq<char>) -> Seq<char>
    recommends
        l.kind is Some,
{
    match l.name_override {
        Some(s) => s,
        None => default_name(l.kind->0, name_or_index),
    }
}

/// What synthesizing one method from a resolved layout returns: the method,
/// or the first of these errors: no kind selected; no valid method name (the
/// override or derived default does not parse as an identifier); a required
/// type override missing.
pub open spec fn spec_synthesize(l: LayoutV, f: FieldRefV, docs: Seq<Seq<char>>) -> Result<
    MethodV,
    ErrorV,
> {
    match l.kind {
        None => Err(ErrorV::MissingKind),
        Some(k) => {
            let name = effective_name(l, f.name_or_index);
            if !ident_ok(name) {
                Err(ErrorV::MissingName(k))
            } else if kind_needs_type_override(k) && l.type_override is None {
                Err(ErrorV::MissingType(k))
            } else {
                Ok(
                    MethodV {
                        doc_lines: docs,
                        visibility: l.visibility,
                        name: name,
                        receiver: kind_receiver(k),
                        takes_value: kind_is_write(k),
                        field: f.name_or_index,
                        field_type: f.declared_type,
                        body: kind_body(k),
                        return_type: spec_return_type(k, l.type_override),
                    },
                )
            }
        },
    }
}

/// Synthesizes one accessor method from a resolved layout, the field's
/// identity and declared type, and the field's doc-comment lines, applying
/// the per-kind code-shape table and the default-naming policy.
pub fn synthesize(layout: &AttributeLayout, field: &FieldRef, docs: &Vec<String>) -> (r: Result<
    GeneratedMethod,
    ConfigError,
>)
    ensures
        crate::result_view(r) == spec_synthesize(layout@, field@, texts_view(docs@)),
{
    let k: AccessorKind = match &layout.kind {
        Some(k) => *k,
        None => {
            return Err(ConfigError::MissingKind);
        },
    };
    let is_mut_read = k == AccessorKind::ReadMut || k == AccessorKind::ReadThroughMut || k
        == AccessorKind::ReadAsThroughMut;
    let is_write = k == AccessorKind::Write || k == AccessorKind::WriteBorrowed || k
        == AccessorKind::WriteOwned;
    let needs_ty = k == AccessorKind::ReadAsRef || k == AccessorKind::ReadAsThrough || k
        == AccessorKind::ReadAsThroughMut;
    let name: String = match &layout.name_override {
        Some(s) => s.clone(),
        None => if is_mut_read {
            field.name_or_index.clone().concat("_mut")
        } else if is_write {
            String::from_str("set_").concat(field.name_or_index.as_str())
        } else {
            field.name_or_index.clone()
        },
    };
    proof {
        assert(name@ == effective_name(layout@, field@.name_or_index));
    }
    if !check_ident(name.as_str()) {
        return Err(ConfigError::MissingName(k));
    }
    let return_type: ReturnType = match &layout.type_override {
        Some(t) => ReturnType::Override(t.clone()),
        None => {
            if needs_ty {
                return Err(ConfigError::MissingType(k));
            }
            match k {
                AccessorKind::Read => ReturnType::RefField,
                AccessorKind::ReadMut => ReturnType::RefMutField,
                AccessorKind::ReadCopy => ReturnType::Field,
                AccessorKind::ReadThrough => ReturnType::RefTarget,
                AccessorKind::ReadThroughMut => ReturnType::RefMutTarget,
                AccessorKind::ReadThroughCopy => ReturnType::Target,
                AccessorKind::ReadAsRef => unreached(),
                AccessorKind::ReadAsThrough => unreached(),
                AccessorKind::ReadAsThroughMut => unreached(),
                AccessorKind::Write => ReturnType::Unit,
                AccessorKind::WriteBorrowed => ReturnType::RefMutSelf,
                AccessorKind::WriteOwned => ReturnType::SelfValue,
            }
        },
    };
    let receiver: Receiver = match k {
        AccessorKind::Read => Receiver::Borrow,
        AccessorKind::ReadMut => Receiver::BorrowMut,
        AccessorKind::ReadCopy => Receiver::Borrow,
        AccessorKind::ReadThrough => Receiver::Borrow,
        AccessorKind::ReadThroughMut => Receiver::BorrowMut,
        AccessorKind::ReadThroughCopy => Receiver::Borrow,
        AccessorKind::ReadAsRef => Receiver::Borrow,
        AccessorKind::ReadAsThrough => Receiver::Borrow,
        AccessorKind::ReadAsThroughMut => Receiver::BorrowMut,
        AccessorKind::Write => Receiver::BorrowMut,
        AccessorKind::WriteBorrowed => Receiver::BorrowMut,
        AccessorKind::WriteOwned => Receiver::Consume,
    };
    let body: BodyShape = match k {
        AccessorKind::Read => BodyShape::BorrowField,
        AccessorKind::ReadMut => BodyShape::BorrowMutField,
        AccessorKind::ReadCopy => BodyShape::CopyField,
        AccessorKind::ReadThrough => BodyShape::BorrowField,
        AccessorKind::ReadThroughMut => BodyShape::BorrowMutField,
        AccessorKind::ReadThroughCopy => BodyShape::DerefCopyField,
        AccessorKind::ReadAsRef => BodyShape::AsRefField,
        AccessorKind::ReadAsThrough => BodyShape::AsDerefField,
        AccessorKind::ReadAsThroughMut => BodyShape::AsDerefMutField,
        AccessorKind::Write => BodyShape::Assign,
        AccessorKind::WriteBorrowed => BodyShape::AssignThenSelf,
        AccessorKind::WriteOwned => BodyShape::AssignThenSelf,
    };
    let m = GeneratedMethod {
        doc_lines: docs.clone(),
        visibility: layout.visibility.clone(),
        name,
        receiver,
        takes_value: is_write,
        field: field.name_or_index.clone(),
        field_type: field.declared_type.clone(),
        body,
        return_type,
    };
    proof {
        assert(m.doc_lines@ =~= docs@);
        assert(m@ =~= spec_synthesize(layout@, field@, texts_view(docs@))->Ok_0);
    }
    Ok(m)
}

} // verus!
