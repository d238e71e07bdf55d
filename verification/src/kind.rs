use vstd::prelude::*;

verus! {

/// The closed set of accessor behaviours that one annotation occurrence may
/// request for a field.
#[derive(Clone, Copy, Debug, PartialEq, Eq, Structural)]
pub enum AccessorKind {
    /// Borrowed read of the field.
    Read,
    /// Mutable borrowed read of the field.
    ReadMut,
    /// Owned-copy read of the field.
    ReadCopy,
    /// Borrowed read that also unwraps one level of indirection.
    ReadThrough,
    /// Mutable borrowed read that also unwraps one level of indirection.
    ReadThroughMut,
    /// Copying read of the value behind one level of indirection.
    ReadThroughCopy,
    /// Read converting an optional-wrapped value to an optional borrowed reference.
    ReadAsRef,
    /// As `ReadAsRef`, but also unwrapping one level of indirection.
    ReadAsThrough,
    /// As `ReadAsThrough`, with a mutable borrow.
    ReadAsThroughMut,
    /// Plain assignment, returning nothing.
    Write,
    /// Assignment returning a mutable self-reference for chaining.
    WriteBorrowed,
    /// Assignment that consumes and returns self for chaining.
    WriteOwned,
}

/// Receiver mode of a generated method.
#[derive(Clone, Copy, Debug, PartialEq, Eq, Structural)]
pub enum Receiver {
    /// `&self`
    Borrow,
    /// `&mut self`
    BorrowMut,
    /// `self` by value
    Consume,
}

/// Body shape of a generated method, relative to its field `f` and, for the
/// write shapes, a single value parameter.
#[derive(Clone, Copy, Debug, PartialEq, Eq, Structural)]
pub enum BodyShape {
    /// `&self.f`
    BorrowField,
    /// `&mut self.f`
    BorrowMutField,
    /// `self.f`
    CopyField,
    /// `*self.f`
    DerefCopyField,
    /// `self.f.as_ref()`
    AsRefField,
    /// `self.f.as_deref()`
    AsDerefField,
    /// `self.f.as_deref_mut()`
    AsDerefMutField,
    /// `self.f = value`
    Assign,
    /// `self.f = value; self`
    AssignThenSelf,
}

/// The kinds whose default method name appends a mutable-read suffix.
pub open spec fn kind_is_mut_read(k: AccessorKind) -> bool {
    k == AccessorKind::ReadMut || k == AccessorKind::ReadThroughMut
        || k == AccessorKind::ReadAsThroughMut
}

/// The kinds that assign a new value to the field.
pub open spec fn kind_is_write(k: AccessorKind) -> bool {
    k == AccessorKind::Write || k == AccessorKind::WriteBorrowed
        || k == AccessorKind::WriteOwned
}

/// The kinds whose return type cannot be inferred from the field type alone,
/// so a type override is mandatory.
pub open spec fn kind_needs_type_override(k: AccessorKind) -> bool {
    k == AccessorKind::ReadAsRef || k == AccessorKind::ReadAsThrough
        || k == AccessorKind::ReadAsThroughMut
}

/// Receiver mode of each kind.
pub open spec fn kind_receiver(k: AccessorKind) -> Receiver {
    match k {
        AccessorKind::Read => Receiver::Borrow,
        AccessorKind::ReadMut => Receiver::BorrowMut,
        AccessorKind::ReadCopy => Receiver::Borrow,
        AccessorKind::ReadThrough => Receiver::Borrow,
        AccessorKind::ReadThroughMut => Receiver::BorrowMut,
        AccessorKind::ReadThroughCopy => Receiver::Borrow,
        AccessorKind::ReadAsRef => Receiver::Borrow,
        AccessorKind::ReadAsThrough => Receiver::Borrow,
        AccessorKind::ReadAsThroughMut => Receiver::BorrowMut,
        AccessorKind::Write => Receiver::BorrowMut,
        AccessorKind::WriteBorrowed => Receiver::BorrowMut,
        AccessorKind::WriteOwned => Receiver::Consume,
    }
}

/// Body shape of each kind.
pub open spec fn kind_body(k: AccessorKind) -> BodyShape {
    match k {
        AccessorKind::Read => BodyShape::BorrowField,
        AccessorKind::ReadMut => BodyShape::BorrowMutField,
        AccessorKind::ReadCopy => BodyShape::CopyField,
        AccessorKind::ReadThrough => BodyShape::BorrowField,
        AccessorKind::ReadThroughMut => BodyShape::BorrowMutField,
        AccessorKind::ReadThroughCopy => BodyShape::DerefCopyField,
        AccessorKind::ReadAsRef => BodyShape::AsRefField,
        AccessorKind::ReadAsThrough => BodyShape::AsDerefField,
        AccessorKind::ReadAsThroughMut => BodyShape::AsDerefMutField,
        AccessorKind::Write => BodyShape::Assign,
        AccessorKind::WriteBorrowed => BodyShape::AssignThenSelf,
        AccessorKind::WriteOwned => BodyShape::AssignThenSelf,
    }
}

/// Default method name derived from a field's name-or-index when no name
/// override is supplied: read kinds use the field's name verbatim, mutable
/// read kinds append `_mut`, write kinds prepend `set_`.
pub open spec fn default_name(k: AccessorKind, name_or_index: Seq<char>) -> Seq<char> {
    if kind_is_mut_read(k) {
        name_or_index + "_mut"@
    } else if kind_is_write(k) {
        "set_"@ + name_or_index
    } else {
        name_or_index
    }
}

} // verus!
