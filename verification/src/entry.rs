use vstd::prelude::*;

verus! {

/// One entry of an annotation occurrence, as handed over by the host
/// toolchain's tokenizer: either a bare tag (a kind selector), a
/// `key = "text"` pair, a pair whose value is not a quoted text literal,
/// or a grouped sub-list.
#[derive(Clone, Debug, PartialEq, Eq)]
pub enum MetaEntry {
    /// A bare tag, interpreted as a kind selector.
    Flag(String),
    /// A `key = "text"` pair whose value is a quoted text literal.
    KeyValue(String, String),
    /// A `key = <value>` pair whose value is not a quoted text literal;
    /// only the key is kept, for diagnostics.
    KeyValueNonText(String),
    /// A grouped sub-list, which the engine never accepts.
    Group,
}

/// Model of one annotation entry.
#[verifier::ext_equal]
pub enum EntryV {
    Flag(Seq<char>),
    KeyValue(Seq<char>, Seq<char>),
    KeyValueNonText(Seq<char>),
    Group,
}

impl View for MetaEntry {
    type V = EntryV;

    open spec fn view(&self) -> EntryV {
        match self {
            MetaEntry::Flag(t) => EntryV::Flag(t@),
            MetaEntry::KeyValue(k, v) => EntryV::KeyValue(k@, v@),
            MetaEntry::KeyValueNonText(k) => EntryV::KeyValueNonText(k@),
            MetaEntry::Group => EntryV::Group,
        }
    }
}

/// The models of a sequence of entries.
pub open spec fn entries_view(es: Seq<MetaEntry>) -> Seq<EntryV> {
    es.map_values(|e: MetaEntry| e@)
}

} // verus!
