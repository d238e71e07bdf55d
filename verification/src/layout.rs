use vstd::prelude::*;
use crate::entry::{entries_view, EntryV, MetaEntry};
use crate::error::{ConfigError, ErrorV};
use crate::kind::AccessorKind;
use crate::validate::{check_ident, check_type, check_visibility, ident_ok, type_ok, vis_ok};
use crate::vocab::{tag_lookup, VocabV, Vocabulary};

verus! {

/// The resolved, validated configuration of one annotation occurrence.
#[derive(Clone, Debug, PartialEq, Eq)]
pub struct AttributeLayout {
    /// Method name override; when absent a kind-specific default is derived
    /// from the field's name-or-index.
    pub name_override: Option<String>,
    /// Visibility override; when absent the generated method carries no
    /// explicit qualifier.
    pub visibility: Option<String>,
    /// The requested accessor kind; exactly one is required per occurrence.
    pub kind: Option<AccessorKind>,
    /// Return-type override; mandatory for the kinds that cannot infer a
    /// return type from the field type alone.
    pub type_override: Option<String>,
}

/// Model of a resolved configuration.
#[verifier::ext_equal]
pub struct LayoutV {
    pub name_override: Option<Seq<char>>,
    pub visibility: Option<Seq<char>>,
    pub kind: Option<AccessorKind>,
    pub type_override: Option<Seq<char>>,
}

/// The model of an optional text value.
pub open spec fn opt_text_view(o: Option<String>) -> Option<Seq<char>> {
    match o {
        Some(s) => Some(s@),
        None => None,
    }
}

impl View for AttributeLayout {
    type V = LayoutV;

    open spec fn view(&self) -> LayoutV {
        LayoutV {
            name_override: opt_text_view(self.name_override),
            visibility: opt_text_view(self.visibility),
            kind: self.kind,
            type_override: opt_text_view(self.type_override),
        }
    }
}

/// The accumulator that resolution threads through the entries: the layout
/// built so far, and the tag text that selected its kind (kept only to name
/// both tags when a second kind flag appears).
#[verifier::ext_equal]
pub struct ResolveStateV {
    pub layout: LayoutV,
    pub kind_tag: Option<Seq<char>>,
}

/// The all-absent accumulator that resolution starts from.
pub open spec fn initial_state() -> ResolveStateV {
    ResolveStateV {
        layout: LayoutV {
            name_override: None,
            visibility: None,
            kind: None,
            type_override: None,
        },
        kind_tag: None,
    }
}

/// One resolution step: how a single entry transforms the accumulator, or
/// which error it raises.
pub open spec fn spec_resolve_step(v: VocabV, e: EntryV, st: ResolveStateV) -> Result<
    ResolveStateV,
    ErrorV,
> {
    match e {
        EntryV::Flag(tag) => match st.layout.kind {
            Some(_) => Err(ErrorV::DuplicateKind(st.kind_tag->0, tag)),
            None => match tag_lookup(v.tags, tag) {
                Some(k) => Ok(
                    ResolveStateV {
                        layout: LayoutV { kind: Some(k), ..st.layout },
                        kind_tag: Some(tag),
                    },
                ),
                None => Err(ErrorV::UnknownKind(tag)),
            },
        },
        EntryV::Group => Err(ErrorV::UnsupportedNesting),
        EntryV::KeyValueNonText(key) => Err(ErrorV::UnsupportedValueType(key)),
        EntryV::KeyValue(key, val) => if key == v.name_key {
            if ident_ok(val) {
                Ok(
                    ResolveStateV {
                        layout: LayoutV { name_override: Some(val), ..st.layout },
                        ..st
                    },
                )
            } else {
                Err(ErrorV::InvalidIdentifier(val))
            }
        } else if key == v.vis_key {
            if vis_ok(val) {
                Ok(
                    ResolveStateV { layout: LayoutV { visibility: Some(val), ..st.layout }, ..st },
                )
            } else {
                Err(ErrorV::InvalidVisibility(val))
            }
        } else if key == v.type_key {
            if type_ok(val) {
                Ok(
                    ResolveStateV {
                        layout: LayoutV { type_override: Some(val), ..st.layout },
                        ..st
                    },
                )
            } else {
                Err(ErrorV::InvalidType(val))
            }
        } else {
            Err(ErrorV::UnknownKey(key))
        },
    }
}

/// Resolution of the entries from position `i` on, starting from accumulator
/// `st`: the remaining entries are walked in order and the first error wins.
pub open spec fn spec_resolve_from(
    v: VocabV,
    es: Seq<EntryV>,
    i: int,
    st: ResolveStateV,
) -> Result<LayoutV, ErrorV>
    decreases es.len() - i,
{
    if i < 0 || i >= es.len() {
        Ok(st.layout)
    } else {
        match spec_resolve_step(v, es[i], st) {
            Ok(st2) => spec_resolve_from(v, es, i + 1, st2),
            Err(e) => Err(e),
        }
    }
}

/// What resolving one occurrence's entries returns: the resolved layout, or
/// the first configuration error.
pub open spec fn spec_resolve(v: VocabV, es: Seq<EntryV>) -> Result<LayoutV, ErrorV> {
    spec_resolve_from(v, es, 0, initial_state())
}

/// The accumulator modelled by the resolver's local state.
pub open spec fn state_of(
    name_override: Option<String>,
    visibility: Option<String>,
    type_override: Option<String>,
    selected: Option<(String, AccessorKind)>,
) -> ResolveStateV {
    ResolveStateV {
        layout: LayoutV {
            name_override: opt_text_view(name_override),
            visibility: opt_text_view(visibility),
            kind: match selected {
                Some(p) => Some(p.1),
                None => None,
            },
            type_override: opt_text_view(type_override),
        },
        kind_tag: match selected {
            Some(p) => Some(p.0@),
            None => None,
        },
    }
}

impl AttributeLayout {
    /// Walks one occurrence's entries in order, accumulating overrides and
    /// the kind, and fails with the first configuration error: a second kind
    /// flag, an unknown tag or key, a grouped entry, a non-text value, or a
    /// value that does not parse as the expected syntactic category.
    pub fn resolve(vocab: &Vocabulary, entries: &Vec<MetaEntry>) -> (r: Result<
        AttributeLayout,
        ConfigError,
    >)
        ensures
            crate::result_view(r) == spec_resolve(vocab@, entries_view(entries@)),
    {
        let ghost es: Seq<EntryV> = entries_view(entries@);
        let mut name_override: Option<String> = None;
        let mut visibility: Option<String> = None;
        let mut type_override: Option<String> = None;
        let mut selected: Option<(String, AccessorKind)> = None;
        let n = entries.len();
        let mut idx: usize = 0;
        while idx < n
            invariant
                n == entries.len(),
                0 <= idx <= n,
                es == entries_view(entries@),
                es.len() == n,
                spec_resolve(vocab@, es) == spec_resolve_from(
                    vocab@,
                    es,
                    idx as int,
                    state_of(name_override, visibility, type_override, selected),
                ),
            decreases n - idx,
        {
            let ghost st = state_of(name_override, visibility, type_override, selected);
            proof {
                assert(es[idx as int] == entries@[idx as int]@);
            }
            match &entries[idx] {
                MetaEntry::Flag(tag) => {
                    match &selected {
                        Some(prev) => {
                            return Err(ConfigError::DuplicateKind(prev.0.clone(), tag.clone()));
                        },
                        None => {
                            match vocab.lookup(tag) {
                                Some(k) => {
                                    selected = Some((tag.clone(), k));
                                },
                                None => {
                                    return Err(ConfigError::UnknownKind(tag.clone()));
                                },
                            }
                        },
                    }
                },
                MetaEntry::Group => {
                    return Err(ConfigError::UnsupportedNesting);
                },
                MetaEntry::KeyValueNonText(key) => {
                    return Err(ConfigError::UnsupportedValueType(key.clone()));
                },
                MetaEntry::KeyValue(key, val) => {
                    if *key == vocab.name_key {
                        if check_ident(val.as_str()) {
                            name_override = Some(val.clone());
                        } else {
                            return Err(ConfigError::InvalidIdentifier(val.clone()));
                        }
                    } else if *key == vocab.vis_key {
                        if check_visibility(val.as_str()) {
                            visibility = Some(val.clone());
                        } else {
                            return Err(ConfigError::InvalidVisibility(val.clone()));
                        }
                    } else if *key == vocab.type_key {
                        if check_type(val.as_str()) {
                            type_override = Some(val.clone());
                        } else {
                            return Err(ConfigError::InvalidType(val.clone()));
                        }
                    } else {
                        return Err(ConfigError::UnknownKey(key.clone()));
                    }
                },
            }
            proof {
                let st2 = state_of(name_override, visibility, type_override, selected);
                assert(spec_resolve_step(vocab@, es[idx as int], st) == Ok::<
                    ResolveStateV,
                    ErrorV,
                >(st2));
            }
            idx = idx + 1;
        }
        let kind: Option<AccessorKind> = match &selected {
            Some(p) => Some(p.1),
            None => None,
        };
        Ok(AttributeLayout { name_override, visibility, kind, type_override })
    }
}

} // verus!
