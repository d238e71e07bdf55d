use vstd::prelude::*;
use vstd::string::StringExecFns;
use crate::error::{ConfigError, ErrorV};
use crate::kind::AccessorKind;
use crate::method::texts_view;
use crate::printable::{spec_rendered, Printable};
use crate::vocab::{kind_tag, VocabV, Vocabulary};

verus! {

/// The backticked spelling of one tag.
pub open spec fn spec_backticked(t: Seq<char>) -> Seq<char> {
    "`"@ + t + "`"@
}

/// The backticked tag spellings of a vocabulary, in table order.
pub open spec fn spec_backticked_tags(tags: Seq<(Seq<char>, AccessorKind)>) -> Seq<Seq<char>> {
    tags.map_values(|p: (Seq<char>, AccessorKind)| spec_backticked(p.0))
}

/// The rendered list of every recognized kind tag.
pub open spec fn spec_tag_list(tags: Seq<(Seq<char>, AccessorKind)>) -> Seq<char> {
    spec_rendered(spec_backticked_tags(tags))
}

/// The canonical tag text of a kind, or empty when the vocabulary spells it
/// in no way.
pub open spec fn spec_kind_tag_text(tags: Seq<(Seq<char>, AccessorKind)>, k: AccessorKind) -> Seq<
    char,
> {
    match kind_tag(tags, k) {
        Some(t) => t,
        None => Seq::empty(),
    }
}

/// The user-facing diagnostic of each configuration error, with a
/// remediation hint naming the valid alternatives of the vocabulary.
pub open spec fn spec_message(e: ErrorV, v: VocabV) -> Seq<char> {
    match e {
        ErrorV::UnknownKind(t) => "Unknown getset kind attribute: `"@ + t
            + "`. Should be one of: "@ + spec_tag_list(v.tags),
        ErrorV::DuplicateKind(a, b) => "Duplicate getset kind attributes: `"@ + a + "` and `"@ + b
            + "`"@,
        ErrorV::UnsupportedNesting => "Multiple attributes are not supported"@,
        ErrorV::UnsupportedValueType(k) => "Value type not supported. Should be string: `"@ + k
            + "`"@,
        ErrorV::UnknownKey(k) => "Unknown named parameter `"@ + k + "`. Should be one of: `"@
            + v.name_key + "`, `"@ + v.vis_key + "`, `"@ + v.type_key + "`"@,
        ErrorV::InvalidIdentifier(t) => "Invalid identifier: `"@ + t + "`"@,
        ErrorV::InvalidVisibility(t) => "Invalid visibility: `"@ + t + "`"@,
        ErrorV::InvalidType(t) => "Invalid type: `"@ + t + "`"@,
        ErrorV::MissingKind => "Missed getset kind attribute. Should be one of: "@ + spec_tag_list(
            v.tags,
        ),
        ErrorV::MissingName(k) => "Missed `"@ + v.name_key
            + "` named parameter. Should be set for `"@ + spec_kind_tag_text(v.tags, k)
            + "` getset kind"@,
        ErrorV::MissingType(k) => "Missed `"@ + v.type_key
            + "` named parameter. Should be set for `"@ + spec_kind_tag_text(v.tags, k)
            + "` getset kind"@,
        ErrorV::UnsupportedStructureShape => "Accessor generation is only supported for structs with fields"@,
    }
}

impl Vocabulary {
    /// The backticked spellings of all recognized kind tags, in table order,
    /// ready for rendering in diagnostics.
    pub fn all_kinds(&self) -> (p: Printable)
        ensures
            p@ == spec_backticked_tags(self@.tags),
    {
        let mut items: Vec<String> = Vec::new();
        let n = self.tags.len();
        let mut i: usize = 0;
        while i < n
            invariant
                n == self.tags.len(),
                0 <= i <= n,
                texts_view(items@) == spec_backticked_tags(self@.tags).take(i as int),
            decreases n - i,
        {
            let t = String::from_str("`").concat(self.tags[i].0.as_str()).concat("`");
            let ghost items_before: Seq<String> = items@;
            proof {
                assert(self@.tags[i as int].0 == self.tags@[i as int].0@);
                assert(t@ == spec_backticked(self@.tags[i as int].0));
                assert(spec_backticked_tags(self@.tags)[i as int] == spec_backticked(
                    self@.tags[i as int].0,
                ));
            }
            items.push(t);
            proof {
                assert(texts_view(items@) =~= texts_view(items_before) + seq![t@]);
                assert(texts_view(items@) =~= spec_backticked_tags(self@.tags).take(i as int + 1));
            }
            i = i + 1;
        }
        proof {
            assert(spec_backticked_tags(self@.tags).take(n as int) =~= spec_backticked_tags(
                self@.tags,
            ));
        }
        Printable(items)
    }

    /// The canonical tag spelling of a kind as text, or empty text when the
    /// vocabulary spells it in no way.
    pub fn kind_tag_text(&self, k: AccessorKind) -> (s: &str)
        ensures
            s@ == spec_kind_tag_text(self@.tags, k),
    {
        match self.tag_of(k) {
            Some(t) => t.as_str(),
            None => {
                let empty = "";
                proof {
                    reveal_strlit("");
                    assert(empty@ =~= Seq::<char>::empty());
                }
                empty
            },
        }
    }
}

impl ConfigError {
    /// The user-facing diagnostic of this error under the given vocabulary:
    /// what went wrong, the offending text, and a remediation hint listing
    /// the valid alternatives.
    pub fn message(&self, vocab: &Vocabulary) -> (s: String)
        ensures
            s@ == spec_message(self@, vocab@),
    {
        match self {
            ConfigError::UnknownKind(t) => {
                let list = vocab.all_kinds().render();
                String::from_str("Unknown getset kind attribute: `").concat(t.as_str()).concat(
                    "`. Should be one of: ",
                ).concat(list.as_str())
            },
            ConfigError::DuplicateKind(a, b) => String::from_str(
                "Duplicate getset kind attributes: `",
            ).concat(a.as_str()).concat("` and `").concat(b.as_str()).concat("`"),
            ConfigError::UnsupportedNesting => String::from_str(
                "Multiple attributes are not supported",
            ),
            ConfigError::UnsupportedValueType(k) => String::from_str(
                "Value type not supported. Should be string: `",
            ).concat(k.as_str()).concat("`"),
            ConfigError::UnknownKey(k) => String::from_str("Unknown named parameter `").concat(
                k.as_str(),
            ).concat("`. Should be one of: `").concat(vocab.name_key.as_str()).concat(
                "`, `",
            ).concat(vocab.vis_key.as_str()).concat("`, `").concat(
                vocab.type_key.as_str(),
            ).concat("`"),
            ConfigError::InvalidIdentifier(t) => String::from_str("Invalid identifier: `").concat(
                t.as_str(),
            ).concat("`"),
            ConfigError::InvalidVisibility(t) => String::from_str("Invalid visibility: `").concat(
                t.as_str(),
            ).concat("`"),
            ConfigError::InvalidType(t) => String::from_str("Invalid type: `").concat(
                t.as_str(),
            ).concat("`"),
            ConfigError::MissingKind => {
                let list = vocab.all_kinds().render();
                String::from_str("Missed getset kind attribute. Should be one of: ").concat(
                    list.as_str(),
                )
            },
            ConfigError::MissingName(k) => String::from_str("Missed `").concat(
                vocab.name_key.as_str(),
            ).concat("` named parameter. Should be set for `").concat(
                vocab.kind_tag_text(*k),
            ).concat("` getset kind"),
            ConfigError::MissingType(k) => String::from_str("Missed `").concat(
                vocab.type_key.as_str(),
            ).concat("` named parameter. Should be set for `").concat(
                vocab.kind_tag_text(*k),
            ).concat("` getset kind"),
            ConfigError::UnsupportedStructureShape => String::from_str(
                "Accessor generation is only supported for structs with fields",
            ),
        }
    }
}

} // verus!
