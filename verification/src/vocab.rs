use vstd::prelude::*;
use vstd::string::StringExecFns;
use crate::kind::AccessorKind;

verus! {

/// The annotation vocabulary: the external spelling of each kind tag, and of
/// the three recognized keys. The engine is spelling-agnostic; a host
/// toolchain injects the table it accepts.
pub struct Vocabulary {
    /// Tag spelling of each kind; on lookup the first matching spelling wins.
    pub tags: Vec<(String, AccessorKind)>,
    /// Key selecting a method-name override.
    pub name_key: String,
    /// Key selecting a visibility override.
    pub vis_key: String,
    /// Key selecting a return-type override.
    pub type_key: String,
}

/// Model of a vocabulary.
#[verifier::ext_equal]
pub struct VocabV {
    pub tags: Seq<(Seq<char>, AccessorKind)>,
    pub name_key: Seq<char>,
    pub vis_key: Seq<char>,
    pub type_key: Seq<char>,
}

impl View for Vocabulary {
    type V = VocabV;

    open spec fn view(&self) -> VocabV {
        VocabV {
            tags: self.tags@.map_values(|p: (String, AccessorKind)| (p.0@, p.1)),
            name_key: self.name_key@,
            vis_key: self.vis_key@,
            type_key: self.type_key@,
        }
    }
}

/// First kind whose tag equals `tag`, searching from position `i`.
pub open spec fn tag_lookup_from(
    tags: Seq<(Seq<char>, AccessorKind)>,
    tag: Seq<char>,
    i: int,
) -> Option<AccessorKind>
    decreases tags.len() - i,
{
    if i < 0 || i >= tags.len() {
        None
    } else if tags[i].0 == tag {
        Some(tags[i].1)
    } else {
        tag_lookup_from(tags, tag, i + 1)
    }
}

/// First kind whose tag equals `tag`.
pub open spec fn tag_lookup(tags: Seq<(Seq<char>, AccessorKind)>, tag: Seq<char>) -> Option<
    AccessorKind,
> {
    tag_lookup_from(tags, tag, 0)
}

/// First tag spelled for `k`, searching from position `i`.
pub open spec fn kind_tag_from(
    tags: Seq<(Seq<char>, AccessorKind)>,
    k: AccessorKind,
    i: int,
) -> Option<Seq<char>>
    decreases tags.len() - i,
{
    if i < 0 || i >= tags.len() {
        None
    } else if tags[i].1 == k {
        Some(tags[i].0)
    } else {
        kind_tag_from(tags, k, i + 1)
    }
}

/// The canonical (first-listed) tag spelling of a kind.
pub open spec fn kind_tag(tags: Seq<(Seq<char>, AccessorKind)>, k: AccessorKind) -> Option<
    Seq<char>,
> {
    kind_tag_from(tags, k, 0)
}

/// The standard vocabulary: one widely used concrete spelling of the twelve
/// kind tags, with keys `name`, `vis` and `ty`.
pub open spec fn standard_vocab() -> VocabV {
    VocabV {
        tags: seq![
            ("get"@, AccessorKind::Read),
            ("get_mut"@, AccessorKind::ReadMut),
            ("get_copy"@, AccessorKind::ReadCopy),
            ("get_deref"@, AccessorKind::ReadThrough),
            ("get_deref_mut"@, AccessorKind::ReadThroughMut),
            ("get_deref_copy"@, AccessorKind::ReadThroughCopy),
            ("get_as_ref"@, AccessorKind::ReadAsRef),
            ("get_as_deref"@, AccessorKind::ReadAsThrough),
            ("get_as_deref_mut"@, AccessorKind::ReadAsThroughMut),
            ("set"@, AccessorKind::Write),
            ("set_borrow"@, AccessorKind::WriteBorrowed),
            ("set_own"@, AccessorKind::WriteOwned),
        ],
        name_key: "name"@,
        vis_key: "vis"@,
        type_key: "ty"@,
    }
}

impl Vocabulary {
    /// Builds a vocabulary from an explicit table.
    pub fn new(
        tags: Vec<(String, AccessorKind)>,
        name_key: String,
        vis_key: String,
        type_key: String,
    ) -> (v: Vocabulary)
        ensures
            v@.tags == tags@.map_values(|p: (String, AccessorKind)| (p.0@, p.1)),
            v@.name_key == name_key@,
            v@.vis_key == vis_key@,
            v@.type_key == type_key@,
    {
        Vocabulary { tags, name_key, vis_key, type_key }
    }

    /// The standard vocabulary.
    pub fn standard() -> (v: Vocabulary)
        ensures
            v@ == standard_vocab(),
    {
        let mut tags: Vec<(String, AccessorKind)> = Vec::new();
        tags.push((String::from_str("get"), AccessorKind::Read));
        tags.push((String::from_str("get_mut"), AccessorKind::ReadMut));
        tags.push((String::from_str("get_copy"), AccessorKind::ReadCopy));
        tags.push((String::from_str("get_deref"), AccessorKind::ReadThrough));
        tags.push((String::from_str("get_deref_mut"), AccessorKind::ReadThroughMut));
        tags.push((String::from_str("get_deref_copy"), AccessorKind::ReadThroughCopy));
        tags.push((String::from_str("get_as_ref"), AccessorKind::ReadAsRef));
        tags.push((String::from_str("get_as_deref"), AccessorKind::ReadAsThrough));
        tags.push((String::from_str("get_as_deref_mut"), AccessorKind::ReadAsThroughMut));
        tags.push((String::from_str("set"), AccessorKind::Write));
        tags.push((String::from_str("set_borrow"), AccessorKind::WriteBorrowed));
        tags.push((String::from_str("set_own"), AccessorKind::WriteOwned));
        let v = Vocabulary {
            tags,
            name_key: String::from_str("name"),
            vis_key: String::from_str("vis"),
            type_key: String::from_str("ty"),
        };
        proof {
            assert(v@.tags =~= standard_vocab().tags);
            assert(v@ =~= standard_vocab());
        }
        v
    }

    /// Looks a bare tag up in the table; the first matching spelling wins.
    pub fn lookup(&self, tag: &String) -> (r: Option<AccessorKind>)
        ensures
            r == tag_lookup(self@.tags, tag@),
    {
        let n = self.tags.len();
        let mut i: usize = 0;
        while i < n
            invariant
                n == self.tags.len(),
                0 <= i <= n,
                tag_lookup(self@.tags, tag@) == tag_lookup_from(self@.tags, tag@, i as int),
            decreases n - i,
        {
            if self.tags[i].0 == *tag {
                return Some(self.tags[i].1);
            }
            i = i + 1;
        }
        None
    }

    /// The canonical (first-listed) tag spelling of a kind.
    pub fn tag_of(&self, k: AccessorKind) -> (r: Option<&String>)
        ensures
            match r {
                Some(s) => kind_tag(self@.tags, k) == Some(s@),
                None => kind_tag(self@.tags, k) is None,
            },
    {
        let n = self.tags.len();
        let mut i: usize = 0;
        while i < n
            invariant
                n == self.tags.len(),
                0 <= i <= n,
                kind_tag(self@.tags, k) == kind_tag_from(self@.tags, k, i as int),
            decreases n - i,
        {
            if self.tags[i].1 == k {
                return Some(&self.tags[i].0);
            }
            i = i + 1;
        }
        None
    }
}

} // verus!
