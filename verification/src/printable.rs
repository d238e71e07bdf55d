use vstd::prelude::*;
use vstd::string::StringExecFns;
use crate::method::texts_view;

verus! {

/// The first `i` items joined with `", "`.
pub open spec fn spec_joined_upto(items: Seq<Seq<char>>, i: int) -> Seq<char>
    decreases i,
{
    if i <= 0 || i > items.len() {
        Seq::empty()
    } else if i == 1 {
        items[0]
    } else {
        spec_joined_upto(items, i - 1) + ", "@ + items[i - 1]
    }
}

/// A list rendering: the items joined with `", "`, between square brackets.
pub open spec fn spec_rendered(items: Seq<Seq<char>>) -> Seq<char> {
    "["@ + spec_joined_upto(items, items.len() as int) + "]"@
}

/// A list of text items that can be rendered in one line, item after item.
pub struct Printable(pub Vec<String>);

impl View for Printable {
    type V = Seq<Seq<char>>;

    open spec fn view(&self) -> Seq<Seq<char>> {
        texts_view(self.0@)
    }
}

impl Printable {
    /// Renders the items joined with `", "`, between square brackets.
    pub fn render(&self) -> (s: String)
        ensures
            s@ == spec_rendered(self@),
    {
        let mut s = String::from_str("[");
        proof {
            assert(s@ =~= "["@ + spec_joined_upto(self@, 0));
        }
        let n = self.0.len();
        let mut i: usize = 0;
        while i < n
            invariant
                n == self.0.len(),
                0 <= i <= n,
                s@ == "["@ + spec_joined_upto(self@, i as int),
            decreases n - i,
        {
            if i > 0 {
                s.append(", ");
            }
            s.append(self.0[i].as_str());
            proof {
                assert(self@[i as int] == self.0@[i as int]@);
                assert(s@ =~= "["@ + spec_joined_upto(self@, i as int + 1));
            }
            i = i + 1;
        }
        s.append("]");
        s
    }
}

/// Anything that can hand its items over for list rendering.
pub trait AsPrintable: Sized {
    /// The items that will be rendered.
    spec fn printable_items(&self) -> Seq<Seq<char>>;

    /// Wraps the items into a [`Printable`].
    fn printable(self) -> (p: Printable)
        ensures
            p@ == self.printable_items(),
    ;
}

impl AsPrintable for Vec<String> {
    open spec fn printable_items(&self) -> Seq<Seq<char>> {
        texts_view(self@)
    }

    fn printable(self) -> (p: Printable) {
        Printable(self)
    }
}

impl From<Vec<String>> for Printable {
    fn from(items: Vec<String>) -> (p: Printable) {
        Printable(items)
    }
}

impl vstd::std_specs::convert::FromSpecImpl<Vec<String>> for Printable {
    open spec fn obeys_from_spec() -> bool {
        true
    }

    open spec fn from_spec(items: Vec<String>) -> Printable {
        Printable(items)
    }
}

} // verus!
