//! Data objects in tag-length-value form.

use vstd::prelude::*;
use vstd::std_specs::cmp::PartialEqSpecImpl;
use crate::text::{byte_len, byte_length, zero_pad2, zero_pad2_string};

verus! {

/// A data object: an identifier and a value.
#[derive(Debug, Clone)]
pub struct EMVTag {
    pub id: String,
    pub value: String,
}

/// What a data object holds, as text.
pub struct TagView {
    pub id: Seq<char>,
    pub value: Seq<char>,
}

impl TagView {
    /// The wire form: the identifier, the value's length in bytes as decimal
    /// digits (two of them up to 99), and the value.
    pub open spec fn encoded(self) -> Seq<char> {
        self.id + zero_pad2(byte_len(self.value)) + self.value
    }
}

/// The wire forms of `tags`, one after another.
pub open spec fn encode_all(tags: Seq<TagView>) -> Seq<char>
    decreases tags.len(),
{
    if tags.len() == 0 {
        Seq::empty()
    } else {
        encode_all(tags.drop_last()) + tags.last().encoded()
    }
}

impl View for EMVTag {
    type V = TagView;

    open spec fn view(&self) -> TagView {
        TagView { id: self.id@, value: self.value@ }
    }
}

impl DeepView for EMVTag {
    type V = TagView;

    open spec fn deep_view(&self) -> TagView {
        self@
    }
}

impl PartialEq for EMVTag {
    fn eq(&self, other: &EMVTag) -> (equal: bool) {
        self.id == other.id && self.value == other.value
    }
}

impl PartialEqSpecImpl for EMVTag {
    open spec fn obeys_eq_spec() -> bool {
        true
    }

    open spec fn eq_spec(&self, other: &EMVTag) -> bool {
        self@ == other@
    }
}

impl EMVTag {
    /// A data object of the given identifier and value. The identifier is
    /// taken as it is: that it has two digits is the caller's matter.
    pub fn new(id: &str, value: &str) -> (tag: Self)
        ensures
            tag@ == (TagView { id: id@, value: value@ }),
    {
        EMVTag { id: id.to_owned(), value: value.to_owned() }
    }

    /// Length of the value in bytes.
    pub fn length(&self) -> (n: usize)
        ensures
            n == byte_len(self@.value),
    {
        byte_length(self.value.as_str())
    }

    /// The wire form of the data object.
    pub fn encode(&self) -> (wire: String)
        ensures
            wire@ == self@.encoded(),
    {
        let mut wire = self.id.clone();
        wire.append(zero_pad2_string(self.length()).as_str());
        wire.append(self.value.as_str());
        wire
    }
}

/// The wire forms of `tags`, one after another.
pub fn encode_tags(tags: &Vec<EMVTag>) -> (wire: String)
    ensures
        wire@ == encode_all(tags.deep_view()),
{
    let ghost views = tags.deep_view();
    let mut wire = String::new();
    let mut i: usize = 0;
    while i < tags.len()
        invariant
            i <= tags@.len(),
            views == tags.deep_view(),
            wire@ == encode_all(views.take(i as int)),
        decreases tags@.len() - i,
    {
        proof {
            let next = views.take(i + 1);
            assert(next.drop_last() =~= views.take(i as int));
        }
        wire.append(tags[i].encode().as_str());
        i += 1;
    }
    assert(views.take(i as int) =~= views);
    wire
}

/// The wire form of a single data object.
pub proof fn lemma_encode_one(tag: TagView)
    ensures
        encode_all(seq![tag]) == tag.encoded(),
{
    reveal_with_fuel(encode_all, 2);
}

/// The wire form of two sequences joined is their wire forms joined.
pub proof fn lemma_encode_all_concat(a: Seq<TagView>, b: Seq<TagView>)
    ensures
        encode_all(a + b) == encode_all(a) + encode_all(b),
    decreases b.len(),
{
    if b.len() > 0 {
        lemma_encode_all_concat(a, b.drop_last());
        assert((a + b).drop_last() =~= a + b.drop_last());
    }
}

/// Every data object stands in the wire form of its sequence, between the
/// wire forms of those before it and of those after it.
pub proof fn lemma_tag_occurs(tags: Seq<TagView>, i: int)
    requires
        0 <= i < tags.len(),
    ensures
        encode_all(tags) == encode_all(tags.take(i)) + tags[i].encoded() + encode_all(
            tags.skip(i + 1),
        ),
{
    let upto = tags.take(i + 1);
    assert(tags =~= upto + tags.skip(i + 1));
    lemma_encode_all_concat(upto, tags.skip(i + 1));
    assert(upto.drop_last() =~= tags.take(i));
}

} // verus!
