//! The index of hashtags that are attached to instances of resources.

use crate::text::same_text;
use vstd::prelude::*;

verus! {

/// One hashtag attached to one instance of a resource.
#[derive(Debug, PartialEq, Eq)]
pub struct Hashtag {
    /// The base resource of the instance.
    pub resource_n: String,
    /// The name of the instance.
    pub name: String,
    /// The tag.
    pub hashtag: String,
}

/// What an attachment says.
pub struct HashtagView {
    pub resource_n: Seq<char>,
    pub name: Seq<char>,
    pub hashtag: Seq<char>,
}

impl View for Hashtag {
    type V = HashtagView;

    open spec fn view(&self) -> HashtagView {
        HashtagView { resource_n: self.resource_n@, name: self.name@, hashtag: self.hashtag@ }
    }
}

/// The attachments that are known.
#[derive(Debug, PartialEq, Eq)]
pub struct HashtagIndex {
    pub entries: Vec<Hashtag>,
}

impl View for HashtagIndex {
    type V = Seq<HashtagView>;

    open spec fn view(&self) -> Seq<HashtagView> {
        self.entries@.map_values(|h: Hashtag| h@)
    }
}

/// The tags attached to an instance of a resource.
pub open spec fn tags_of(entries: Seq<HashtagView>, resource_n: Seq<char>, name: Seq<char>) -> Set<
    Seq<char>,
> {
    Set::new(
        |t: Seq<char>|
            exists|i: int|
                0 <= i < entries.len() && #[trigger] entries[i] == (HashtagView {
                    resource_n,
                    name,
                    hashtag: t,
                }),
    )
}

/// What a list of texts says.
pub open spec fn texts(v: Seq<String>) -> Seq<Seq<char>> {
    v.map_values(|s: String| s@)
}

/// One more attachment adds its tag for the instance it belongs to, and
/// nothing for any other.
pub proof fn lemma_tags_push(
    entries: Seq<HashtagView>,
    h: HashtagView,
    resource_n: Seq<char>,
    name: Seq<char>,
)
    ensures
        tags_of(entries.push(h), resource_n, name) == if h.resource_n == resource_n && h.name
            == name {
            tags_of(entries, resource_n, name).insert(h.hashtag)
        } else {
            tags_of(entries, resource_n, name)
        },
{
    let more = entries.push(h);
    let old_tags = tags_of(entries, resource_n, name);
    let new_tags = tags_of(more, resource_n, name);
    let at = |t: Seq<char>| HashtagView { resource_n, name, hashtag: t };
    assert forall|t: Seq<char>| old_tags.contains(t) implies new_tags.contains(t) by {
        let i = choose|i: int| 0 <= i < entries.len() && #[trigger] entries[i] == at(t);
        assert(more[i] == at(t));
    }
    assert forall|t: Seq<char>| new_tags.contains(t) implies old_tags.contains(t) || (h == at(
        t,
    )) by {
        let i = choose|i: int| 0 <= i < more.len() && #[trigger] more[i] == at(t);
        if i < entries.len() {
            assert(entries[i] == at(t));
        }
    }
    if h.resource_n == resource_n && h.name == name {
        assert(more[entries.len() as int] == at(h.hashtag));
        assert(new_tags =~= old_tags.insert(h.hashtag));
    } else {
        assert(new_tags =~= old_tags);
    }
}

/// One more text in a list is one more member of the set of its texts.
pub proof fn lemma_texts_push(v: Seq<String>, s: String)
    ensures
        texts(v.push(s)).to_set() == texts(v).to_set().insert(s@),
{
    let before = texts(v);
    let after = texts(v.push(s));
    assert(after =~= before.push(s@));
    assert forall|t: Seq<char>| after.to_set().contains(t) <==> before.to_set().insert(
        s@,
    ).contains(t) by {
        if after.contains(t) {
            let i = choose|i: int| 0 <= i < after.len() && after[i] == t;
            if i < before.len() {
                assert(before[i] == t);
            }
        }
        if before.contains(t) {
            let i = choose|i: int| 0 <= i < before.len() && before[i] == t;
            assert(after[i] == t);
        }
        if t == s@ {
            assert(after[before.len() as int] == t);
        }
    }
    assert(after.to_set() =~= before.to_set().insert(s@));
}

impl HashtagIndex {
    /// An index without attachments.
    pub fn new() -> (r: HashtagIndex)
        ensures
            r@ == Seq::<HashtagView>::empty(),
    {
        let r = HashtagIndex { entries: Vec::new() };
        proof {
            assert(r@ =~= Seq::<HashtagView>::empty());
        }
        r
    }

    /// Looks up the tags attached to an instance of a resource. The result
    /// is empty where the instance has no tags or is not known.
    pub fn lookup_tags(&self, resource_n: &str, name: &str) -> (r: Vec<String>)
        ensures
            texts(r@).to_set() == tags_of(self@, resource_n@, name@),
    {
        let mut tags: Vec<String> = Vec::new();
        let mut i: usize = 0;
        proof {
            assert(texts(tags@).to_set() =~= tags_of(self@.take(0), resource_n@, name@));
        }
        while i < self.entries.len()
            invariant
                i <= self.entries@.len(),
                texts(tags@).to_set() == tags_of(self@.take(i as int), resource_n@, name@),
            decreases self.entries@.len() - i,
        {
            let h = &self.entries[i];
            proof {
                assert(self@.take(i + 1) =~= self@.take(i as int).push(h@));
                lemma_tags_push(self@.take(i as int), h@, resource_n@, name@);
            }
            if same_text(h.resource_n.as_str(), resource_n) && same_text(h.name.as_str(), name) {
                proof {
                    lemma_texts_push(tags@, h.hashtag);
                }
                tags.push(h.hashtag.clone());
            }
            i += 1;
        }
        proof {
            assert(self@.take(i as int) =~= self@);
        }
        tags
    }
}

} // verus!
