//! The tags of a union: the element names that stand for its variants.
use vstd::prelude::*;
use crate::text::same_text;

verus! {

/// Whether no tag occurs twice.
pub open spec fn distinct_tags(tags: Seq<Seq<char>>) -> bool {
    forall|i: int, j: int| 0 <= i < j < tags.len() ==> tags[i] != tags[j]
}

/// Whether `name` is one of the tags.
pub open spec fn registered(tags: Seq<Seq<char>>, name: Seq<char>) -> bool {
    exists|v: int| 0 <= v < tags.len() && #[trigger] tags[v] == name
}

/// The names that are tags.
pub open spec fn tagged(tags: Seq<Seq<char>>) -> spec_fn(Seq<char>) -> bool {
    |name: Seq<char>| registered(tags, name)
}

/// The variant that `name` stands for: the place of the tag equal to `name`,
/// letter for letter, or nothing where no tag is.
pub open spec fn variant_of(tags: Seq<Seq<char>>, name: Seq<char>) -> Option<int> {
    if registered(tags, name) {
        Some(choose|v: int| 0 <= v < tags.len() && #[trigger] tags[v] == name)
    } else {
        None
    }
}

/// Among distinct tags, the variant of a tag is its place.
pub proof fn lemma_variant_of_tag(tags: Seq<Seq<char>>, v: int)
    requires
        distinct_tags(tags),
        0 <= v < tags.len(),
    ensures
        variant_of(tags, tags[v]) == Some(v),
{
}

/// The ordered list of a union's tags, one for each variant and no two alike.
/// A variant is known by its place in the list.
pub struct Registry {
    tags: Vec<String>,
}

impl View for Registry {
    type V = Seq<Seq<char>>;

    closed spec fn view(&self) -> Seq<Seq<char>> {
        self.tags@.map_values(|t: String| t@)
    }
}

impl Registry {
    #[verifier::type_invariant]
    spec fn well_formed(&self) -> bool {
        distinct_tags(self@)
    }

    /// A registry of the given tags, in their order; nothing where a tag
    /// occurs twice.
    pub fn new(tags: Vec<String>) -> (r: Option<Registry>)
        ensures
            match r {
                Some(registry) => registry@ == tags@.map_values(|t: String| t@) && distinct_tags(
                    registry@,
                ),
                None => !distinct_tags(tags@.map_values(|t: String| t@)),
            },
    {
        let ghost names = tags@.map_values(|t: String| t@);
        let mut j: usize = 0;
        while j < tags.len()
            invariant
                j <= tags.len(),
                names == tags@.map_values(|t: String| t@),
                forall|a: int, b: int| 0 <= a < b < j ==> names[a] != names[b],
            decreases tags.len() - j,
        {
            let mut i: usize = 0;
            while i < j
                invariant
                    i <= j < tags.len(),
                    names == tags@.map_values(|t: String| t@),
                    forall|a: int| 0 <= a < i ==> names[a] != names[j as int],
                decreases j - i,
            {
                if same_text(tags[i].as_str(), tags[j].as_str()) {
                    assert(names[i as int] == names[j as int]);
                    return None;
                }
                i += 1;
            }
            j += 1;
        }
        Some(Registry { tags })
    }

    /// The number of variants.
    pub fn len(&self) -> (n: usize)
        ensures
            n == self@.len(),
    {
        self.tags.len()
    }

    /// The tag of a variant; nothing where the union has no such variant.
    pub fn tag(&self, variant: usize) -> (r: Option<&str>)
        ensures
            match r {
                Some(name) => variant < self@.len() && name@ == self@[variant as int],
                None => variant >= self@.len(),
            },
    {
        if variant < self.tags.len() {
            Some(self.tags[variant].as_str())
        } else {
            None
        }
    }

    /// The variant that `name` stands for, by exact match.
    pub fn resolve(&self, name: &str) -> (r: Option<usize>)
        ensures
            match r {
                Some(v) => variant_of(self@, name@) == Some(v as int) && v < self@.len(),
                None => variant_of(self@, name@) is None,
            },
    {
        proof {
            use_type_invariant(self);
        }
        let mut v: usize = 0;
        while v < self.tags.len()
            invariant
                v <= self.tags.len(),
                distinct_tags(self@),
                forall|u: int| 0 <= u < v ==> self@[u] != name@,
            decreases self.tags.len() - v,
        {
            if same_text(self.tags[v].as_str(), name) {
                proof {
                    lemma_variant_of_tag(self@, v as int);
                }
                return Some(v);
            }
            v += 1;
        }
        None
    }
}

} // verus!
