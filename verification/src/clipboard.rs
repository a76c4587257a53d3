//! The MIME types that a source of clipboard or drag data offers.
use vstd::prelude::*;

verus! {

/// The texts of a sequence of strings.
pub open spec fn texts(v: Seq<String>) -> Seq<Seq<char>> {
    v.map_values(|s: String| s@)
}

/// A set of MIME types, kept in the order they were first offered.
pub struct MimeTypeSet {
    pub types: Vec<String>,
}

impl View for MimeTypeSet {
    type V = Set<Seq<char>>;

    open spec fn view(&self) -> Set<Seq<char>> {
        texts(self.types@).to_set()
    }
}

impl MimeTypeSet {
    /// No type is listed twice.
    pub open spec fn wf(&self) -> bool {
        texts(self.types@).no_duplicates()
    }

    /// The empty set.
    pub fn new() -> (r: MimeTypeSet)
        ensures
            r@ == Set::<Seq<char>>::empty(),
            r.wf(),
            r.types@.len() == 0,
    {
        MimeTypeSet { types: Vec::new() }
    }

    /// Whether `mime_type` is in the set.
    pub fn contains(&self, mime_type: &String) -> (r: bool)
        ensures
            r == self@.contains(mime_type@),
    {
        let mut i: usize = 0;
        while i < self.types.len()
            invariant
                i <= self.types.len(),
                forall|j: int| 0 <= j < i ==> (#[trigger] self.types@[j])@ != mime_type@,
            decreases self.types.len() - i,
        {
            if self.types[i] == *mime_type {
                proof {
                    assert(texts(self.types@)[i as int] == mime_type@);
                }
                return true;
            }
            i = i + 1;
        }
        proof {
            if texts(self.types@).contains(mime_type@) {
                let k = choose|k: int| 0 <= k < texts(self.types@).len() && texts(self.types@)[k] == mime_type@;
                assert(self.types@[k]@ == mime_type@);
            }
        }
        false
    }

    /// Adds `mime_type`; a type already there is not added again.
    pub fn insert(&mut self, mime_type: String)
        requires
            old(self).wf(),
        ensures
            final(self).wf(),
            final(self)@ == old(self)@.insert(mime_type@),
            old(self)@.contains(mime_type@) ==> final(self).types@ == old(self).types@,
            !old(self)@.contains(mime_type@) ==> final(self).types@ == old(self).types@.push(
                mime_type,
            ),
    {
        if !self.contains(&mime_type) {
            let ghost s = mime_type@;
            self.types.push(mime_type);
            proof {
                assert(texts(self.types@) =~= texts(old(self).types@).push(s));
                assert(texts(self.types@).to_set() =~= texts(old(self).types@).to_set().insert(s))
                    by {
                    assert forall|x: Seq<char>|
                        texts(self.types@).contains(x) <==> (texts(old(self).types@).contains(x)
                            || x == s) by {
                        if texts(self.types@).contains(x) {
                            let k = choose|k: int| 0 <= k < texts(self.types@).len() && texts(self.types@)[k] == x;
                            if k < texts(old(self).types@).len() {
                                assert(texts(old(self).types@)[k] == x);
                            }
                        }
                        if texts(old(self).types@).contains(x) {
                            let k = choose|k: int| 0 <= k < texts(old(self).types@).len() && texts(old(self).types@)[k] == x;
                            assert(texts(self.types@)[k] == x);
                        }
                        if x == s {
                            assert(texts(self.types@)[texts(old(self).types@).len() as int] == x);
                        }
                    }
                }
            }
        } else {
            proof {
                assert(old(self)@.insert(mime_type@) =~= old(self)@);
            }
        }
    }
}

} // verus!
