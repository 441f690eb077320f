//! What a predicate means on a document, and an in-memory evaluation of the
//! battery over a corpus: the reference both engines' answers are held to.

use vstd::prelude::*;
use vstd::string::*;

use crate::document::{att0_key, att1_key, att2_key, att3_key, optional_key_name, Document};
use crate::query::Predicate;

verus! {

/// The document carries the tag.
pub open spec fn has_tag(d: Document, tag: Seq<char>) -> bool {
    exists|i: int| 0 <= i < d.tags@.len() && (#[trigger] d.tags@[i])@ == tag
}

impl Predicate {
    /// The predicate holds of a document.
    pub open spec fn holds(&self, d: Document) -> bool {
        match *self {
            Predicate::TagContains(t) => has_tag(d, t@),
            Predicate::AttributeKeyExists(k) => d.attributes.keys().contains(k@),
            Predicate::NestedKeyEquals(v) => d.attributes.att2.nested_key@ == v@,
            Predicate::Att0Above(b) => d.attributes.att0 > b,
        }
    }

    /// Tests the predicate on one document.
    pub fn matches(&self, d: &Document) -> (r: bool)
        requires
            d.well_formed(),
        ensures
            r == self.holds(*d),
    {
        match self {
            Predicate::TagContains(t) => {
                let mut i: usize = 0;
                while i < d.tags.len()
                    invariant
                        i <= d.tags@.len(),
                        self.holds(*d) == has_tag(*d, t@),
                        forall|j: int| 0 <= j < i ==> (#[trigger] d.tags@[j])@ != t@,
                    decreases d.tags@.len() - i,
                {
                    if d.tags[i] == *t {
                        assert((d.tags@[i as int])@ == t@);
                        return true;
                    }
                    i = i + 1;
                }
                false
            },
            Predicate::AttributeKeyExists(k) => {
                proof {
                    reveal_strlit("att0");
                    reveal_strlit("att1");
                    reveal_strlit("att2");
                    reveal_strlit("att3");
                    assert("att0"@ =~= att0_key());
                    assert("att1"@ =~= att1_key());
                    assert("att2"@ =~= att2_key());
                    assert("att3"@ =~= att3_key());
                }
                let mandatory = *k == String::from_str("att0") || *k == String::from_str("att1")
                    || *k == String::from_str("att2") || *k == String::from_str("att3");
                assert(mandatory == set![att0_key(), att1_key(), att2_key(), att3_key()].contains(
                    k@,
                ));
                if mandatory {
                    return true;
                }
                match &d.attributes.optional {
                    Some(o) => *k == optional_key_name(o.slot),
                    None => false,
                }
            },
            Predicate::NestedKeyEquals(v) => d.attributes.att2.nested_key == *v,
            Predicate::Att0Above(b) => *b < 0 || (d.attributes.att0 as i64) > *b,
        }
    }
}

/// Number of documents of a corpus of which the predicate holds.
pub open spec fn count_holding(docs: Seq<Document>, p: Predicate) -> nat
    decreases docs.len(),
{
    if docs.len() == 0 {
        0
    } else {
        count_holding(docs.drop_last(), p) + if p.holds(docs.last()) {
            1nat
        } else {
            0nat
        }
    }
}

/// Counts the documents of a corpus that match the predicate.
pub fn count_matching(docs: &Vec<Document>, p: &Predicate) -> (r: usize)
    requires
        forall|i: int| 0 <= i < docs@.len() ==> (#[trigger] docs@[i]).well_formed(),
    ensures
        r == count_holding(docs@, *p),
{
    let mut count: usize = 0;
    let mut i: usize = 0;
    while i < docs.len()
        invariant
            i <= docs@.len(),
            count <= i,
            count == count_holding(docs@.take(i as int), *p),
            forall|j: int| 0 <= j < docs@.len() ==> (#[trigger] docs@[j]).well_formed(),
        decreases docs@.len() - i,
    {
        assert(docs@.take(i as int + 1).drop_last() =~= docs@.take(i as int));
        if p.matches(&docs[i]) {
            count = count + 1;
        }
        i = i + 1;
    }
    assert(docs@.take(docs@.len() as int) =~= docs@);
    count
}

/// A corpus with at least one document carrying a tag answers the tag
/// containment query with at least one document.
pub proof fn lemma_present_tag_is_found(docs: Seq<Document>, tag: String, i: int)
    requires
        0 <= i < docs.len(),
        has_tag(docs[i], tag@),
    ensures
        count_holding(docs, Predicate::TagContains(tag)) >= 1,
    decreases docs.len(),
{
    if i < docs.len() - 1 {
        assert(docs.drop_last()[i] == docs[i]);
        lemma_present_tag_is_found(docs.drop_last(), tag, i);
    }
}

/// A tag that no document of the corpus carries matches no document.
pub proof fn lemma_absent_tag_matches_nothing(docs: Seq<Document>, tag: String)
    requires
        forall|i: int| 0 <= i < docs.len() ==> !has_tag(#[trigger] docs[i], tag@),
    ensures
        count_holding(docs, Predicate::TagContains(tag)) == 0,
    decreases docs.len(),
{
    if docs.len() > 0 {
        assert forall|i: int| 0 <= i < docs.drop_last().len() implies !has_tag(
            #[trigger] docs.drop_last()[i],
            tag@,
        ) by {
            assert(docs.drop_last()[i] == docs[i]);
        }
        lemma_absent_tag_matches_nothing(docs.drop_last(), tag);
        assert(!has_tag(docs.last(), tag@));
    }
}

/// The numeric range query above a threshold returns only documents whose
/// `att0` is at least one more than the threshold.
pub proof fn lemma_range_matches_exceed_threshold(d: Document, threshold: i64)
    requires
        Predicate::Att0Above(threshold).holds(d),
    ensures
        d.attributes.att0 >= threshold + 1,
{
}

} // verus!
