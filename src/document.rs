//! The synthetic document and its well-formedness rules.

use vstd::prelude::*;
use vstd::string::*;

verus! {

/// Fewest tags a document carries.
pub const MIN_TAGS: usize = 1;

/// Most tags a document carries.
pub const MAX_TAGS: usize = 5;

/// `att0` lies in `[0, ATT0_BOUND)`.
pub const ATT0_BOUND: u64 = 1000;

/// Fewest strings in `att3`.
pub const MIN_ATT3: usize = 2;

/// Most strings in `att3`.
pub const MAX_ATT3: usize = 4;

/// Number of distinct optional attribute keys (`att_opt_0` .. `att_opt_4`).
pub const OPTIONAL_SLOTS: u64 = 5;

/// The nested object stored under `att2`.
#[derive(Clone, Debug, PartialEq, Eq)]
pub struct NestedAttribute {
    pub nested_key: String,
    pub nested_bool: bool,
}

/// The sparse attribute `att_opt_<slot>`; when a document lacks it the key is
/// absent altogether.
#[derive(Clone, Debug, PartialEq, Eq)]
pub struct OptionalAttribute {
    pub slot: u64,
    pub value: String,
}

/// The heterogeneous attribute bag of a document.
#[derive(Clone, Debug, PartialEq, Eq)]
pub struct Attributes {
    pub att0: u64,
    pub att1: String,
    pub att2: NestedAttribute,
    pub att3: Vec<String>,
    pub optional: Option<OptionalAttribute>,
}

/// One synthetic document; `created_at` is an RFC 3339 timestamp.
#[derive(Clone, Debug, PartialEq, Eq)]
pub struct Document {
    pub title: String,
    pub content: String,
    pub created_at: String,
    pub tags: Vec<String>,
    pub attributes: Attributes,
}

/// The characters of a decimal digit `d < 10`.
pub open spec fn digit_char(d: nat) -> char {
    ((d + 48) as u8) as char
}

/// Name of the optional attribute key of a slot: `att_opt_<slot>`.
pub open spec fn optional_key(slot: nat) -> Seq<char> {
    seq!['a', 't', 't', '_', 'o', 'p', 't', '_', digit_char(slot)]
}

pub open spec fn att0_key() -> Seq<char> {
    seq!['a', 't', 't', '0']
}

pub open spec fn att1_key() -> Seq<char> {
    seq!['a', 't', 't', '1']
}

pub open spec fn att2_key() -> Seq<char> {
    seq!['a', 't', 't', '2']
}

pub open spec fn att3_key() -> Seq<char> {
    seq!['a', 't', 't', '3']
}

/// The tags of a document as character sequences.
pub open spec fn tag_views(tags: Seq<String>) -> Seq<Seq<char>> {
    tags.map_values(|t: String| t@)
}

/// The name of the optional attribute key of a slot, `att_opt_<slot>`.
pub fn optional_key_name(slot: u64) -> (r: String)
    requires
        slot < OPTIONAL_SLOTS,
    ensures
        r@ == optional_key(slot as nat),
{
    proof {
        reveal_strlit("att_opt_0");
        reveal_strlit("att_opt_1");
        reveal_strlit("att_opt_2");
        reveal_strlit("att_opt_3");
        reveal_strlit("att_opt_4");
    }
    if slot == 0 {
        String::from_str("att_opt_0")
    } else if slot == 1 {
        String::from_str("att_opt_1")
    } else if slot == 2 {
        String::from_str("att_opt_2")
    } else if slot == 3 {
        String::from_str("att_opt_3")
    } else {
        String::from_str("att_opt_4")
    }
}

impl Attributes {
    /// The keys present in the attribute bag.
    pub open spec fn keys(&self) -> Set<Seq<char>> {
        let mandatory = set![att0_key(), att1_key(), att2_key(), att3_key()];
        match self.optional {
            Some(o) => mandatory.insert(optional_key(o.slot as nat)),
            None => mandatory,
        }
    }

    pub open spec fn well_formed(&self) -> bool {
        &&& self.att0 < ATT0_BOUND
        &&& MIN_ATT3 <= self.att3@.len() <= MAX_ATT3
        &&& self.optional matches Some(o) ==> o.slot < OPTIONAL_SLOTS
    }
}

impl Document {
    /// Every invariant of a document in the corpus.
    pub open spec fn well_formed(&self) -> bool {
        &&& MIN_TAGS <= self.tags@.len() <= MAX_TAGS
        &&& self.attributes.well_formed()
    }

    /// A well-formed document at position `index` of a corpus: its optional
    /// key, when present, is the one of slot `index mod 5`.
    pub open spec fn fits_position(&self, index: nat) -> bool {
        &&& self.well_formed()
        &&& self.attributes.optional matches Some(o) ==> o.slot == index % (OPTIONAL_SLOTS as nat)
    }
}

/// A document generated at position `index` has the four mandatory attribute
/// keys, and besides them at most the optional key of slot `index mod 5`.
pub proof fn lemma_generated_attribute_keys(d: Document, index: nat, key: Seq<char>)
    requires
        d.fits_position(index),
    ensures
        d.attributes.keys().contains(att0_key()),
        d.attributes.keys().contains(att1_key()),
        d.attributes.keys().contains(att2_key()),
        d.attributes.keys().contains(att3_key()),
        d.attributes.keys().contains(key) ==> key == att0_key() || key == att1_key() || key
            == att2_key() || key == att3_key() || key == optional_key(index % 5),
{
}

} // verus!
