//! Synthetic corpus generation over a random source.

use vstd::prelude::*;
use vstd::string::*;
use fake::Fake;
use rand::Rng;
use rand::SeedableRng;
use rand::rngs::StdRng;

use crate::json::{document_json, encode_document};
use crate::text::join_with;
use crate::document::{
    Attributes, Document, NestedAttribute, OptionalAttribute, ATT0_BOUND, MAX_ATT3, MAX_TAGS,
    MIN_ATT3, MIN_TAGS, OPTIONAL_SLOTS,
};

verus! {

#[verifier::external_type_specification]
#[verifier::external_body]
pub struct ExStdRng(StdRng);

/// What `str::to_lowercase` returns for a string.
pub uninterp spec fn lower_of(s: Seq<char>) -> Seq<char>;

/// Relies on rand's `SeedableRng::seed_from_u64`: a generator built from a seed.
#[verifier::external_body]
fn rng_from_seed(seed: u64) -> (r: StdRng) {
    StdRng::seed_from_u64(seed)
}

/// Relies on rand's `SeedableRng::from_entropy`: a generator seeded by the OS.
#[verifier::external_body]
fn rng_from_entropy() -> (r: StdRng) {
    StdRng::from_entropy()
}

/// Relies on rand's `Rng::gen_range`: a value of the half-open range; it
/// panics on an empty range, hence `lo < hi`.
#[verifier::external_body]
fn draw_range(rng: &mut StdRng, lo: u64, hi: u64) -> (r: u64)
    requires
        lo < hi,
    ensures
        lo <= r < hi,
{
    rng.gen_range(lo..hi)
}

/// Relies on fake's `lorem::zh_tw::Words`: as many words as a draw of
/// `gen_range(lo..hi)` gives.
#[verifier::external_body]
fn fake_zh_words(rng: &mut StdRng, lo: usize, hi: usize) -> (r: Vec<String>)
    requires
        lo < hi,
    ensures
        lo <= r@.len() < hi,
{
    fake::faker::lorem::zh_tw::Words(lo..hi).fake_with_rng(rng)
}

/// Relies on fake's `lorem::zh_tw::Paragraphs`: as many paragraphs as a draw
/// of `gen_range(lo..hi)` gives.
#[verifier::external_body]
fn fake_zh_paragraphs(rng: &mut StdRng, lo: usize, hi: usize) -> (r: Vec<String>)
    requires
        lo < hi,
    ensures
        lo <= r@.len() < hi,
{
    fake::faker::lorem::zh_tw::Paragraphs(lo..hi).fake_with_rng(rng)
}

/// Relies on fake's `lorem::en::Word`: one word of its word list.
#[verifier::external_body]
fn fake_word(rng: &mut StdRng) -> (r: String) {
    fake::faker::lorem::en::Word().fake_with_rng(rng)
}

/// Relies on fake's `lorem::en::Words`: as many words as a draw of
/// `gen_range(lo..hi)` gives.
#[verifier::external_body]
fn fake_words(rng: &mut StdRng, lo: usize, hi: usize) -> (r: Vec<String>)
    requires
        lo < hi,
    ensures
        lo <= r@.len() < hi,
{
    fake::faker::lorem::en::Words(lo..hi).fake_with_rng(rng)
}

/// Relies on fake's `company::en::Bs`: a business phrase.
#[verifier::external_body]
fn fake_business_phrase(rng: &mut StdRng) -> (r: String) {
    fake::faker::company::en::Bs().fake_with_rng(rng)
}

/// Relies on fake's `internet::en::DomainSuffix`: a domain suffix.
#[verifier::external_body]
fn fake_domain_suffix(rng: &mut StdRng) -> (r: String) {
    fake::faker::internet::en::DomainSuffix().fake_with_rng(rng)
}

/// Relies on fake's `boolean::en::Boolean`: true with the given percentage.
#[verifier::external_body]
fn fake_boolean(rng: &mut StdRng, percent_true: u8) -> (r: bool) {
    fake::faker::boolean::en::Boolean(percent_true).fake_with_rng(rng)
}

/// Relies on fake's `number::en::NumberWithFormat`: the format with each `#`
/// replaced by a digit.
#[verifier::external_body]
fn fake_number_with_format(rng: &mut StdRng, format: &str) -> (r: String) {
    fake::faker::number::en::NumberWithFormat(format).fake_with_rng(rng)
}

/// Relies on `str::to_lowercase`: the result depends on the characters alone.
#[verifier::external_body]
fn lowercase(s: &str) -> (r: String)
    ensures
        r@ == lower_of(s@),
{
    s.to_lowercase()
}

/// Relies on chrono's `Utc::now`, `TimeDelta::days` and
/// `DateTime::to_rfc3339`: the present instant moved back by whole days, as
/// RFC 3339 text; neither call panics for at most ten years.
#[verifier::external_body]
fn rfc3339_days_ago(days: u64) -> (r: String)
    requires
        days <= 3650,
{
    (chrono::Utc::now() - chrono::Duration::days(days as i64)).to_rfc3339()
}

/// A source of random draws for the generator; seeded for reproducible corpora.
pub struct RandomSource {
    rng: StdRng,
}

impl RandomSource {
    /// A source whose draws depend on the seed alone.
    pub fn seeded(seed: u64) -> (r: RandomSource) {
        RandomSource { rng: rng_from_seed(seed) }
    }

    /// A source seeded from the operating system.
    pub fn from_entropy() -> (r: RandomSource) {
        RandomSource { rng: rng_from_entropy() }
    }
}

/// Optional attributes are present in 7 of 10 documents.
pub const OPTIONAL_PRESENT_OUT_OF_TEN: u64 = 7;

/// Oldest creation time, in days before now.
pub const CREATED_WITHIN_DAYS: u64 = 365;

/// Every tag is the lower-case form of some word.
pub open spec fn tags_lowercased(tags: Seq<String>) -> bool {
    forall|i: int| 0 <= i < tags.len() ==> exists|w: Seq<char>| #[trigger] tags[i]@ == lower_of(w)
}

/// Draws the lower-cased tags of one document.
fn generate_tags(src: &mut RandomSource) -> (r: Vec<String>)
    ensures
        MIN_TAGS <= r@.len() <= MAX_TAGS,
        tags_lowercased(r@),
{
    let count = draw_range(&mut src.rng, MIN_TAGS as u64, MAX_TAGS as u64 + 1);
    let mut tags: Vec<String> = Vec::new();
    let mut k: u64 = 0;
    while k < count
        invariant
            k <= count <= MAX_TAGS,
            tags@.len() == k,
            tags_lowercased(tags@),
        decreases count - k,
    {
        let word = fake_word(&mut src.rng);
        let tag = lowercase(word.as_str());
        tags.push(tag);
        proof {
            assert(tags@[k as int]@ == lower_of(word@));
        }
        k = k + 1;
    }
    tags
}

/// Generates the document at position `index` of a corpus.
pub fn generate_document(src: &mut RandomSource, index: usize) -> (d: Document)
    ensures
        d.fits_position(index as nat),
        tags_lowercased(d.tags@),
{
    let title_words = fake_zh_words(&mut src.rng, 5, 20);
    let title = join_with(&title_words, " ");
    let paragraphs = fake_zh_paragraphs(&mut src.rng, 5, 10);
    let content = join_with(&paragraphs, " ");
    let days = draw_range(&mut src.rng, 0, CREATED_WITHIN_DAYS);
    let created_at = rfc3339_days_ago(days);
    let tags = generate_tags(src);
    let att0 = draw_range(&mut src.rng, 0, ATT0_BOUND);
    let att1 = fake_business_phrase(&mut src.rng);
    let nested_key = fake_domain_suffix(&mut src.rng);
    let nested_bool = fake_boolean(&mut src.rng, 50);
    let att3 = fake_words(&mut src.rng, MIN_ATT3, MAX_ATT3 + 1);
    let slot = (index % (OPTIONAL_SLOTS as usize)) as u64;
    let optional = if draw_range(&mut src.rng, 0, 10) < OPTIONAL_PRESENT_OUT_OF_TEN {
        let value = fake_number_with_format(&mut src.rng, "###-##-####");
        Some(OptionalAttribute { slot, value })
    } else {
        None
    };
    Document {
        title,
        content,
        created_at,
        tags,
        attributes: Attributes {
            att0,
            att1,
            att2: NestedAttribute { nested_key, nested_bool },
            att3,
            optional,
        },
    }
}

/// Generates a corpus of `count` documents from the given source.
pub fn generate_documents_from(src: &mut RandomSource, count: usize) -> (docs: Vec<Document>)
    ensures
        docs@.len() == count,
        forall|i: int| 0 <= i < count ==> #[trigger] docs@[i].fits_position(i as nat),
        forall|i: int| 0 <= i < count ==> tags_lowercased(#[trigger] docs@[i].tags@),
{
    let mut docs: Vec<Document> = Vec::new();
    let mut i: usize = 0;
    while i < count
        invariant
            i <= count,
            docs@.len() == i,
            forall|j: int| 0 <= j < i ==> #[trigger] docs@[j].fits_position(j as nat),
            forall|j: int| 0 <= j < i ==> tags_lowercased(#[trigger] docs@[j].tags@),
        decreases count - i,
    {
        let d = generate_document(src, i);
        docs.push(d);
        i = i + 1;
    }
    docs
}

/// Encodes each document of a corpus as its canonical JSON text.
pub fn encode_corpus(docs: &Vec<Document>) -> (texts: Vec<String>)
    requires
        forall|i: int| 0 <= i < docs@.len() ==> (#[trigger] docs@[i]).well_formed(),
    ensures
        texts@.len() == docs@.len(),
        forall|i: int| 0 <= i < docs@.len() ==> (#[trigger] texts@[i])@ == document_json(docs@[i]),
{
    let mut texts: Vec<String> = Vec::new();
    let mut i: usize = 0;
    while i < docs.len()
        invariant
            i <= docs@.len(),
            texts@.len() == i,
            forall|j: int| 0 <= j < docs@.len() ==> (#[trigger] docs@[j]).well_formed(),
            forall|j: int| 0 <= j < i ==> (#[trigger] texts@[j])@ == document_json(docs@[j]),
        decreases docs@.len() - i,
    {
        texts.push(encode_document(&docs[i]));
        i = i + 1;
    }
    texts
}

/// The text is the canonical JSON of a document that may stand at position
/// `index` of a generated corpus.
pub open spec fn encodes_generated(text: Seq<char>, index: nat) -> bool {
    exists|d: Document|
        #![trigger d.fits_position(index)]
        d.fits_position(index) && tags_lowercased(d.tags@) && text == document_json(d)
}

/// Generates a corpus of `count` documents from an OS-seeded source, each as
/// its canonical JSON text.
pub fn generate_documents(count: usize) -> (texts: Vec<String>)
    ensures
        texts@.len() == count,
        forall|i: int| 0 <= i < count ==> encodes_generated((#[trigger] texts@[i])@, i as nat),
{
    let mut src = RandomSource::from_entropy();
    let docs = generate_documents_from(&mut src, count);
    assert forall|i: int| 0 <= i < docs@.len() implies (#[trigger] docs@[i]).well_formed() by {
        assert(docs@[i].fits_position(i as nat));
    }
    let texts = encode_corpus(&docs);
    assert forall|i: int| 0 <= i < count implies encodes_generated(
        (#[trigger] texts@[i])@,
        i as nat,
    ) by {
        assert(docs@[i].fits_position(i as nat));
        assert(tags_lowercased(docs@[i].tags@));
    }
    texts
}

} // verus!
