//! The canonical JSON text of a document: the one encoding that both engines
//! receive.

use vstd::prelude::*;
use vstd::string::*;

use crate::document::{
    att0_key, att1_key, att2_key, att3_key, digit_char, optional_key, optional_key_name, Attributes,
    Document,
};
use crate::text::{joined, join_with, string_views};

verus! {

/// What `serde_json::to_string` returns for a string: the JSON string
/// literal, quotes and escapes included.
pub uninterp spec fn json_quoted(s: Seq<char>) -> Seq<char>;

/// Relies on `serde_json::to_string` on a `str`: the escaped JSON string
/// literal. Writing to an in-memory buffer cannot fail, so the error arm is
/// never taken.
#[verifier::external_body]
fn quote(s: &str) -> (r: String)
    ensures
        r@ == json_quoted(s@),
{
    match serde_json::to_string(s) {
        Ok(t) => t,
        Err(_) => String::new(),
    }
}

/// Decimal digits of a natural number, most significant first.
pub open spec fn decimal(n: nat) -> Seq<char>
    decreases n,
{
    if n < 10 {
        seq![digit_char(n)]
    } else {
        decimal(n / 10) + seq![digit_char(n % 10)]
    }
}

fn digit_text(d: u64) -> (r: &'static str)
    requires
        d < 10,
    ensures
        r@ == seq![digit_char(d as nat)],
{
    proof {
        reveal_strlit("0");
        reveal_strlit("1");
        reveal_strlit("2");
        reveal_strlit("3");
        reveal_strlit("4");
        reveal_strlit("5");
        reveal_strlit("6");
        reveal_strlit("7");
        reveal_strlit("8");
        reveal_strlit("9");
    }
    match d {
        0 => "0",
        1 => "1",
        2 => "2",
        3 => "3",
        4 => "4",
        5 => "5",
        6 => "6",
        7 => "7",
        8 => "8",
        _ => "9",
    }
}

/// Writes a number in decimal.
pub fn decimal_text(n: u64) -> (r: String)
    ensures
        r@ == decimal(n as nat),
    decreases n,
{
    if n < 10 {
        String::from_str(digit_text(n))
    } else {
        let mut s = decimal_text(n / 10);
        s.append(digit_text(n % 10));
        s
    }
}

/// A JSON array of strings.
pub open spec fn string_array_json(items: Seq<Seq<char>>) -> Seq<char> {
    seq!['['] + joined(items.map_values(|s: Seq<char>| json_quoted(s)), seq![',']) + seq![']']
}

/// One member of a JSON object: the key, which needs no escaping, and the
/// JSON text of its value.
pub open spec fn member_json(key: Seq<char>, value: Seq<char>) -> Seq<char> {
    seq!['"'] + key + seq!['"', ':'] + value
}

/// A JSON object with the given members, in order.
pub open spec fn object_json(members: Seq<(Seq<char>, Seq<char>)>) -> Seq<char> {
    seq!['{'] + joined(
        members.map_values(|m: (Seq<char>, Seq<char>)| member_json(m.0, m.1)),
        seq![','],
    ) + seq!['}']
}

pub open spec fn bool_json(b: bool) -> Seq<char> {
    if b {
        "true"@
    } else {
        "false"@
    }
}

/// The members of the attribute object. The optional attribute is a member
/// only when the document has it: a missing one is no key at all, not a null.
pub open spec fn attribute_members(a: Attributes) -> Seq<(Seq<char>, Seq<char>)> {
    let mandatory = seq![
        (att0_key(), decimal(a.att0 as nat)),
        (att1_key(), json_quoted(a.att1@)),
        (
            att2_key(),
            object_json(
                seq![
                    ("nested_key"@, json_quoted(a.att2.nested_key@)),
                    ("nested_bool"@, bool_json(a.att2.nested_bool)),
                ],
            ),
        ),
        (att3_key(), string_array_json(string_views(a.att3@))),
    ];
    match a.optional {
        Some(o) => mandatory.push((optional_key(o.slot as nat), json_quoted(o.value@))),
        None => mandatory,
    }
}

/// The members of the document object.
pub open spec fn document_members(d: Document) -> Seq<(Seq<char>, Seq<char>)> {
    seq![
        ("title"@, json_quoted(d.title@)),
        ("content"@, json_quoted(d.content@)),
        ("created_at"@, json_quoted(d.created_at@)),
        ("tags"@, string_array_json(string_views(d.tags@))),
        ("attributes"@, object_json(attribute_members(d.attributes))),
    ]
}

/// The canonical JSON text of a document.
pub open spec fn document_json(d: Document) -> Seq<char> {
    object_json(document_members(d))
}

/// Writes a JSON array of strings.
pub fn string_array_text(items: &Vec<String>) -> (r: String)
    ensures
        r@ == string_array_json(string_views(items@)),
{
    let mut quoted: Vec<String> = Vec::new();
    let mut i: usize = 0;
    while i < items.len()
        invariant
            i <= items@.len(),
            quoted@.len() == i,
            forall|k: int| 0 <= k < i ==> (#[trigger] quoted@[k])@ == json_quoted(items@[k]@),
        decreases items@.len() - i,
    {
        quoted.push(quote(items[i].as_str()));
        i = i + 1;
    }
    assert(string_views(quoted@) =~= string_views(items@).map_values(
        |s: Seq<char>| json_quoted(s),
    ));
    proof {
        reveal_strlit(",");
        assert(","@ =~= seq![',']);
    }
    let body = join_with(&quoted, ",");
    proof {
        reveal_strlit("[");
        reveal_strlit("]");
    }
    String::from_str("[").concat(body.as_str()).concat("]")
}

pub open spec fn pair_views(v: Seq<(String, String)>) -> Seq<(Seq<char>, Seq<char>)> {
    v.map_values(|m: (String, String)| (m.0@, m.1@))
}

/// Writes a JSON object from its members, in order.
pub fn object_text(members: &Vec<(String, String)>) -> (r: String)
    ensures
        r@ == object_json(pair_views(members@)),
{
    let mut parts: Vec<String> = Vec::new();
    let mut i: usize = 0;
    while i < members.len()
        invariant
            i <= members@.len(),
            parts@.len() == i,
            forall|k: int|
                0 <= k < i ==> (#[trigger] parts@[k])@ == member_json(
                    members@[k].0@,
                    members@[k].1@,
                ),
        decreases members@.len() - i,
    {
        proof {
            reveal_strlit("\"");
            reveal_strlit("\":");
        }
        let part = String::from_str("\"").concat(members[i].0.as_str()).concat("\":").concat(
            members[i].1.as_str(),
        );
        parts.push(part);
        i = i + 1;
    }
    assert(string_views(parts@) =~= pair_views(members@).map_values(
        |m: (Seq<char>, Seq<char>)| member_json(m.0, m.1),
    ));
    proof {
        reveal_strlit(",");
        assert(","@ =~= seq![',']);
    }
    let body = join_with(&parts, ",");
    proof {
        reveal_strlit("{");
        reveal_strlit("}");
    }
    String::from_str("{").concat(body.as_str()).concat("}")
}

fn key(k: &str) -> (r: String)
    ensures
        r@ == k@,
{
    String::from_str(k)
}

/// Writes the attribute object of a document.
pub fn attributes_text(a: &Attributes) -> (r: String)
    requires
        a.well_formed(),
    ensures
        r@ == object_json(attribute_members(*a)),
{
    proof {
        reveal_strlit("att0");
        reveal_strlit("att1");
        reveal_strlit("att2");
        reveal_strlit("att3");
        reveal_strlit("true");
        reveal_strlit("false");
        assert("att0"@ =~= att0_key());
        assert("att1"@ =~= att1_key());
        assert("att2"@ =~= att2_key());
        assert("att3"@ =~= att3_key());
    }
    let mut nested: Vec<(String, String)> = Vec::new();
    nested.push((key("nested_key"), quote(a.att2.nested_key.as_str())));
    let flag = if a.att2.nested_bool {
        key("true")
    } else {
        key("false")
    };
    nested.push((key("nested_bool"), flag));
    let nested_text = object_text(&nested);
    assert(pair_views(nested@) =~= seq![
        ("nested_key"@, json_quoted(a.att2.nested_key@)),
        ("nested_bool"@, bool_json(a.att2.nested_bool)),
    ]);
    let mut members: Vec<(String, String)> = Vec::new();
    members.push((key("att0"), decimal_text(a.att0)));
    members.push((key("att1"), quote(a.att1.as_str())));
    members.push((key("att2"), nested_text));
    members.push((key("att3"), string_array_text(&a.att3)));
    match &a.optional {
        Some(o) => {
            members.push((optional_key_name(o.slot), quote(o.value.as_str())));
        },
        None => {},
    }
    assert(pair_views(members@) =~= attribute_members(*a));
    object_text(&members)
}

/// Writes the canonical JSON text of a document.
pub fn encode_document(d: &Document) -> (r: String)
    requires
        d.well_formed(),
    ensures
        r@ == document_json(*d),
{
    let mut members: Vec<(String, String)> = Vec::new();
    members.push((key("title"), quote(d.title.as_str())));
    members.push((key("content"), quote(d.content.as_str())));
    members.push((key("created_at"), quote(d.created_at.as_str())));
    members.push((key("tags"), string_array_text(&d.tags)));
    members.push((key("attributes"), attributes_text(&d.attributes)));
    assert(pair_views(members@) =~= document_members(*d));
    object_text(&members)
}

/// The encoded attribute object has exactly the document's attribute keys as
/// member names, each once: a missing optional attribute leaves no member,
/// and so no null, behind.
pub proof fn lemma_encoded_keys_are_attribute_keys(a: Attributes)
    requires
        a.well_formed(),
    ensures
        attribute_members(a).map_values(|m: (Seq<char>, Seq<char>)| m.0).to_set() == a.keys(),
        attribute_members(a).map_values(|m: (Seq<char>, Seq<char>)| m.0).no_duplicates(),
        a.optional is None ==> attribute_members(a).len() == 4,
{
    let names = attribute_members(a).map_values(|m: (Seq<char>, Seq<char>)| m.0);
    assert(names.to_set() =~= a.keys()) by {
        assert forall|k: Seq<char>| names.to_set().contains(k) <==> a.keys().contains(k) by {
            if a.keys().contains(k) {
                if k == att0_key() {
                    assert(names[0] == k);
                } else if k == att1_key() {
                    assert(names[1] == k);
                } else if k == att2_key() {
                    assert(names[2] == k);
                } else if k == att3_key() {
                    assert(names[3] == k);
                } else {
                    assert(names[4] == k);
                }
            }
        }
    }
    assert(att0_key()[3] != att1_key()[3]);
    assert(att0_key()[3] != att2_key()[3]);
    assert(att0_key()[3] != att3_key()[3]);
    assert(att1_key()[3] != att2_key()[3]);
    assert(att1_key()[3] != att3_key()[3]);
    assert(att2_key()[3] != att3_key()[3]);
    match a.optional {
        Some(o) => {
            let ok = optional_key(o.slot as nat);
            assert(ok.len() != att0_key().len());
        },
        None => {},
    }
}

} // verus!
