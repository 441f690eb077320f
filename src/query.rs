//! Query intents and their translation into each engine's native form.

use vstd::prelude::*;
use vstd::string::*;

use crate::error::BenchError;

verus! {

/// Rows or hits fetched per benchmark query, on both engines.
pub const RESULT_CAP: u64 = 10;

/// An abstract, engine-independent query intent of the benchmark battery.
#[derive(Clone, Debug, PartialEq, Eq)]
pub enum QueryIntent {
    /// Documents whose tags contain the tag.
    TagContains(String),
    /// Documents whose attribute bag has the key.
    AttributeExists(String),
    /// Documents whose `att2.nested_key` equals the value.
    NestedKeyEquals(String),
    /// Documents whose `att0` exceeds the threshold, given as decimal text.
    Att0GreaterThan(String),
    /// Documents that carry the sparse optional key.
    OptionalKeyExists(String),
    /// A tag that no document carries; the "no match" path.
    AbsentTag(String),
}

/// One entry of the benchmark battery.
#[derive(Clone, Debug, PartialEq, Eq)]
pub struct BenchmarkQuery {
    pub description: String,
    pub intent: QueryIntent,
}

/// The predicate that both native forms of an intent test.
#[derive(Clone, Debug, PartialEq, Eq)]
pub enum Predicate {
    TagContains(String),
    AttributeKeyExists(String),
    NestedKeyEquals(String),
    Att0Above(i64),
}

/// The relational engine's prepared statements, one per predicate shape.
#[derive(Clone, Copy, Debug, PartialEq, Eq, Structural)]
pub enum SqlStatement {
    TagContains,
    AttributeKeyExists,
    NestedKeyEquals,
    Att0Above,
}

/// The parameter bound to a prepared statement.
#[derive(Clone, Debug, PartialEq, Eq)]
pub enum SqlParam {
    /// A JSON array holding this one string, bound as `jsonb`.
    JsonStringArray(String),
    /// A plain text value.
    Text(String),
    /// A 64-bit integer.
    Int(i64),
}

/// A search-engine query-DSL clause.
#[derive(Clone, Debug, PartialEq, Eq)]
pub enum SearchQuery {
    /// `{"term": {field: value}}`
    Term { field: String, value: String },
    /// `{"exists": {"field": field}}`
    Exists { field: String },
    /// `{"range": {field: {"gt": bound}}}`
    GreaterThan { field: String, bound: i64 },
}

/// Both native forms of one intent.
#[derive(Clone, Debug, PartialEq, Eq)]
pub struct NativeQuery {
    pub predicate: Predicate,
    pub statement: SqlStatement,
    pub param: SqlParam,
    pub search: SearchQuery,
}

pub open spec fn is_digit(c: char) -> bool {
    '0' <= c && c <= '9'
}

pub open spec fn all_digits(s: Seq<char>) -> bool {
    &&& s.len() > 0
    &&& forall|i: int| 0 <= i < s.len() ==> is_digit(#[trigger] s[i])
}

/// The value of a string of decimal digits.
pub open spec fn digits_value(s: Seq<char>) -> nat
    decreases s.len(),
{
    if s.len() == 0 {
        0
    } else {
        digits_value(s.drop_last()) * 10 + (s.last() as nat - '0' as nat) as nat
    }
}

/// The integer a text denotes: digits, optionally after one leading `-`.
pub open spec fn integer_of(s: Seq<char>) -> Option<int> {
    if all_digits(s) {
        Some(digits_value(s) as int)
    } else if s.len() > 1 && s[0] == '-' && all_digits(s.skip(1)) {
        Some(-(digits_value(s.skip(1)) as int))
    } else {
        None
    }
}

pub open spec fn fits_i64(v: int) -> bool {
    i64::MIN <= v <= i64::MAX
}

/// Past this magnitude no `i64` can be denoted.
const MAGNITUDE_CAP: u128 = 9223372036854775809;

pub open spec fn min_nat(a: nat, b: nat) -> nat {
    if a <= b {
        a
    } else {
        b
    }
}

/// Reads the digits of `text` from `from` on, saturating at `MAGNITUDE_CAP`;
/// `None` when a character is not a digit or there is none.
fn read_magnitude(text: &str, from: usize) -> (r: Option<u128>)
    requires
        from <= text@.len(),
    ensures
        r is Some <==> all_digits(text@.skip(from as int)),
        r matches Some(m) ==> m == min_nat(
            digits_value(text@.skip(from as int)),
            MAGNITUDE_CAP as nat,
        ),
{
    let n = text.unicode_len();
    if from >= n {
        return None;
    }
    let ghost s = text@.skip(from as int);
    let mut acc: u128 = 0;
    let mut i: usize = from;
    assert(s.take(0) =~= Seq::<char>::empty());
    while i < n
        invariant
            from <= i <= n,
            n == text@.len(),
            s == text@.skip(from as int),
            acc == min_nat(digits_value(s.take(i - from)), MAGNITUDE_CAP as nat),
            forall|k: int| 0 <= k < i - from ==> is_digit(#[trigger] s[k]),
        decreases n - i,
    {
        let c = text.get_char(i);
        if !('0' <= c && c <= '9') {
            assert(!is_digit(s[i - from]));
            return None;
        }
        let d = (c as u32 - '0' as u32) as u128;
        let ghost prev = digits_value(s.take(i - from));
        assert(s.take(i - from + 1).drop_last() =~= s.take(i - from));
        assert(digits_value(s.take(i - from + 1)) == prev * 10 + d);
        let next = acc * 10 + d;
        if next >= MAGNITUDE_CAP {
            acc = MAGNITUDE_CAP;
        } else {
            acc = next;
        }
        proof {
            if prev > MAGNITUDE_CAP {
                assert(prev * 10 + d >= MAGNITUDE_CAP);
            }
        }
        assert(acc == min_nat((prev * 10 + d) as nat, MAGNITUDE_CAP as nat));
        i = i + 1;
    }
    assert(s.take(n - from) =~= s);
    Some(acc)
}

/// Parses a threshold written as a decimal integer that fits in an `i64`.
pub fn parse_threshold(text: &str) -> (r: Result<i64, BenchError>)
    ensures
        match integer_of(text@) {
            Some(v) => if fits_i64(v) {
                r == Ok::<i64, BenchError>(v as i64)
            } else {
                r matches Err(BenchError::Translation(m)) && m@ == text@
            },
            None => r matches Err(BenchError::Translation(m)) && m@ == text@,
        },
{
    let n = text.unicode_len();
    let negative = n > 1 && text.get_char(0) == '-';
    let start: usize = if negative {
        1
    } else {
        0
    };
    assert(text@.skip(0) =~= text@);
    let magnitude = read_magnitude(text, start);
    proof {
        if negative {
            if all_digits(text@) {
                assert(!is_digit(text@[0]));
            }
        } else if n > 1 && all_digits(text@.skip(1)) {
            assert(text@[0] != '-');
        }
    }
    match magnitude {
        None => Err(BenchError::Translation(String::from_str(text))),
        Some(m) => {
            if negative {
                if m <= 9223372036854775808 {
                    if m == 9223372036854775808 {
                        Ok(i64::MIN)
                    } else {
                        Ok(-(m as i64))
                    }
                } else {
                    Err(BenchError::Translation(String::from_str(text)))
                }
            } else if m <= 9223372036854775807 {
                Ok(m as i64)
            } else {
                Err(BenchError::Translation(String::from_str(text)))
            }
        },
    }
}

/// The SQL text of each prepared statement; the parameter is `$1`.
pub open spec fn sql_text(s: SqlStatement) -> Seq<char> {
    match s {
        SqlStatement::TagContains =>
            "SELECT data ->> 'title' FROM documents_jsonb WHERE data -> 'tags' @> $1::jsonb LIMIT 10"@,
        SqlStatement::AttributeKeyExists =>
            "SELECT data ->> 'title' FROM documents_jsonb WHERE data -> 'attributes' ? $1 LIMIT 10"@,
        SqlStatement::NestedKeyEquals =>
            "SELECT data ->> 'title' FROM documents_jsonb WHERE data -> 'attributes' -> 'att2' ->> 'nested_key' = $1 LIMIT 10"@,
        SqlStatement::Att0Above =>
            "SELECT data ->> 'title' FROM documents_jsonb WHERE (data -> 'attributes' ->> 'att0')::numeric > $1::int8 LIMIT 10"@,
    }
}

impl SqlStatement {
    /// The SQL text to prepare for this statement.
    pub fn sql(&self) -> (r: &'static str)
        ensures
            r@ == sql_text(*self),
    {
        match self {
            SqlStatement::TagContains =>
                "SELECT data ->> 'title' FROM documents_jsonb WHERE data -> 'tags' @> $1::jsonb LIMIT 10",
            SqlStatement::AttributeKeyExists =>
                "SELECT data ->> 'title' FROM documents_jsonb WHERE data -> 'attributes' ? $1 LIMIT 10",
            SqlStatement::NestedKeyEquals =>
                "SELECT data ->> 'title' FROM documents_jsonb WHERE data -> 'attributes' -> 'att2' ->> 'nested_key' = $1 LIMIT 10",
            SqlStatement::Att0Above =>
                "SELECT data ->> 'title' FROM documents_jsonb WHERE (data -> 'attributes' ->> 'att0')::numeric > $1::int8 LIMIT 10",
        }
    }
}

/// `q` holds the two native forms of predicate `p`.
pub open spec fn is_native_of(q: NativeQuery, p: Predicate) -> bool {
    &&& q.predicate == p
    &&& match p {
        Predicate::TagContains(t) => {
            &&& q.statement == SqlStatement::TagContains
            &&& q.param == SqlParam::JsonStringArray(t)
            &&& q.search matches SearchQuery::Term { field, value } && field@ == "tags"@
                && value == t
        },
        Predicate::AttributeKeyExists(k) => {
            &&& q.statement == SqlStatement::AttributeKeyExists
            &&& q.param == SqlParam::Text(k)
            &&& q.search matches SearchQuery::Exists { field } && field@ == "attributes."@ + k@
        },
        Predicate::NestedKeyEquals(v) => {
            &&& q.statement == SqlStatement::NestedKeyEquals
            &&& q.param == SqlParam::Text(v)
            &&& q.search matches SearchQuery::Term { field, value } && field@
                == "attributes.att2.nested_key"@ && value == v
        },
        Predicate::Att0Above(b) => {
            &&& q.statement == SqlStatement::Att0Above
            &&& q.param == SqlParam::Int(b)
            &&& q.search matches SearchQuery::GreaterThan { field, bound } && field@
                == "attributes.att0"@ && bound == b
        },
    }
}

impl Predicate {
    /// Both native forms of the predicate.
    pub fn native(&self) -> (r: NativeQuery)
        ensures
            is_native_of(r, *self),
    {
        match self {
            Predicate::TagContains(t) => NativeQuery {
                predicate: Predicate::TagContains(t.clone()),
                statement: SqlStatement::TagContains,
                param: SqlParam::JsonStringArray(t.clone()),
                search: SearchQuery::Term { field: String::from_str("tags"), value: t.clone() },
            },
            Predicate::AttributeKeyExists(k) => NativeQuery {
                predicate: Predicate::AttributeKeyExists(k.clone()),
                statement: SqlStatement::AttributeKeyExists,
                param: SqlParam::Text(k.clone()),
                search: SearchQuery::Exists {
                    field: String::from_str("attributes.").concat(k.as_str()),
                },
            },
            Predicate::NestedKeyEquals(v) => NativeQuery {
                predicate: Predicate::NestedKeyEquals(v.clone()),
                statement: SqlStatement::NestedKeyEquals,
                param: SqlParam::Text(v.clone()),
                search: SearchQuery::Term {
                    field: String::from_str("attributes.att2.nested_key"),
                    value: v.clone(),
                },
            },
            Predicate::Att0Above(b) => NativeQuery {
                predicate: Predicate::Att0Above(*b),
                statement: SqlStatement::Att0Above,
                param: SqlParam::Int(*b),
                search: SearchQuery::GreaterThan {
                    field: String::from_str("attributes.att0"),
                    bound: *b,
                },
            },
        }
    }
}

/// The predicate an intent stands for, or `None` when its threshold text
/// denotes no `i64`.
pub open spec fn predicate_of(intent: QueryIntent) -> Option<Predicate> {
    match intent {
        QueryIntent::TagContains(t) => Some(Predicate::TagContains(t)),
        QueryIntent::AbsentTag(t) => Some(Predicate::TagContains(t)),
        QueryIntent::AttributeExists(k) => Some(Predicate::AttributeKeyExists(k)),
        QueryIntent::OptionalKeyExists(k) => Some(Predicate::AttributeKeyExists(k)),
        QueryIntent::NestedKeyEquals(v) => Some(Predicate::NestedKeyEquals(v)),
        QueryIntent::Att0GreaterThan(text) => match integer_of(text@) {
            Some(v) => if fits_i64(v) {
                Some(Predicate::Att0Above(v as i64))
            } else {
                None
            },
            None => None,
        },
    }
}

/// Translates an intent into both engines' native forms; a threshold that is
/// not a decimal `i64` is a translation error for this intent alone.
pub fn translate(intent: &QueryIntent) -> (r: Result<NativeQuery, BenchError>)
    ensures
        match predicate_of(*intent) {
            Some(p) => r matches Ok(q) && is_native_of(q, p),
            None => intent matches QueryIntent::Att0GreaterThan(text) && r matches Err(
                BenchError::Translation(m),
            ) && m@ == text@,
        },
{
    let predicate = match intent {
        QueryIntent::TagContains(t) => Predicate::TagContains(t.clone()),
        QueryIntent::AbsentTag(t) => Predicate::TagContains(t.clone()),
        QueryIntent::AttributeExists(k) => Predicate::AttributeKeyExists(k.clone()),
        QueryIntent::OptionalKeyExists(k) => Predicate::AttributeKeyExists(k.clone()),
        QueryIntent::NestedKeyEquals(v) => Predicate::NestedKeyEquals(v.clone()),
        QueryIntent::Att0GreaterThan(text) => match parse_threshold(text.as_str()) {
            Ok(v) => Predicate::Att0Above(v),
            Err(e) => {
                return Err(e);
            },
        },
    };
    Ok(predicate.native())
}

fn battery_entry(description: &str, intent: QueryIntent) -> (r: BenchmarkQuery)
    ensures
        r.description@ == description@,
        r.intent == intent,
{
    BenchmarkQuery { description: String::from_str(description), intent }
}

/// The fixed battery: tag containment, key existence, nested equality,
/// numeric range, sparse optional key, and a known-absent tag, in that order.
pub fn canonical_queries() -> (r: Vec<BenchmarkQuery>)
    ensures
        r@.len() == 6,
        r@[0].intent matches QueryIntent::TagContains(t) && t@ == "rust"@,
        r@[1].intent matches QueryIntent::AttributeExists(k) && k@ == "att1"@,
        r@[2].intent matches QueryIntent::NestedKeyEquals(v) && v@ == "com"@,
        r@[3].intent matches QueryIntent::Att0GreaterThan(t) && t@ == "500"@,
        r@[4].intent matches QueryIntent::OptionalKeyExists(k) && k@ == "att_opt_1"@,
        r@[5].intent matches QueryIntent::AbsentTag(t) && t@ == "nonexistent"@,
        r@[0].description@ == "tags @> 'rust'"@,
        r@[1].description@ == "attr ? 'att1'"@,
        r@[2].description@ == "attr nested = 'com'"@,
        r@[3].description@ == "attr att0 > 500"@,
        r@[4].description@ == "attr ? 'att_opt_1'"@,
        r@[5].description@ == "tags @> 'nonexistent'"@,
{
    let mut r: Vec<BenchmarkQuery> = Vec::new();
    r.push(
        battery_entry("tags @> 'rust'", QueryIntent::TagContains(String::from_str("rust"))),
    );
    r.push(
        battery_entry("attr ? 'att1'", QueryIntent::AttributeExists(String::from_str("att1"))),
    );
    r.push(
        battery_entry(
            "attr nested = 'com'",
            QueryIntent::NestedKeyEquals(String::from_str("com")),
        ),
    );
    r.push(
        battery_entry("attr att0 > 500", QueryIntent::Att0GreaterThan(String::from_str("500"))),
    );
    r.push(
        battery_entry(
            "attr ? 'att_opt_1'",
            QueryIntent::OptionalKeyExists(String::from_str("att_opt_1")),
        ),
    );
    r.push(
        battery_entry(
            "tags @> 'nonexistent'",
            QueryIntent::AbsentTag(String::from_str("nonexistent")),
        ),
    );
    r
}

} // verus!
