//! Schema provisioning for both engines, idempotent by construction.

use vstd::prelude::*;
use vstd::string::*;

use crate::error::BenchError;

verus! {

/// Kind of a relational schema object.
#[derive(Clone, Copy, Debug, PartialEq, Eq, Structural)]
pub enum ObjectKind {
    Table,
    Index,
}

/// A relational schema object, created only when absent.
#[derive(Clone, Debug, PartialEq, Eq)]
pub struct SchemaObject {
    pub kind: ObjectKind,
    pub name: String,
    /// What follows the name in the creating statement.
    pub definition: String,
}

pub open spec fn create_prefix(kind: ObjectKind) -> Seq<char> {
    match kind {
        ObjectKind::Table => "CREATE TABLE IF NOT EXISTS "@,
        ObjectKind::Index => "CREATE INDEX IF NOT EXISTS "@,
    }
}

/// The statement that creates the object unless it exists.
pub open spec fn creating_statement(o: SchemaObject) -> Seq<char> {
    create_prefix(o.kind) + o.name@ + o.definition@
}

impl SchemaObject {
    /// The statement that creates the object unless it exists.
    pub fn statement(&self) -> (r: String)
        ensures
            r@ == creating_statement(*self),
    {
        let prefix = match self.kind {
            ObjectKind::Table => "CREATE TABLE IF NOT EXISTS ",
            ObjectKind::Index => "CREATE INDEX IF NOT EXISTS ",
        };
        String::from_str(prefix).concat(self.name.as_str()).concat(self.definition.as_str())
    }
}

/// Names of the relational objects: the document table, then its indexes.
pub open spec fn relational_object_names() -> Seq<Seq<char>> {
    seq![
        "documents_jsonb"@,
        "documents_data_gin_idx"@,
        "documents_data_gin_json_idx"@,
        "documents_data_gin_jsonb_idx"@,
        "documents_tags_gin_idx"@,
        "documents_attr_gin_idx"@,
    ]
}

/// What follows each object's name in its creating statement.
pub open spec fn relational_object_definitions() -> Seq<Seq<char>> {
    seq![
        " (id SERIAL PRIMARY KEY, data JSONB NOT NULL)"@,
        " ON documents_jsonb USING GIN (data)"@,
        " ON documents_jsonb USING GIN (data jsonb_path_ops)"@,
        " ON documents_jsonb USING GIN (data jsonb_ops)"@,
        " ON documents_jsonb USING GIN ((data -> 'tags'))"@,
        " ON documents_jsonb USING GIN ((data -> 'attributes'))"@,
    ]
}

fn schema_object(kind: ObjectKind, name: &str, definition: &str) -> (r: SchemaObject)
    ensures
        r.kind == kind,
        r.name@ == name@,
        r.definition@ == definition@,
{
    SchemaObject { kind, name: String::from_str(name), definition: String::from_str(definition) }
}

/// The document table, with an auto-increment id and one binary-JSON column,
/// and its indexes: two general ones, one for containment and path queries,
/// and one each over `tags` and `attributes`.
pub fn relational_schema() -> (r: Vec<SchemaObject>)
    ensures
        r@.len() == relational_object_names().len(),
        forall|i: int| 0 <= i < r@.len() ==> (#[trigger] r@[i]).name@ == relational_object_names()[i],
        forall|i: int|
            0 <= i < r@.len() ==> (#[trigger] r@[i]).definition@
                == relational_object_definitions()[i],
        r@[0].kind == ObjectKind::Table,
        forall|i: int| 1 <= i < r@.len() ==> (#[trigger] r@[i]).kind == ObjectKind::Index,
{
    let mut r: Vec<SchemaObject> = Vec::new();
    r.push(
        schema_object(
            ObjectKind::Table,
            "documents_jsonb",
            " (id SERIAL PRIMARY KEY, data JSONB NOT NULL)",
        ),
    );
    r.push(
        schema_object(
            ObjectKind::Index,
            "documents_data_gin_idx",
            " ON documents_jsonb USING GIN (data)",
        ),
    );
    r.push(
        schema_object(
            ObjectKind::Index,
            "documents_data_gin_json_idx",
            " ON documents_jsonb USING GIN (data jsonb_path_ops)",
        ),
    );
    r.push(
        schema_object(
            ObjectKind::Index,
            "documents_data_gin_jsonb_idx",
            " ON documents_jsonb USING GIN (data jsonb_ops)",
        ),
    );
    r.push(
        schema_object(
            ObjectKind::Index,
            "documents_tags_gin_idx",
            " ON documents_jsonb USING GIN ((data -> 'tags'))",
        ),
    );
    r.push(
        schema_object(
            ObjectKind::Index,
            "documents_attr_gin_idx",
            " ON documents_jsonb USING GIN ((data -> 'attributes'))",
        ),
    );
    r
}

/// The statement that opens the binary bulk-copy stream into the document
/// column.
pub fn copy_statement() -> (r: &'static str)
    ensures
        r@ == "COPY documents_jsonb (data) FROM STDIN (FORMAT BINARY)"@,
{
    "COPY documents_jsonb (data) FROM STDIN (FORMAT BINARY)"
}

/// The relational catalog after running the creating statements of `objects`
/// on `catalog`: an object that exists is left as it is, one that does not is
/// added once.
pub open spec fn provisioned_catalog(catalog: Set<Seq<char>>, objects: Seq<SchemaObject>) -> Set<
    Seq<char>,
> {
    catalog.union(objects.map_values(|o: SchemaObject| o.name@).to_set())
}

/// Running relational provisioning a second time changes nothing: no object
/// is created twice and the catalog is the one the first run left.
pub proof fn lemma_relational_provisioning_idempotent(
    catalog: Set<Seq<char>>,
    objects: Seq<SchemaObject>,
)
    ensures
        provisioned_catalog(provisioned_catalog(catalog, objects), objects)
            == provisioned_catalog(catalog, objects),
{
    assert(provisioned_catalog(provisioned_catalog(catalog, objects), objects)
        =~= provisioned_catalog(catalog, objects));
}

/// Name of the search-engine index.
pub fn search_index_name() -> (r: &'static str)
    ensures
        r@ == "documents_jsonb"@,
{
    "documents_jsonb"
}

/// The explicit mapping the search index is created with.
pub open spec fn mapping_text() -> Seq<char> {
    "{\"mappings\":{\"properties\":{\"title\":{\"type\":\"text\"},\"content\":{\"type\":\"text\"},\"created_at\":{\"type\":\"date\"},\"tags\":{\"type\":\"keyword\"},\"attributes\":{\"type\":\"object\",\"properties\":{\"att0\":{\"type\":\"integer\"},\"att1\":{\"type\":\"text\",\"fields\":{\"keyword\":{\"type\":\"keyword\",\"ignore_above\":256}}},\"att2\":{\"type\":\"object\",\"enabled\":true},\"att3\":{\"type\":\"keyword\"}}}}}}"@
}

/// The body of the index-creation call, as JSON text.
pub fn search_index_mapping() -> (r: &'static str)
    ensures
        r@ == mapping_text(),
{
    "{\"mappings\":{\"properties\":{\"title\":{\"type\":\"text\"},\"content\":{\"type\":\"text\"},\"created_at\":{\"type\":\"date\"},\"tags\":{\"type\":\"keyword\"},\"attributes\":{\"type\":\"object\",\"properties\":{\"att0\":{\"type\":\"integer\"},\"att1\":{\"type\":\"text\",\"fields\":{\"keyword\":{\"type\":\"keyword\",\"ignore_above\":256}}},\"att2\":{\"type\":\"object\",\"enabled\":true},\"att3\":{\"type\":\"keyword\"}}}}}}"
}

/// What search-index provisioning does next.
#[derive(Clone, Copy, Debug, PartialEq, Eq, Structural)]
pub enum IndexStep {
    /// Create the index with the explicit mapping.
    Create,
    /// The index exists; leave it as it is.
    Keep,
}

/// Whether an index with this exists-check status is to be created: only
/// when the check does not answer with success.
pub open spec fn step_for(exists_status: u16) -> IndexStep {
    if 200 <= exists_status < 300 {
        IndexStep::Keep
    } else {
        IndexStep::Create
    }
}

/// Decides from the status of the index-exists call.
pub fn index_step(exists_status: u16) -> (r: IndexStep)
    ensures
        r == step_for(exists_status),
{
    if 200 <= exists_status && exists_status < 300 {
        IndexStep::Keep
    } else {
        IndexStep::Create
    }
}

/// Judges the reply to the index-creation call; a failure aborts the run
/// before anything is loaded.
pub fn check_index_created(status: u16, body: String) -> (r: Result<(), BenchError>)
    ensures
        200 <= status < 300 ==> r == Ok::<(), BenchError>(()),
        !(200 <= status < 300) ==> r == Err::<(), BenchError>(BenchError::Schema(body)),
{
    if 200 <= status && status < 300 {
        Ok(())
    } else {
        Err(BenchError::Schema(body))
    }
}

/// The search index after provisioning: `None` when it is absent, else the
/// mapping it holds. An existing index keeps its mapping.
pub open spec fn provisioned_index(index: Option<Seq<char>>) -> Option<Seq<char>> {
    match index {
        Some(m) => Some(m),
        None => Some(mapping_text()),
    }
}

/// Whether provisioning issues a creation call on this index.
pub open spec fn creates_index(index: Option<Seq<char>>) -> bool {
    index is None
}

/// Running search provisioning a second time changes nothing: the second run
/// issues no creation call and leaves the mapping the first run left.
pub proof fn lemma_search_provisioning_idempotent(index: Option<Seq<char>>)
    ensures
        !creates_index(provisioned_index(index)),
        provisioned_index(provisioned_index(index)) == provisioned_index(index),
{
}

} // verus!
