//! The schema normalizer: structural mapping of a raw dynamic response
//! onto the stable typed records, and the version-dependent defaults.
//!
//! Field names at the dynamic boundary use the host's camel-case
//! convention (`processedVectorsCount`); this module is the single place
//! that translation occurs.  Mapping either fully succeeds or fails the
//! whole operation with a diagnostic naming what went wrong.

use vstd::prelude::*;

use crate::dynamic::{DynObject, DynValue};

verus! {

/// A handle to an asynchronous ingestion job, as the remote service
/// acknowledges an `insert`.
#[derive(Debug, Clone, PartialEq, Eq)]
pub struct Mutation {
    pub mutation_id: String,
}

/// The state of the queried index.  Fields accumulate across schema
/// versions; after normalization for the current schema, `metric` and
/// `dimensions` are always populated.
#[derive(Debug, Clone, PartialEq, Eq)]
pub struct IndexDetails {
    pub name: Option<String>,
    pub description: Option<String>,
    pub dimensions: Option<u32>,
    pub metric: Option<String>,
    pub processed_vectors_count: Option<u32>,
    pub stored_vectors_count: Option<u32>,
    pub vector_count: Option<u32>,
    pub processed_up_to_datetime: Option<u64>,
    pub processed_up_to_mutation: Option<String>,
}

impl Default for IndexDetails {
    fn default() -> (d: Self)
        ensures
            d == (IndexDetails {
                name: None,
                description: None,
                dimensions: None,
                metric: None,
                processed_vectors_count: None,
                stored_vectors_count: None,
                vector_count: None,
                processed_up_to_datetime: None,
                processed_up_to_mutation: None,
            }),
    {
        IndexDetails {
            name: None,
            description: None,
            dimensions: None,
            metric: None,
            processed_vectors_count: None,
            stored_vectors_count: None,
            vector_count: None,
            processed_up_to_datetime: None,
            processed_up_to_mutation: None,
        }
    }
}

/// The typed field a mapping diagnostic points at.
#[derive(Debug, Clone, Copy, PartialEq, Eq, Structural)]
pub enum FieldId {
    Name,
    Description,
    Dimensions,
    Metric,
    ProcessedVectorsCount,
    StoredVectorsCount,
    VectorCount,
    ProcessedUpToDatetime,
    ProcessedUpToMutation,
    MutationId,
}

/// Why a dynamic response could not be mapped onto a typed record.
#[derive(Debug, Clone, Copy, PartialEq, Eq, Structural)]
pub enum MapError {
    /// The response was not an object at all.
    NotAnObject,
    /// The named field was present but not of the expected shape.
    BadField(FieldId),
}

/// An optional string field accepts a string, null, or absence.
pub open spec fn str_field_ok(f: Option<DynValue>) -> bool {
    match f {
        None => true,
        Some(DynValue::Undefined) => true,
        Some(DynValue::Null) => true,
        Some(DynValue::Text(_)) => true,
        Some(_) => false,
    }
}

pub open spec fn str_field(f: Option<DynValue>) -> Option<String> {
    match f {
        Some(DynValue::Text(s)) => Some(s),
        _ => None,
    }
}

/// An optional count accepts a number with an exact integral value that
/// fits in 32 bits, null, or absence.
pub open spec fn u32_field_ok(f: Option<DynValue>) -> bool {
    match f {
        None => true,
        Some(DynValue::Undefined) => true,
        Some(DynValue::Null) => true,
        Some(DynValue::IntNum(n)) => n <= u32::MAX as u64,
        Some(_) => false,
    }
}

pub open spec fn u32_field(f: Option<DynValue>) -> Option<u32> {
    match f {
        Some(DynValue::IntNum(n)) => if n <= u32::MAX as u64 {
            Some(n as u32)
        } else {
            None
        },
        _ => None,
    }
}

/// An optional timestamp accepts any number with an exact integral
/// value, null, or absence.
pub open spec fn u64_field_ok(f: Option<DynValue>) -> bool {
    match f {
        None => true,
        Some(DynValue::Undefined) => true,
        Some(DynValue::Null) => true,
        Some(DynValue::IntNum(_)) => true,
        Some(_) => false,
    }
}

pub open spec fn u64_field(f: Option<DynValue>) -> Option<u64> {
    match f {
        Some(DynValue::IntNum(n)) => Some(n),
        _ => None,
    }
}

pub open spec fn details_fields_ok(o: DynObject) -> bool {
    &&& str_field_ok(o.lookup("name"@))
    &&& str_field_ok(o.lookup("description"@))
    &&& u32_field_ok(o.lookup("dimensions"@))
    &&& str_field_ok(o.lookup("metric"@))
    &&& u32_field_ok(o.lookup("processedVectorsCount"@))
    &&& u32_field_ok(o.lookup("storedVectorsCount"@))
    &&& u32_field_ok(o.lookup("vectorCount"@))
    &&& u64_field_ok(o.lookup("processedUpToDatetime"@))
    &&& str_field_ok(o.lookup("processedUpToMutation"@))
}

/// The record an object with well-shaped fields maps to; any property
/// outside the known set is ignored.
pub open spec fn mapped_details(o: DynObject) -> IndexDetails {
    IndexDetails {
        name: str_field(o.lookup("name"@)),
        description: str_field(o.lookup("description"@)),
        dimensions: u32_field(o.lookup("dimensions"@)),
        metric: str_field(o.lookup("metric"@)),
        processed_vectors_count: u32_field(o.lookup("processedVectorsCount"@)),
        stored_vectors_count: u32_field(o.lookup("storedVectorsCount"@)),
        vector_count: u32_field(o.lookup("vectorCount"@)),
        processed_up_to_datetime: u64_field(o.lookup("processedUpToDatetime"@)),
        processed_up_to_mutation: str_field(o.lookup("processedUpToMutation"@)),
    }
}

/// The diagnostic for an object with an ill-shaped field: fields are
/// checked in the record's declaration order.
pub open spec fn first_bad_field(o: DynObject) -> MapError {
    if !str_field_ok(o.lookup("name"@)) {
        MapError::BadField(FieldId::Name)
    } else if !str_field_ok(o.lookup("description"@)) {
        MapError::BadField(FieldId::Description)
    } else if !u32_field_ok(o.lookup("dimensions"@)) {
        MapError::BadField(FieldId::Dimensions)
    } else if !str_field_ok(o.lookup("metric"@)) {
        MapError::BadField(FieldId::Metric)
    } else if !u32_field_ok(o.lookup("processedVectorsCount"@)) {
        MapError::BadField(FieldId::ProcessedVectorsCount)
    } else if !u32_field_ok(o.lookup("storedVectorsCount"@)) {
        MapError::BadField(FieldId::StoredVectorsCount)
    } else if !u32_field_ok(o.lookup("vectorCount"@)) {
        MapError::BadField(FieldId::VectorCount)
    } else if !u64_field_ok(o.lookup("processedUpToDatetime"@)) {
        MapError::BadField(FieldId::ProcessedUpToDatetime)
    } else {
        MapError::BadField(FieldId::ProcessedUpToMutation)
    }
}

/// What structural mapping of a dynamic response onto [`IndexDetails`]
/// yields, before any version-dependent defaulting.
pub open spec fn spec_read_details(v: DynValue) -> Result<IndexDetails, MapError> {
    match v {
        DynValue::Object(o) => if details_fields_ok(o) {
            Ok(mapped_details(o))
        } else {
            Err(first_bad_field(o))
        },
        _ => Err(MapError::NotAnObject),
    }
}

fn get_str_field(o: &DynObject, name: &str) -> (r: Result<Option<String>, ()>)
    ensures
        r matches Ok(x) ==> str_field_ok(o.lookup(name@)) && x == str_field(o.lookup(name@)),
        r is Err ==> !str_field_ok(o.lookup(name@)),
{
    match o.get(name) {
        None => Ok(None),
        Some(DynValue::Undefined) => Ok(None),
        Some(DynValue::Null) => Ok(None),
        Some(DynValue::Text(s)) => Ok(Some(s.clone())),
        Some(_) => Err(()),
    }
}

fn get_u32_field(o: &DynObject, name: &str) -> (r: Result<Option<u32>, ()>)
    ensures
        r matches Ok(x) ==> u32_field_ok(o.lookup(name@)) && x == u32_field(o.lookup(name@)),
        r is Err ==> !u32_field_ok(o.lookup(name@)),
{
    match o.get(name) {
        None => Ok(None),
        Some(DynValue::Undefined) => Ok(None),
        Some(DynValue::Null) => Ok(None),
        Some(DynValue::IntNum(n)) => if *n <= u32::MAX as u64 {
            Ok(Some(*n as u32))
        } else {
            Err(())
        },
        Some(_) => Err(()),
    }
}

fn get_u64_field(o: &DynObject, name: &str) -> (r: Result<Option<u64>, ()>)
    ensures
        r matches Ok(x) ==> u64_field_ok(o.lookup(name@)) && x == u64_field(o.lookup(name@)),
        r is Err ==> !u64_field_ok(o.lookup(name@)),
{
    match o.get(name) {
        None => Ok(None),
        Some(DynValue::Undefined) => Ok(None),
        Some(DynValue::Null) => Ok(None),
        Some(DynValue::IntNum(n)) => Ok(Some(*n)),
        Some(_) => Err(()),
    }
}

/// Map a raw dynamic response onto [`IndexDetails`] by structural field
/// mapping, translating the host's camel-case field names.
pub fn read_details(v: &DynValue) -> (r: Result<IndexDetails, MapError>)
    ensures
        r == spec_read_details(*v),
{
    let o = match v {
        DynValue::Object(o) => o,
        _ => {
            return Err(MapError::NotAnObject);
        },
    };
    let name = match get_str_field(o, "name") {
        Ok(x) => x,
        Err(_) => {
            return Err(MapError::BadField(FieldId::Name));
        },
    };
    let description = match get_str_field(o, "description") {
        Ok(x) => x,
        Err(_) => {
            return Err(MapError::BadField(FieldId::Description));
        },
    };
    let dimensions = match get_u32_field(o, "dimensions") {
        Ok(x) => x,
        Err(_) => {
            return Err(MapError::BadField(FieldId::Dimensions));
        },
    };
    let metric = match get_str_field(o, "metric") {
        Ok(x) => x,
        Err(_) => {
            return Err(MapError::BadField(FieldId::Metric));
        },
    };
    let processed_vectors_count = match get_u32_field(o, "processedVectorsCount") {
        Ok(x) => x,
        Err(_) => {
            return Err(MapError::BadField(FieldId::ProcessedVectorsCount));
        },
    };
    let stored_vectors_count = match get_u32_field(o, "storedVectorsCount") {
        Ok(x) => x,
        Err(_) => {
            return Err(MapError::BadField(FieldId::StoredVectorsCount));
        },
    };
    let vector_count = match get_u32_field(o, "vectorCount") {
        Ok(x) => x,
        Err(_) => {
            return Err(MapError::BadField(FieldId::VectorCount));
        },
    };
    let processed_up_to_datetime = match get_u64_field(o, "processedUpToDatetime") {
        Ok(x) => x,
        Err(_) => {
            return Err(MapError::BadField(FieldId::ProcessedUpToDatetime));
        },
    };
    let processed_up_to_mutation = match get_str_field(o, "processedUpToMutation") {
        Ok(x) => x,
        Err(_) => {
            return Err(MapError::BadField(FieldId::ProcessedUpToMutation));
        },
    };
    Ok(
        IndexDetails {
            name,
            description,
            dimensions,
            metric,
            processed_vectors_count,
            stored_vectors_count,
            vector_count,
            processed_up_to_datetime,
            processed_up_to_mutation,
        },
    )
}

/// What structural mapping of an acknowledgment onto [`Mutation`]
/// yields: the response must be an object whose `mutationId` is a
/// string.
pub open spec fn spec_read_mutation(v: DynValue) -> Result<Mutation, MapError> {
    match v {
        DynValue::Object(o) => match o.lookup("mutationId"@) {
            Some(DynValue::Text(s)) => Ok(Mutation { mutation_id: s }),
            _ => Err(MapError::BadField(FieldId::MutationId)),
        },
        _ => Err(MapError::NotAnObject),
    }
}

pub fn read_mutation(v: &DynValue) -> (r: Result<Mutation, MapError>)
    ensures
        r == spec_read_mutation(*v),
{
    match v {
        DynValue::Object(o) => match o.get("mutationId") {
            Some(DynValue::Text(s)) => Ok(Mutation { mutation_id: s.clone() }),
            _ => Err(MapError::BadField(FieldId::MutationId)),
        },
        _ => Err(MapError::NotAnObject),
    }
}

/// How a record normalized for the current schema relates to its raw
/// mapping: `metric` falls back to `"cosine"` and `dimensions` to `0`;
/// every other field is carried over as mapped.
pub open spec fn defaults_applied(nd: IndexDetails, d: IndexDetails) -> bool {
    &&& nd.name == d.name
    &&& nd.description == d.description
    &&& nd.dimensions == (if d.dimensions is Some {
        d.dimensions
    } else {
        Some(0u32)
    })
    &&& (d.metric is Some ==> nd.metric == d.metric)
    &&& (d.metric is None ==> (nd.metric matches Some(m) && m@ == "cosine"@))
    &&& nd.processed_vectors_count == d.processed_vectors_count
    &&& nd.stored_vectors_count == d.stored_vectors_count
    &&& nd.vector_count == d.vector_count
    &&& nd.processed_up_to_datetime == d.processed_up_to_datetime
    &&& nd.processed_up_to_mutation == d.processed_up_to_mutation
}

/// Fill the current schema's defaults into a mapped record.
pub fn apply_describe_defaults(d: IndexDetails) -> (r: IndexDetails)
    ensures
        defaults_applied(r, d),
{
    let mut r = d;
    if r.metric.is_none() {
        r.metric = Some("cosine".to_owned());
    }
    if r.dimensions.is_none() {
        r.dimensions = Some(0);
    }
    r
}

/// The raw `describe` response of the older host schema, whose
/// `dimensions`, `metric` and counts are populated unconditionally.
#[derive(Debug, Clone, PartialEq, Eq)]
pub struct VectorizeIndexDetails {
    pub name: Option<String>,
    pub dimensions: u32,
    pub metric: String,
    pub processed_vectors_count: u32,
    pub stored_vectors_count: u32,
}

impl From<VectorizeIndexDetails> for IndexDetails {
    fn from(details: VectorizeIndexDetails) -> (r: Self) {
        IndexDetails {
            name: details.name,
            description: None,
            dimensions: Some(details.dimensions),
            metric: Some(details.metric),
            processed_vectors_count: Some(details.processed_vectors_count),
            stored_vectors_count: Some(details.stored_vectors_count),
            vector_count: None,
            processed_up_to_datetime: None,
            processed_up_to_mutation: None,
        }
    }
}

impl vstd::std_specs::convert::FromSpecImpl<VectorizeIndexDetails> for IndexDetails {
    open spec fn obeys_from_spec() -> bool {
        true
    }

    open spec fn from_spec(details: VectorizeIndexDetails) -> Self {
        IndexDetails {
            name: details.name,
            description: None,
            dimensions: Some(details.dimensions),
            metric: Some(details.metric),
            processed_vectors_count: Some(details.processed_vectors_count),
            stored_vectors_count: Some(details.stored_vectors_count),
            vector_count: None,
            processed_up_to_datetime: None,
            processed_up_to_mutation: None,
        }
    }
}

} // verus!
