//! The binding resolver and the typed facade.
//!
//! `resolve` classifies an arbitrary dynamic value into one of four
//! kinds — a genuine host binding, an object already exposing index
//! operations, a bare object to be shimmed, or an invalid value — and
//! wraps the first three as a [`Vectorize`] facade.  The facade's
//! operations are stateless request/response transformations: each
//! builds the dynamic request, lets the host's asynchronous call
//! mechanism deliver an outcome, and normalizes that outcome into a
//! typed result.

use vstd::prelude::*;

use crate::details::{
    apply_describe_defaults, defaults_applied, read_details, read_mutation, spec_read_details,
    spec_read_mutation, FieldId, IndexDetails, MapError, Mutation,
};
use crate::dynamic::{
    kind_name, obj_lookup, push_prop, spec_kind_name, DynObject, DynValue, Prop,
};
use crate::shim::{
    captured_metric, captured_name, captured_num, install_describe_shim, shim_response,
    snapshot_default, snapshot_matches, ShimSnapshot,
};

verus! {

/// A caller-constructed vector to be ingested.
///
/// The facade never interprets the coordinates, so `values` carries them
/// as IEEE-754 float64 bit patterns, and `metadata` is an arbitrary
/// dynamic value passed through to the remote service unchanged.
#[derive(Debug, PartialEq)]
pub struct Vector {
    pub id: String,
    pub values: Vec<u64>,
    pub metadata: Option<DynValue>,
    pub namespace: Option<String>,
}

/// Resolution failed: the binding slot held the wrong kind of value.
#[derive(Debug, PartialEq, Eq)]
pub enum BindError {
    TypeMismatch { expected: String, actual: String },
}

/// An operation on the facade failed.
#[derive(Debug, PartialEq)]
pub enum CallError {
    /// The underlying asynchronous call rejected; carries the rejection
    /// value.  Not retried here: idempotency of `insert` is unknown.
    Unreachable(DynValue),
    /// The resolved value could not be structurally mapped onto the
    /// typed record; carries the mapping diagnostic.
    MalformedResponse(MapError),
    /// A `Vector` could not be converted to its dynamic form.  A
    /// defensive variant: the conversion in this crate is total, so no
    /// operation here produces it.
    SerializationFailed,
}

/// The resolver's decision table, made explicit.
#[derive(Debug, Clone, Copy, PartialEq, Eq, Structural)]
pub enum BindingClass {
    /// Recognized by the runtime as the genuine host binding type.
    Genuine,
    /// An object already exposing `describe`, `insert` or `upsert`.
    Capable,
    /// An object exposing none of the three operations.
    PlainObject,
    /// Not an object at all.
    Invalid,
}

/// How `describe` proceeds on a resolved facade: answered locally by the
/// installed shim, or by one asynchronous call to the host.
#[derive(Debug, PartialEq)]
pub enum DescribeStep {
    Answered(Result<IndexDetails, CallError>),
    CallHost,
}

/// Whether an object already exposes at least one index operation.
pub open spec fn spec_capable(o: DynObject) -> bool {
    o.has_key("describe"@) || o.has_key("insert"@) || o.has_key("upsert"@)
}

/// Classification of a dynamic value.  An array is an object with no
/// readable named field, so it falls to the shimmed branch.
pub open spec fn spec_classify(v: DynValue) -> BindingClass {
    match v {
        DynValue::Genuine(_) => BindingClass::Genuine,
        DynValue::Object(o) => if spec_capable(o) {
            BindingClass::Capable
        } else {
            BindingClass::PlainObject
        },
        DynValue::Array(_) => BindingClass::PlainObject,
        _ => BindingClass::Invalid,
    }
}

pub fn classify(v: &DynValue) -> (c: BindingClass)
    ensures
        c == spec_classify(*v),
{
    match v {
        DynValue::Genuine(_) => BindingClass::Genuine,
        DynValue::Object(o) => {
            if o.has("describe") || o.has("insert") || o.has("upsert") {
                BindingClass::Capable
            } else {
                BindingClass::PlainObject
            }
        },
        DynValue::Array(_) => BindingClass::PlainObject,
        _ => BindingClass::Invalid,
    }
}

/// The named properties a value offers the shim installer: those of an
/// object; an array has none.
pub open spec fn base_lookup(val: DynValue, k: Seq<char>) -> Option<DynValue> {
    match val {
        DynValue::Object(o) => o.lookup(k),
        _ => None,
    }
}

/// Whether `snap` is the snapshot captured off `val` at installation.
pub open spec fn snapshot_from(snap: ShimSnapshot, val: DynValue) -> bool {
    match val {
        DynValue::Object(o) => snapshot_matches(snap, o),
        _ => snapshot_default(snap),
    }
}

/// Whether `w` is `val` with the synthesized `describe` attached and
/// every other property preserved.
pub open spec fn shimmed_from(w: DynValue, val: DynValue) -> bool {
    w matches DynValue::Object(wo) && {
        &&& (wo.lookup("describe"@) matches Some(DynValue::Shim(snap)) && snapshot_from(snap, val))
        &&& forall|k: Seq<char>| k != "describe"@ ==> wo.lookup(k) == base_lookup(val, k)
    }
}

/// Whether resolution wrapped exactly the given value, unchanged.
pub open spec fn wraps(r: Result<Vectorize, BindError>, val: DynValue) -> bool {
    r matches Ok(f) && f.wrapped == val
}

/// Whether resolution rejected the value, reporting the attempted type
/// name and the value's own runtime type name.
pub open spec fn rejects_kind(r: Result<Vectorize, BindError>, val: DynValue) -> bool {
    r matches Err(BindError::TypeMismatch { expected, actual }) && expected@ == "Vectorize"@
        && actual@ == spec_kind_name(val)
}

/// The typed facade over one dynamic binding value.  It holds no other
/// state: every operation reads the wrapped value and issues one
/// independent call.
#[derive(Debug, PartialEq)]
pub struct Vectorize {
    pub wrapped: DynValue,
}

impl Vectorize {
    /// Classify `val` and wrap it as a facade.
    ///
    /// A genuine binding and a capable object are wrapped unchanged, so
    /// a richer test double keeps the behavior it carries; a bare object
    /// gets the synthesized `describe`; anything else is rejected with
    /// the two type names.
    pub fn resolve(val: DynValue) -> (r: Result<Vectorize, BindError>)
        ensures
            spec_classify(val) == BindingClass::Genuine ==> wraps(r, val),
            spec_classify(val) == BindingClass::Capable ==> wraps(r, val),
            spec_classify(val) == BindingClass::PlainObject ==> (r matches Ok(f)
                && shimmed_from(f.wrapped, val)),
            spec_classify(val) == BindingClass::Invalid ==> rejects_kind(r, val),
    {
        match val {
            DynValue::Genuine(_) => Ok(Vectorize { wrapped: val }),
            DynValue::Object(o) => {
                if o.has("describe") || o.has("insert") || o.has("upsert") {
                    Ok(Vectorize { wrapped: DynValue::Object(o) })
                } else {
                    Ok(Vectorize { wrapped: DynValue::Object(install_describe_shim(o)) })
                }
            },
            DynValue::Array(_) => {
                let base = DynObject { entries: Vec::new() };
                let shimmed = install_describe_shim(base);
                Ok(Vectorize { wrapped: DynValue::Object(shimmed) })
            },
            _ => Err(
                BindError::TypeMismatch {
                    expected: "Vectorize".to_owned(),
                    actual: kind_name(&val).to_owned(),
                },
            ),
        }
    }

    /// The snapshot behind the wrapped value's `describe`, when that
    /// operation is the installed shim rather than host behavior.
    pub open spec fn shim_of(self) -> Option<ShimSnapshot> {
        match self.wrapped {
            DynValue::Object(o) => match o.lookup("describe"@) {
                Some(DynValue::Shim(s)) => Some(s),
                _ => None,
            },
            _ => None,
        }
    }

    /// Decide how `describe` proceeds: a shimmed binding is answered
    /// locally from the snapshot, through the same normalization as a
    /// host response; anything else takes one call to the host, whose
    /// outcome goes through [`Vectorize::describe_finish`].
    pub fn describe_request(&self) -> (r: DescribeStep)
        ensures
            match self.shim_of() {
                Some(snap) => r == DescribeStep::Answered(shim_details(snap)),
                None => r == DescribeStep::CallHost,
            },
    {
        match &self.wrapped {
            DynValue::Object(o) => match o.get("describe") {
                Some(DynValue::Shim(s)) => {
                    let resp = shim_response(s);
                    DescribeStep::Answered(Self::describe_finish(Ok(resp)))
                },
                _ => DescribeStep::CallHost,
            },
            _ => DescribeStep::CallHost,
        }
    }

    /// Normalize the outcome of the host's `describe` call: a rejection
    /// propagates as `Unreachable`, a resolved value is structurally
    /// mapped and the current schema's defaults are filled in.
    pub fn describe_finish(outcome: Result<DynValue, DynValue>) -> (r: Result<
        IndexDetails,
        CallError,
    >)
        ensures
            (outcome matches Err(e) ==> r == Err::<IndexDetails, CallError>(
                CallError::Unreachable(e),
            )),
            (outcome matches Ok(v) ==> finished_describe(r, v)),
    {
        match outcome {
            Err(e) => Err(CallError::Unreachable(e)),
            Ok(v) => match read_details(&v) {
                Err(me) => Err(CallError::MalformedResponse(me)),
                Ok(d) => Ok(apply_describe_defaults(d)),
            },
        }
    }

    /// Serialize the whole batch into the dynamic collection the remote
    /// `insert` call expects.  The conversion is total: no partial
    /// application, the batch is submitted as one collection or not at
    /// all.
    pub fn insert_request(&self, vectors: Vec<Vector>) -> (r: DynValue)
        ensures
            payload_matches(r, vectors@),
    {
        let ghost vs0 = vectors@;
        let mut rest = vectors;
        let mut items: Vec<DynValue> = Vec::new();
        proof {
            assert(vs0.skip(0) =~= vs0);
        }
        while rest.len() > 0
            invariant
                items@.len() + rest@.len() == vs0.len(),
                rest@ == vs0.skip(items@.len() as int),
                forall|i: int|
                    0 <= i < items@.len() ==> record_matches(#[trigger] items@[i], vs0[i]),
            decreases rest.len(),
        {
            let ghost k = items@.len() as int;
            let v = rest.remove(0);
            proof {
                assert(v == vs0[k]);
                assert(rest@ =~= vs0.skip(k + 1));
            }
            let rec = vector_record(v);
            items.push(rec);
        }
        DynValue::Array(items)
    }

    /// Normalize the outcome of the host's `insert` call into the
    /// acknowledged [`Mutation`].
    pub fn insert_finish(outcome: Result<DynValue, DynValue>) -> (r: Result<Mutation, CallError>)
        ensures
            (outcome matches Err(e) ==> r == Err::<Mutation, CallError>(CallError::Unreachable(e))),
            (outcome matches Ok(v) ==> match spec_read_mutation(v) {
                Ok(m) => r == Ok::<Mutation, CallError>(m),
                Err(me) => r == Err::<Mutation, CallError>(CallError::MalformedResponse(me)),
            }),
    {
        match outcome {
            Err(e) => Err(CallError::Unreachable(e)),
            Ok(v) => match read_mutation(&v) {
                Ok(m) => Ok(m),
                Err(me) => Err(CallError::MalformedResponse(me)),
            },
        }
    }
}

/// How `describe`'s result relates to the resolved dynamic value: the
/// structural mapping's diagnostic on failure, the mapped record with
/// the current schema's defaults on success.
pub open spec fn finished_describe(r: Result<IndexDetails, CallError>, v: DynValue) -> bool {
    match spec_read_details(v) {
        Err(me) => r == Err::<IndexDetails, CallError>(CallError::MalformedResponse(me)),
        Ok(d) => (r matches Ok(nd) && defaults_applied(nd, d)),
    }
}

/// What `describe` answers on a shimmed binding, as a function of the
/// captured snapshot alone: the five captured values, mapped onto the
/// record exactly as a host response holding them would be.
pub open spec fn shim_details(snap: ShimSnapshot) -> Result<IndexDetails, CallError> {
    if snap.dimensions > u32::MAX as u64 {
        Err(CallError::MalformedResponse(MapError::BadField(FieldId::Dimensions)))
    } else if snap.processed_vectors_count > u32::MAX as u64 {
        Err(CallError::MalformedResponse(MapError::BadField(FieldId::ProcessedVectorsCount)))
    } else if snap.stored_vectors_count > u32::MAX as u64 {
        Err(CallError::MalformedResponse(MapError::BadField(FieldId::StoredVectorsCount)))
    } else {
        Ok(
            IndexDetails {
                name: snap.name,
                description: None,
                dimensions: Some(snap.dimensions as u32),
                metric: Some(snap.metric),
                processed_vectors_count: Some(snap.processed_vectors_count as u32),
                stored_vectors_count: Some(snap.stored_vectors_count as u32),
                vector_count: None,
                processed_up_to_datetime: None,
                processed_up_to_mutation: None,
            },
        )
    }
}

/// Whether a dynamic record is the serialized form of a vector: `id`
/// and `values` always present, `metadata` and `namespace` only when
/// the vector carries them.
/// A coordinate sequence in its dynamic form: each bit pattern carried
/// as an opaque number.
pub open spec fn raw_nums(bits: Seq<u64>) -> Seq<DynValue> {
    bits.map_values(|b: u64| DynValue::RawNum(b))
}

pub open spec fn record_matches(d: DynValue, v: Vector) -> bool {
    d matches DynValue::Object(o) && {
        &&& o.lookup("id"@) == Some(DynValue::Text(v.id))
        &&& (o.lookup("values"@) matches Some(DynValue::Array(ws)) && ws@ == raw_nums(v.values@))
        &&& o.lookup("metadata"@) == v.metadata
        &&& o.lookup("namespace"@) == (match v.namespace {
            Some(s) => Some(DynValue::Text(s)),
            None => None::<DynValue>,
        })
    }
}

/// Whether a dynamic collection is the serialized form of a batch, in
/// order and in full.
pub open spec fn payload_matches(r: DynValue, vs: Seq<Vector>) -> bool {
    r matches DynValue::Array(items) && items@.len() == vs.len() && (forall|i: int|
        0 <= i < vs.len() ==> record_matches(#[trigger] items@[i], vs[i]))
}

/// Serialize one vector into its dynamic record.
pub fn vector_record(v: Vector) -> (r: DynValue)
    ensures
        record_matches(r, v),
{
    let ghost gv = v;
    let Vector { id, values, metadata, namespace } = v;
    let mut ws: Vec<DynValue> = Vec::new();
    let mut i: usize = 0;
    while i < values.len()
        invariant
            i <= values.len(),
            ws@.len() == i as int,
            forall|j: int| 0 <= j < i as int ==> ws@[j] == DynValue::RawNum(values@[j]),
        decreases values.len() - i,
    {
        ws.push(DynValue::RawNum(values[i]));
        i = i + 1;
    }
    proof {
        assert(ws@ =~= raw_nums(values@));
    }
    let mut entries: Vec<Prop> = Vec::new();
    push_prop(&mut entries, "id", DynValue::Text(id));
    push_prop(&mut entries, "values", DynValue::Array(ws));
    let ghost base = entries@;
    proof {
        reveal_strlit("id");
        reveal_strlit("values");
        reveal_strlit("metadata");
        reveal_strlit("namespace");
        assert(obj_lookup(Seq::<Prop>::empty(), "id"@) is None);
        assert(obj_lookup(Seq::<Prop>::empty(), "values"@) is None);
        assert(obj_lookup(Seq::<Prop>::empty(), "metadata"@) is None);
        assert(obj_lookup(Seq::<Prop>::empty(), "namespace"@) is None);
        assert("id"@.len() == 2);
        assert("values"@.len() == 6);
        assert("id"@ != "values"@);
        assert("metadata"@ != "id"@);
        assert("metadata"@ != "values"@);
        assert("namespace"@ != "id"@);
        assert("namespace"@ != "values"@);
        assert("metadata"@.len() == 8);
        assert("namespace"@.len() == 9);
        assert("namespace"@ != "metadata"@);
        assert(obj_lookup(base, "id"@) == Some(DynValue::Text(gv.id)));
        assert(obj_lookup(base, "values"@) matches Some(DynValue::Array(w)) && w@ == raw_nums(
            gv.values@,
        ));
        assert(obj_lookup(base, "metadata"@) is None);
        assert(obj_lookup(base, "namespace"@) is None);
    }
    match metadata {
        Some(m) => push_prop(&mut entries, "metadata", m),
        None => {},
    }
    match namespace {
        Some(s) => push_prop(&mut entries, "namespace", DynValue::Text(s)),
        None => {},
    }
    let o = DynObject { entries };
    proof {
        reveal_strlit("id");
        reveal_strlit("values");
        reveal_strlit("metadata");
        reveal_strlit("namespace");
        assert(o.lookup("id"@) == Some(DynValue::Text(gv.id)));
        assert(o.lookup("values"@) matches Some(DynValue::Array(w)) && w@ == raw_nums(gv.values@));
        assert(o.lookup("metadata"@) == gv.metadata);
        assert(o.lookup("namespace"@) == (match gv.namespace {
            Some(s) => Some(DynValue::Text(s)),
            None => None::<DynValue>,
        }));
    }
    DynValue::Object(o)
}

/// Law: a genuine host binding is classified as such and carries no
/// shim, so both facade operations delegate directly to the host.
pub proof fn lemma_genuine_delegates(h: u64)
    ensures
        spec_classify(DynValue::Genuine(h)) == BindingClass::Genuine,
        (Vectorize { wrapped: DynValue::Genuine(h) }).shim_of() is None,
{
}

/// Law: on a plain object — one exposing none of the index operations —
/// the shimmed `describe` succeeds and reports the object's own `metric`
/// (default `"cosine"`), `dimensions` (default `0`), counts (default
/// `0`) and `name` (absent unless a string), provided each captured
/// count fits the record's 32 bits.
pub proof fn lemma_plain_object_describe(o: DynObject, snap: ShimSnapshot)
    requires
        snapshot_matches(snap, o),
        snap.dimensions <= u32::MAX as u64,
        snap.processed_vectors_count <= u32::MAX as u64,
        snap.stored_vectors_count <= u32::MAX as u64,
    ensures
        (shim_details(snap) matches Ok(d) && {
            &&& d.name == captured_name(o)
            &&& (d.metric matches Some(m) && m@ == captured_metric(o))
            &&& d.dimensions == Some((captured_num(o, "dimensions"@) as u32))
            &&& d.processed_vectors_count == Some(
                (captured_num(o, "processedVectorsCount"@) as u32),
            )
            &&& d.stored_vectors_count == Some((captured_num(o, "storedVectorsCount"@) as u32))
        }),
{
}

/// Law: the batch is acknowledged as a whole — when the remote service
/// answers `insert` with a string `mutationId`, normalization yields
/// exactly that handle, and a non-empty acknowledged id stays non-empty.
pub proof fn lemma_insert_round_trip(
    vs: Seq<Vector>,
    payload: DynValue,
    ack: DynObject,
    id: String,
)
    requires
        payload_matches(payload, vs),
        ack.lookup("mutationId"@) == Some(DynValue::Text(id)),
    ensures
        spec_read_mutation(DynValue::Object(ack)) == Ok::<Mutation, MapError>(
            (Mutation { mutation_id: id }),
        ),
        id@.len() > 0 ==> (spec_read_mutation(DynValue::Object(ack)) matches Ok(m)
            && m.mutation_id@.len() > 0),
{
}

} // verus!

