//! The test-double shim installer.
//!
//! A plain object placed in the binding slot exposes none of the index
//! operations.  So that such an object still answers `describe`, the
//! installer captures a one-shot snapshot of five of its fields and
//! attaches a synthesized `describe` operation backed by that snapshot.
//! The snapshot is immutable: later changes to the object are not
//! reflected, by design.

use vstd::prelude::*;

use crate::dynamic::{obj_lookup, lemma_obj_lookup_push, DynObject, DynValue, Prop};

verus! {

/// The five fields the shim installer captures off an object, each
/// defaulted independently when missing or not of the expected shape:
/// `name` has no default, `metric` defaults to `"cosine"`, and the three
/// numeric fields default to `0`.
#[derive(Debug, PartialEq)]
pub struct ShimSnapshot {
    pub name: Option<String>,
    pub dimensions: u64,
    pub metric: String,
    pub processed_vectors_count: u64,
    pub stored_vectors_count: u64,
}

/// The captured `name`: the object's `name` field when it is a string,
/// otherwise absent.
pub open spec fn captured_name(o: DynObject) -> Option<String> {
    match o.lookup("name"@) {
        Some(DynValue::Text(s)) => Some(s),
        _ => None,
    }
}

/// A captured numeric field: the field's exact non-negative integral
/// value when it has one, otherwise `0`.
pub open spec fn captured_num(o: DynObject, k: Seq<char>) -> u64 {
    match o.lookup(k) {
        Some(DynValue::IntNum(n)) => n,
        _ => 0,
    }
}

/// The captured `metric`: the object's `metric` field when it is a
/// string, otherwise `"cosine"`.
pub open spec fn captured_metric(o: DynObject) -> Seq<char> {
    match o.lookup("metric"@) {
        Some(DynValue::Text(s)) => s@,
        _ => "cosine"@,
    }
}

/// Whether `snap` is exactly the snapshot the installer captures off `o`.
pub open spec fn snapshot_matches(snap: ShimSnapshot, o: DynObject) -> bool {
    &&& snap.name == captured_name(o)
    &&& snap.dimensions == captured_num(o, "dimensions"@)
    &&& snap.metric@ == captured_metric(o)
    &&& snap.processed_vectors_count == captured_num(o, "processedVectorsCount"@)
    &&& snap.stored_vectors_count == captured_num(o, "storedVectorsCount"@)
}

/// A snapshot with every field at its default, as captured off an object
/// exposing none of the five fields.
pub open spec fn snapshot_default(snap: ShimSnapshot) -> bool {
    &&& snap.name is None
    &&& snap.dimensions == 0
    &&& snap.metric@ == "cosine"@
    &&& snap.processed_vectors_count == 0
    &&& snap.stored_vectors_count == 0
}

pub fn capture_snapshot(o: &DynObject) -> (r: ShimSnapshot)
    ensures
        snapshot_matches(r, *o),
{
    let name = match o.get("name") {
        Some(DynValue::Text(s)) => Some(s.clone()),
        _ => None,
    };
    let dimensions = match o.get("dimensions") {
        Some(DynValue::IntNum(n)) => *n,
        _ => 0,
    };
    let metric = match o.get("metric") {
        Some(DynValue::Text(s)) => s.clone(),
        _ => "cosine".to_owned(),
    };
    let processed_vectors_count = match o.get("processedVectorsCount") {
        Some(DynValue::IntNum(n)) => *n,
        _ => 0,
    };
    let stored_vectors_count = match o.get("storedVectorsCount") {
        Some(DynValue::IntNum(n)) => *n,
        _ => 0,
    };
    ShimSnapshot { name, dimensions, metric, processed_vectors_count, stored_vectors_count }
}

/// What the synthesized `describe` operation resolves with: a fresh
/// object holding exactly the five captured values, `name` written as
/// null when it was absent, and nothing else.
pub open spec fn response_matches(resp: DynObject, snap: ShimSnapshot) -> bool {
    &&& resp.lookup("name"@) == (match snap.name {
        Some(n) => Some(DynValue::Text(n)),
        None => Some(DynValue::Null),
    })
    &&& resp.lookup("dimensions"@) == Some(DynValue::IntNum(snap.dimensions))
    &&& resp.lookup("metric"@) == Some(DynValue::Text(snap.metric))
    &&& resp.lookup("processedVectorsCount"@) == Some(DynValue::IntNum(snap.processed_vectors_count))
    &&& resp.lookup("storedVectorsCount"@) == Some(DynValue::IntNum(snap.stored_vectors_count))
    &&& resp.lookup("description"@) is None
    &&& resp.lookup("vectorCount"@) is None
    &&& resp.lookup("processedUpToDatetime"@) is None
    &&& resp.lookup("processedUpToMutation"@) is None
}

/// Build the object the synthesized `describe` operation resolves with.
pub fn shim_response(snap: &ShimSnapshot) -> (r: DynValue)
    ensures
        (r matches DynValue::Object(resp) && response_matches(resp, *snap)),
{
    let name_value = match &snap.name {
        Some(n) => DynValue::Text(n.clone()),
        None => DynValue::Null,
    };
    let mut entries: Vec<Prop> = Vec::new();
    entries.push(Prop { key: "name".to_owned(), value: name_value });
    entries.push(Prop { key: "dimensions".to_owned(), value: DynValue::IntNum(snap.dimensions) });
    entries.push(Prop { key: "metric".to_owned(), value: DynValue::Text(snap.metric.clone()) });
    entries.push(Prop {
        key: "processedVectorsCount".to_owned(),
        value: DynValue::IntNum(snap.processed_vectors_count),
    });
    entries.push(Prop {
        key: "storedVectorsCount".to_owned(),
        value: DynValue::IntNum(snap.stored_vectors_count),
    });
    let resp = DynObject { entries };
    proof {
        reveal_strlit("name");
        reveal_strlit("dimensions");
        reveal_strlit("metric");
        reveal_strlit("processedVectorsCount");
        reveal_strlit("storedVectorsCount");
        reveal_strlit("description");
        reveal_strlit("vectorCount");
        reveal_strlit("processedUpToDatetime");
        reveal_strlit("processedUpToMutation");
        reveal_with_fuel(obj_lookup, 7);
        assert(resp.entries@.len() == 5);
        assert(resp.entries@[0].key@ == "name"@);
        assert(resp.entries@[1].key@ == "dimensions"@);
        assert(resp.entries@[2].key@ == "metric"@);
        assert(resp.entries@[3].key@ == "processedVectorsCount"@);
        assert(resp.entries@[4].key@ == "storedVectorsCount"@);
        assert("name"@ != "dimensions"@);
        assert(resp.entries@[1].value == DynValue::IntNum(snap.dimensions));
        assert(resp.lookup("dimensions"@) == Some(DynValue::IntNum(snap.dimensions)));
        assert(resp.lookup("metric"@) == Some(DynValue::Text(snap.metric)));
        assert(resp.lookup("processedVectorsCount"@) == Some(
            DynValue::IntNum(snap.processed_vectors_count),
        ));
        assert(resp.lookup("storedVectorsCount"@) == Some(
            DynValue::IntNum(snap.stored_vectors_count),
        ));
        assert("processedUpToDatetime"@[9] != "processedVectorsCount"@[9]);
        assert("processedUpToMutation"@[9] != "processedVectorsCount"@[9]);
        assert(resp.lookup("description"@) is None);
        assert(resp.lookup("vectorCount"@) is None);
        assert(resp.lookup("processedUpToDatetime"@) is None);
        assert(resp.lookup("processedUpToMutation"@) is None);
    }
    DynValue::Object(resp)
}

/// Attach the synthesized `describe` operation to an object that exposes
/// none; every other property is left as it was.
pub fn install_describe_shim(obj: DynObject) -> (r: DynObject)
    requires
        !obj.has_key("describe"@),
    ensures
        (r.lookup("describe"@) matches Some(DynValue::Shim(snap)) && snapshot_matches(snap, obj)),
        forall|k: Seq<char>| k != "describe"@ ==> r.lookup(k) == obj.lookup(k),
        r.entries@.len() == obj.entries@.len() + 1,
{
    let snap = capture_snapshot(&obj);
    let ghost base = obj;
    let mut augmented = obj;
    let prop = Prop { key: "describe".to_owned(), value: DynValue::Shim(snap) };
    let ghost p = prop;
    augmented.entries.push(prop);
    proof {
        lemma_obj_lookup_push(base.entries@, p, "describe"@);
        assert forall|k: Seq<char>| k != "describe"@ implies augmented.lookup(k) == base.lookup(
            k,
        ) by {
            lemma_obj_lookup_push(base.entries@, p, k);
        }
    }
    augmented
}

} // verus!
