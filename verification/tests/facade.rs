use vectorize::details::{read_details, read_mutation};
use vectorize::dynamic::kind_name;
use vectorize::vectorize::{classify, BindingClass, DescribeStep};
use vectorize::{
    BindError, CallError, DynObject, DynValue, FieldId, IndexDetails, MapError, Mutation, Prop,
    Vector, Vectorize, VectorizeIndexDetails,
};

fn prop(key: &str, value: DynValue) -> Prop {
    Prop { key: key.to_string(), value }
}

fn obj(entries: Vec<Prop>) -> DynValue {
    DynValue::Object(DynObject { entries })
}

fn text(s: &str) -> DynValue {
    DynValue::Text(s.to_string())
}

fn shim_answer(input: DynValue) -> Result<IndexDetails, CallError> {
    let facade = Vectorize::resolve(input).expect("resolution should succeed");
    match facade.describe_request() {
        DescribeStep::Answered(r) => r,
        DescribeStep::CallHost => panic!("expected the shim to answer"),
    }
}

#[test]
fn scenario_name_and_dimensions_only() {
    let input = obj(vec![
        prop("name", text("idx1")),
        prop("dimensions", DynValue::IntNum(768)),
    ]);
    let details = shim_answer(input).expect("describe should succeed");
    assert_eq!(details.name, Some("idx1".to_string()));
    assert_eq!(details.dimensions, Some(768));
    assert_eq!(details.metric, Some("cosine".to_string()));
    assert_eq!(details.processed_vectors_count, Some(0));
    assert_eq!(details.stored_vectors_count, Some(0));
    assert_eq!(details.description, None);
    assert_eq!(details.vector_count, None);
    assert_eq!(details.processed_up_to_datetime, None);
    assert_eq!(details.processed_up_to_mutation, None);
}

#[test]
fn scenario_empty_object() {
    let details = shim_answer(obj(vec![])).expect("describe should succeed");
    assert_eq!(details.name, None);
    assert_eq!(details.dimensions, Some(0));
    assert_eq!(details.metric, Some("cosine".to_string()));
    assert_eq!(details.processed_vectors_count, Some(0));
    assert_eq!(details.stored_vectors_count, Some(0));
}

#[test]
fn scenario_null_is_rejected() {
    let err = Vectorize::resolve(DynValue::Null).expect_err("null must not resolve");
    let BindError::TypeMismatch { expected, actual } = err;
    assert_eq!(expected, "Vectorize");
    assert_eq!(actual, "null");
}

#[test]
fn scenario_existing_describe_is_preserved() {
    let input = obj(vec![prop("describe", DynValue::Callable(7))]);
    let expected = obj(vec![prop("describe", DynValue::Callable(7))]);
    let facade = Vectorize::resolve(input).expect("resolution should succeed");
    assert_eq!(facade.wrapped, expected);
    assert_eq!(facade.describe_request(), DescribeStep::CallHost);
    let response = obj(vec![prop("dimensions", DynValue::IntNum(5))]);
    let details = Vectorize::describe_finish(Ok(response)).expect("describe should succeed");
    assert_eq!(details.dimensions, Some(5));
    assert_eq!(details.metric, Some("cosine".to_string()));
    assert_eq!(details.name, None);
    assert_eq!(details.processed_vectors_count, None);
    assert_eq!(details.stored_vectors_count, None);
}

#[test]
fn genuine_binding_is_wrapped_unchanged() {
    let facade = Vectorize::resolve(DynValue::Genuine(42)).expect("resolution should succeed");
    assert_eq!(facade.wrapped, DynValue::Genuine(42));
    assert_eq!(facade.describe_request(), DescribeStep::CallHost);
}

#[test]
fn objects_with_insert_or_upsert_are_not_shimmed() {
    for key in ["insert", "upsert"] {
        let facade = Vectorize::resolve(obj(vec![prop(key, DynValue::Callable(1))]))
            .expect("resolution should succeed");
        assert_eq!(facade.wrapped, obj(vec![prop(key, DynValue::Callable(1))]));
        assert_eq!(facade.describe_request(), DescribeStep::CallHost);
    }
}

#[test]
fn non_objects_are_rejected_with_their_kind() {
    let cases = [
        (DynValue::Undefined, "undefined"),
        (DynValue::Boolean(true), "boolean"),
        (DynValue::IntNum(3), "number"),
        (DynValue::RawNum(1.5f64.to_bits()), "number"),
        (text("x"), "string"),
        (DynValue::Callable(0), "function"),
    ];
    for (value, kind) in cases {
        let err = Vectorize::resolve(value).expect_err("must not resolve");
        let BindError::TypeMismatch { expected, actual } = err;
        assert_eq!(expected, "Vectorize");
        assert_eq!(actual, kind);
    }
}

#[test]
fn classify_covers_the_decision_table() {
    assert_eq!(classify(&DynValue::Genuine(0)), BindingClass::Genuine);
    assert_eq!(
        classify(&obj(vec![prop("describe", DynValue::Null)])),
        BindingClass::Capable
    );
    assert_eq!(classify(&obj(vec![prop("name", text("i"))])), BindingClass::PlainObject);
    assert_eq!(classify(&DynValue::Array(vec![])), BindingClass::PlainObject);
    assert_eq!(classify(&DynValue::Null), BindingClass::Invalid);
}

#[test]
fn shim_keeps_other_properties_and_captures_a_snapshot() {
    let input = obj(vec![
        prop("extra", DynValue::IntNum(9)),
        prop("metric", text("euclidean")),
    ]);
    let facade = Vectorize::resolve(input).expect("resolution should succeed");
    let DynValue::Object(wrapped) = facade.wrapped else {
        panic!("expected an object");
    };
    assert_eq!(wrapped.entries.len(), 3);
    assert_eq!(wrapped.entries[0], prop("extra", DynValue::IntNum(9)));
    assert_eq!(wrapped.entries[1], prop("metric", text("euclidean")));
    let Prop { key, value: DynValue::Shim(snap) } = &wrapped.entries[2] else {
        panic!("expected the synthesized describe");
    };
    assert_eq!(key, "describe");
    assert_eq!(snap.name, None);
    assert_eq!(snap.dimensions, 0);
    assert_eq!(snap.metric, "euclidean");
    assert_eq!(snap.processed_vectors_count, 0);
    assert_eq!(snap.stored_vectors_count, 0);
}

#[test]
fn shim_defaults_non_coercible_fields() {
    let input = obj(vec![
        prop("name", DynValue::IntNum(1)),
        prop("dimensions", text("many")),
        prop("metric", DynValue::IntNum(5)),
        prop("processedVectorsCount", DynValue::Null),
        prop("storedVectorsCount", DynValue::IntNum(4)),
    ]);
    let details = shim_answer(input).expect("describe should succeed");
    assert_eq!(details.name, None);
    assert_eq!(details.dimensions, Some(0));
    assert_eq!(details.metric, Some("cosine".to_string()));
    assert_eq!(details.processed_vectors_count, Some(0));
    assert_eq!(details.stored_vectors_count, Some(4));
}

#[test]
fn shim_reports_the_objects_own_fields() {
    let input = obj(vec![
        prop("name", text("prod")),
        prop("dimensions", DynValue::IntNum(1536)),
        prop("metric", text("dot-product")),
        prop("processedVectorsCount", DynValue::IntNum(10)),
        prop("storedVectorsCount", DynValue::IntNum(11)),
    ]);
    let details = shim_answer(input).expect("describe should succeed");
    assert_eq!(details.name, Some("prod".to_string()));
    assert_eq!(details.dimensions, Some(1536));
    assert_eq!(details.metric, Some("dot-product".to_string()));
    assert_eq!(details.processed_vectors_count, Some(10));
    assert_eq!(details.stored_vectors_count, Some(11));
}

#[test]
fn shim_dimensions_beyond_the_record_fail_describe() {
    let input = obj(vec![prop("dimensions", DynValue::IntNum(1 << 40))]);
    let err = shim_answer(input).expect_err("describe must fail");
    assert_eq!(
        err,
        CallError::MalformedResponse(MapError::BadField(FieldId::Dimensions))
    );
}

#[test]
fn an_array_resolves_like_a_bare_object() {
    let facade = Vectorize::resolve(DynValue::Array(vec![DynValue::IntNum(1)]))
        .expect("resolution should succeed");
    let details = match facade.describe_request() {
        DescribeStep::Answered(r) => r.expect("describe should succeed"),
        DescribeStep::CallHost => panic!("expected the shim to answer"),
    };
    assert_eq!(details.name, None);
    assert_eq!(details.dimensions, Some(0));
    assert_eq!(details.metric, Some("cosine".to_string()));
}

#[test]
fn describe_rejection_is_unreachable() {
    let outcome = Vectorize::describe_finish(Err(text("connection lost")));
    assert_eq!(outcome, Err(CallError::Unreachable(text("connection lost"))));
}

#[test]
fn describe_non_object_response_is_malformed() {
    let outcome = Vectorize::describe_finish(Ok(text("oops")));
    assert_eq!(outcome, Err(CallError::MalformedResponse(MapError::NotAnObject)));
}

#[test]
fn describe_bad_field_is_reported() {
    let response = obj(vec![prop("dimensions", text("abc"))]);
    let outcome = Vectorize::describe_finish(Ok(response));
    assert_eq!(
        outcome,
        Err(CallError::MalformedResponse(MapError::BadField(FieldId::Dimensions)))
    );
}

#[test]
fn read_details_translates_every_field() {
    let response = obj(vec![
        prop("name", text("idx")),
        prop("description", text("a test index")),
        prop("dimensions", DynValue::IntNum(3)),
        prop("metric", text("cosine")),
        prop("processedVectorsCount", DynValue::IntNum(1)),
        prop("storedVectorsCount", DynValue::IntNum(2)),
        prop("vectorCount", DynValue::IntNum(4)),
        prop("processedUpToDatetime", DynValue::IntNum(1700000000000)),
        prop("processedUpToMutation", text("m-9")),
        prop("unknownField", text("ignored")),
    ]);
    let details = read_details(&response).expect("mapping should succeed");
    assert_eq!(details.name, Some("idx".to_string()));
    assert_eq!(details.description, Some("a test index".to_string()));
    assert_eq!(details.dimensions, Some(3));
    assert_eq!(details.metric, Some("cosine".to_string()));
    assert_eq!(details.processed_vectors_count, Some(1));
    assert_eq!(details.stored_vectors_count, Some(2));
    assert_eq!(details.vector_count, Some(4));
    assert_eq!(details.processed_up_to_datetime, Some(1700000000000));
    assert_eq!(details.processed_up_to_mutation, Some("m-9".to_string()));
}

#[test]
fn read_details_accepts_null_fields_as_absent() {
    let response = obj(vec![prop("name", DynValue::Null), prop("dimensions", DynValue::Undefined)]);
    let details = read_details(&response).expect("mapping should succeed");
    assert_eq!(details.name, None);
    assert_eq!(details.dimensions, None);
}

#[test]
fn insert_payload_serializes_the_whole_batch() {
    let facade = Vectorize::resolve(DynValue::Genuine(1)).expect("resolution should succeed");
    let first = Vector {
        id: "a".to_string(),
        values: vec![1.5f64.to_bits(), 2.0f64.to_bits()],
        metadata: Some(obj(vec![prop("tag", text("t"))])),
        namespace: Some("ns".to_string()),
    };
    let second = Vector {
        id: "b".to_string(),
        values: vec![],
        metadata: None,
        namespace: None,
    };
    let payload = facade.insert_request(vec![first, second]);
    let DynValue::Array(items) = payload else {
        panic!("expected a dynamic collection");
    };
    assert_eq!(items.len(), 2);
    assert_eq!(
        items[0],
        obj(vec![
            prop("id", text("a")),
            prop(
                "values",
                DynValue::Array(vec![
                    DynValue::RawNum(1.5f64.to_bits()),
                    DynValue::RawNum(2.0f64.to_bits()),
                ]),
            ),
            prop("metadata", obj(vec![prop("tag", text("t"))])),
            prop("namespace", text("ns")),
        ])
    );
    assert_eq!(
        items[1],
        obj(vec![prop("id", text("b")), prop("values", DynValue::Array(vec![]))])
    );
}

#[test]
fn insert_acknowledgment_round_trip() {
    let ack = obj(vec![prop("mutationId", text("mut-123"))]);
    let mutation = Vectorize::insert_finish(Ok(ack)).expect("insert should succeed");
    assert_eq!(mutation, Mutation { mutation_id: "mut-123".to_string() });
    assert!(!mutation.mutation_id.is_empty());
}

#[test]
fn insert_rejection_is_unreachable() {
    let outcome = Vectorize::insert_finish(Err(DynValue::Undefined));
    assert_eq!(outcome, Err(CallError::Unreachable(DynValue::Undefined)));
}

#[test]
fn insert_acknowledgment_without_id_is_malformed() {
    let outcome = Vectorize::insert_finish(Ok(obj(vec![prop("status", text("ok"))])));
    assert_eq!(
        outcome,
        Err(CallError::MalformedResponse(MapError::BadField(FieldId::MutationId)))
    );
    let outcome = Vectorize::insert_finish(Ok(DynValue::Null));
    assert_eq!(outcome, Err(CallError::MalformedResponse(MapError::NotAnObject)));
}

#[test]
fn read_mutation_takes_the_id_verbatim() {
    let ack = obj(vec![prop("mutationId", text("m-1")), prop("extra", DynValue::IntNum(1))]);
    assert_eq!(read_mutation(&ack), Ok(Mutation { mutation_id: "m-1".to_string() }));
    let bad = obj(vec![prop("mutationId", DynValue::IntNum(1))]);
    assert_eq!(read_mutation(&bad), Err(MapError::BadField(FieldId::MutationId)));
}

#[test]
fn default_details_are_all_absent() {
    let details = IndexDetails::default();
    assert_eq!(details, IndexDetails {
        name: None,
        description: None,
        dimensions: None,
        metric: None,
        processed_vectors_count: None,
        stored_vectors_count: None,
        vector_count: None,
        processed_up_to_datetime: None,
        processed_up_to_mutation: None,
    });
}

#[test]
fn older_schema_populates_unconditionally() {
    let raw = VectorizeIndexDetails {
        name: Some("old".to_string()),
        dimensions: 128,
        metric: "euclidean".to_string(),
        processed_vectors_count: 7,
        stored_vectors_count: 8,
    };
    let details = IndexDetails::from(raw);
    assert_eq!(details.name, Some("old".to_string()));
    assert_eq!(details.description, None);
    assert_eq!(details.dimensions, Some(128));
    assert_eq!(details.metric, Some("euclidean".to_string()));
    assert_eq!(details.processed_vectors_count, Some(7));
    assert_eq!(details.stored_vectors_count, Some(8));
    assert_eq!(details.vector_count, None);
    assert_eq!(details.processed_up_to_datetime, None);
    assert_eq!(details.processed_up_to_mutation, None);
}

#[test]
fn object_lookup_takes_the_first_match() {
    let o = DynObject {
        entries: vec![prop("k", DynValue::IntNum(1)), prop("k", DynValue::IntNum(2))],
    };
    assert_eq!(o.get("k"), Some(&DynValue::IntNum(1)));
    assert_eq!(o.get("missing"), None);
    assert!(o.has("k"));
    assert!(!o.has("missing"));
}

#[test]
fn kind_names_follow_the_runtime() {
    assert_eq!(kind_name(&DynValue::Undefined), "undefined");
    assert_eq!(kind_name(&DynValue::Null), "null");
    assert_eq!(kind_name(&DynValue::Boolean(false)), "boolean");
    assert_eq!(kind_name(&DynValue::IntNum(0)), "number");
    assert_eq!(kind_name(&text("")), "string");
    assert_eq!(kind_name(&DynValue::Array(vec![])), "object");
    assert_eq!(kind_name(&obj(vec![])), "object");
    assert_eq!(kind_name(&DynValue::Callable(0)), "function");
    assert_eq!(kind_name(&DynValue::Genuine(0)), "object");
}
