use botocore_model::decode::decode_model;
use botocore_model::resolve::resolve;
use botocore_model::BindingError;
use botocore_model::HttpBindings;
use botocore_model::HttpBindingsTemp;
use botocore_model::Markdown;
use botocore_model::Method;
use botocore_model::Operation;
use botocore_model::Protocol;
use botocore_model::RawValue;
use botocore_model::Shape;
use botocore_model::ShapeReference;
use botocore_model::Signature;
use botocore_model::StatusCode;
use botocore_model::StringMap;

fn s(x: &str) -> RawValue {
    RawValue::Str(x.to_string())
}

fn e(k: &str, v: RawValue) -> (String, RawValue) {
    (k.to_string(), v)
}

fn shape_ref(name: &str) -> RawValue {
    RawValue::Obj(vec![e("shape", s(name))])
}

fn http_obj(method: &str, uri: &str, code: Option<i64>) -> RawValue {
    let mut fields = vec![e("method", s(method)), e("requestUri", s(uri))];
    if let Some(c) = code {
        fields.push(e("responseCode", RawValue::Int(c)));
    }
    RawValue::Obj(fields)
}

fn metadata_obj(protocol: &str) -> RawValue {
    RawValue::Obj(vec![
        e("apiVersion", s("2015-03-31")),
        e("endpointPrefix", s("lambda")),
        e("protocol", s(protocol)),
        e("serviceFullName", s("AWS Lambda")),
        e("serviceId", s("Lambda")),
        e("signatureVersion", s("v4")),
    ])
}

fn create_function_op() -> RawValue {
    RawValue::Obj(vec![
        e("name", s("CreateFunction")),
        e("http", http_obj("POST", "/2015-03-31/functions", Some(201))),
        e("input", shape_ref("CreateFunctionRequest")),
        e("output", shape_ref("FunctionConfiguration")),
        e("errors", RawValue::Arr(vec![shape_ref("ResourceNotFoundException")])),
        e("documentation", s("<p>Creates a function.</p>")),
    ])
}

fn structure_shape() -> RawValue {
    RawValue::Obj(vec![
        e("type", s("structure")),
        e(
            "members",
            RawValue::Obj(vec![e(
                "FunctionName",
                RawValue::Obj(vec![e("shape", s("FunctionName"))]),
            )]),
        ),
        e("required", RawValue::Arr(vec![s("FunctionName")])),
    ])
}

fn model_obj() -> RawValue {
    RawValue::Obj(vec![
        e("version", s("2.0")),
        e("metadata", metadata_obj("rest-json")),
        e("operations", RawValue::Obj(vec![e("CreateFunction", create_function_op())])),
        e(
            "shapes",
            RawValue::Obj(vec![
                e("CreateFunctionRequest", structure_shape()),
                e("FunctionConfiguration", RawValue::Obj(vec![e("type", s("structure")), e("members", RawValue::Obj(vec![]))])),
                e("ResourceNotFoundException", RawValue::Obj(vec![e("type", s("structure")), e("members", RawValue::Obj(vec![]))])),
                e("FunctionName", RawValue::Obj(vec![e("type", s("string")), e("min", RawValue::Int(1))])),
            ]),
        ),
        e("documentation", s("<p>AWS Lambda</p>")),
    ])
}

#[test]
fn status_code_vocabulary() {
    assert!(StatusCode::from_u16(0).is_err());
    assert!(StatusCode::from_u16(99).is_err());
    assert!(StatusCode::from_u16(600).is_err());
    assert_eq!(StatusCode::from_u16(200).unwrap(), StatusCode(200));
    assert_eq!(StatusCode::from_u16(404).unwrap(), StatusCode(404));
    assert_eq!(StatusCode::from_u16(503).unwrap(), StatusCode(503));
}

#[test]
fn method_token_vocabulary() {
    assert_eq!(Method::parse("FETCH"), None);
    assert_eq!(Method::parse(""), None);
    assert_eq!(Method::parse("GET"), Some(Method::Get));
    assert_eq!(Method::parse("POST"), Some(Method::Post));
    assert_eq!(Method::parse("DELETE"), Some(Method::Delete));
}

#[test]
fn binding_rejects_bad_method_token() {
    let t = HttpBindingsTemp {
        method: "FETCH".to_string(),
        request_uri: "/".to_string(),
        response_code: None,
    };
    match HttpBindings::try_from(t) {
        Err(BindingError::InvalidMethod(tok)) => assert_eq!(tok, "FETCH"),
        other => panic!("expected an invalid-method error, got {:?}", other),
    }
}

#[test]
fn binding_rejects_out_of_range_status() {
    let t = HttpBindingsTemp {
        method: "GET".to_string(),
        request_uri: "/".to_string(),
        response_code: Some(600),
    };
    match HttpBindings::try_from(t) {
        Err(BindingError::InvalidStatus(c)) => assert_eq!(c, 600),
        other => panic!("expected an invalid-status error, got {:?}", other),
    }
}

#[test]
fn binding_accepts_valid_record() {
    let t = HttpBindingsTemp {
        method: "DELETE".to_string(),
        request_uri: "/thing".to_string(),
        response_code: Some(204),
    };
    let h = HttpBindings::try_from(t).unwrap();
    assert_eq!(h.method, Method::Delete);
    assert_eq!(h.request_uri, "/thing");
    assert_eq!(h.response_code, Some(StatusCode(204)));
}

#[test]
fn markdown_strips_markup() {
    let m = Markdown::from("<p>Creates a function.</p>".to_string());
    assert_eq!(m.as_str(), "Creates a function.");
    let b = Markdown::from("<b>hi</b>".to_string());
    assert_eq!(b.as_str(), "**hi**");
}

#[test]
fn markdown_normalize_idempotent() {
    let inputs = ["Creates a function.", "<p>Creates a function.</p>", ""];
    for raw in inputs {
        let once = Markdown::from(raw.to_string());
        let twice = Markdown::from(once.as_str().to_string());
        assert_eq!(once, twice);
        assert_eq!(once.normalize(), once);
    }
}

#[test]
fn decode_accepts_model() {
    let m = decode_model(&model_obj()).unwrap();
    assert_eq!(m.version, "2.0");
    assert_eq!(m.metadata.protocol, Protocol::RestJson);
    assert_eq!(m.metadata.signature_version, Signature::V4);
    assert_eq!(m.metadata.service_id, "Lambda");
    assert_eq!(m.documentation.as_str(), "AWS Lambda");
    let op = m.operations.get("CreateFunction").unwrap();
    assert_eq!(op.name, "CreateFunction");
    assert_eq!(op.http.method, Method::Post);
    assert_eq!(op.http.response_code, Some(StatusCode(201)));
    assert_eq!(op.input.shape, "CreateFunctionRequest");
    assert_eq!(op.errors.len(), 1);
    assert_eq!(op.documentation.as_str(), "Creates a function.");
    match m.shapes.get("CreateFunctionRequest").unwrap() {
        Shape::Structure { members, required, .. } => {
            assert!(members.get("FunctionName").is_some());
            assert_eq!(required.as_ref().unwrap(), &vec!["FunctionName".to_string()]);
        },
        other => panic!("expected a structure shape, got {:?}", other),
    }
}

#[test]
fn decode_rejects_unknown_protocol() {
    let raw = RawValue::Obj(vec![
        e("version", s("2.0")),
        e("metadata", metadata_obj("soap")),
        e("operations", RawValue::Obj(vec![])),
        e("shapes", RawValue::Obj(vec![])),
        e("documentation", s("d")),
    ]);
    let err = decode_model(&raw).unwrap_err();
    assert_eq!(err.path, "metadata.protocol");
}

#[test]
fn decode_rejects_unknown_shape_type() {
    let raw = RawValue::Obj(vec![
        e("version", s("2.0")),
        e("metadata", metadata_obj("rest-json")),
        e("operations", RawValue::Obj(vec![])),
        e(
            "shapes",
            RawValue::Obj(vec![e("Legacy", RawValue::Obj(vec![e("type", s("enum-legacy"))]))]),
        ),
        e("documentation", s("d")),
    ]);
    let err = decode_model(&raw).unwrap_err();
    assert_eq!(err.path, "shapes.Legacy.type");
}

#[test]
fn decode_rejects_missing_field() {
    let raw = RawValue::Obj(vec![e("version", s("2.0"))]);
    let err = decode_model(&raw).unwrap_err();
    assert_eq!(err.path, "metadata");
}

#[test]
fn decode_keeps_scalar_contents_opaque() {
    let m = decode_model(&model_obj()).unwrap();
    match m.shapes.get("FunctionName").unwrap() {
        Shape::StringShape { contents } => match contents {
            RawValue::Obj(entries) => {
                assert!(entries.iter().any(|(k, v)| k == "min" && *v == RawValue::Int(1)));
            },
            other => panic!("expected an object node, got {:?}", other),
        },
        other => panic!("expected a string shape, got {:?}", other),
    }
}

fn plain_binding() -> HttpBindings {
    HttpBindings::try_from(HttpBindingsTemp {
        method: "POST".to_string(),
        request_uri: "/".to_string(),
        response_code: None,
    })
    .unwrap()
}

fn op_with_refs(input: &str, output: Option<&str>, errors: Vec<&str>) -> Operation {
    Operation {
        name: "Op".to_string(),
        http: plain_binding(),
        input: ShapeReference { shape: input.to_string() },
        output: output.map(|o| ShapeReference { shape: o.to_string() }),
        errors: errors
            .into_iter()
            .map(|x| ShapeReference { shape: x.to_string() })
            .collect(),
        documentation: Markdown::from("d".to_string()),
    }
}

fn small_table() -> StringMap<Shape> {
    let mut t = StringMap::new();
    t.insert("In".to_string(), Shape::Boolean);
    t.insert("Out".to_string(), Shape::Timestamp);
    t.insert("Err1".to_string(), Shape::Boolean);
    t
}

#[test]
fn resolve_succeeds_when_all_keys_present() {
    let t = small_table();
    let op = op_with_refs("In", Some("Out"), vec!["Err1"]);
    let r = resolve(&op, &t).unwrap();
    assert_eq!(r.input, t.get("In").unwrap());
    assert_eq!(r.output.unwrap(), t.get("Out").unwrap());
    assert_eq!(r.errors.len(), 1);
    assert_eq!(r.errors[0], t.get("Err1").unwrap());
    assert_eq!(r.name, &op.name);
    assert_eq!(r.http, &op.http);
    assert_eq!(r.documentation, &op.documentation);
}

#[test]
fn resolve_reports_missing_input_key() {
    let t = small_table();
    let op = op_with_refs("Absent", Some("Out"), vec!["Err1"]);
    let err = resolve(&op, &t).unwrap_err();
    assert_eq!(err.key, "Absent");
}

#[test]
fn resolve_reports_missing_output_key() {
    let t = small_table();
    let op = op_with_refs("In", Some("AbsentOut"), vec!["Err1"]);
    let err = resolve(&op, &t).unwrap_err();
    assert_eq!(err.key, "AbsentOut");
}

#[test]
fn resolve_reports_missing_error_key() {
    let t = small_table();
    let op = op_with_refs("In", None, vec!["Err1", "AbsentErr"]);
    let err = resolve(&op, &t).unwrap_err();
    assert_eq!(err.key, "AbsentErr");
}

#[test]
fn resolve_end_to_end_create_function() {
    let m = decode_model(&model_obj()).unwrap();
    let op = m.operations.get("CreateFunction").unwrap();
    let r = resolve(op, &m.shapes).unwrap();
    assert_eq!(r.input, m.shapes.get("CreateFunctionRequest").unwrap());
    assert_eq!(r.output.unwrap(), m.shapes.get("FunctionConfiguration").unwrap());
    assert_eq!(r.errors.len(), 1);
    assert_eq!(r.errors[0], m.shapes.get("ResourceNotFoundException").unwrap());
    assert_eq!(r.http, &op.http);
    assert_eq!(r.documentation, &op.documentation);
    assert_eq!(r.name, "CreateFunction");
}

#[test]
fn string_map_insert_get_shadow() {
    let mut t: StringMap<i64> = StringMap::new();
    assert!(t.get("a").is_none());
    t.insert("a".to_string(), 1);
    t.insert("b".to_string(), 2);
    assert_eq!(*t.get("a").unwrap(), 1);
    assert_eq!(*t.get("b").unwrap(), 2);
    assert!(t.contains_key("a"));
    assert!(!t.contains_key("c"));
    t.insert("a".to_string(), 3);
    assert_eq!(*t.get("a").unwrap(), 3);
}
