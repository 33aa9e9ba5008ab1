use querygen::rpc::classify;
use querygen::rpc::Dispatch;
use querygen::rpc::DriverState;
use querygen::rpc::GeneratorMetadata;
use querygen::rpc::Request;
use querygen::rpc::RequestKind;
use querygen::rpc::ResponseData;
use querygen::wire::WireValue;

fn meta() -> GeneratorMetadata {
    GeneratorMetadata::new("Test Generator".to_string(), "./generated".to_string())
}

#[test]
fn classify_methods() {
    assert_eq!(classify("getManifest"), RequestKind::GetManifest);
    assert_eq!(classify("generate"), RequestKind::Generate);
    assert_eq!(classify("foo"), RequestKind::Unknown);
    assert_eq!(classify(""), RequestKind::Unknown);
}

#[test]
fn manifest_response_shape() {
    let resp = meta().manifest_response(1);
    assert_eq!(resp.jsonrpc, "2.0");
    assert_eq!(resp.id, 1);
    match resp.data {
        ResponseData::Result(v) => assert_eq!(
            v,
            WireValue::Object(vec![(
                "manifest".to_string(),
                WireValue::Object(vec![
                    (
                        "defaultOutput".to_string(),
                        WireValue::Scalar("./generated".to_string())
                    ),
                    (
                        "prettyName".to_string(),
                        WireValue::Scalar("Test Generator".to_string())
                    ),
                ])
            )])
        ),
        _ => panic!("expected a result payload"),
    }
}

#[test]
fn unknown_method_error_names_generator_and_method() {
    let req = Request {
        id: 4,
        method: "foo".to_string(),
    };
    let (d, state) = meta().dispatch(&req);
    assert_eq!(state, DriverState::AwaitingRequest);
    match d {
        Dispatch::Reply(resp) => {
            assert_eq!(resp.jsonrpc, "2.0");
            assert_eq!(resp.id, 4);
            match resp.data {
                ResponseData::Error { code, message } => {
                    assert_eq!(code, 0);
                    assert_eq!(message, "Test Generator cannot handle method foo");
                    assert!(message.contains("Test Generator"));
                    assert!(message.contains("foo"));
                }
                _ => panic!("expected an error payload"),
            }
        }
        _ => panic!("expected an immediate reply"),
    }
}

#[test]
fn generate_request_ends_the_loop() {
    let req = Request {
        id: 9,
        method: "generate".to_string(),
    };
    let (d, state) = meta().dispatch(&req);
    assert_eq!(state, DriverState::Done);
    match d {
        Dispatch::RunGenerate(id) => assert_eq!(id, 9),
        _ => panic!("expected the generation hand-off"),
    }
}

#[test]
fn get_manifest_keeps_the_loop_running() {
    let req = Request {
        id: 2,
        method: "getManifest".to_string(),
    };
    let (d, state) = meta().dispatch(&req);
    assert_eq!(state, DriverState::AwaitingRequest);
    assert!(matches!(d, Dispatch::Reply(_)));
}

#[test]
fn generate_success_response_is_null_result() {
    let resp = meta().generate_response(3, Ok(()));
    assert_eq!(resp.jsonrpc, "2.0");
    assert_eq!(resp.id, 3);
    match resp.data {
        ResponseData::Result(v) => assert_eq!(v, WireValue::Null),
        _ => panic!("expected a result payload"),
    }
}

#[test]
fn generate_failure_response_carries_the_message() {
    let resp = meta().generate_response(3, Err("schema has no usable entity".to_string()));
    match resp.data {
        ResponseData::Error { code, message } => {
            assert_eq!(code, 0);
            assert_eq!(message, "schema has no usable entity");
        }
        _ => panic!("expected an error payload"),
    }
}
