use microcall::action::{
    action_http_request, deploy_error_response, deploy_function, get_endpoint, get_uds_endpoint,
    post_deploy, read_deploy_body, try_post_deploy, uds_response, DeployForm,
};
use microcall::action_container::{self, LanguageRuntime};
use microcall::action_fs;
use microcall::controller::{bad_request, get_all, get_root, route_request, FunctionRegistry, Route};
use microcall::fs_plan::{FsOp, OnFailure};
use microcall::http::{Method, StatusCode};
use microcall::identifier::{new_signature, FunctionId};
use microcall::startup::mount_node_runtime;

const SAMPLE: [u8; 16] = [70, 235, 208, 238, 14, 109, 67, 201, 185, 13, 204, 195, 90, 145, 63, 62];
const SAMPLE_TEXT: &str = "46ebd0ee-0e6d-43c9-b90d-ccc35a913f3e";
const SAMPLE_DEBUG: &str =
    "Uuid { bytes: [70, 235, 208, 238, 14, 109, 67, 201, 185, 13, 204, 195, 90, 145, 63, 62] }";

fn sample_id() -> FunctionId {
    FunctionId { bytes: SAMPLE }
}

fn listing(functions: &FunctionRegistry) -> String {
    String::from_utf8(get_all(functions).body).unwrap()
}

fn create_dir(path: &str, on_failure: OnFailure) -> FsOp {
    FsOp::CreateDir { path: path.to_string(), on_failure }
}

#[test]
fn runtime_names() {
    assert_eq!(LanguageRuntime::NodeJsV6.to_str(), "node-js-v6");
    assert_eq!(LanguageRuntime::NodeJsV8.to_str(), "node-js-v8");
    assert_eq!(LanguageRuntime::PythonV2.to_str(), "python-v3");
    assert_eq!(LanguageRuntime::PythonV3.to_str(), "python-v2");
    assert_eq!(LanguageRuntime::JavaV8.to_str(), "java-v8");
    assert_eq!(LanguageRuntime::DynamicLibrary.to_str(), "dynamic-library");
}

#[test]
fn runtime_names_are_distinct() {
    let all = [
        LanguageRuntime::NodeJsV6,
        LanguageRuntime::NodeJsV8,
        LanguageRuntime::PythonV2,
        LanguageRuntime::PythonV3,
        LanguageRuntime::JavaV8,
        LanguageRuntime::DynamicLibrary,
    ];
    for (i, a) in all.iter().enumerate() {
        for (j, b) in all.iter().enumerate() {
            assert_eq!(i == j, a.to_str() == b.to_str());
        }
    }
}

#[test]
fn signature_text_and_debug() {
    let id = sample_id();
    assert_eq!(id.to_text(), SAMPLE_TEXT);
    assert_eq!(id.debug_text(), SAMPLE_DEBUG);
    let zero = FunctionId { bytes: [0; 16] };
    assert_eq!(zero.to_text(), "00000000-0000-0000-0000-000000000000");
    assert_eq!(
        zero.debug_text(),
        "Uuid { bytes: [0, 0, 0, 0, 0, 0, 0, 0, 0, 0, 0, 0, 0, 0, 0, 0] }"
    );
    let full = FunctionId { bytes: [255; 16] };
    assert_eq!(full.to_text(), "ffffffff-ffff-ffff-ffff-ffffffffffff");
}

#[test]
fn signature_equality() {
    let a = sample_id();
    let mut bytes = SAMPLE;
    assert!(a.same(&FunctionId { bytes }));
    bytes[15] = 0;
    assert!(!a.same(&FunctionId { bytes }));
}

#[test]
fn new_signatures_are_random_v4() {
    let a = new_signature();
    let b = new_signature();
    for id in [a, b] {
        assert_eq!(id.bytes[6] >> 4, 4);
        assert_eq!(id.bytes[8] >> 6, 2);
        assert_eq!(id.to_text().as_bytes()[14], b'4');
    }
    assert!(!a.same(&b));
}

#[test]
fn container_setup() {
    assert_eq!(
        action_container::create_runtime_container(),
        vec![
            FsOp::RemoveDirAll { path: "/tmp/microcall".to_string(), on_failure: OnFailure::Ignore },
            create_dir("/tmp/microcall", OnFailure::Ignore),
        ]
    );
    assert_eq!(
        action_container::mount_nodejs_v8(),
        vec![create_dir("/tmp/microcall/node-js-v8", OnFailure::Ignore)]
    );
    assert_eq!(
        mount_node_runtime(),
        vec![
            FsOp::RemoveDirAll { path: "/tmp/microcall".to_string(), on_failure: OnFailure::Ignore },
            create_dir("/tmp/microcall", OnFailure::Ignore),
            create_dir("/tmp/microcall/node-js-v8", OnFailure::Ignore),
        ]
    );
}

#[test]
fn container_mount_codes() {
    let dir = format!("/tmp/microcall/node-js-v8/{}", SAMPLE_TEXT);
    assert_eq!(
        action_container::mount_language_codes(&sample_id(), "exports.f = 1;"),
        vec![
            create_dir(&dir, OnFailure::Panic),
            FsOp::WriteFile {
                path: format!("{}/index.js", dir),
                contents: "exports.f = 1;".to_string(),
                on_create_failure: OnFailure::Panic,
                on_write_failure: OnFailure::Panic,
            },
        ]
    );
}

#[test]
fn fs_setup() {
    let root = "/Users/tzuchiao/workspace/rust/faaas/tmp";
    assert_eq!(action_fs::create_runtime_fs(), vec![create_dir(root, OnFailure::Ignore)]);
    assert_eq!(
        action_fs::mount_nodejs_v8(),
        vec![create_dir(&format!("{}/node-js-v8", root), OnFailure::Ignore)]
    );
    assert_eq!(
        action_fs::clean_up(),
        vec![FsOp::RemoveDirAll { path: root.to_string(), on_failure: OnFailure::Panic }]
    );
    let dir = format!("{}/node-js-v8/{}", root, SAMPLE_TEXT);
    assert_eq!(
        action_fs::mount_language_codes(&sample_id(), ""),
        vec![
            create_dir(&dir, OnFailure::Ignore),
            FsOp::WriteFile {
                path: format!("{}/index.js", dir),
                contents: String::new(),
                on_create_failure: OnFailure::Panic,
                on_write_failure: OnFailure::Ignore,
            },
        ]
    );
}

#[test]
fn distinct_signatures_get_distinct_directories() {
    let mut other = SAMPLE;
    other[0] = 71;
    let a = action_container::mount_language_codes(&sample_id(), "x");
    let b = action_container::mount_language_codes(&FunctionId { bytes: other }, "x");
    assert_ne!(a[0], b[0]);
}

#[test]
fn http_request_content_length() {
    let r = action_http_request(Method::Post, "http://host/x", "{\"a\":\"é\"}".to_string());
    assert_eq!(r.method, Method::Post);
    assert_eq!(r.url, "http://host/x");
    assert_eq!(r.content_type, "application/json");
    assert_eq!(r.body, "{\"a\":\"é\"}");
    assert_eq!(r.content_length, 10);
    let empty = action_http_request(Method::Get, "u", String::new());
    assert_eq!(empty.content_length, 0);
}

#[test]
fn endpoint_request() {
    let r = get_endpoint("/endpoint/abc");
    assert_eq!(r.method, Method::Get);
    assert_eq!(r.url, "http://127.0.0.1:5999/invoke");
    assert_eq!(r.content_type, "application/json");
    assert_eq!(r.body, "{\"id\":\"abc\",\"param\":\"{\\\"name\\\": \\\"Jon\\\"}\"}");
    assert_eq!(r.content_length as usize, r.body.len());
}

#[test]
fn endpoint_request_escapes_the_id() {
    let r = get_endpoint("/endpoint/a\"b\\c\n\u{1}é");
    assert_eq!(
        r.body,
        "{\"id\":\"a\\\"b\\\\c\\n\\u0001é\",\"param\":\"{\\\"name\\\": \\\"Jon\\\"}\"}"
    );
    assert_eq!(r.content_length as usize, r.body.len());
    let empty = get_endpoint("/endpoint/");
    assert_eq!(empty.body, "{\"id\":\"\",\"param\":\"{\\\"name\\\": \\\"Jon\\\"}\"}");
}

#[test]
fn uds_endpoint_signal() {
    let signal = get_uds_endpoint("/uds_endpoint/f1");
    assert_eq!(
        signal,
        b"{\"id\":\"f1\",\"param\":\"{\\\"name\\\": \\\"Jon\\\"}\"}".to_vec()
    );
}

#[test]
fn uds_responses() {
    let ok = uds_response(Some(b"result".to_vec()));
    assert_eq!(ok.status, StatusCode::Success);
    assert_eq!(ok.body, b"result".to_vec());
    let failed = uds_response(None);
    assert_eq!(failed.status, StatusCode::BadRequest);
    assert!(failed.body.is_empty());
}

#[test]
fn routes() {
    assert_eq!(route_request(Method::Get, "/"), Route::Root);
    assert_eq!(route_request(Method::Get, "/all"), Route::All);
    assert_eq!(route_request(Method::Post, "/deploy"), Route::Deploy);
    assert_eq!(route_request(Method::Get, "/endpoint/abc"), Route::Endpoint);
    assert_eq!(route_request(Method::Post, "/endpoint/"), Route::Endpoint);
    assert_eq!(route_request(Method::Get, "/something-else"), Route::BadRequest);
    assert_eq!(route_request(Method::Post, "/all-the-things"), Route::BadRequest);
    assert_eq!(route_request(Method::Other, "/endpoint/x"), Route::Endpoint);
}

#[test]
fn root_and_bad_request() {
    let root = get_root();
    assert_eq!(root.status, StatusCode::Success);
    assert_eq!(root.body, b"Hello World!".to_vec());
    let bad = bad_request();
    assert_eq!(bad.status, StatusCode::NotFound);
    assert!(bad.body.is_empty());
}

#[test]
fn deploy_error() {
    let r = deploy_error_response();
    assert_eq!(r.status, StatusCode::NotFound);
    assert_eq!(r.body, b"Error occurred in deploy".to_vec());
}

#[test]
fn deploy_records_and_plans() {
    let mut functions = FunctionRegistry::new();
    let form = DeployForm {
        name: "\"hello\"".to_string(),
        module_content: Some("module.exports = 1;".to_string()),
    };
    let plan = deploy_function(&mut functions, form, sample_id());
    assert!(plan.signature.same(&sample_id()));
    assert_eq!(
        listing(&functions),
        format!("{}, FunctionMeta {{ name: \"\\\"hello\\\"\" }}\n", SAMPLE_DEBUG)
    );
    let dir = format!("/tmp/microcall/node-js-v8/{}", SAMPLE_TEXT);
    assert_eq!(
        plan.mount,
        vec![
            create_dir(&dir, OnFailure::Panic),
            FsOp::WriteFile {
                path: format!("{}/index.js", dir),
                contents: "module.exports = 1;".to_string(),
                on_create_failure: OnFailure::Panic,
                on_write_failure: OnFailure::Panic,
            },
        ]
    );
    assert_eq!(plan.request.method, Method::Post);
    assert_eq!(plan.request.url, "http://127.0.0.1:5999/deploy");
    assert_eq!(plan.request.body, format!("{{\"id\":\"{}\"}}", SAMPLE_TEXT));
    assert_eq!(plan.request.content_length, 45);
}

#[test]
fn post_deploy_uses_a_fresh_signature() {
    let mut functions = FunctionRegistry::new();
    let plan = post_deploy(&mut functions, b"{\"name\":\"adder\",\"moduleContent\":\"code\"}");
    assert_eq!(plan.signature.bytes[6] >> 4, 4);
    assert_eq!(plan.signature.bytes[8] >> 6, 2);
    assert_eq!(
        listing(&functions),
        format!("{}, FunctionMeta {{ name: \"\\\"adder\\\"\" }}\n", plan.signature.debug_text())
    );
    assert_eq!(plan.request.body, format!("{{\"id\":\"{}\"}}", plan.signature.to_text()));
    match &plan.mount[1] {
        FsOp::WriteFile { contents, .. } => assert_eq!(contents, "code"),
        other => panic!("unexpected step {:?}", other),
    }
}

#[test]
fn try_post_deploy_without_code_changes_nothing() {
    let mut functions = FunctionRegistry::new();
    assert!(try_post_deploy(&mut functions, b"{\"name\":\"adder\"}").is_none());
    assert!(try_post_deploy(&mut functions, b"not json").is_none());
    assert!(try_post_deploy(&mut functions, b"{\"moduleContent\":3}").is_none());
    assert_eq!(listing(&functions), "");
    let plan = try_post_deploy(&mut functions, b"{\"moduleContent\":\"c\"}").unwrap();
    assert_eq!(
        listing(&functions),
        format!("{}, FunctionMeta {{ name: \"null\" }}\n", plan.signature.debug_text())
    );
}

#[test]
fn deploy_body_reading() {
    let form = read_deploy_body(b"{\"name\":\"hello\",\"moduleContent\":\"code\"}");
    assert_eq!(form.name, "\"hello\"");
    assert_eq!(form.module_content, Some("code".to_string()));
    let form = read_deploy_body(b"not json");
    assert_eq!(form.name, "null");
    assert_eq!(form.module_content, None);
    let form = read_deploy_body(b"{\"moduleContent\":\"x\"}");
    assert_eq!(form.name, "null");
    assert_eq!(form.module_content, Some("x".to_string()));
    let form = read_deploy_body(b"{\"name\": {\"b\": 1, \"a\": [1, 2]}, \"moduleContent\": 5}");
    assert_eq!(form.name, "{\"a\":[1,2],\"b\":1}");
    assert_eq!(form.module_content, None);
    let form = read_deploy_body(b"[\"x\", \"y\"]");
    assert_eq!(form.name, "null");
    assert_eq!(form.module_content, None);
    let form = read_deploy_body(b"{\"name\":\"a\",\"name\":\"b\",\"moduleContent\":\"c\\nd\"}");
    assert_eq!(form.name, "\"b\"");
    assert_eq!(form.module_content, Some("c\nd".to_string()));
    let form = read_deploy_body(b"{\"name\":null,\"moduleContent\":\"\"}");
    assert_eq!(form.name, "null");
    assert_eq!(form.module_content, Some(String::new()));
}

#[test]
fn registry_insert_replaces() {
    let mut functions = FunctionRegistry::new();
    functions.insert(sample_id(), "a".to_string());
    let other = FunctionId { bytes: [1; 16] };
    functions.insert(other, "b".to_string());
    functions.insert(sample_id(), "c".to_string());
    assert_eq!(
        listing(&functions),
        format!(
            "{}, FunctionMeta {{ name: \"c\" }}\n{}, FunctionMeta {{ name: \"b\" }}\n",
            SAMPLE_DEBUG,
            other.debug_text()
        )
    );
}

#[test]
fn listing_of_functions() {
    let mut functions = FunctionRegistry::new();
    let empty = get_all(&functions);
    assert_eq!(empty.status, StatusCode::Success);
    assert!(empty.body.is_empty());
    functions.insert(sample_id(), "\"hello\"".to_string());
    functions.insert(FunctionId { bytes: [0; 16] }, "null".to_string());
    let all = get_all(&functions);
    assert_eq!(all.status, StatusCode::Success);
    let expected = format!(
        "{}, FunctionMeta {{ name: \"\\\"hello\\\"\" }}\n\
         Uuid {{ bytes: [0, 0, 0, 0, 0, 0, 0, 0, 0, 0, 0, 0, 0, 0, 0, 0] }}, FunctionMeta {{ name: \"null\" }}\n",
        SAMPLE_DEBUG
    );
    assert_eq!(String::from_utf8(all.body).unwrap(), expected);
}

#[test]
fn listing_shows_each_function_once() {
    let mut functions = FunctionRegistry::new();
    functions.insert(sample_id(), "x".to_string());
    functions.insert(sample_id(), "y".to_string());
    let text = String::from_utf8(get_all(&functions).body).unwrap();
    assert_eq!(text.lines().count(), 1);
    assert!(text.contains("name: \"y\""));
}

#[test]
fn endpoint_path_is_prefix_and_id() {
    let path = "/endpoint/some-id";
    assert_eq!(route_request(Method::Get, path), Route::Endpoint);
    let r = get_endpoint(path);
    assert!(r.body.starts_with("{\"id\":\"some-id\""));
}
