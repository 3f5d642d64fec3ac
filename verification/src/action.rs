use vstd::prelude::*;
use vstd::string::StringSliceAdditionalSpecFns;
use vstd::utf8::{decode_utf8, encode_utf8, is_char_boundary};

use crate::action_container::{mount_language_codes, mount_plan};
use crate::constants::{DEPLOYMENT_URL, INVOCATION_URL, RUNTIME_DIRECTORY};
use crate::controller::{inserted_entries, FunctionRegistry};
use crate::fs_plan::{plan_view, FsOp, OnFailure};
use crate::http::{is_json_request, text_body, Method, OutgoingRequest, Response, StatusCode, JSON_CONTENT_TYPE};
use crate::identifier::{hyphenated, is_uuid_char, lemma_hyphenated_chars, new_signature, FunctionId};
use crate::json::{
    document_member_string, document_member_text, is_plain_json_char, json_quote, json_string_literal,
    lemma_json_escape_plain, lemma_json_string_literal_injective, read_json_members,
};

verus! {

broadcast use vstd::utf8::group_utf8_lib;

/// The parameter that every invocation passes to the function.
pub const INVOCATION_PARAM: &'static str = "{\"name\": \"Jon\"}";

/// The text of an error response to a deployment.
pub const DEPLOY_ERROR_TEXT: &'static str = "Error occurred in deploy";

/// The fields of a deployment request body that the service reads: the JSON text
/// of its `name` member (`null` where it has none), and its `moduleContent`
/// member where that is a string.
#[derive(Debug)]
pub struct DeployForm {
    pub name: String,
    pub module_content: Option<String>,
}

/// What a deployment does: the signature given to the function, the steps that
/// mount its code, and the request that tells the language backend about it.
#[derive(Debug)]
pub struct DeployPlan {
    pub signature: FunctionId,
    pub mount: Vec<FsOp>,
    pub request: OutgoingRequest,
}

/// The body that announces a deployed function to the language backend:
/// `{"id":"<signature>"}`.
pub open spec fn deploy_signal(id: Seq<u8>) -> Seq<char> {
    "{\"id\":"@ + json_string_literal(hyphenated(id)) + "}"@
}

/// The signature needs no escaping: the deployment body is the hyphenated
/// signature between quotes, as the `id` member of a JSON object.
pub proof fn law_deploy_signal_text(id: Seq<u8>)
    requires
        id.len() == 16,
    ensures
        deploy_signal(id) == "{\"id\":\""@ + hyphenated(id) + "\"}"@,
{
    let h = hyphenated(id);
    lemma_hyphenated_chars(id);
    assert forall|i: int| 0 <= i < h.len() implies is_plain_json_char(#[trigger] h[i]) by {
        assert(is_uuid_char(h[i]));
    }
    lemma_json_escape_plain(h);
    reveal_strlit("{\"id\":");
    reveal_strlit("}");
    reveal_strlit("{\"id\":\"");
    reveal_strlit("\"}");
    assert(deploy_signal(id) =~= "{\"id\":\""@ + hyphenated(id) + "\"}"@);
}

/// The body that invokes a function: `{"id":<id>,"param":"{\"name\": \"Jon\"}"}`,
/// the members in the order of their keys.
pub open spec fn invocation_signal(id: Seq<char>) -> Seq<char> {
    "{\"id\":"@ + json_string_literal(id) + ",\"param\":"@ + json_string_literal(INVOCATION_PARAM@) + "}"@
}

/// The invocation body names the function whole: its `id` member is the JSON
/// string literal of exactly the given id, so different ids, of whatever length,
/// give different bodies.
pub proof fn law_invocation_body_names_the_id(a: Seq<char>, b: Seq<char>)
    ensures
        invocation_signal(a).subrange(0, 6 + json_string_literal(a).len() as int) == "{\"id\":"@ + json_string_literal(a),
        invocation_signal(a) == invocation_signal(b) ==> a == b,
{
    reveal_strlit("{\"id\":");
    let prefix = "{\"id\":"@;
    let tail = ",\"param\":"@ + json_string_literal(INVOCATION_PARAM@) + "}"@;
    assert(invocation_signal(a) =~= prefix + json_string_literal(a) + tail);
    assert(invocation_signal(b) =~= prefix + json_string_literal(b) + tail);
    assert(invocation_signal(a).subrange(0, 6 + json_string_literal(a).len() as int) =~= prefix + json_string_literal(a));
    if invocation_signal(a) == invocation_signal(b) {
        let la = json_string_literal(a);
        let lb = json_string_literal(b);
        assert(la.len() == lb.len());
        assert(la =~= invocation_signal(a).subrange(6, 6 + la.len() as int));
        assert(lb =~= invocation_signal(b).subrange(6, 6 + lb.len() as int));
        lemma_json_string_literal_injective(a, b);
    }
}

/// The text of a path after its first `n` bytes.
pub open spec fn text_after(path: &str, n: int) -> Seq<char> {
    decode_utf8(path.spec_bytes().subrange(n, path.spec_bytes().len() as int))
}

/// Slicing the path after its first `n` bytes would not panic.
pub open spec fn can_cut(path: &str, n: int) -> bool {
    n <= path.spec_bytes().len() && is_char_boundary(path.spec_bytes(), n)
}

/// Builds a request with a JSON body to the language backend.
pub fn action_http_request(method: Method, url: &str, content: String) -> (request: OutgoingRequest)
    ensures
        is_json_request(request, method, url@, content@),
{
    let length = content.as_str().as_bytes().len() as u64;
    OutgoingRequest {
        method,
        url: url.to_owned(),
        content_type: JSON_CONTENT_TYPE.to_owned(),
        content_length: length,
        body: content,
    }
}

/// The text of a path after its first `n` bytes.
fn cut_path(path: &str, n: usize) -> (rest: &str)
    requires
        can_cut(path, n as int),
    ensures
        rest@ == text_after(path, n as int),
        rest.spec_bytes() == path.spec_bytes().subrange(n as int, path.spec_bytes().len() as int),
{
    let (_, rest) = path.split_at(n);
    rest
}

/// The invocation body for the function `id`.
fn invocation_body(id: &str) -> (body: String)
    ensures
        body@ == invocation_signal(id@),
{
    let mut body = "{\"id\":".to_owned();
    let quoted_id = json_quote(id);
    body.append(quoted_id.as_str());
    body.append(",\"param\":");
    let quoted_param = json_quote(INVOCATION_PARAM);
    body.append(quoted_param.as_str());
    body.append("}");
    body
}

/// Records a new function under the given signature and plans its deployment:
/// its name is stored, its code is mounted under the runtime directory (every
/// failure stops the process), and the language backend is told of it by a POST
/// to the deployment URL.
pub fn deploy_function(functions: &mut FunctionRegistry, form: DeployForm, signature: FunctionId) -> (plan: DeployPlan)
    requires
        form.module_content is Some,
    ensures
        final(functions)@ == old(functions)@.insert(signature@, form.name@),
        final(functions).entries() == inserted_entries(old(functions).entries(), signature@, form.name@),
        plan.signature == signature,
        plan_view(plan.mount@) == mount_plan(
            RUNTIME_DIRECTORY@,
            signature@,
            form.module_content->0@,
            OnFailure::Panic,
            OnFailure::Panic,
        ),
        is_json_request(plan.request, Method::Post, DEPLOYMENT_URL@, deploy_signal(signature@)),
{
    let DeployForm { name, module_content } = form;
    functions.insert(signature, name);
    let content = match module_content {
        Some(content) => content,
        None => String::new(),
    };
    let mount = mount_language_codes(&signature, content.as_str());
    let text = signature.to_text();
    let mut signal = "{\"id\":".to_owned();
    let quoted = json_quote(text.as_str());
    signal.append(quoted.as_str());
    signal.append("}");
    let request = action_http_request(Method::Post, DEPLOYMENT_URL, signal);
    DeployPlan { signature, mount, request }
}

/// The fields that a deployment reads from its request body: the JSON text of
/// the member `name`, and the contents of the member `moduleContent` where that is
/// a string. A body that is no JSON is read as an empty object.
pub fn read_deploy_body(body: &[u8]) -> (form: DeployForm)
    ensures
        form.name@ == document_member_text(body@, "name"@),
        form.module_content is Some <==> document_member_string(body@, "moduleContent"@) is Some,
        form.module_content is Some ==> form.module_content->0@ == document_member_string(body@, "moduleContent"@)->0,
{
    let (name, module_content) = read_json_members(body, "name", "moduleContent");
    DeployForm { name, module_content }
}

/// Deploys the function that a request body describes: gives it a fresh random
/// signature (one that no stored function holds; should the random one be taken,
/// its counter bytes are changed to the first free value), records its name under that signature and plans the mounting of its
/// code and the request to the language backend, as `deploy_function` does for that
/// signature.
pub fn post_deploy(functions: &mut FunctionRegistry, body: &[u8]) -> (plan: DeployPlan)
    requires
        document_member_string(body@, "moduleContent"@) is Some,
    ensures
        plan.signature.is_random_v4(),
        !old(functions)@.contains_key(plan.signature@),
        final(functions)@.len() == old(functions)@.len() + 1,
        final(functions)@ == old(functions)@.insert(plan.signature@, document_member_text(body@, "name"@)),
        final(functions).entries() == inserted_entries(
            old(functions).entries(),
            plan.signature@,
            document_member_text(body@, "name"@),
        ),
        plan_view(plan.mount@) == mount_plan(
            RUNTIME_DIRECTORY@,
            plan.signature@,
            document_member_string(body@, "moduleContent"@)->0,
            OnFailure::Panic,
            OnFailure::Panic,
        ),
        is_json_request(plan.request, Method::Post, DEPLOYMENT_URL@, deploy_signal(plan.signature@)),
{
    let form = read_deploy_body(body);
    let signature = functions.fresh_signature(new_signature());
    deploy_function(functions, form, signature)
}

/// Deploys the function that a request body describes, as `post_deploy` does,
/// where the body has a string `moduleContent`; gives nothing, and changes
/// nothing, where it has none.
pub fn try_post_deploy(functions: &mut FunctionRegistry, body: &[u8]) -> (plan: Option<DeployPlan>)
    ensures
        plan is None <==> document_member_string(body@, "moduleContent"@) is None,
        plan is None ==> final(functions)@ == old(functions)@ && final(functions).entries() == old(functions).entries(),
        plan matches Some(plan) ==> {
            &&& plan.signature.is_random_v4()
            &&& !old(functions)@.contains_key(plan.signature@)
            &&& final(functions)@.len() == old(functions)@.len() + 1
            &&& final(functions)@ == old(functions)@.insert(plan.signature@, document_member_text(body@, "name"@))
            &&& final(functions).entries() == inserted_entries(
                old(functions).entries(),
                plan.signature@,
                document_member_text(body@, "name"@),
            )
            &&& plan_view(plan.mount@) == mount_plan(
                RUNTIME_DIRECTORY@,
                plan.signature@,
                document_member_string(body@, "moduleContent"@)->0,
                OnFailure::Panic,
                OnFailure::Panic,
            )
            &&& is_json_request(plan.request, Method::Post, DEPLOYMENT_URL@, deploy_signal(plan.signature@))
        },
{
    if read_deploy_body(body).module_content.is_none() {
        return None;
    }
    Some(post_deploy(functions, body))
}

/// Each deployment adds one function and replaces none: its signature is not yet
/// stored, so two deployments, one after the other, never share a signature and
/// each grows the registry by one.
pub proof fn law_deployments_add_distinct_functions(
    before: Map<Seq<u8>, Seq<char>>,
    first: Seq<u8>,
    first_name: Seq<char>,
    second: Seq<u8>,
    second_name: Seq<char>,
)
    requires
        before.dom().finite(),
        !before.contains_key(first),
        !before.insert(first, first_name).contains_key(second),
    ensures
        first != second,
        before.insert(first, first_name).len() == before.len() + 1,
        before.insert(first, first_name).insert(second, second_name).len() == before.len() + 2,
        before.insert(first, first_name).insert(second, second_name)[first] == first_name,
        before.insert(first, first_name).insert(second, second_name)[second] == second_name,
{
}

/// The answer to a deployment whose body could not be read or whose request to
/// the language backend failed.
pub fn deploy_error_response() -> (response: Response)
    ensures
        response.status == StatusCode::NotFound,
        response.body@ == encode_utf8(DEPLOY_ERROR_TEXT@),
{
    Response { status: StatusCode::NotFound, body: text_body(DEPLOY_ERROR_TEXT) }
}

/// Invokes the function named by the path after its first 10 bytes (`/endpoint/`):
/// a GET to the invocation URL with the function's signature and the parameter.
pub fn get_endpoint(path: &str) -> (request: OutgoingRequest)
    requires
        can_cut(path, 10),
    ensures
        is_json_request(request, Method::Get, INVOCATION_URL@, invocation_signal(text_after(path, 10))),
{
    let id = cut_path(path, 10);
    let body = invocation_body(id);
    action_http_request(Method::Get, INVOCATION_URL, body)
}

/// The bytes sent over the Unix domain socket to invoke the function named by the
/// path after its first 14 bytes.
pub fn get_uds_endpoint(path: &str) -> (signal: Vec<u8>)
    requires
        can_cut(path, 14),
    ensures
        signal@ == encode_utf8(invocation_signal(text_after(path, 14))),
{
    let id = cut_path(path, 14);
    let body = invocation_body(id);
    text_body(body.as_str())
}

/// The answer to an invocation over the Unix domain socket: the reply read back
/// from the socket, or 400 where connecting, writing or reading failed.
pub fn uds_response(reply: Option<Vec<u8>>) -> (response: Response)
    ensures
        reply is Some ==> response.status == StatusCode::Success && response.body@ == reply->0@,
        reply is None ==> response.status == StatusCode::BadRequest && response.body@.len() == 0,
{
    match reply {
        Some(body) => Response { status: StatusCode::Success, body },
        None => Response { status: StatusCode::BadRequest, body: Vec::new() },
    }
}

} // verus!
