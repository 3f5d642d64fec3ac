use vstd::prelude::*;

verus! {

/// Deployment URL of the language backend.
pub const DEPLOY_URL: &'static str = "http://127.0.0.1:5999/deploy";

/// Invocation URL, for parameters passed over HTTP.
pub const INVOKE_URL: &'static str = "http://127.0.0.1:5999/invoke";

/// Unix domain socket path, for parameters passed over the socket.
pub const UDS_SOCKET_PATH: &'static str = "/Users/tzuchiao/workspace/rust/faaas/actions/node-js-v8-uds/action.sock";

/// Runtime directory, where the deployed functions are stored.
pub const RUNTIME_DIRECTORY: &'static str = "/Users/tzuchiao/workspace/rust/faaas/tmp";

} // verus!
