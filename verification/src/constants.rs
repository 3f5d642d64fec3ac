use vstd::prelude::*;

verus! {

/// Deployment URL of the language backend.
pub const DEPLOYMENT_URL: &'static str = "http://127.0.0.1:5999/deploy";

/// Invocation URL, for parameters passed over HTTP.
pub const INVOCATION_URL: &'static str = "http://127.0.0.1:5999/invoke";

/// Unix domain socket path, for parameters passed over the socket.
pub const UDS_SOCKET_PATH: &'static str = "/tmp/microcall/action.sock";

/// Runtime directory, where the deployed functions are stored.
pub const RUNTIME_DIRECTORY: &'static str = "/tmp/microcall";

} // verus!
