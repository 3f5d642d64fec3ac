# microcall

A small function-as-a-service invoker: it deploys Node.js functions posted to it,
lists them, and forwards invocations to a language backend.

- `src/` is the verified library (Verus): request routing, the registry of
  deployed functions and its listing, the deployment plan (code directory, file
  steps, the JSON announcement to the backend), the invocation bodies, and the
  file-system steps that set up the runtime directories.
- `app/` is the program around it: the hyper server, the HTTP client, the Unix
  domain socket, and the execution of the planned file-system steps.
- `tests/` runs the library against the real `uuid` and `serde_json` crates.
