use vstd::prelude::*;

use crate::action_container::{
    function_directory, function_index_file, mount_plan, runtime_directory, runtime_path,
    LanguageRuntime,
};
use crate::config::RUNTIME_DIRECTORY;
use crate::fs_plan::{plan_view, FsOp, FsOpView, OnFailure};
use crate::identifier::FunctionId;

verus! {

/// Creates the runtime directory; a failure is ignored.
pub fn create_runtime_fs() -> (ops: Vec<FsOp>)
    ensures
        plan_view(ops@) == seq![
            FsOpView::CreateDir { path: RUNTIME_DIRECTORY@, on_failure: OnFailure::Ignore },
        ],
{
    let mut ops: Vec<FsOp> = Vec::new();
    ops.push(FsOp::CreateDir { path: RUNTIME_DIRECTORY.to_owned(), on_failure: OnFailure::Ignore });
    assert(plan_view(ops@) =~= seq![
        FsOpView::CreateDir { path: RUNTIME_DIRECTORY@, on_failure: OnFailure::Ignore },
    ]);
    ops
}

/// Creates the Node.js v8 directory under the runtime directory; a failure is ignored.
pub fn mount_nodejs_v8() -> (ops: Vec<FsOp>)
    ensures
        plan_view(ops@) == seq![
            FsOpView::CreateDir {
                path: runtime_path(RUNTIME_DIRECTORY@, LanguageRuntime::NodeJsV8),
                on_failure: OnFailure::Ignore,
            },
        ],
{
    let mut ops: Vec<FsOp> = Vec::new();
    let path = runtime_directory(RUNTIME_DIRECTORY, LanguageRuntime::NodeJsV8);
    ops.push(FsOp::CreateDir { path, on_failure: OnFailure::Ignore });
    assert(plan_view(ops@) =~= seq![
        FsOpView::CreateDir {
            path: runtime_path(RUNTIME_DIRECTORY@, LanguageRuntime::NodeJsV8),
            on_failure: OnFailure::Ignore,
        },
    ]);
    ops
}

/// Creates the code directory of the function `id`, ignoring a failure, and writes
/// its code to `index.js` there: a failure to create the file stops the process, a
/// failure to write it is ignored.
pub fn mount_language_codes(id: &FunctionId, content: &str) -> (ops: Vec<FsOp>)
    ensures
        plan_view(ops@) == mount_plan(RUNTIME_DIRECTORY@, id@, content@, OnFailure::Ignore, OnFailure::Ignore),
{
    let directory = function_directory(RUNTIME_DIRECTORY, id);
    let file = function_index_file(directory.as_str());
    let mut ops: Vec<FsOp> = Vec::new();
    ops.push(FsOp::CreateDir { path: directory, on_failure: OnFailure::Ignore });
    ops.push(FsOp::WriteFile {
        path: file,
        contents: content.to_owned(),
        on_create_failure: OnFailure::Panic,
        on_write_failure: OnFailure::Ignore,
    });
    assert(plan_view(ops@) =~= mount_plan(RUNTIME_DIRECTORY@, id@, content@, OnFailure::Ignore, OnFailure::Ignore));
    ops
}

/// Removes the runtime directory and everything in it; a failure stops the process.
pub fn clean_up() -> (ops: Vec<FsOp>)
    ensures
        plan_view(ops@) == seq![
            FsOpView::RemoveDirAll { path: RUNTIME_DIRECTORY@, on_failure: OnFailure::Panic },
        ],
{
    let mut ops: Vec<FsOp> = Vec::new();
    ops.push(FsOp::RemoveDirAll { path: RUNTIME_DIRECTORY.to_owned(), on_failure: OnFailure::Panic });
    assert(plan_view(ops@) =~= seq![
        FsOpView::RemoveDirAll { path: RUNTIME_DIRECTORY@, on_failure: OnFailure::Panic },
    ]);
    ops
}

} // verus!
