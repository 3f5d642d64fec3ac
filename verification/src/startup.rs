use vstd::prelude::*;

use crate::action_container::{create_runtime_container, mount_nodejs_v8, runtime_path, LanguageRuntime};
use crate::constants::RUNTIME_DIRECTORY;
use crate::fs_plan::{plan_view, FsOp, FsOpView, OnFailure};

verus! {

/// Mounts the Node.js runtime for invocation: cleans up the existing runtime
/// directory, creates a new one and the Node.js v8 directory in it. No failure
/// stops the process.
pub fn mount_node_runtime() -> (ops: Vec<FsOp>)
    ensures
        plan_view(ops@) == seq![
            FsOpView::RemoveDirAll { path: RUNTIME_DIRECTORY@, on_failure: OnFailure::Ignore },
            FsOpView::CreateDir { path: RUNTIME_DIRECTORY@, on_failure: OnFailure::Ignore },
            FsOpView::CreateDir {
                path: runtime_path(RUNTIME_DIRECTORY@, LanguageRuntime::NodeJsV8),
                on_failure: OnFailure::Ignore,
            },
        ],
{
    let mut ops = create_runtime_container();
    let mut node = mount_nodejs_v8();
    let ghost first = ops@;
    let ghost second = node@;
    ops.append(&mut node);
    assert(ops@ == first + second);
    assert(plan_view(ops@) =~= plan_view(first) + plan_view(second));
    assert(plan_view(ops@) =~= seq![
        FsOpView::RemoveDirAll { path: RUNTIME_DIRECTORY@, on_failure: OnFailure::Ignore },
        FsOpView::CreateDir { path: RUNTIME_DIRECTORY@, on_failure: OnFailure::Ignore },
        FsOpView::CreateDir {
            path: runtime_path(RUNTIME_DIRECTORY@, LanguageRuntime::NodeJsV8),
            on_failure: OnFailure::Ignore,
        },
    ]);
    ops
}

} // verus!
