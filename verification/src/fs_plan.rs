use vstd::prelude::*;

verus! {

/// What the caller does when a file-system step fails.
#[derive(Clone, Copy, Debug, PartialEq, Eq, Structural)]
pub enum OnFailure {
    /// Go on with the next step.
    Ignore,
    /// Stop the process with a panic.
    Panic,
}

/// One file-system step of setting up the runtime directories.
#[derive(Debug, PartialEq, Eq)]
pub enum FsOp {
    /// Remove a directory and everything under it.
    RemoveDirAll { path: String, on_failure: OnFailure },
    /// Create one directory (its parent must exist).
    CreateDir { path: String, on_failure: OnFailure },
    /// Create (or truncate) a file and write all of `contents` to it.
    WriteFile { path: String, contents: String, on_create_failure: OnFailure, on_write_failure: OnFailure },
}

/// The mathematical form of a file-system step.
pub enum FsOpView {
    RemoveDirAll { path: Seq<char>, on_failure: OnFailure },
    CreateDir { path: Seq<char>, on_failure: OnFailure },
    WriteFile { path: Seq<char>, contents: Seq<char>, on_create_failure: OnFailure, on_write_failure: OnFailure },
}

impl View for FsOp {
    type V = FsOpView;

    open spec fn view(&self) -> FsOpView {
        match self {
            FsOp::RemoveDirAll { path, on_failure } => FsOpView::RemoveDirAll { path: path@, on_failure: *on_failure },
            FsOp::CreateDir { path, on_failure } => FsOpView::CreateDir { path: path@, on_failure: *on_failure },
            FsOp::WriteFile { path, contents, on_create_failure, on_write_failure } => FsOpView::WriteFile {
                path: path@,
                contents: contents@,
                on_create_failure: *on_create_failure,
                on_write_failure: *on_write_failure,
            },
        }
    }
}

/// The steps of a plan, each by its view.
pub open spec fn plan_view(ops: Seq<FsOp>) -> Seq<FsOpView> {
    ops.map_values(|op: FsOp| op@)
}

} // verus!
