use vstd::prelude::*;

use crate::constants::RUNTIME_DIRECTORY;
use crate::fs_plan::{plan_view, FsOp, FsOpView, OnFailure};
use crate::identifier::{hyphenated, lemma_hyphenated_injective, lemma_hyphenated_len, FunctionId};
use crate::text::join_path;

verus! {

/// The language runtimes that a function may be written for.
#[derive(Clone, Copy, Debug, PartialEq, Eq, Structural)]
pub enum LanguageRuntime {
    NodeJsV6,
    NodeJsV8,
    PythonV2,
    PythonV3,
    JavaV8,
    DynamicLibrary,
}

impl LanguageRuntime {
    /// The directory name of each runtime. The two Python runtimes carry each
    /// other's version number in their names.
    pub open spec fn name(self) -> Seq<char> {
        match self {
            LanguageRuntime::NodeJsV6 => "node-js-v6"@,
            LanguageRuntime::NodeJsV8 => "node-js-v8"@,
            LanguageRuntime::PythonV2 => "python-v3"@,
            LanguageRuntime::PythonV3 => "python-v2"@,
            LanguageRuntime::JavaV8 => "java-v8"@,
            LanguageRuntime::DynamicLibrary => "dynamic-library"@,
        }
    }

    /// The directory name of the runtime.
    pub fn to_str(&self) -> (s: &str)
        ensures
            s@ == self.name(),
    {
        match *self {
            LanguageRuntime::NodeJsV6 => "node-js-v6",
            LanguageRuntime::NodeJsV8 => "node-js-v8",
            LanguageRuntime::PythonV2 => "python-v3",
            LanguageRuntime::PythonV3 => "python-v2",
            LanguageRuntime::JavaV8 => "java-v8",
            LanguageRuntime::DynamicLibrary => "dynamic-library",
        }
    }
}

/// Different runtimes live in different directories.
pub proof fn law_runtime_names_distinct(a: LanguageRuntime, b: LanguageRuntime)
    requires
        a != b,
    ensures
        a.name() != b.name(),
{
    reveal_strlit("node-js-v6");
    reveal_strlit("node-js-v8");
    reveal_strlit("python-v3");
    reveal_strlit("python-v2");
    reveal_strlit("java-v8");
    reveal_strlit("dynamic-library");
    if a.name() == b.name() {
        assert(a.name().len() == b.name().len());
        if a.name().len() == 10 {
            assert(a.name()[9] == b.name()[9]);
        } else if a.name().len() == 9 {
            assert(a.name()[8] == b.name()[8]);
        }
    }
}

/// The directory of a runtime under a root directory.
pub open spec fn runtime_path(root: Seq<char>, runtime: LanguageRuntime) -> Seq<char> {
    root + "/"@ + runtime.name()
}

/// The directory that holds the code of one Node.js v8 function under a root directory.
pub open spec fn code_directory(root: Seq<char>, id: Seq<u8>) -> Seq<char> {
    runtime_path(root, LanguageRuntime::NodeJsV8) + "/"@ + hyphenated(id)
}

/// The entry file of a function's code directory.
pub open spec fn index_file(directory: Seq<char>) -> Seq<char> {
    directory + "/index.js"@
}

/// The steps that mount the code of the function `id` under `root`: create its
/// code directory, then write `content` to its `index.js`.
pub open spec fn mount_plan(
    root: Seq<char>,
    id: Seq<u8>,
    content: Seq<char>,
    on_dir_failure: OnFailure,
    on_write_failure: OnFailure,
) -> Seq<FsOpView> {
    seq![
        FsOpView::CreateDir { path: code_directory(root, id), on_failure: on_dir_failure },
        FsOpView::WriteFile {
            path: index_file(code_directory(root, id)),
            contents: content,
            on_create_failure: OnFailure::Panic,
            on_write_failure: on_write_failure,
        },
    ]
}

/// Mounting a function's code first creates its directory
/// `<root>/node-js-v8/<signature>` and then writes exactly the given code, whole,
/// to `index.js` in that directory.
pub proof fn law_mount_writes_the_whole_code(
    root: Seq<char>,
    id: Seq<u8>,
    content: Seq<char>,
    on_dir_failure: OnFailure,
    on_write_failure: OnFailure,
)
    ensures
        ({
            let plan = mount_plan(root, id, content, on_dir_failure, on_write_failure);
            let directory = root + "/"@ + "node-js-v8"@ + "/"@ + hyphenated(id);
            &&& plan.len() == 2
            &&& plan[0] == FsOpView::CreateDir { path: directory, on_failure: on_dir_failure }
            &&& plan[1] is WriteFile
            &&& plan[1]->WriteFile_contents == content
            &&& plan[1]->WriteFile_path == directory + "/index.js"@
        }),
{
}

/// Functions with different signatures get different code directories.
pub proof fn law_code_directories_distinct(root: Seq<char>, a: Seq<u8>, b: Seq<u8>)
    requires
        a.len() == 16,
        b.len() == 16,
        code_directory(root, a) == code_directory(root, b),
    ensures
        a == b,
{
    let prefix = runtime_path(root, LanguageRuntime::NodeJsV8) + "/"@;
    lemma_hyphenated_len(a);
    lemma_hyphenated_len(b);
    let da = code_directory(root, a);
    let db = code_directory(root, b);
    assert(hyphenated(a) =~= da.subrange(prefix.len() as int, da.len() as int));
    assert(hyphenated(b) =~= db.subrange(prefix.len() as int, db.len() as int));
    lemma_hyphenated_injective(a, b);
}

/// The directory of a runtime under `root`.
pub(crate) fn runtime_directory(root: &str, runtime: LanguageRuntime) -> (path: String)
    ensures
        path@ == runtime_path(root@, runtime),
{
    join_path(root, runtime.to_str())
}

/// The code directory of the function `id` under `root`.
pub(crate) fn function_directory(root: &str, id: &FunctionId) -> (path: String)
    ensures
        path@ == code_directory(root@, id@),
{
    let runtime_dir = runtime_directory(root, LanguageRuntime::NodeJsV8);
    let text = id.to_text();
    join_path(runtime_dir.as_str(), text.as_str())
}

/// The entry file of a code directory.
pub(crate) fn function_index_file(directory: &str) -> (path: String)
    ensures
        path@ == index_file(directory@),
{
    let mut path = directory.to_owned();
    path.append("/index.js");
    path
}

/// Removes the existing runtime directory, and creates a new one; a failure of
/// either step is ignored.
pub fn create_runtime_container() -> (ops: Vec<FsOp>)
    ensures
        plan_view(ops@) == seq![
            FsOpView::RemoveDirAll { path: RUNTIME_DIRECTORY@, on_failure: OnFailure::Ignore },
            FsOpView::CreateDir { path: RUNTIME_DIRECTORY@, on_failure: OnFailure::Ignore },
        ],
{
    let mut ops: Vec<FsOp> = Vec::new();
    ops.push(FsOp::RemoveDirAll { path: RUNTIME_DIRECTORY.to_owned(), on_failure: OnFailure::Ignore });
    ops.push(FsOp::CreateDir { path: RUNTIME_DIRECTORY.to_owned(), on_failure: OnFailure::Ignore });
    assert(plan_view(ops@) =~= seq![
        FsOpView::RemoveDirAll { path: RUNTIME_DIRECTORY@, on_failure: OnFailure::Ignore },
        FsOpView::CreateDir { path: RUNTIME_DIRECTORY@, on_failure: OnFailure::Ignore },
    ]);
    ops
}

/// Creates the Node.js v8 directory under the runtime directory; a failure is ignored.
pub fn mount_nodejs_v8() -> (ops: Vec<FsOp>)
    ensures
        plan_view(ops@) == seq![
            FsOpView::CreateDir {
                path: runtime_path(RUNTIME_DIRECTORY@, LanguageRuntime::NodeJsV8),
                on_failure: OnFailure::Ignore,
            },
        ],
{
    let mut ops: Vec<FsOp> = Vec::new();
    let path = runtime_directory(RUNTIME_DIRECTORY, LanguageRuntime::NodeJsV8);
    ops.push(FsOp::CreateDir { path, on_failure: OnFailure::Ignore });
    assert(plan_view(ops@) =~= seq![
        FsOpView::CreateDir {
            path: runtime_path(RUNTIME_DIRECTORY@, LanguageRuntime::NodeJsV8),
            on_failure: OnFailure::Ignore,
        },
    ]);
    ops
}

/// Creates the code directory of the function `id` and writes its code to
/// `index.js` there; a failure of any step stops the process.
pub fn mount_language_codes(id: &FunctionId, content: &str) -> (ops: Vec<FsOp>)
    ensures
        plan_view(ops@) == mount_plan(RUNTIME_DIRECTORY@, id@, content@, OnFailure::Panic, OnFailure::Panic),
{
    let directory = function_directory(RUNTIME_DIRECTORY, id);
    let file = function_index_file(directory.as_str());
    let mut ops: Vec<FsOp> = Vec::new();
    ops.push(FsOp::CreateDir { path: directory, on_failure: OnFailure::Panic });
    ops.push(FsOp::WriteFile {
        path: file,
        contents: content.to_owned(),
        on_create_failure: OnFailure::Panic,
        on_write_failure: OnFailure::Panic,
    });
    assert(plan_view(ops@) =~= mount_plan(RUNTIME_DIRECTORY@, id@, content@, OnFailure::Panic, OnFailure::Panic));
    ops
}

} // verus!
