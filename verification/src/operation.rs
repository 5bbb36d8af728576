//! Catalogue of machine operations and where each of them is offered.

use crate::model::{empty_list, push_to, Model};
use vstd::prelude::*;

verus! {

/// An operation of the machine service.
#[derive(Debug, Clone, Copy, PartialEq, Eq, Structural)]
pub enum MachineOperation {
    Create,
    Status,
    List,
    Start,
    Stop,
    Delete,
    Fork,
    Update,
    Exec,
    ExecStream,
    ExecInteractive,
    Run,
    RunSession,
    Monitor,
    WriteFile,
    UploadFile,
    ReadFile,
    DownloadFile,
    StorageStatus,
    ListImages,
    PullImage,
    PruneImages,
    NetworkTest,
    DataDir,
}

impl Model for MachineOperation {
    type V = MachineOperation;

    open spec fn model(&self) -> MachineOperation {
        *self
    }

    fn dup(&self) -> (copy: Self) {
        *self
    }
}

/// Every operation, in the order of the catalogue.
pub open spec fn catalogue() -> Seq<MachineOperation> {
    seq![
        MachineOperation::Create,
        MachineOperation::Status,
        MachineOperation::List,
        MachineOperation::Start,
        MachineOperation::Stop,
        MachineOperation::Delete,
        MachineOperation::Fork,
        MachineOperation::Update,
        MachineOperation::Exec,
        MachineOperation::ExecStream,
        MachineOperation::ExecInteractive,
        MachineOperation::Run,
        MachineOperation::RunSession,
        MachineOperation::Monitor,
        MachineOperation::WriteFile,
        MachineOperation::UploadFile,
        MachineOperation::ReadFile,
        MachineOperation::DownloadFile,
        MachineOperation::StorageStatus,
        MachineOperation::ListImages,
        MachineOperation::PullImage,
        MachineOperation::PruneImages,
        MachineOperation::NetworkTest,
        MachineOperation::DataDir,
    ]
}

/// Position of an operation in the catalogue.
pub open spec fn place(operation: MachineOperation) -> int {
    match operation {
        MachineOperation::Create => 0,
        MachineOperation::Status => 1,
        MachineOperation::List => 2,
        MachineOperation::Start => 3,
        MachineOperation::Stop => 4,
        MachineOperation::Delete => 5,
        MachineOperation::Fork => 6,
        MachineOperation::Update => 7,
        MachineOperation::Exec => 8,
        MachineOperation::ExecStream => 9,
        MachineOperation::ExecInteractive => 10,
        MachineOperation::Run => 11,
        MachineOperation::RunSession => 12,
        MachineOperation::Monitor => 13,
        MachineOperation::WriteFile => 14,
        MachineOperation::UploadFile => 15,
        MachineOperation::ReadFile => 16,
        MachineOperation::DownloadFile => 17,
        MachineOperation::StorageStatus => 18,
        MachineOperation::ListImages => 19,
        MachineOperation::PullImage => 20,
        MachineOperation::PruneImages => 21,
        MachineOperation::NetworkTest => 22,
        MachineOperation::DataDir => 23,
    }
}

/// Law: the catalogue lists every operation, and each of them once.
pub proof fn law_catalogue_is_complete(operation: MachineOperation)
    ensures
        catalogue().len() == 24,
        0 <= place(operation) < catalogue().len(),
        catalogue()[place(operation)] == operation,
        forall|i: int| 0 <= i < catalogue().len() && catalogue()[i] == operation ==> i == place(
            operation,
        ),
{
    assert forall|i: int| 0 <= i < catalogue().len() && catalogue()[i] == operation implies i
        == place(operation) by {
        assert(place(catalogue()[i]) == i);
    }
}

impl MachineOperation {
    /// Every operation, in the order of the catalogue.
    pub fn all() -> (operations: Vec<MachineOperation>)
        ensures
            operations@ == catalogue(),
    {
        let mut operations: Vec<MachineOperation> = Vec::new();
        operations.push(MachineOperation::Create);
        operations.push(MachineOperation::Status);
        operations.push(MachineOperation::List);
        operations.push(MachineOperation::Start);
        operations.push(MachineOperation::Stop);
        operations.push(MachineOperation::Delete);
        operations.push(MachineOperation::Fork);
        operations.push(MachineOperation::Update);
        operations.push(MachineOperation::Exec);
        operations.push(MachineOperation::ExecStream);
        operations.push(MachineOperation::ExecInteractive);
        operations.push(MachineOperation::Run);
        operations.push(MachineOperation::RunSession);
        operations.push(MachineOperation::Monitor);
        operations.push(MachineOperation::WriteFile);
        operations.push(MachineOperation::UploadFile);
        operations.push(MachineOperation::ReadFile);
        operations.push(MachineOperation::DownloadFile);
        operations.push(MachineOperation::StorageStatus);
        operations.push(MachineOperation::ListImages);
        operations.push(MachineOperation::PullImage);
        operations.push(MachineOperation::PruneImages);
        operations.push(MachineOperation::NetworkTest);
        operations.push(MachineOperation::DataDir);
        assert(operations@ =~= catalogue());
        operations
    }

    /// Name of the service method.
    pub open spec fn method(self) -> Seq<char> {
        match self {
            MachineOperation::Create => "create"@,
            MachineOperation::Status => "status"@,
            MachineOperation::List => "list"@,
            MachineOperation::Start => "start"@,
            MachineOperation::Stop => "stop"@,
            MachineOperation::Delete => "delete"@,
            MachineOperation::Fork => "fork"@,
            MachineOperation::Update => "update"@,
            MachineOperation::Exec => "exec"@,
            MachineOperation::ExecStream => "exec_stream"@,
            MachineOperation::ExecInteractive => "exec_interactive"@,
            MachineOperation::Run => "run"@,
            MachineOperation::RunSession => "run_session"@,
            MachineOperation::Monitor => "monitor"@,
            MachineOperation::WriteFile => "write_file"@,
            MachineOperation::UploadFile => "upload_file"@,
            MachineOperation::ReadFile => "read_file"@,
            MachineOperation::DownloadFile => "download_file"@,
            MachineOperation::StorageStatus => "storage_status"@,
            MachineOperation::ListImages => "list_images"@,
            MachineOperation::PullImage => "pull_image"@,
            MachineOperation::PruneImages => "prune_images"@,
            MachineOperation::NetworkTest => "network_test"@,
            MachineOperation::DataDir => "data_dir"@,
        }
    }

    /// Name of the service method.
    pub fn method_name(self) -> (name: &'static str)
        ensures
            name@ == self.method(),
    {
        match self {
            MachineOperation::Create => "create",
            MachineOperation::Status => "status",
            MachineOperation::List => "list",
            MachineOperation::Start => "start",
            MachineOperation::Stop => "stop",
            MachineOperation::Delete => "delete",
            MachineOperation::Fork => "fork",
            MachineOperation::Update => "update",
            MachineOperation::Exec => "exec",
            MachineOperation::ExecStream => "exec_stream",
            MachineOperation::ExecInteractive => "exec_interactive",
            MachineOperation::Run => "run",
            MachineOperation::RunSession => "run_session",
            MachineOperation::Monitor => "monitor",
            MachineOperation::WriteFile => "write_file",
            MachineOperation::UploadFile => "upload_file",
            MachineOperation::ReadFile => "read_file",
            MachineOperation::DownloadFile => "download_file",
            MachineOperation::StorageStatus => "storage_status",
            MachineOperation::ListImages => "list_images",
            MachineOperation::PullImage => "pull_image",
            MachineOperation::PruneImages => "prune_images",
            MachineOperation::NetworkTest => "network_test",
            MachineOperation::DataDir => "data_dir",
        }
    }

    /// What offers the operation on the command line.
    pub open spec fn command(self) -> Seq<char> {
        match self {
            MachineOperation::Create => "machine create"@,
            MachineOperation::Status => "machine status"@,
            MachineOperation::List => "machine ls"@,
            MachineOperation::Start => "machine start"@,
            MachineOperation::Stop => "machine stop"@,
            MachineOperation::Delete => "machine delete"@,
            MachineOperation::Fork => "machine fork"@,
            MachineOperation::Update => "machine update"@,
            MachineOperation::Exec => "machine exec"@,
            MachineOperation::ExecStream => "machine exec --stream"@,
            MachineOperation::ExecInteractive => "machine exec -it / machine shell"@,
            MachineOperation::Run => "machine run --image"@,
            MachineOperation::RunSession => "machine run"@,
            MachineOperation::Monitor => "machine monitor"@,
            MachineOperation::WriteFile => "machine cp (host to guest)"@,
            MachineOperation::UploadFile => "machine cp (host to guest file)"@,
            MachineOperation::ReadFile => "machine cp (guest to stdout/file)"@,
            MachineOperation::DownloadFile => "machine cp (guest to host file)"@,
            MachineOperation::StorageStatus => "machine images --storage"@,
            MachineOperation::ListImages => "machine images"@,
            MachineOperation::PullImage => "machine images --pull"@,
            MachineOperation::PruneImages => "machine prune"@,
            MachineOperation::NetworkTest => "machine network-test"@,
            MachineOperation::DataDir => "machine data-dir"@,
        }
    }
}

/// What offers an operation on the command line.
pub fn machine_operation_cli_binding(operation: MachineOperation) -> (command: &'static str)
    ensures
        command@ == operation.command(),
{
    match operation {
        MachineOperation::Create => "machine create",
        MachineOperation::Status => "machine status",
        MachineOperation::List => "machine ls",
        MachineOperation::Start => "machine start",
        MachineOperation::Stop => "machine stop",
        MachineOperation::Delete => "machine delete",
        MachineOperation::Fork => "machine fork",
        MachineOperation::Update => "machine update",
        MachineOperation::Exec => "machine exec",
        MachineOperation::ExecStream => "machine exec --stream",
        MachineOperation::ExecInteractive => "machine exec -it / machine shell",
        MachineOperation::Run => "machine run --image",
        MachineOperation::RunSession => "machine run",
        MachineOperation::Monitor => "machine monitor",
        MachineOperation::WriteFile => "machine cp (host to guest)",
        MachineOperation::UploadFile => "machine cp (host to guest file)",
        MachineOperation::ReadFile => "machine cp (guest to stdout/file)",
        MachineOperation::DownloadFile => "machine cp (guest to host file)",
        MachineOperation::StorageStatus => "machine images --storage",
        MachineOperation::ListImages => "machine images",
        MachineOperation::PullImage => "machine images --pull",
        MachineOperation::PruneImages => "machine prune",
        MachineOperation::NetworkTest => "machine network-test",
        MachineOperation::DataDir => "machine data-dir",
    }
}

/// Groups of routes by how long a request may take.
#[derive(Debug, Clone, Copy, PartialEq, Eq, Structural)]
pub enum HttpRouteGroup {
    /// A request is ended after a while.
    Timed,
    /// A request lasts as long as the client keeps it open.
    LongLived,
}

impl Model for HttpRouteGroup {
    type V = HttpRouteGroup;

    open spec fn model(&self) -> HttpRouteGroup {
        *self
    }

    fn dup(&self) -> (copy: Self) {
        *self
    }
}

/// HTTP methods of the routes.
#[derive(Debug, Clone, Copy, PartialEq, Eq, Structural)]
pub enum HttpMethod {
    Get,
    Post,
    Put,
    Patch,
    Delete,
}

impl Model for HttpMethod {
    type V = HttpMethod;

    open spec fn model(&self) -> HttpMethod {
        *self
    }

    fn dup(&self) -> (copy: Self) {
        *self
    }
}

/// Where an operation is offered over HTTP.
#[derive(Debug, PartialEq, Eq)]
pub enum HttpOperationBinding {
    /// At a path below the machines.
    Route { group: HttpRouteGroup, method: HttpMethod, path: String },
    /// By the route of another operation.
    CoveredBy { operation: MachineOperation },
}

/// Mathematical model of a [`HttpOperationBinding`].
pub enum HttpOperationBindingView {
    Route { group: HttpRouteGroup, method: HttpMethod, path: Seq<char> },
    CoveredBy { operation: MachineOperation },
}

impl Model for HttpOperationBinding {
    type V = HttpOperationBindingView;

    open spec fn model(&self) -> HttpOperationBindingView {
        match self {
            HttpOperationBinding::Route { group, method, path } => HttpOperationBindingView::Route { group: group.model(), method: method.model(), path: path.model() },
            HttpOperationBinding::CoveredBy { operation } => HttpOperationBindingView::CoveredBy { operation: operation.model() },
        }
    }

    fn dup(&self) -> (copy: Self) {
        match self {
            HttpOperationBinding::Route { group, method, path } => HttpOperationBinding::Route { group: group.dup(), method: method.dup(), path: path.dup() },
            HttpOperationBinding::CoveredBy { operation } => HttpOperationBinding::CoveredBy { operation: operation.dup() },
        }
    }
}

/// Where an operation is offered over HTTP.
pub open spec fn http_binding(operation: MachineOperation) -> HttpOperationBindingView {
    match operation {
        MachineOperation::Create => HttpOperationBindingView::Route {
            group: HttpRouteGroup::Timed,
            method: HttpMethod::Post,
            path: "/"@,
        },
        MachineOperation::Status => HttpOperationBindingView::Route {
            group: HttpRouteGroup::Timed,
            method: HttpMethod::Get,
            path: "/{id}"@,
        },
        MachineOperation::List => HttpOperationBindingView::Route {
            group: HttpRouteGroup::Timed,
            method: HttpMethod::Get,
            path: "/"@,
        },
        MachineOperation::Start => HttpOperationBindingView::Route {
            group: HttpRouteGroup::Timed,
            method: HttpMethod::Post,
            path: "/{id}/start"@,
        },
        MachineOperation::Stop => HttpOperationBindingView::Route {
            group: HttpRouteGroup::Timed,
            method: HttpMethod::Post,
            path: "/{id}/stop"@,
        },
        MachineOperation::Delete => HttpOperationBindingView::Route {
            group: HttpRouteGroup::Timed,
            method: HttpMethod::Delete,
            path: "/{id}"@,
        },
        MachineOperation::Fork => HttpOperationBindingView::Route {
            group: HttpRouteGroup::Timed,
            method: HttpMethod::Post,
            path: "/{id}/fork"@,
        },
        MachineOperation::Update => HttpOperationBindingView::Route {
            group: HttpRouteGroup::Timed,
            method: HttpMethod::Patch,
            path: "/{id}"@,
        },
        MachineOperation::Exec => HttpOperationBindingView::Route {
            group: HttpRouteGroup::Timed,
            method: HttpMethod::Post,
            path: "/{id}/exec"@,
        },
        MachineOperation::ExecStream => HttpOperationBindingView::Route {
            group: HttpRouteGroup::Timed,
            method: HttpMethod::Post,
            path: "/{id}/exec/stream"@,
        },
        MachineOperation::ExecInteractive => HttpOperationBindingView::Route {
            group: HttpRouteGroup::LongLived,
            method: HttpMethod::Get,
            path: "/{id}/exec/interactive"@,
        },
        MachineOperation::Run => HttpOperationBindingView::Route {
            group: HttpRouteGroup::Timed,
            method: HttpMethod::Post,
            path: "/{id}/run"@,
        },
        MachineOperation::RunSession => HttpOperationBindingView::Route {
            group: HttpRouteGroup::Timed,
            method: HttpMethod::Post,
            path: "/run"@,
        },
        MachineOperation::Monitor => HttpOperationBindingView::Route {
            group: HttpRouteGroup::LongLived,
            method: HttpMethod::Get,
            path: "/{id}/monitor"@,
        },
        MachineOperation::WriteFile => HttpOperationBindingView::Route {
            group: HttpRouteGroup::Timed,
            method: HttpMethod::Put,
            path: "/{id}/files/{*path}"@,
        },
        MachineOperation::UploadFile => HttpOperationBindingView::CoveredBy {
            operation: MachineOperation::WriteFile,
        },
        MachineOperation::ReadFile => HttpOperationBindingView::Route {
            group: HttpRouteGroup::Timed,
            method: HttpMethod::Get,
            path: "/{id}/files/{*path}"@,
        },
        MachineOperation::DownloadFile => HttpOperationBindingView::CoveredBy {
            operation: MachineOperation::ReadFile,
        },
        MachineOperation::StorageStatus => HttpOperationBindingView::Route {
            group: HttpRouteGroup::Timed,
            method: HttpMethod::Get,
            path: "/{id}/storage"@,
        },
        MachineOperation::ListImages => HttpOperationBindingView::Route {
            group: HttpRouteGroup::Timed,
            method: HttpMethod::Get,
            path: "/{id}/images"@,
        },
        MachineOperation::PullImage => HttpOperationBindingView::Route {
            group: HttpRouteGroup::Timed,
            method: HttpMethod::Post,
            path: "/{id}/images/pull"@,
        },
        MachineOperation::PruneImages => HttpOperationBindingView::Route {
            group: HttpRouteGroup::Timed,
            method: HttpMethod::Post,
            path: "/{id}/images/prune"@,
        },
        MachineOperation::NetworkTest => HttpOperationBindingView::Route {
            group: HttpRouteGroup::Timed,
            method: HttpMethod::Post,
            path: "/{id}/network-test"@,
        },
        MachineOperation::DataDir => HttpOperationBindingView::Route {
            group: HttpRouteGroup::Timed,
            method: HttpMethod::Get,
            path: "/{id}/data-dir"@,
        },
    }
}

fn route(group: HttpRouteGroup, method: HttpMethod, path: &str) -> (binding: HttpOperationBinding)
    ensures
        binding.model() == (HttpOperationBindingView::Route { group, method, path: path@ }),
{
    HttpOperationBinding::Route { group, method, path: crate::text::own(path) }
}

/// Where an operation is offered over HTTP.
pub fn machine_operation_http_binding(operation: MachineOperation) -> (binding: HttpOperationBinding)
    ensures
        binding.model() == http_binding(operation),
{
    match operation {
        MachineOperation::Create => route(HttpRouteGroup::Timed, HttpMethod::Post, "/"),
        MachineOperation::Status => route(HttpRouteGroup::Timed, HttpMethod::Get, "/{id}"),
        MachineOperation::List => route(HttpRouteGroup::Timed, HttpMethod::Get, "/"),
        MachineOperation::Start => route(HttpRouteGroup::Timed, HttpMethod::Post, "/{id}/start"),
        MachineOperation::Stop => route(HttpRouteGroup::Timed, HttpMethod::Post, "/{id}/stop"),
        MachineOperation::Delete => route(HttpRouteGroup::Timed, HttpMethod::Delete, "/{id}"),
        MachineOperation::Fork => route(HttpRouteGroup::Timed, HttpMethod::Post, "/{id}/fork"),
        MachineOperation::Update => route(HttpRouteGroup::Timed, HttpMethod::Patch, "/{id}"),
        MachineOperation::Exec => route(HttpRouteGroup::Timed, HttpMethod::Post, "/{id}/exec"),
        MachineOperation::ExecStream => route(HttpRouteGroup::Timed, HttpMethod::Post, "/{id}/exec/stream"),
        MachineOperation::ExecInteractive => route(HttpRouteGroup::LongLived, HttpMethod::Get, "/{id}/exec/interactive"),
        MachineOperation::Run => route(HttpRouteGroup::Timed, HttpMethod::Post, "/{id}/run"),
        MachineOperation::RunSession => route(HttpRouteGroup::Timed, HttpMethod::Post, "/run"),
        MachineOperation::Monitor => route(HttpRouteGroup::LongLived, HttpMethod::Get, "/{id}/monitor"),
        MachineOperation::WriteFile => route(HttpRouteGroup::Timed, HttpMethod::Put, "/{id}/files/{*path}"),
        MachineOperation::UploadFile => HttpOperationBinding::CoveredBy {
            operation: MachineOperation::WriteFile,
        },
        MachineOperation::ReadFile => route(HttpRouteGroup::Timed, HttpMethod::Get, "/{id}/files/{*path}"),
        MachineOperation::DownloadFile => HttpOperationBinding::CoveredBy {
            operation: MachineOperation::ReadFile,
        },
        MachineOperation::StorageStatus => route(HttpRouteGroup::Timed, HttpMethod::Get, "/{id}/storage"),
        MachineOperation::ListImages => route(HttpRouteGroup::Timed, HttpMethod::Get, "/{id}/images"),
        MachineOperation::PullImage => route(HttpRouteGroup::Timed, HttpMethod::Post, "/{id}/images/pull"),
        MachineOperation::PruneImages => route(HttpRouteGroup::Timed, HttpMethod::Post, "/{id}/images/prune"),
        MachineOperation::NetworkTest => route(HttpRouteGroup::Timed, HttpMethod::Post, "/{id}/network-test"),
        MachineOperation::DataDir => route(HttpRouteGroup::Timed, HttpMethod::Get, "/{id}/data-dir"),
    }
}

/// Whether an operation has a route of a group.
pub open spec fn routed_in(operation: MachineOperation, group: HttpRouteGroup) -> bool {
    http_binding(operation) matches HttpOperationBindingView::Route { group: own, .. } && own
        == group
}

/// The operations with a route of a group, of the first `count` of the
/// catalogue.
pub open spec fn routed(group: HttpRouteGroup, count: nat) -> Seq<MachineOperation>
    decreases count,
{
    if count == 0 {
        Seq::empty()
    } else {
        let before = routed(group, (count - 1) as nat);
        let operation = catalogue()[count - 1];
        if routed_in(operation, group) {
            before.push(operation)
        } else {
            before
        }
    }
}

/// Lists the operations with a route of a group.
pub fn machine_operation_routes(group: HttpRouteGroup) -> (operations: Vec<MachineOperation>)
    ensures
        operations.model() == routed(group, catalogue().len()),
{
    let all: Vec<MachineOperation> = MachineOperation::all();
    let mut operations: Vec<MachineOperation> = empty_list();
    let mut i: usize = 0;
    while i < all.len()
        invariant
            i <= all.len(),
            all@ == catalogue(),
            operations.model() == routed(group, i as nat),
        decreases all.len() - i,
    {
        match machine_operation_http_binding(all[i]) {
            HttpOperationBinding::Route { group: own, .. } => {
                if own == group {
                    push_to(&mut operations, all[i]);
                }
            },
            HttpOperationBinding::CoveredBy { .. } => {},
        }
        i += 1;
    }
    operations
}

/// Law: an operation without a route of its own is covered by one that has a
/// route.
pub proof fn law_covered_operations_are_routed(operation: MachineOperation)
    ensures
        http_binding(operation) matches HttpOperationBindingView::CoveredBy { operation: by }
            ==> http_binding(by) is Route,
{
}

/// Law: no two operations have the same method at the same path.
pub proof fn law_routes_are_distinct(a: MachineOperation, b: MachineOperation)
    requires
        http_binding(a) matches HttpOperationBindingView::Route { method, path, .. } && (
        http_binding(b) matches HttpOperationBindingView::Route { method: m, path: p, .. } && method
            == m && path == p),
    ensures
        a == b,
{
    reveal_strlit("/");
    reveal_strlit("/run");
    reveal_strlit("/{id}");
    reveal_strlit("/{id}/data-dir");
    reveal_strlit("/{id}/exec");
    reveal_strlit("/{id}/exec/interactive");
    reveal_strlit("/{id}/exec/stream");
    reveal_strlit("/{id}/files/{*path}");
    reveal_strlit("/{id}/fork");
    reveal_strlit("/{id}/images");
    reveal_strlit("/{id}/images/prune");
    reveal_strlit("/{id}/images/pull");
    reveal_strlit("/{id}/monitor");
    reveal_strlit("/{id}/network-test");
    reveal_strlit("/{id}/run");
    reveal_strlit("/{id}/start");
    reveal_strlit("/{id}/stop");
    reveal_strlit("/{id}/storage");
    assert(("/"@).len() == 1);
    assert(("/run"@).len() == 4);
    assert(("/{id}"@).len() == 5);
    assert(("/{id}/data-dir"@).len() == 14 && ("/{id}/data-dir"@)[6] == 'd');
    assert(("/{id}/exec"@).len() == 10 && ("/{id}/exec"@)[6] == 'e');
    assert(("/{id}/exec/interactive"@).len() == 22 && ("/{id}/exec/interactive"@)[6] == 'e');
    assert(("/{id}/exec/stream"@).len() == 17 && ("/{id}/exec/stream"@)[6] == 'e');
    assert(("/{id}/files/{*path}"@).len() == 19 && ("/{id}/files/{*path}"@)[6] == 'f');
    assert(("/{id}/fork"@).len() == 10 && ("/{id}/fork"@)[6] == 'f');
    assert(("/{id}/images"@).len() == 12 && ("/{id}/images"@)[6] == 'i');
    assert(("/{id}/images/prune"@).len() == 18 && ("/{id}/images/prune"@)[6] == 'i');
    assert(("/{id}/images/pull"@).len() == 17 && ("/{id}/images/pull"@)[6] == 'i');
    assert(("/{id}/monitor"@).len() == 13 && ("/{id}/monitor"@)[6] == 'm');
    assert(("/{id}/network-test"@).len() == 18 && ("/{id}/network-test"@)[6] == 'n');
    assert(("/{id}/run"@).len() == 9 && ("/{id}/run"@)[6] == 'r');
    assert(("/{id}/start"@).len() == 11 && ("/{id}/start"@)[6] == 's');
    assert(("/{id}/stop"@).len() == 10 && ("/{id}/stop"@)[6] == 's');
    assert(("/{id}/storage"@).len() == 13 && ("/{id}/storage"@)[6] == 's');
}

/// Law: no two operations have the same service method.
pub proof fn law_methods_are_distinct(a: MachineOperation, b: MachineOperation)
    requires
        a.method() == b.method(),
    ensures
        a == b,
{
    reveal_strlit("create");
    reveal_strlit("status");
    reveal_strlit("list");
    reveal_strlit("start");
    reveal_strlit("stop");
    reveal_strlit("delete");
    reveal_strlit("fork");
    reveal_strlit("update");
    reveal_strlit("exec");
    reveal_strlit("exec_stream");
    reveal_strlit("exec_interactive");
    reveal_strlit("run");
    reveal_strlit("run_session");
    reveal_strlit("monitor");
    reveal_strlit("write_file");
    reveal_strlit("upload_file");
    reveal_strlit("read_file");
    reveal_strlit("download_file");
    reveal_strlit("storage_status");
    reveal_strlit("list_images");
    reveal_strlit("pull_image");
    reveal_strlit("prune_images");
    reveal_strlit("network_test");
    reveal_strlit("data_dir");
    assert(("create"@).len() == 6 && ("create"@)[0] == 'c');
    assert(("status"@).len() == 6 && ("status"@)[0] == 's');
    assert(("list"@).len() == 4 && ("list"@)[0] == 'l');
    assert(("start"@).len() == 5 && ("start"@)[0] == 's');
    assert(("stop"@).len() == 4 && ("stop"@)[0] == 's');
    assert(("delete"@).len() == 6 && ("delete"@)[0] == 'd');
    assert(("fork"@).len() == 4 && ("fork"@)[0] == 'f');
    assert(("update"@).len() == 6 && ("update"@)[0] == 'u');
    assert(("exec"@).len() == 4 && ("exec"@)[0] == 'e');
    assert(("exec_stream"@).len() == 11 && ("exec_stream"@)[0] == 'e');
    assert(("exec_interactive"@).len() == 16 && ("exec_interactive"@)[0] == 'e');
    assert(("run"@).len() == 3 && ("run"@)[0] == 'r');
    assert(("run_session"@).len() == 11 && ("run_session"@)[0] == 'r');
    assert(("monitor"@).len() == 7 && ("monitor"@)[0] == 'm');
    assert(("write_file"@).len() == 10 && ("write_file"@)[0] == 'w');
    assert(("upload_file"@).len() == 11 && ("upload_file"@)[0] == 'u');
    assert(("read_file"@).len() == 9 && ("read_file"@)[0] == 'r');
    assert(("download_file"@).len() == 13 && ("download_file"@)[0] == 'd');
    assert(("storage_status"@).len() == 14 && ("storage_status"@)[0] == 's');
    assert(("list_images"@).len() == 11 && ("list_images"@)[0] == 'l');
    assert(("pull_image"@).len() == 10 && ("pull_image"@)[0] == 'p');
    assert(("prune_images"@).len() == 12 && ("prune_images"@)[0] == 'p');
    assert(("network_test"@).len() == 12 && ("network_test"@)[0] == 'n');
    assert(("data_dir"@).len() == 8 && ("data_dir"@)[0] == 'd');
    assert(("create"@)[1] == 'r' && ("create"@)[2] == 'e');
    assert(("status"@)[1] == 't' && ("status"@)[2] == 'a');
    assert(("list"@)[1] == 'i' && ("list"@)[2] == 's');
    assert(("start"@)[1] == 't' && ("start"@)[2] == 'a');
    assert(("stop"@)[1] == 't' && ("stop"@)[2] == 'o');
    assert(("delete"@)[1] == 'e' && ("delete"@)[2] == 'l');
    assert(("fork"@)[1] == 'o' && ("fork"@)[2] == 'r');
    assert(("update"@)[1] == 'p' && ("update"@)[2] == 'd');
    assert(("exec"@)[1] == 'x' && ("exec"@)[2] == 'e');
    assert(("exec_stream"@)[1] == 'x' && ("exec_stream"@)[2] == 'e');
    assert(("exec_interactive"@)[1] == 'x' && ("exec_interactive"@)[2] == 'e');
    assert(("run"@)[1] == 'u' && ("run"@)[2] == 'n');
    assert(("run_session"@)[1] == 'u' && ("run_session"@)[2] == 'n');
    assert(("monitor"@)[1] == 'o' && ("monitor"@)[2] == 'n');
    assert(("write_file"@)[1] == 'r' && ("write_file"@)[2] == 'i');
    assert(("upload_file"@)[1] == 'p' && ("upload_file"@)[2] == 'l');
    assert(("read_file"@)[1] == 'e' && ("read_file"@)[2] == 'a');
    assert(("download_file"@)[1] == 'o' && ("download_file"@)[2] == 'w');
    assert(("storage_status"@)[1] == 't' && ("storage_status"@)[2] == 'o');
    assert(("list_images"@)[1] == 'i' && ("list_images"@)[2] == 's');
    assert(("pull_image"@)[1] == 'u' && ("pull_image"@)[2] == 'l');
    assert(("prune_images"@)[1] == 'r' && ("prune_images"@)[2] == 'u');
    assert(("network_test"@)[1] == 'e' && ("network_test"@)[2] == 't');
    assert(("data_dir"@)[1] == 'a' && ("data_dir"@)[2] == 't');
}

/// Law: a route below the path of a machine is for an operation on that machine, so all but creating,
/// listing and running have one; a machine is started, stopped, cloned, used and watched below its
/// path under the name of the operation.
pub proof fn law_routes_are_below_the_machine(operation: MachineOperation)
    ensures
        http_binding(operation) matches HttpOperationBindingView::Route { path, .. } ==> (
        ("/{id}"@).is_prefix_of(path) <==> !(operation is Create || operation is List || operation
            is RunSession)),
        operation is Start || operation is Stop || operation is Fork || operation is Exec
            || operation is Run || operation is Monitor ==> (http_binding(
            operation,
        ) matches HttpOperationBindingView::Route { path, .. } && path == "/{id}"@ + seq!['/']
            + operation.method()),
{
    reveal_strlit("/");
    reveal_strlit("/run");
    reveal_strlit("/{id}");
    reveal_strlit("/{id}/data-dir");
    reveal_strlit("/{id}/exec");
    reveal_strlit("/{id}/exec/interactive");
    reveal_strlit("/{id}/exec/stream");
    reveal_strlit("/{id}/files/{*path}");
    reveal_strlit("/{id}/fork");
    reveal_strlit("/{id}/images");
    reveal_strlit("/{id}/images/prune");
    reveal_strlit("/{id}/images/pull");
    reveal_strlit("/{id}/monitor");
    reveal_strlit("/{id}/network-test");
    reveal_strlit("/{id}/run");
    reveal_strlit("/{id}/start");
    reveal_strlit("/{id}/stop");
    reveal_strlit("/{id}/storage");
    assert(("/{id}"@).take(5) =~= "/{id}"@);
    assert(("/{id}/data-dir"@).take(5) =~= "/{id}"@);
    assert(("/{id}/exec"@).take(5) =~= "/{id}"@);
    assert(("/{id}/exec/interactive"@).take(5) =~= "/{id}"@);
    assert(("/{id}/exec/stream"@).take(5) =~= "/{id}"@);
    assert(("/{id}/files/{*path}"@).take(5) =~= "/{id}"@);
    assert(("/{id}/fork"@).take(5) =~= "/{id}"@);
    assert(("/{id}/images"@).take(5) =~= "/{id}"@);
    assert(("/{id}/images/prune"@).take(5) =~= "/{id}"@);
    assert(("/{id}/images/pull"@).take(5) =~= "/{id}"@);
    assert(("/{id}/monitor"@).take(5) =~= "/{id}"@);
    assert(("/{id}/network-test"@).take(5) =~= "/{id}"@);
    assert(("/{id}/run"@).take(5) =~= "/{id}"@);
    assert(("/{id}/start"@).take(5) =~= "/{id}"@);
    assert(("/{id}/stop"@).take(5) =~= "/{id}"@);
    assert(("/{id}/storage"@).take(5) =~= "/{id}"@);
    reveal_strlit("start");
    reveal_strlit("stop");
    reveal_strlit("fork");
    reveal_strlit("exec");
    reveal_strlit("run");
    reveal_strlit("monitor");
    assert("/{id}/start"@ =~= "/{id}"@ + seq!['/'] + "start"@);
    assert("/{id}/stop"@ =~= "/{id}"@ + seq!['/'] + "stop"@);
    assert("/{id}/fork"@ =~= "/{id}"@ + seq!['/'] + "fork"@);
    assert("/{id}/exec"@ =~= "/{id}"@ + seq!['/'] + "exec"@);
    assert("/{id}/run"@ =~= "/{id}"@ + seq!['/'] + "run"@);
    assert("/{id}/monitor"@ =~= "/{id}"@ + seq!['/'] + "monitor"@);
}

/// Law: what only reads is got, what removes is deleted, what changes settings is patched, a file is
/// put, and everything else is posted; only an interactive command and a monitor are kept open.
pub proof fn law_methods_follow_the_operation(operation: MachineOperation)
    ensures
        http_binding(operation) matches HttpOperationBindingView::Route { method, group, .. } ==> {
            &&& method is Delete <==> operation is Delete
            &&& method is Patch <==> operation is Update
            &&& method is Put <==> operation is WriteFile
            &&& method is Get <==> operation is Status || operation is List || operation
                is ExecInteractive || operation is Monitor || operation is ReadFile || operation
                is StorageStatus || operation is ListImages || operation is DataDir
            &&& group is LongLived <==> operation is ExecInteractive || operation is Monitor
        },
        http_binding(operation) is CoveredBy <==> operation is UploadFile || operation
            is DownloadFile,
        operation is UploadFile ==> http_binding(operation)->operation is WriteFile,
        operation is DownloadFile ==> http_binding(operation)->operation is ReadFile,
{
}

/// Law: the operations of a group are those of the catalogue that have a route of the group, in the
/// order of the catalogue.
pub proof fn law_routes_of_a_group(group: HttpRouteGroup, count: nat, operation: MachineOperation)
    requires
        count <= catalogue().len(),
    ensures
        routed(group, count).contains(operation) <==> place(operation) < count && (http_binding(
            operation,
        ) matches HttpOperationBindingView::Route { group: own, .. } && own == group),
        forall|i: int, j: int|
            0 <= i < j < routed(group, count).len() ==> place(#[trigger] routed(group, count)[i])
                < place(#[trigger] routed(group, count)[j]),
        forall|i: int|
            0 <= i < routed(group, count).len() ==> place(#[trigger] routed(group, count)[i])
                < count,
    decreases count,
{
    law_catalogue_is_complete(operation);
    if count > 0 {
        let before = routed(group, (count - 1) as nat);
        let last = catalogue()[count - 1];
        law_catalogue_is_complete(last);
        assert(place(last) == count - 1);
        law_routes_of_a_group(group, (count - 1) as nat, operation);
        law_routes_of_a_group(group, (count - 1) as nat, last);
        if routed_in(last, group) {
            assert(routed(group, count) == before.push(last));
            assert(before.push(last)[before.len() as int] == last);
            if before.contains(operation) {
                let i = before.index_of(operation);
                assert(before.push(last)[i] == operation);
            }
            if before.push(last).contains(operation) && operation != last {
                let i = before.push(last).index_of(operation);
                assert(before[i] == operation);
            }
        }
    }
}

} // verus!
