use smolvm::operation::{
    machine_operation_cli_binding, machine_operation_http_binding, machine_operation_routes,
    HttpMethod, HttpOperationBinding, HttpRouteGroup, MachineOperation,
};

#[test]
fn machine_operation_routes_build_for_all_groups() {
    let _ = machine_operation_routes(HttpRouteGroup::Timed);
    let _ = machine_operation_routes(HttpRouteGroup::LongLived);
}

#[test]
fn covered_operations_reference_known_operations() {
    for operation in &MachineOperation::all() {
        if let HttpOperationBinding::CoveredBy { operation: covered_by } =
            machine_operation_http_binding(*operation)
        {
            assert!(MachineOperation::all().contains(&covered_by));
        }
    }
}

#[test]
fn long_lived_routes_are_the_open_ended_ones() {
    assert_eq!(
        machine_operation_routes(HttpRouteGroup::LongLived),
        vec![MachineOperation::ExecInteractive, MachineOperation::Monitor]
    );
    let timed = machine_operation_routes(HttpRouteGroup::Timed);
    assert_eq!(timed.len() + 2 + 2, MachineOperation::all().len());
    assert!(!timed.contains(&MachineOperation::UploadFile));
}

#[test]
fn every_operation_is_routed_once() {
    let mut seen: Vec<(HttpMethod, String)> = vec![];
    for operation in MachineOperation::all() {
        if let HttpOperationBinding::Route { method, path, .. } =
            machine_operation_http_binding(operation)
        {
            assert!(!seen.contains(&(method, path.clone())), "{:?} {}", operation, path);
            seen.push((method, path));
        }
    }
    assert!(seen.contains(&(HttpMethod::Patch, "/{id}".to_string())));
    assert!(seen.contains(&(HttpMethod::Put, "/{id}/files/{*path}".to_string())));
}

#[test]
fn operations_have_names_and_commands() {
    assert_eq!(MachineOperation::all().len(), 24);
    assert_eq!(MachineOperation::ExecStream.method_name(), "exec_stream");
    assert_eq!(machine_operation_cli_binding(MachineOperation::List), "machine ls");
    assert_eq!(
        machine_operation_cli_binding(MachineOperation::ExecInteractive),
        "machine exec -it / machine shell"
    );
}
