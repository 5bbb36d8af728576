use smolvm::error::Error;
use smolvm::guest::{
    check_data_dir, client_for_operation, make_run_config, next_exec_step, next_images_step,
    next_prune_step, prepare_image_overlay_for_file_ops, pull_image_options, stream_exit_code,
    ClientProgress, ClientStep, ExecMode, ExecProgress, ExecStep, FilesProgress, FilesStep,
    ImagesProgress, ImagesStep, PruneProgress, PruneStep,
};
use smolvm::model::Model;
use smolvm::requests::{
    DataDirMachine, ExecMachine, ExecResult, ListMachineImages, PruneMachineImages,
    PullMachineImage, RunMachine,
};
use smolvm::types::{ExecEvent, ImageInfo, Job, RecordState, VmRecord};

fn record(name: &str) -> VmRecord {
    VmRecord::new(
        name.to_string(),
        2,
        1024,
        vec![("/h".to_string(), "/g".to_string(), true)],
        vec![],
        false,
        5,
    )
}

fn image(size: u64) -> ImageInfo {
    ImageInfo {
        reference: "img".to_string(),
        digest: "d".to_string(),
        size,
        created: None,
        architecture: "arm64".to_string(),
        os: "linux".to_string(),
        layer_count: 1,
        layers: vec![],
        entrypoint: vec![],
        cmd: vec![],
        env: vec!["A=1".to_string()],
        workdir: Some("/srv".to_string()),
        user: None,
    }
}

fn client_progress() -> ClientProgress {
    ClientProgress {
        record: None,
        state: None,
        started: None,
        reloaded: None,
        manager: None,
        found: None,
        connected: None,
    }
}

#[test]
fn operation_starts_a_machine_only_if_asked() {
    let mut progress = client_progress();
    progress.record = Some(Ok(Some(record("vm"))));
    progress.state = Some(RecordState::Stopped);
    assert!(matches!(client_for_operation("vm", true, &progress), ClientStep::Start(_)));
    assert!(!matches!(client_for_operation("vm", false, &progress), ClientStep::Start(_)));
    progress.manager = Some(Ok(()));
    progress.found = Some(false);
    assert_eq!(
        client_for_operation("vm", false, &progress),
        ClientStep::Finish(Err(Error::InvalidState {
            expected: "running".to_string(),
            actual: "stopped".to_string(),
        }))
    );
}

#[test]
fn operation_on_a_running_machine_connects() {
    let mut progress = client_progress();
    progress.record = Some(Ok(Some(record("vm"))));
    progress.state = Some(RecordState::Running);
    progress.manager = Some(Ok(()));
    progress.found = Some(true);
    assert_eq!(client_for_operation("vm", false, &progress), ClientStep::Connect);
    progress.connected = Some(Ok(()));
    assert_eq!(
        client_for_operation("vm", false, &progress),
        ClientStep::Finish(Ok(record("vm")))
    );
}

fn exec_progress() -> ExecProgress {
    ExecProgress {
        client: None,
        record_secrets: None,
        request_secrets: None,
        queried: None,
        pulled: None,
        image_env: None,
        background: None,
        output: None,
    }
}

#[test]
fn exec_without_image_runs_in_the_guest() {
    let mut request = ExecMachine::new("vm".to_string(), vec!["ls".to_string()]);
    request.env = vec![("B".to_string(), "2".to_string())];
    let mut progress = exec_progress();
    assert_eq!(next_exec_step(&request, ExecMode::Wait, &progress), ExecStep::OpenClient);
    let mut stored = record("vm");
    stored.env = vec![("A".to_string(), "1".to_string()), ("B".to_string(), "0".to_string())];
    progress.client = Some(Ok(stored));
    progress.record_secrets = Some(Ok(vec![]));
    progress.request_secrets = Some(Ok(vec![]));
    match next_exec_step(&request, ExecMode::Wait, &progress) {
        ExecStep::Run(Job::Guest(command)) => {
            assert_eq!(command.command, vec!["ls"]);
            assert_eq!(
                command.env,
                vec![("A".to_string(), "1".to_string()), ("B".to_string(), "2".to_string())]
            );
        }
        other => panic!("unexpected {:?}", other),
    }
    let result = ExecResult { exit_code: 4, stdout: vec![1], stderr: vec![] };
    progress.output = Some(Ok(result.dup()));
    assert_eq!(
        next_exec_step(&request, ExecMode::Wait, &progress),
        ExecStep::Finish(Ok(result))
    );
}

#[test]
fn exec_with_image_pulls_what_is_missing() {
    let request = ExecMachine::new("vm".to_string(), vec!["ls".to_string()]);
    let mut stored = record("vm");
    stored.image = Some("img".to_string());
    let mut progress = exec_progress();
    progress.client = Some(Ok(stored));
    progress.record_secrets = Some(Ok(vec![]));
    progress.request_secrets = Some(Ok(vec![]));
    assert_eq!(
        next_exec_step(&request, ExecMode::Wait, &progress),
        ExecStep::QueryImage("img".to_string())
    );
    progress.queried = Some(Ok(None));
    assert_eq!(
        next_exec_step(&request, ExecMode::Wait, &progress),
        ExecStep::PullImage("img".to_string())
    );
    progress.pulled = Some(Ok(image(1)));
    assert_eq!(
        next_exec_step(&request, ExecMode::Wait, &progress),
        ExecStep::ParseImageEnv(vec!["A=1".to_string()])
    );
    progress.image_env = Some(vec![Some(("A".to_string(), "1".to_string()))]);
    match next_exec_step(&request, ExecMode::Wait, &progress) {
        ExecStep::Run(Job::Container(config)) => {
            assert_eq!(config.image, "img");
            assert_eq!(config.workdir, Some("/srv".to_string()));
            assert_eq!(config.env, vec![("A".to_string(), "1".to_string())]);
            assert_eq!(config.mounts, vec![(0, "/g".to_string(), true)]);
            assert_eq!(config.persistent_overlay, Some("vm".to_string()));
        }
        other => panic!("unexpected {:?}", other),
    }
}

#[test]
fn stream_exit_code_is_the_last_one() {
    assert_eq!(stream_exit_code(&vec![]), 0);
    assert_eq!(
        stream_exit_code(&vec![ExecEvent::Stdout(vec![1]), ExecEvent::Exit(3)]),
        3
    );
    assert_eq!(
        stream_exit_code(&vec![ExecEvent::Exit(2), ExecEvent::Error("x".to_string())]),
        2
    );
}

#[test]
fn run_config_takes_the_mounts_of_the_machine() {
    let mut request =
        RunMachine::new("vm".to_string(), "img".to_string(), vec!["ls".to_string()]);
    request.env = vec![("A".to_string(), "1".to_string())];
    let config = make_run_config(&request, &record("vm"), Ok(vec![])).unwrap();
    assert_eq!(config.image, "img");
    assert_eq!(config.mounts, vec![(0, "/g".to_string(), true)]);
    let failed = Error::Other { message: "no".to_string() };
    assert_eq!(make_run_config(&request, &record("vm"), Err(failed.dup())), Err(failed));
}

#[test]
fn file_operations_prepare_the_overlay_of_an_image() {
    let mut progress = FilesProgress { queried: None, pulled: None, ran: None };
    assert_eq!(
        prepare_image_overlay_for_file_ops(&record("vm"), "vm", &progress),
        FilesStep::Finish(Ok(()))
    );
    let mut stored = record("vm");
    stored.image = Some("img".to_string());
    assert_eq!(
        prepare_image_overlay_for_file_ops(&stored, "vm", &progress),
        FilesStep::QueryImage("img".to_string())
    );
    progress.queried = Some(Ok(None));
    assert_eq!(
        prepare_image_overlay_for_file_ops(&stored, "vm", &progress),
        FilesStep::PullImage("img".to_string())
    );
    progress.pulled = Some(Ok(image(1)));
    match prepare_image_overlay_for_file_ops(&stored, "vm", &progress) {
        FilesStep::Run(config) => {
            assert_eq!(config.image, "img");
            assert_eq!(config.command, vec!["/bin/true"]);
            assert_eq!(config.persistent_overlay, Some("vm".to_string()));
        }
        other => panic!("unexpected {:?}", other),
    }
    progress.ran = Some(Ok(()));
    assert_eq!(
        prepare_image_overlay_for_file_ops(&stored, "vm", &progress),
        FilesStep::Finish(Ok(()))
    );
}

#[test]
fn file_operations_hand_on_what_went_wrong() {
    let mut stored = record("vm");
    stored.image = Some("img".to_string());
    let failed = Error::Other { message: "no".to_string() };
    let ended = FilesStep::Finish(Err(failed.dup()));
    let mut progress =
        FilesProgress { queried: Some(Err(failed.dup())), pulled: None, ran: None };
    assert_eq!(prepare_image_overlay_for_file_ops(&stored, "vm", &progress), ended);
    progress.queried = Some(Ok(None));
    progress.pulled = Some(Err(failed.dup()));
    assert_eq!(prepare_image_overlay_for_file_ops(&stored, "vm", &progress), ended);
    progress.queried = Some(Ok(Some(image(1))));
    progress.ran = Some(Err(failed.dup()));
    assert_eq!(prepare_image_overlay_for_file_ops(&stored, "vm", &progress), ended);
}

#[test]
fn listing_images_puts_the_machine_back() {
    let mut request = ListMachineImages::new("vm".to_string());
    request.start_if_needed = true;
    request.stop_after_start = true;
    let mut progress =
        ImagesProgress { state: None, client: None, images: None, stopped: false };
    assert_eq!(next_images_step(&request, &progress), ImagesStep::LoadStatus);
    progress.state = Some(Ok(Some(RecordState::Stopped)));
    assert!(matches!(next_images_step(&request, &progress), ImagesStep::OpenClient { .. }));
    progress.client = Some(Ok(()));
    assert_eq!(next_images_step(&request, &progress), ImagesStep::ListImages);
    progress.images = Some(Ok(vec![image(1)]));
    assert!(matches!(next_images_step(&request, &progress), ImagesStep::Stop(_)));
    progress.stopped = true;
    assert_eq!(
        next_images_step(&request, &progress),
        ImagesStep::Finish(Ok(vec![image(1)]))
    );
}

#[test]
fn listing_images_of_a_stopped_machine_can_be_empty() {
    let mut request = ListMachineImages::new("vm".to_string());
    let mut progress =
        ImagesProgress { state: None, client: None, images: None, stopped: false };
    progress.state = Some(Ok(Some(RecordState::Stopped)));
    assert!(matches!(
        next_images_step(&request, &progress),
        ImagesStep::Finish(Err(Error::InvalidState { .. }))
    ));
    request.empty_when_stopped = true;
    assert_eq!(next_images_step(&request, &progress), ImagesStep::Finish(Ok(vec![])));
}

#[test]
fn pruning_counts_what_it_would_free() {
    let mut request = PruneMachineImages::new("vm".to_string());
    request.all = true;
    request.dry_run = true;
    let mut progress = PruneProgress {
        state: Some(Ok(Some(RecordState::Running))),
        client: None,
        images: None,
        collected: None,
        stopped: false,
    };
    assert_eq!(
        next_prune_step(&request, &progress),
        PruneStep::Finish(Err(Error::Agent {
            operation: "prune".to_string(),
            reason: "cannot prune all images while machine 'vm' is running".to_string(),
        }))
    );
    progress.state = Some(Ok(Some(RecordState::Stopped)));
    assert!(matches!(next_prune_step(&request, &progress), PruneStep::OpenClient { .. }));
    progress.client = Some(Ok(()));
    assert_eq!(next_prune_step(&request, &progress), PruneStep::ListImages);
    progress.images = Some(Ok(vec![image(10), image(5)]));
    let mut steps = 0;
    loop {
        match next_prune_step(&request, &progress) {
            PruneStep::Collect { dry_run, all } => {
                assert!(dry_run && all);
                progress.collected = Some(Ok(7));
            }
            PruneStep::Finish(result) => {
                let result = result.unwrap();
                assert!(result.dry_run);
                assert_eq!(result.removed_images, 2);
                assert_eq!(result.freed_bytes, 15);
                break;
            }
            other => panic!("unexpected {:?}", other),
        }
        steps += 1;
        assert!(steps < 5);
    }
}

#[test]
fn pulls_use_the_registry_settings() {
    let mut request = PullMachineImage::new("vm".to_string(), "img".to_string());
    request.proxy = Some("http://proxy".to_string());
    let options = pull_image_options(&request).unwrap();
    assert!(options.use_registry_config);
    assert_eq!(options.proxy, Some("http://proxy".to_string()));
}

#[test]
fn data_dir_is_only_told_of_an_existing_machine() {
    let mut request = DataDirMachine::new("vm".to_string());
    assert!(check_data_dir(&request, &Ok(Some(record("vm")))).is_ok());
    assert_eq!(
        check_data_dir(&request, &Ok(None)),
        Err(Error::VmNotFound { name: "vm".to_string() })
    );
    request.require_existing = false;
    assert!(check_data_dir(&request, &Ok(None)).is_ok());
}
