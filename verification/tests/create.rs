use temp_mongo::docker::{CreateAction, CreateEvent, TeardownAction, TeardownEvent};
use temp_mongo::error::{EngineFault, ErrorKind};
use temp_mongo::lifecycle::{Mode, Phase, BOOT_DELAY_MS, CONFLICT_BACKOFF_MS};
use temp_mongo::port::MAX_ATTEMPTS;
use temp_mongo::{TempMongoDocker, TempMongoDockerError};

fn database_client(uri: &str) -> mongodb::Client {
    let runtime = tokio::runtime::Builder::new_current_thread()
        .enable_all()
        .build()
        .expect("runtime");
    runtime
        .block_on(mongodb::Client::with_uri_str(uri))
        .expect("client")
}

fn dynamic_manager() -> TempMongoDocker {
    TempMongoDocker::new().expect("engine client")
}

fn fixed_manager() -> TempMongoDocker {
    dynamic_manager().with_mode(Mode::FixedName)
}

fn fault(status: Option<u16>, message: &str) -> EngineFault {
    EngineFault {
        status,
        message: message.to_string(),
    }
}

fn listed(names: &[&str]) -> CreateEvent {
    CreateEvent::Listed(Ok(names
        .iter()
        .map(|name| temp_mongo::engine::ContainerSummary {
            names: vec![name.to_string()],
        })
        .collect()))
}

/// Takes a dynamic-name manager up to the request to create the container.
fn dynamic_up_to_creating(manager: &mut TempMongoDocker, port: u16) {
    assert!(matches!(
        manager.create(CreateEvent::Begin),
        CreateAction::PullImage(_)
    ));
    assert!(matches!(
        manager.create(CreateEvent::Pulled(None)),
        CreateAction::ProbePort
    ));
    assert!(matches!(
        manager.create(CreateEvent::Probed(Some(port))),
        CreateAction::CreateContainer(_)
    ));
}

#[test]
fn new_manager_is_fresh_and_dynamic() {
    let manager = dynamic_manager();
    assert_eq!(manager.phase(), Phase::Uninitialized);
    assert_eq!(manager.mode(), Mode::DynamicName);
    assert!(manager.mongo_client().is_none());
    assert!(manager.container_name().is_none());
    assert_eq!(manager.port(), None);
    assert_eq!(manager.uri(), None);
}

#[test]
fn with_mode_switches_a_fresh_manager_only() {
    let manager = fixed_manager();
    assert_eq!(manager.mode(), Mode::FixedName);
    assert_eq!(manager.phase(), Phase::Uninitialized);
    let mut manager = manager.with_mode(Mode::DynamicName);
    assert_eq!(manager.mode(), Mode::DynamicName);
    manager.create(CreateEvent::Begin);
    let manager = manager.with_mode(Mode::FixedName);
    assert_eq!(manager.mode(), Mode::DynamicName);
    assert_eq!(manager.phase(), Phase::Pulling);
}

#[test]
fn delays_are_tens_of_milliseconds() {
    assert_eq!(BOOT_DELAY_MS, 50);
    assert_eq!(CONFLICT_BACKOFF_MS, 50);
}

#[test]
fn dynamic_create_runs_to_the_end() {
    let mut manager = dynamic_manager();
    let action = manager.create(CreateEvent::Begin);
    assert!(matches!(action, CreateAction::PullImage(ref image) if image == "mongo:latest"));
    assert_eq!(manager.phase(), Phase::Pulling);
    let action = manager.create(CreateEvent::Pulled(Some(Ok(()))));
    assert!(matches!(action, CreateAction::NextPullItem));
    assert_eq!(manager.phase(), Phase::Pulling);
    let action = manager.create(CreateEvent::Pulled(None));
    assert!(matches!(action, CreateAction::ProbePort));
    assert_eq!(manager.phase(), Phase::Allocating);
    let action = manager.create(CreateEvent::Probed(Some(40123)));
    match action {
        CreateAction::CreateContainer(config) => {
            assert_eq!(config.name, "");
            assert_eq!(config.image, "mongo:latest");
            assert_eq!(config.platform, "linux/amd64");
            assert_eq!(config.cmd, vec!["mongod".to_string(), "--noauth".to_string()]);
            assert_eq!(config.binding.container_port, 27017);
            assert_eq!(config.binding.host_ip, "127.0.0.1");
            assert_eq!(config.binding.host_port, 40123);
        }
        other => panic!("unexpected action {:?}", other),
    }
    assert_eq!(manager.phase(), Phase::Creating);
    assert_eq!(manager.port(), Some(40123));
    assert!(manager.container_name().is_none());
    let action = manager.create(CreateEvent::Created(Ok("abc123".to_string())));
    assert!(matches!(action, CreateAction::StartContainer(ref id) if id == "abc123"));
    assert_eq!(manager.phase(), Phase::Starting);
    assert_eq!(manager.container_name().map(String::as_str), Some("abc123"));
    let action = manager.create(CreateEvent::Started(Ok(())));
    assert!(matches!(action, CreateAction::Sleep(50)));
    assert_eq!(manager.phase(), Phase::Settling);
    let action = manager.create(CreateEvent::Slept);
    let uri = match action {
        CreateAction::ConnectDatabase(uri) => uri,
        other => panic!("unexpected action {:?}", other),
    };
    assert_eq!(uri, "mongodb://127.0.0.1:40123/messenger?directConnection=true");
    assert_eq!(manager.phase(), Phase::Connecting);
    assert_eq!(manager.uri(), None);
    assert!(manager.mongo_client().is_none());
    let action = manager.create(CreateEvent::Connected(Ok(database_client(&uri))));
    assert!(matches!(action, CreateAction::Finish(Ok(()))));
    assert_eq!(manager.phase(), Phase::Active);
    assert!(manager.mongo_client().is_some());
    assert_eq!(manager.container_name().map(String::as_str), Some("abc123"));
    assert_eq!(manager.port(), Some(40123));
    assert_eq!(manager.uri(), Some(uri));
}

#[test]
fn pull_is_over_only_when_the_stream_is() {
    let mut manager = dynamic_manager();
    manager.create(CreateEvent::Begin);
    for _ in 0..100 {
        assert!(matches!(
            manager.create(CreateEvent::Pulled(Some(Ok(())))),
            CreateAction::NextPullItem
        ));
        assert_eq!(manager.phase(), Phase::Pulling);
    }
    assert!(matches!(
        manager.create(CreateEvent::Pulled(None)),
        CreateAction::ProbePort
    ));
}

#[test]
fn pull_failure_ends_the_create() {
    let mut manager = dynamic_manager();
    manager.create(CreateEvent::Begin);
    manager.create(CreateEvent::Pulled(Some(Ok(()))));
    let action = manager.create(CreateEvent::Pulled(Some(Err("image not known".to_string()))));
    match action {
        CreateAction::Finish(Err(TempMongoDockerError::DockerConnectionError(text))) => {
            assert_eq!(text, "image not known");
        }
        other => panic!("unexpected action {:?}", other),
    }
    assert_eq!(manager.phase(), Phase::Failed);
    assert!(manager.container_name().is_none());
}

#[test]
fn probe_is_repeated_until_a_port_is_found() {
    let mut manager = dynamic_manager();
    manager.create(CreateEvent::Begin);
    manager.create(CreateEvent::Pulled(None));
    assert!(matches!(
        manager.create(CreateEvent::Probed(None)),
        CreateAction::ProbePort
    ));
    assert!(matches!(
        manager.create(CreateEvent::Probed(Some(0))),
        CreateAction::ProbePort
    ));
    assert_eq!(manager.phase(), Phase::Allocating);
    assert_eq!(manager.port(), None);
    match manager.create(CreateEvent::Probed(Some(50505))) {
        CreateAction::CreateContainer(config) => assert_eq!(config.binding.host_port, 50505),
        other => panic!("unexpected action {:?}", other),
    }
    assert_eq!(manager.port(), Some(50505));
}

#[test]
fn port_allocation_fails_after_the_allowed_attempts() {
    let mut manager = dynamic_manager();
    manager.create(CreateEvent::Begin);
    manager.create(CreateEvent::Pulled(None));
    for _ in 0..MAX_ATTEMPTS - 1 {
        assert!(matches!(
            manager.create(CreateEvent::Probed(None)),
            CreateAction::ProbePort
        ));
    }
    let action = manager.create(CreateEvent::Probed(None));
    match action {
        CreateAction::Finish(Err(error)) => {
            assert!(matches!(error, TempMongoDockerError::PortAllocationError));
            assert_eq!(error.kind(), ErrorKind::PortAllocation);
        }
        other => panic!("unexpected action {:?}", other),
    }
    assert_eq!(manager.phase(), Phase::Failed);
    assert_eq!(manager.port(), None);
}

#[test]
fn dynamic_create_failure_is_fatal_even_for_a_conflict() {
    let mut manager = dynamic_manager();
    dynamic_up_to_creating(&mut manager, 40001);
    let action = manager.create(CreateEvent::Created(Err(fault(Some(409), "conflict"))));
    match action {
        CreateAction::Finish(Err(TempMongoDockerError::ContainerCreationError(text))) => {
            assert_eq!(text, "conflict");
        }
        other => panic!("unexpected action {:?}", other),
    }
    assert_eq!(manager.phase(), Phase::Failed);
    assert!(manager.container_name().is_none());
}

#[test]
fn dynamic_start_failure_keeps_the_container_bound() {
    let mut manager = dynamic_manager();
    dynamic_up_to_creating(&mut manager, 40002);
    manager.create(CreateEvent::Created(Ok("feed".to_string())));
    let action = manager.create(CreateEvent::Started(Err(fault(
        Some(500),
        "port is already allocated",
    ))));
    match action {
        CreateAction::Finish(Err(error)) => {
            assert_eq!(error.kind(), ErrorKind::Creation);
            assert!(matches!(
                error,
                TempMongoDockerError::ContainerCreationError(ref text)
                    if text == "port is already allocated"
            ));
        }
        other => panic!("unexpected action {:?}", other),
    }
    assert_eq!(manager.phase(), Phase::Failed);
    assert_eq!(manager.container_name().map(String::as_str), Some("feed"));
}

#[test]
fn dynamic_database_failure_leaves_a_container_that_teardown_reaches() {
    let mut manager = dynamic_manager();
    dynamic_up_to_creating(&mut manager, 40003);
    manager.create(CreateEvent::Created(Ok("c0ffee".to_string())));
    manager.create(CreateEvent::Started(Ok(())));
    manager.create(CreateEvent::Slept);
    let action = manager.create(CreateEvent::Connected(Err("no reachable server".to_string())));
    match action {
        CreateAction::Finish(Err(error)) => {
            assert_eq!(error.kind(), ErrorKind::Connection);
            assert!(matches!(
                error,
                TempMongoDockerError::MongoConnectionError(ref text) if text == "no reachable server"
            ));
        }
        other => panic!("unexpected action {:?}", other),
    }
    assert_eq!(manager.phase(), Phase::Failed);
    assert!(manager.mongo_client().is_none());
    assert_eq!(manager.uri(), None);
    assert_eq!(manager.container_name().map(String::as_str), Some("c0ffee"));
    let action = manager.kill_and_clean(TeardownEvent::Begin);
    assert!(matches!(action, TeardownAction::StopContainer(ref id) if id == "c0ffee"));
    let action = manager.kill_and_clean(TeardownEvent::Stopped(Ok(())));
    assert!(matches!(action, TeardownAction::RemoveContainer(ref id) if id == "c0ffee"));
    let action = manager.kill_and_clean(TeardownEvent::Removed(Ok(())));
    assert!(matches!(action, TeardownAction::Finish(Ok(()))));
    assert_eq!(manager.phase(), Phase::TornDown);
}

#[test]
fn fixed_create_skips_creation_when_the_container_is_listed() {
    let mut manager = fixed_manager();
    assert!(matches!(
        manager.create(CreateEvent::Begin),
        CreateAction::ListContainers
    ));
    assert_eq!(manager.phase(), Phase::Listing);
    let action = manager.create(listed(&["/other", "/temp_mongo_docker"]));
    let uri = match action {
        CreateAction::ConnectDatabase(uri) => uri,
        other => panic!("unexpected action {:?}", other),
    };
    assert_eq!(uri, "mongodb://127.0.0.1:27017/messenger?directConnection=true");
    assert_eq!(manager.phase(), Phase::Connecting);
    assert!(manager.container_name().is_none());
    let action = manager.create(CreateEvent::Connected(Ok(database_client(&uri))));
    assert!(matches!(action, CreateAction::Finish(Ok(()))));
    assert_eq!(manager.phase(), Phase::Active);
    assert_eq!(
        manager.container_name().map(String::as_str),
        Some("temp_mongo_docker")
    );
    assert_eq!(manager.port(), Some(27017));
    assert_eq!(manager.uri(), Some(uri));
}

#[test]
fn fixed_create_makes_the_container_when_it_is_not_listed() {
    let mut manager = fixed_manager();
    manager.create(CreateEvent::Begin);
    let action = manager.create(listed(&["/temp_mongo_docker_old", "/mongo"]));
    match action {
        CreateAction::CreateContainer(config) => {
            assert_eq!(config.name, "temp_mongo_docker");
            assert_eq!(config.binding.host_port, 27017);
            assert_eq!(config.binding.container_port, 27017);
            assert_eq!(config.binding.host_ip, "127.0.0.1");
        }
        other => panic!("unexpected action {:?}", other),
    }
    assert_eq!(manager.phase(), Phase::Creating);
    let action = manager.create(CreateEvent::Created(Ok("0123abcd".to_string())));
    assert!(matches!(action, CreateAction::StartContainer(ref name) if name == "temp_mongo_docker"));
    assert!(manager.container_name().is_none());
    let action = manager.create(CreateEvent::Started(Ok(())));
    assert!(matches!(action, CreateAction::Sleep(millis) if millis == BOOT_DELAY_MS));
    let action = manager.create(CreateEvent::Slept);
    let uri = match action {
        CreateAction::ConnectDatabase(uri) => uri,
        other => panic!("unexpected action {:?}", other),
    };
    assert_eq!(uri, "mongodb://127.0.0.1:27017/messenger?directConnection=true");
    let action = manager.create(CreateEvent::Connected(Ok(database_client(&uri))));
    assert!(matches!(action, CreateAction::Finish(Ok(()))));
    assert_eq!(
        manager.container_name().map(String::as_str),
        Some("temp_mongo_docker")
    );
}

#[test]
fn fixed_create_tolerates_a_name_conflict() {
    let mut manager = fixed_manager();
    manager.create(CreateEvent::Begin);
    manager.create(listed(&[]));
    let action = manager.create(CreateEvent::Created(Err(fault(
        Some(409),
        "Conflict. The container name is already in use",
    ))));
    assert!(matches!(action, CreateAction::Sleep(millis) if millis == CONFLICT_BACKOFF_MS));
    assert_eq!(manager.phase(), Phase::Settling);
    let action = manager.create(CreateEvent::Slept);
    let uri = match action {
        CreateAction::ConnectDatabase(uri) => uri,
        other => panic!("unexpected action {:?}", other),
    };
    assert_eq!(uri, "mongodb://127.0.0.1:27017/messenger?directConnection=true");
    let action = manager.create(CreateEvent::Connected(Ok(database_client(&uri))));
    assert!(matches!(action, CreateAction::Finish(Ok(()))));
    assert_eq!(manager.phase(), Phase::Active);
    assert!(manager.mongo_client().is_some());
}

#[test]
fn fixed_create_fails_on_any_other_engine_failure() {
    for status in [None, Some(400), Some(404), Some(408), Some(410), Some(500)] {
        let mut manager = fixed_manager();
        manager.create(CreateEvent::Begin);
        manager.create(listed(&[]));
        let action = manager.create(CreateEvent::Created(Err(fault(status, "refused"))));
        match action {
            CreateAction::Finish(Err(error)) => {
                assert_eq!(error.kind(), ErrorKind::Creation);
                assert!(matches!(
                    error,
                    TempMongoDockerError::ContainerCreationError(ref text) if text == "refused"
                ));
            }
            other => panic!("unexpected action {:?}", other),
        }
        assert_eq!(manager.phase(), Phase::Failed);
        assert!(manager.container_name().is_none());
    }
}

#[test]
fn fixed_list_failure_ends_the_create() {
    let mut manager = fixed_manager();
    manager.create(CreateEvent::Begin);
    let action = manager.create(CreateEvent::Listed(Err(fault(None, "socket closed"))));
    match action {
        CreateAction::Finish(Err(TempMongoDockerError::BollardConnectionError(fault))) => {
            assert_eq!(fault.status, None);
            assert_eq!(fault.message, "socket closed");
        }
        other => panic!("unexpected action {:?}", other),
    }
    assert_eq!(manager.phase(), Phase::Failed);
}

#[test]
fn fixed_failure_keeps_no_container_bound() {
    let mut manager = fixed_manager();
    manager.create(CreateEvent::Begin);
    manager.create(listed(&["/temp_mongo_docker"]));
    let action = manager.create(CreateEvent::Connected(Err("timed out".to_string())));
    assert!(matches!(
        action,
        CreateAction::Finish(Err(TempMongoDockerError::MongoConnectionError(_)))
    ));
    assert_eq!(manager.phase(), Phase::Failed);
    assert!(manager.container_name().is_none());
    assert!(matches!(
        manager.kill_and_clean(TeardownEvent::Begin),
        TeardownAction::Finish(Err(TempMongoDockerError::ContainerNameNotSet))
    ));
}

#[test]
fn second_create_is_out_of_sequence() {
    let mut manager = dynamic_manager();
    manager.create(CreateEvent::Begin);
    let action = manager.create(CreateEvent::Begin);
    match action {
        CreateAction::Finish(Err(error)) => {
            assert!(matches!(error, TempMongoDockerError::OutOfSequence));
            assert_eq!(error.kind(), ErrorKind::Sequence);
        }
        other => panic!("unexpected action {:?}", other),
    }
    assert_eq!(manager.phase(), Phase::Pulling);
}

#[test]
fn create_after_teardown_is_out_of_sequence() {
    let mut manager = dynamic_manager();
    dynamic_up_to_creating(&mut manager, 40004);
    manager.create(CreateEvent::Created(Ok("dead".to_string())));
    manager.kill_not_clean(TeardownEvent::Begin);
    manager.kill_not_clean(TeardownEvent::Stopped(Ok(())));
    assert_eq!(manager.phase(), Phase::TornDown);
    assert!(matches!(
        manager.create(CreateEvent::Begin),
        CreateAction::Finish(Err(TempMongoDockerError::OutOfSequence))
    ));
    assert_eq!(manager.phase(), Phase::TornDown);
}

#[test]
fn event_that_answers_nothing_changes_nothing() {
    let mut manager = dynamic_manager();
    for event in [
        CreateEvent::Slept,
        CreateEvent::Pulled(None),
        CreateEvent::Probed(Some(40000)),
        CreateEvent::Created(Ok("id".to_string())),
        CreateEvent::Started(Ok(())),
        CreateEvent::Listed(Ok(Vec::new())),
        CreateEvent::Connected(Err("x".to_string())),
    ] {
        assert!(matches!(
            manager.create(event),
            CreateAction::Finish(Err(TempMongoDockerError::OutOfSequence))
        ));
        assert_eq!(manager.phase(), Phase::Uninitialized);
        assert!(manager.container_name().is_none());
        assert_eq!(manager.port(), None);
    }
    assert!(matches!(
        manager.create(CreateEvent::Begin),
        CreateAction::PullImage(_)
    ));
}

#[test]
fn client_that_answers_nothing_is_not_kept() {
    let mut manager = dynamic_manager();
    let client = database_client("mongodb://127.0.0.1:40123/messenger?directConnection=true");
    assert!(matches!(
        manager.create(CreateEvent::Connected(Ok(client))),
        CreateAction::Finish(Err(TempMongoDockerError::OutOfSequence))
    ));
    assert!(manager.mongo_client().is_none());
    assert_eq!(manager.phase(), Phase::Uninitialized);
}

#[test]
fn dynamic_mode_does_not_list_and_fixed_mode_does_not_pull() {
    let mut manager = dynamic_manager();
    manager.create(CreateEvent::Begin);
    assert!(matches!(
        manager.create(listed(&["/temp_mongo_docker"])),
        CreateAction::Finish(Err(TempMongoDockerError::OutOfSequence))
    ));
    let mut manager = fixed_manager();
    manager.create(CreateEvent::Begin);
    assert!(matches!(
        manager.create(CreateEvent::Pulled(None)),
        CreateAction::Finish(Err(TempMongoDockerError::OutOfSequence))
    ));
    assert_eq!(manager.phase(), Phase::Listing);
}

#[test]
fn from_connection_makes_a_fresh_manager_around_the_engine_client() {
    let docker = bollard::Docker::connect_with_socket_defaults().expect("engine client");
    let manager = TempMongoDocker::from_connection(Ok(docker)).expect("manager");
    assert_eq!(manager.phase(), Phase::Uninitialized);
    assert_eq!(manager.mode(), Mode::DynamicName);
    assert!(manager.mongo_client().is_none());
    assert!(manager.container_name().is_none());
    assert_eq!(manager.port(), None);
    let _engine: &bollard::Docker = manager.docker_client();
}

#[test]
fn from_connection_hands_a_failure_back_at_once() {
    let made = TempMongoDocker::from_connection(Err(
        bollard::errors::Error::DockerResponseServerError {
            status_code: 500,
            message: "daemon is down".to_string(),
        },
    ));
    match made {
        Err(error) => {
            assert_eq!(error.kind(), ErrorKind::Connection);
            match error {
                TempMongoDockerError::BollardConnectionError(fault) => {
                    assert_eq!(fault.status, Some(500));
                    assert_eq!(
                        fault.message,
                        "Docker responded with status code 500: daemon is down"
                    );
                }
                other => panic!("unexpected error {:?}", other),
            }
        }
        Ok(_) => panic!("a manager was made without an engine client"),
    }
}

#[test]
fn from_connection_hands_back_a_failure_without_a_status() {
    let made = TempMongoDocker::from_connection(Err(bollard::errors::Error::RequestTimeoutError));
    match made {
        Err(TempMongoDockerError::BollardConnectionError(fault)) => {
            assert_eq!(fault.status, None);
            assert_eq!(fault.message, "Timeout error");
        }
        Err(other) => panic!("unexpected error {:?}", other),
        Ok(_) => panic!("a manager was made without an engine client"),
    }
}
