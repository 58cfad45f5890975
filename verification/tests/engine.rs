use temp_mongo::engine::{
    any_carries_name_in, container_config, fault_of, same_text, stripped, ContainerSummary,
    PortBinding, DATABASE_PORT, FIXED_NAME, IMAGE, NAME_SEPARATOR, PLATFORM,
};
use temp_mongo::error::STATUS_CONFLICT;

fn summary(names: &[&str]) -> ContainerSummary {
    ContainerSummary {
        names: names.iter().map(|name| name.to_string()).collect(),
    }
}

#[test]
fn constants_of_the_engine_surface() {
    assert_eq!(IMAGE, "mongo:latest");
    assert_eq!(PLATFORM, "linux/amd64");
    assert_eq!(FIXED_NAME, "temp_mongo_docker");
    assert_eq!(DATABASE_PORT, 27017);
    assert_eq!(NAME_SEPARATOR, '/');
    assert_eq!(STATUS_CONFLICT, 409);
}

#[test]
fn stripped_takes_one_separator_off_the_front() {
    assert_eq!(stripped("/temp_mongo_docker"), "temp_mongo_docker");
    assert_eq!(stripped("temp_mongo_docker"), "temp_mongo_docker");
    assert_eq!(stripped("//twice"), "/twice");
    assert_eq!(stripped("/"), "");
    assert_eq!(stripped(""), "");
    assert_eq!(stripped("inner/slash"), "inner/slash");
    assert_eq!(stripped("trailing/"), "trailing/");
}

#[test]
fn stripped_counts_characters_not_bytes() {
    assert_eq!(stripped("/añb"), "añb");
    assert_eq!(stripped("ñ/"), "ñ/");
}

#[test]
fn same_text_compares_all_characters() {
    assert!(same_text("", ""));
    assert!(same_text("abc", "abc"));
    assert!(!same_text("abc", "abd"));
    assert!(!same_text("abc", "ab"));
    assert!(!same_text("abc", "ABC"));
}

#[test]
fn carries_name_looks_at_every_name() {
    let container = summary(&["/first", "/temp_mongo_docker"]);
    assert!(container.carries_name("temp_mongo_docker"));
    assert!(container.carries_name("first"));
    assert!(!container.carries_name("/first"));
    assert!(!container.carries_name("temp_mongo"));
    assert!(!summary(&[]).carries_name("first"));
}

#[test]
fn carries_name_wants_the_whole_name() {
    let container = summary(&["/temp_mongo_docker_2", "/my_temp_mongo_docker"]);
    assert!(!container.carries_name("temp_mongo_docker"));
}

#[test]
fn any_carries_name_in_looks_at_every_container() {
    let containers = vec![
        summary(&["/alpha"]),
        summary(&[]),
        summary(&["/beta", "/temp_mongo_docker"]),
    ];
    assert!(any_carries_name_in(&containers, FIXED_NAME));
    assert!(any_carries_name_in(&containers, "alpha"));
    assert!(!any_carries_name_in(&containers, "gamma"));
    assert!(!any_carries_name_in(&Vec::new(), FIXED_NAME));
}

#[test]
fn container_config_of_the_fixed_container() {
    let config = container_config(FIXED_NAME, DATABASE_PORT);
    assert_eq!(config.name, "temp_mongo_docker");
    assert_eq!(config.platform, "linux/amd64");
    assert_eq!(config.image, "mongo:latest");
    assert_eq!(config.cmd, vec!["mongod".to_string(), "--noauth".to_string()]);
    assert!(config.env.is_empty());
    assert_eq!(config.binding.container_port, 27017);
    assert_eq!(config.binding.host_ip, "127.0.0.1");
    assert_eq!(config.binding.host_port, 27017);
}

#[test]
fn container_config_of_an_unnamed_container() {
    let config = container_config("", 50000);
    assert_eq!(config.name, "");
    assert_eq!(config.image, "mongo:latest");
    assert_eq!(config.binding.container_port, 27017);
    assert_eq!(config.binding.host_ip, "127.0.0.1");
    assert_eq!(config.binding.host_port, 50000);
}

#[test]
fn port_binding_texts_are_what_the_engine_takes() {
    let binding = PortBinding {
        container_port: 27017,
        host_ip: "127.0.0.1".to_string(),
        host_port: 40123,
    };
    assert_eq!(binding.container_key(), "27017/tcp");
    assert_eq!(binding.host_port_text(), "40123");
}

#[test]
fn fault_of_reads_the_status_of_a_server_response() {
    let fault = fault_of(&bollard::errors::Error::DockerResponseServerError {
        status_code: 409,
        message: "name in use".to_string(),
    });
    assert_eq!(fault.status, Some(409));
    assert!(fault.is_conflict());
    assert_eq!(
        fault.message,
        "Docker responded with status code 409: name in use"
    );
}

#[test]
fn fault_of_tells_other_statuses_from_a_conflict() {
    let fault = fault_of(&bollard::errors::Error::DockerResponseServerError {
        status_code: 404,
        message: "no such container".to_string(),
    });
    assert_eq!(fault.status, Some(404));
    assert!(!fault.is_conflict());
}

#[test]
fn fault_of_finds_no_status_where_the_engine_did_not_respond() {
    let fault = fault_of(&bollard::errors::Error::RequestTimeoutError);
    assert_eq!(fault.status, None);
    assert!(!fault.is_conflict());
    assert_eq!(fault.message, "Timeout error");
    let fault = fault_of(&bollard::errors::Error::DockerStreamError {
        error: "409".to_string(),
    });
    assert_eq!(fault.status, None);
    assert!(!fault.is_conflict());
}
