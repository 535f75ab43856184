use impulse::engine::EngineError;
use impulse::interface::{
    External, Internal, LaunchResult, ShutdownResult, StatusCode, Task, ACTION_LAUNCH,
    ACTION_NOOP, ACTION_SHUTDOWN,
};
use impulse::system_error::SystemError;

fn version_of(text: &str) -> usize {
    uuid::Uuid::parse_str(text).unwrap().get_version_num()
}

#[test]
fn new() {
    let test_error = SystemError::new("some_test_error");
    assert_eq!(test_error.details.as_str(), "some_test_error");
    assert_eq!(test_error.to_string(), "some_test_error");
}

#[test]
fn internal_interface_init() {
    let test_internal = Internal::init();
    assert_eq!(version_of(&test_internal.system_id), 4);
    assert_eq!(test_internal.nodes.len(), 0);
    assert_eq!(test_internal.nodes.capacity(), 20);
}

#[test]
fn internal_interface_register() {
    let mut test_internal = Internal::init();
    assert_eq!(test_internal.node_count(), 0);
    let test_system_id = test_internal.register(String::from("test_uuid"));
    assert_eq!(version_of(&test_system_id), 4);
    assert_eq!(test_internal.node_count(), 1);
}

#[test]
fn internal_interface_controller_response() {
    let mut test_internal = Internal::init();
    test_internal.nodes.push(String::from("test_uuid"));
    assert!(test_internal.controller("test_uuid").is_ok());
    let test_task = Task { action: 1, id: uuid::Uuid::new_v4().to_simple().to_string() };
    assert!(Internal::forwards(&test_task));
    assert_eq!(test_task.action, 1);
}

#[test]
fn internal_interface_controller_status() {
    let test_internal = Internal::init();
    let test_internal_controller = test_internal.controller("test_uuid");
    let error = test_internal_controller.unwrap_err();
    assert_eq!(error.code, StatusCode::NotFound);
    assert_eq!(error.message, "Node was not found... please register first!");
}

#[test]
fn internal_interface_delist_response() {
    let mut test_internal = Internal::init();
    test_internal.nodes.push(String::from("test_uuid"));
    assert_eq!(test_internal.nodes.len(), 1);
    let test_internal_delist = test_internal.delist("test_uuid").unwrap();
    assert_eq!(version_of(&test_internal_delist), 4);
    assert_eq!(test_internal.nodes.len(), 0);
}

#[test]
fn internal_interface_delist_status() {
    let mut test_internal = Internal::init();
    test_internal.nodes.push(String::from("test_uuid"));
    assert_eq!(test_internal.nodes.len(), 1);
    let error = test_internal.delist("not test_uuid").unwrap_err();
    assert_eq!(error.code, StatusCode::NotFound);
    assert_eq!(error.message, "Node not test_uuid was not found... please try again!");
    assert_eq!(test_internal.nodes.len(), 1);
}

#[test]
fn register_then_delist_returns_the_same_system_id() {
    let mut registry = Internal::init();
    let registered = registry.register(String::from("test_uuid"));
    assert_eq!(version_of(&registered), 4);
    assert_eq!(registry.node_count(), 1);
    let delisted = registry.delist("test_uuid").unwrap();
    assert_eq!(delisted, registered);
    assert_eq!(registry.node_count(), 0);
}

#[test]
fn register_delist_pairs_keep_the_registry() {
    let mut registry = Internal::with_system_id(7);
    registry.register(String::from("a"));
    registry.register(String::from("b"));
    for id in ["a", "c", "a", "b", "d", "c"] {
        registry.register(String::from(id));
        assert!(registry.is_registered(id));
        assert!(registry.delist(id).is_ok());
    }
    assert_eq!(registry.nodes, vec![String::from("a"), String::from("b")]);
    assert!(!registry.is_registered("c"));
}

#[test]
fn delist_removes_only_the_first_entry() {
    let mut registry = Internal::with_system_id(1);
    registry.register(String::from("x"));
    registry.register(String::from("y"));
    registry.register(String::from("x"));
    assert!(registry.delist("x").is_ok());
    assert_eq!(registry.nodes, vec![String::from("y"), String::from("x")]);
}

#[test]
fn system_id_is_the_hyphenated_uuid() {
    let registry = Internal::with_system_id(0x936DA01F9ABD4D9D80C702AF85C822A8);
    assert_eq!(registry.system_id, "936da01f-9abd-4d9d-80c7-02af85c822a8");
}

#[test]
fn controller_after_register_is_granted() {
    let mut registry = Internal::init();
    assert!(registry.controller("test_uuid").is_err());
    registry.register(String::from("test_uuid"));
    assert!(registry.controller("test_uuid").is_ok());
    assert!(registry.controller("other").is_err());
}

#[test]
fn only_launch_and_shutdown_tasks_are_forwarded() {
    let noop = Task { action: ACTION_NOOP, id: String::from("3") };
    let launch = Task { action: ACTION_LAUNCH, id: String::from("1") };
    let shutdown = Task { action: ACTION_SHUTDOWN, id: String::from("2") };
    let other = Task { action: 7, id: String::from("4") };
    assert!(!Internal::forwards(&noop));
    assert!(Internal::forwards(&launch));
    assert!(Internal::forwards(&shutdown));
    assert!(!Internal::forwards(&other));
}

#[test]
fn external_interface_init() {
    let test_external = External::init();
    assert_eq!(test_external.status.as_str(), "Running!");
    assert_eq!(test_external.version.as_str(), "v0.1.0");
}

#[test]
fn external_interface_system_status() {
    let test_external = External::init();
    assert_eq!(test_external.system_status().as_str(), "Running!");
}

#[test]
fn external_interface_system_version() {
    let test_external = External::init();
    assert_eq!(test_external.system_version().as_str(), "v0.1.0");
}

#[test]
fn external_interface_launch_vm_response() {
    let test_external = External::init();
    let task = test_external.launch_vm();
    assert_eq!(task.action, 1);
    assert_eq!(task.id.len(), 32);
    assert_eq!(uuid::Uuid::parse_str(&task.id).unwrap().get_version_num(), 4);
    let test_instance_start = LaunchResult { launched: true, details: String::from("test_uuid") };
    let reply = External::launch_reply(Some(test_instance_start)).unwrap();
    assert!(reply.launched);
    assert_eq!(reply.details.as_str(), "test_uuid");
}

#[test]
fn external_interface_shutdown_vm() {
    let test_external = External::init();
    let task = test_external.shutdown_vm(String::from("tester"));
    assert_eq!(task.action, 2);
    assert_eq!(task.id, "tester");
    let test_instance_shutdown =
        ShutdownResult { shutdown: true, details: String::from("test_uuid") };
    let reply = External::shutdown_reply(Some(test_instance_shutdown)).unwrap();
    assert!(reply.shutdown);
    assert_eq!(reply.details.as_str(), "test_uuid");
}

#[test]
fn launch_task_names_the_vm_in_simple_form() {
    let external = External::init();
    let task = external.launch_task(0x936DA01F9ABD4D9D80C702AF85C822A8);
    assert_eq!(task.action, ACTION_LAUNCH);
    assert_eq!(task.id, "936da01f9abd4d9d80c702af85c822a8");
}

#[test]
fn closed_result_channel_is_not_found() {
    let launch = External::launch_reply(None).unwrap_err();
    assert_eq!(launch.code, StatusCode::NotFound);
    assert_eq!(launch.message, "Something went wrong!");
    let shutdown = External::shutdown_reply(None).unwrap_err();
    assert_eq!(shutdown.code, StatusCode::NotFound);
    assert_eq!(shutdown.message, "Something went wrong!");
}

#[test]
fn failed_launch_reply_is_passed_on() {
    let failed = LaunchResult { launched: false, details: String::from("no space left") };
    let reply = External::launch_reply(Some(failed)).unwrap();
    assert!(!reply.launched);
    assert_eq!(reply.details, "no space left");
}

#[test]
fn engine_error_messages() {
    assert_eq!(EngineError::MalformedUuid.message(), "the VM name is not a UUID");
    assert_eq!(
        EngineError::ConfigIo(String::from("denied")).message(),
        "could not write the VM configuration: denied"
    );
    assert_eq!(
        EngineError::ImageStaging(String::from("missing")).message(),
        "could not stage the VM images: missing"
    );
    assert_eq!(EngineError::Supervisor.message(), "the supervisor reported a failure");
}
