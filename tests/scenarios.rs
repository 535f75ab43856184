use tokio::sync::broadcast;

use impulse::interface::{External, Internal, LaunchResult, Task};
use impulse::micro_vm::MicroVM;

#[test]
fn launch_fan_out() {
    let mut registry = Internal::init();
    registry.register(String::from("test_uuid"));
    assert!(registry.controller("test_uuid").is_ok());

    let (tasks, _) = broadcast::channel::<Task>(4);
    let mut first = tasks.subscribe();
    let mut second = tasks.subscribe();
    let (results, _) = broadcast::channel::<LaunchResult>(4);
    let mut waiting = results.subscribe();

    let external = External::init();
    let task = external.launch_vm();
    let published_id = task.id.clone();
    tasks.send(task).unwrap();

    for subscriber in [&mut first, &mut second] {
        let received = subscriber.try_recv().unwrap();
        assert!(Internal::forwards(&received));
        assert_eq!(received.action, 1);
        assert_eq!(received.id, published_id);
        assert!(subscriber.try_recv().is_err());
    }

    results.send(LaunchResult { launched: true, details: String::from("test_uuid") }).unwrap();
    let reply = External::launch_reply(waiting.try_recv().ok()).unwrap();
    assert!(reply.launched);
    assert_eq!(reply.details, "test_uuid");
}

#[test]
fn micro_vm_path_shape() {
    let nil = "00000000000000000000000000000000";
    let vm = MicroVM::init(nil, "/var/lib/test/machine", "/tmp/test/socket", "/srv/test/");
    assert_eq!(vm.api_socket, "/tmp/test/socket/00000000000000000000000000000000.socket");
    assert_eq!(vm.base, "/srv/test/00000000000000000000000000000000");
    assert_eq!(vm.unit_name, "--unit=00000000000000000000000000000000");
    assert_eq!(vm.unit_slice, "--slice=00000000000000000000000000000000");
}

#[test]
fn config_json_fields() {
    let nil = "00000000000000000000000000000000";
    let vm = MicroVM::init(nil, "/var/lib/impulse_actuator/machine", "/tmp/s", "/srv/impulse_actuator/");
    let config = vm.config_file;
    assert_eq!(config.boot_source.boot_args, "console=ttyS0 reboot=k panic=1 pci=off");
    assert_eq!(
        config.drives[0].path_on_host,
        "/srv/impulse_actuator/00000000000000000000000000000000/some_root_fs"
    );
    assert_eq!(config.machine_config.mem_size_mib, 1024);
    assert_eq!(config.machine_config.vcpu_count, 2);
    assert!(config.machine_config.ht_enabled);
}
