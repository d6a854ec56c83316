//! Launch-time validation and jailer command-line construction.

use firec::config::drive::Drive;
use firec::config::jailer::{Jailer, JailerMode, Stdio};
use firec::config::machine::Machine;
use firec::error::Error;
use firec::launch::{jailer_args, validate, Config, HostConditions};

fn valid_machine() -> Machine {
    Machine::builder().vcpu_count(2).mem_size_mib(128).build()
}

fn all_good(drive_count: usize) -> HostConditions {
    HostConditions {
        jailer_binary_resolvable: true,
        exec_file_present: true,
        drive_paths_present: vec![true; drive_count],
        chroot_base_writable: true,
        socket_path_usable: true,
    }
}

#[test]
fn valid_configuration_passes() {
    let c = Config::builder()
        .machine(valid_machine())
        .add_drive(Drive::builder(String::from("root"), String::from("/tmp/rootfs")).build())
        .socket_path(String::from("/tmp/fc.sock"))
        .build();
    assert_eq!(validate(&c, &all_good(1)), Ok(()));
}

#[test]
fn missing_drive_path_fails_with_invalid_drive_path() {
    let c = Config::builder()
        .machine(valid_machine())
        .add_drive(Drive::builder(String::from("root"), String::from("/nonexistent")).build())
        .build();
    let mut host = all_good(1);
    host.drive_paths_present = vec![false];
    assert_eq!(validate(&c, &host), Err(Error::InvalidDrivePath));
}

#[test]
fn second_missing_drive_path_also_fails() {
    let c = Config::builder()
        .machine(valid_machine())
        .add_drive(Drive::builder(String::from("root"), String::from("/tmp/rootfs")).build())
        .add_drive(Drive::builder(String::from("data"), String::from("/nonexistent")).build())
        .build();
    let mut host = all_good(2);
    host.drive_paths_present = vec![true, false];
    assert_eq!(validate(&c, &host), Err(Error::InvalidDrivePath));
}

#[test]
fn vcpu_count_of_three_fails_before_any_path_check() {
    let m = Machine::builder().vcpu_count(3).mem_size_mib(128).build();
    let c = Config::builder().machine(m).build();
    let mut host = all_good(0);
    // Even a host where every path check would fail never gets that far.
    host.jailer_binary_resolvable = false;
    host.exec_file_present = false;
    host.chroot_base_writable = false;
    assert_eq!(validate(&c, &host), Err(Error::InvalidVcpuCount(3)));
}

#[test]
fn vcpu_count_of_one_and_even_counts_pass() {
    for n in [1usize, 2, 4, 32] {
        let m = Machine::builder().vcpu_count(n).mem_size_mib(128).build();
        let c = Config::builder().machine(m).build();
        assert_eq!(validate(&c, &all_good(0)), Ok(()));
    }
}

#[test]
fn vcpu_count_out_of_range_fails() {
    for n in [0usize, 33, 34] {
        let m = Machine::builder().vcpu_count(n).mem_size_mib(128).build();
        let c = Config::builder().machine(m).build();
        assert_eq!(validate(&c, &all_good(0)), Err(Error::InvalidVcpuCount(n)));
    }
}

#[test]
fn zero_memory_size_fails() {
    let m = Machine::builder().vcpu_count(1).build();
    let c = Config::builder().machine(m).build();
    assert_eq!(validate(&c, &all_good(0)), Err(Error::InvalidMemorySize(0)));
}

#[test]
fn unresolvable_jailer_binary_fails() {
    let c = Config::builder().machine(valid_machine()).build();
    let mut host = all_good(0);
    host.jailer_binary_resolvable = false;
    assert_eq!(validate(&c, &host), Err(Error::InvalidJailerExecPath));
}

#[test]
fn missing_exec_file_fails() {
    let c = Config::builder().machine(valid_machine()).build();
    let mut host = all_good(0);
    host.exec_file_present = false;
    assert_eq!(validate(&c, &host), Err(Error::InvalidExecPath));
}

#[test]
fn unwritable_chroot_base_fails() {
    let c = Config::builder().machine(valid_machine()).build();
    let mut host = all_good(0);
    host.chroot_base_writable = false;
    assert_eq!(validate(&c, &host), Err(Error::InvalidChrootBasePath));
}

#[test]
fn unusable_socket_path_fails_only_when_configured() {
    let mut host = all_good(0);
    host.socket_path_usable = false;

    let with_socket = Config::builder()
        .machine(valid_machine())
        .socket_path(String::from("/tmp/taken"))
        .build();
    assert_eq!(validate(&with_socket, &host), Err(Error::InvalidSocketPath));

    let without_socket = Config::builder().machine(valid_machine()).build();
    assert_eq!(validate(&without_socket, &host), Ok(()));
}

#[test]
fn config_build_is_idempotent() {
    let j = Jailer::builder().gid(3).uid(4).id(String::from("fixed")).build();
    let make = |jailer: Jailer| {
        Config::builder()
            .machine(valid_machine())
            .jailer(jailer)
            .add_drive(Drive::builder(String::from("root"), String::from("/tmp/rootfs")).build())
            .socket_path(String::from("/tmp/fc.sock"))
            .build()
    };
    let c1 = make(j.clone());
    let c2 = make(j);
    assert_eq!(c1.machine().vcpu_count(), c2.machine().vcpu_count());
    assert_eq!(c1.machine().mem_size_mib(), c2.machine().mem_size_mib());
    assert_eq!(c1.jailer().id(), c2.jailer().id());
    assert_eq!(c1.drives().len(), c2.drives().len());
    assert_eq!(c1.drives()[0].drive_id(), c2.drives()[0].drive_id());
    assert_eq!(c1.socket_path(), c2.socket_path());
}

#[test]
fn jailer_args_attached_without_numa() {
    let j = Jailer::builder()
        .gid(456)
        .uid(123)
        .id(String::from("test-vm"))
        .exec_file(String::from("/usr/bin/firecracker"))
        .chroot_base_dir(String::from("/srv/jailer"))
        .build();
    let args = jailer_args(&j);
    assert_eq!(
        args,
        vec![
            String::from("--id"),
            String::from("test-vm"),
            String::from("--exec-file"),
            String::from("/usr/bin/firecracker"),
            String::from("--uid"),
            String::from("123"),
            String::from("--gid"),
            String::from("456"),
            String::from("--chroot-base-dir"),
            String::from("/srv/jailer"),
        ]
    );
}

#[test]
fn jailer_args_daemon_with_numa() {
    let j = Jailer::builder()
        .gid(0)
        .uid(4294967295)
        .id(String::from("vm-1"))
        .numa_node(1)
        .mode(JailerMode::Daemon)
        .build();
    let args = jailer_args(&j);
    assert_eq!(args[4..6], [String::from("--uid"), String::from("4294967295")]);
    assert_eq!(args[6..8], [String::from("--gid"), String::from("0")]);
    assert_eq!(args[10..12], [String::from("--node"), String::from("1")]);
    assert_eq!(args[12], String::from("--daemonize"));
    assert_eq!(args.len(), 13);
}

#[test]
fn jailer_args_attached_has_no_daemonize_flag() {
    let j = Jailer::builder()
        .mode(JailerMode::Attached(Stdio { stdout: None, stderr: None, stdin: None }))
        .build();
    let args = jailer_args(&j);
    assert!(!args.contains(&String::from("--daemonize")));
}
