use droidnode::brokers::proot_broker::{
    ensure_workload_command_exists, guest_program, spawn_failure, CommandLookup, ProotBrokerImpl,
    ProotCommand,
};
use droidnode::brokers::proot_launch::{LaunchAction, LaunchEvent};
use droidnode::error::DroidError;
use droidnode::models::Mount;

fn strings(items: &[&str]) -> Vec<String> {
    items.iter().map(|s| s.to_string()).collect()
}

fn broker() -> ProotBrokerImpl {
    ProotBrokerImpl::new("/app/lib/libproot.so".to_string())
}

fn var<'a>(env: &'a [(String, String)], key: &str) -> Option<&'a str> {
    env.iter().rev().find(|(k, _)| k == key).map(|(_, v)| v.as_str())
}

/// A host in memory.
#[derive(Default)]
struct Host {
    paths: Vec<&'static str>,
    bin: Option<Vec<Option<String>>>,
    no_dirs: bool,
    no_spawn: bool,
    log: Vec<String>,
}

impl Host {
    fn new(paths: &[&'static str]) -> Self {
        Host { paths: paths.to_vec(), ..Host::default() }
    }

    fn run(
        &mut self,
        command: &[&str],
        env: Vec<(String, String)>,
        mounts: Vec<Mount>,
        cwd: Option<&str>,
    ) -> Result<ProotCommand, DroidError> {
        let (mut launch, mut action) = broker().execute(
            "/r",
            strings(command),
            env,
            mounts,
            cwd.map(|d| d.to_string()),
            "/host/tmp",
        )?;
        let mut spawned: Option<ProotCommand> = None;
        loop {
            let event = match action {
                LaunchAction::MakeDir { path } => {
                    self.log.push(format!("mkdir {path}"));
                    if self.no_dirs {
                        LaunchEvent::Refused("full".to_string())
                    } else {
                        LaunchEvent::Done
                    }
                }
                LaunchAction::LookForProgram { path } => {
                    self.log.push(format!("program {path}"));
                    if self.paths.contains(&path.as_str()) {
                        LaunchEvent::Done
                    } else {
                        LaunchEvent::Missing("gone".to_string())
                    }
                }
                LaunchAction::ListDir { path } => {
                    self.log.push(format!("list {path}"));
                    LaunchEvent::Listed(self.bin.clone())
                }
                LaunchAction::LookFor { path } => {
                    self.log.push(format!("look {path}"));
                    LaunchEvent::Found(self.paths.contains(&path.as_str()))
                }
                LaunchAction::Spawn { command } => {
                    self.log.push("spawn".to_string());
                    spawned = Some(command);
                    if self.no_spawn {
                        LaunchEvent::Refused("no such file".to_string())
                    } else {
                        LaunchEvent::Done
                    }
                }
                LaunchAction::Finished => return Ok(spawned.unwrap()),
                LaunchAction::Failed(e) => return Err(e),
            };
            assert!(launch.is_awaiting(&event));
            action = launch.step(event);
        }
    }
}

#[test]
fn proot_runs_the_command_in_the_root_file_system() {
    let mut host = Host::new(&[
        "/r/bin/sh",
        "/app/lib/libproot_loader.so",
        "/etc/resolv.conf",
        "/etc/hosts",
    ]);
    let run = host
        .run(&["/bin/sh", "-c", "echo hello from proot"], vec![], vec![], None)
        .unwrap();
    assert_eq!(run.program, "/app/lib/libproot.so");
    assert_eq!(
        run.args,
        strings(&[
            "-r", "/r", "-w", "/", "-b", "/dev", "-b", "/proc", "-b", "/sys", "-b",
            "/etc/resolv.conf", "-b", "/etc/hosts", "/bin/sh", "-c", "echo hello from proot",
        ])
    );
    assert_eq!(var(&run.env, "PROOT_NO_SECCOMP"), Some("1"));
    assert_eq!(var(&run.env, "PROOT_TMP_DIR"), Some("/host/tmp"));
    assert_eq!(var(&run.env, "TMPDIR"), Some("/tmp"));
    assert_eq!(
        var(&run.env, "PATH"),
        Some("/usr/local/sbin:/usr/local/bin:/usr/sbin:/usr/bin:/sbin:/bin")
    );
    assert_eq!(var(&run.env, "PROOT_LOADER"), Some("/app/lib/libproot_loader.so"));
    assert_eq!(
        host.log,
        strings(&[
            "mkdir /r/tmp",
            "mkdir /host/tmp",
            "program /r/bin/sh",
            "look /app/lib/libproot_loader.so",
            "look /etc/resolv.conf",
            "look /etc/hosts",
            "spawn",
        ])
    );
}

#[test]
fn workload_variables_come_last() {
    let env = vec![
        ("PATH".to_string(), "/mine".to_string()),
        ("A".to_string(), "1".to_string()),
        ("A".to_string(), "2".to_string()),
    ];
    let run = Host::new(&[]).run(&["x"], env, vec![], Some("/work")).unwrap();
    assert_eq!(var(&run.env, "PATH"), Some("/mine"));
    assert_eq!(var(&run.env, "A"), Some("2"));
    assert_eq!(var(&run.env, "PROOT_LOADER"), None);
    assert_eq!(
        run.args,
        strings(&["-r", "/r", "-w", "/work", "-b", "/dev", "-b", "/proc", "-b", "/sys", "x"])
    );
}

#[test]
fn mounts_without_a_source_are_left_out() {
    let mount = |s: &str, t: &str| Mount {
        source: s.to_string(),
        target: t.to_string(),
        read_only: false,
    };
    let mounts = vec![mount("/a", "/b"), mount("/c", "/d"), mount("/e", "/f")];
    let mut host = Host::new(&["/a", "/e", "/etc/hosts"]);
    let run = host.run(&["x"], vec![], mounts, None).unwrap();
    assert_eq!(
        run.args,
        strings(&[
            "-r", "/r", "-w", "/", "-b", "/dev", "-b", "/proc", "-b", "/sys", "-b", "/etc/hosts",
            "-b", "/a:/b", "-b", "/e:/f", "x",
        ])
    );
    assert_eq!(host.log[5..], strings(&["look /a", "look /c", "look /e", "spawn"]));
}

#[test]
fn an_empty_command_is_refused_at_once() {
    let mut host = Host::new(&[]);
    match host.run(&[], vec![], vec![], None) {
        Err(DroidError::Process(m)) => assert_eq!(m, "command is empty"),
        other => panic!("{other:?}"),
    }
    assert!(host.log.is_empty());
}

#[test]
fn a_missing_program_is_not_started() {
    let mut host = Host::new(&[]);
    host.bin = Some(vec![Some("ls".to_string())]);
    match host.run(&["/bin/sh"], vec![], vec![], None) {
        Err(DroidError::Workload(m)) => assert_eq!(
            m,
            "workload command /bin/sh not found at /r/bin/sh: gone; rootfs bin entries: ls"
        ),
        other => panic!("{other:?}"),
    }
    assert_eq!(
        host.log,
        strings(&["mkdir /r/tmp", "mkdir /host/tmp", "program /r/bin/sh", "list /r/bin"])
    );
}

#[test]
fn directories_that_cannot_be_made_end_a_launch() {
    let mut host = Host { no_dirs: true, ..Host::default() };
    match host.run(&["x"], vec![], vec![], None) {
        Err(DroidError::Filesystem(m)) => assert_eq!(m, "full"),
        other => panic!("{other:?}"),
    }
    assert_eq!(host.log, strings(&["mkdir /r/tmp"]));
}

#[test]
fn proot_that_cannot_be_started_ends_a_launch() {
    let mut host = Host { no_spawn: true, ..Host::default() };
    match host.run(&["x"], vec![], vec![], None) {
        Err(DroidError::Process(m)) => assert_eq!(m, "proot spawn failed: no such file"),
        other => panic!("{other:?}"),
    }
}

#[test]
fn the_loader_stands_beside_proot() {
    assert_eq!(broker().loader_path(), "/app/lib/libproot_loader.so");
    assert_eq!(ProotBrokerImpl::new("proot".to_string()).loader_path(), "libproot_loader.so");
}

#[test]
fn absolute_commands_have_a_place_on_the_host() {
    assert_eq!(guest_program("/r", &strings(&["/bin/sh"])).as_deref(), Some("/r/bin/sh"));
    assert_eq!(guest_program("/r", &strings(&["//./bin//sh/"])).as_deref(), Some("/r/bin//sh"));
    assert_eq!(guest_program("/r", &strings(&["sh"])), None);
    assert_eq!(guest_program("/r", &strings(&["./sh"])), None);
}

fn missing(bin_entries: Option<Vec<Option<String>>>) -> CommandLookup {
    CommandLookup::Missing { reason: "gone".to_string(), bin_entries }
}

fn complaint(bin_entries: Option<Vec<Option<String>>>) -> String {
    match ensure_workload_command_exists("/r", &strings(&["/x", "y"]), &missing(bin_entries)) {
        Err(DroidError::Workload(m)) => m,
        other => panic!("{other:?}"),
    }
}

#[test]
fn missing_commands_are_explained() {
    let some = |s: &str| Some(s.to_string());
    assert_eq!(
        complaint(Some(vec![some("ls"), None, some("sh")])),
        "workload command /x not found at /r/x: gone; rootfs bin entries: ls,sh"
    );
    assert_eq!(
        complaint(None),
        "workload command /x not found at /r/x: gone; rootfs bin entries: <missing bin dir>"
    );
    let many: Vec<Option<String>> = (0..25).map(|i| Some(format!("n{i}"))).collect();
    assert!(complaint(Some(many)).ends_with(",n19"));
}

#[test]
fn commands_that_are_there_or_are_no_paths_pass() {
    let found = CommandLookup::Found;
    assert!(ensure_workload_command_exists("/r", &strings(&["/x"]), &found).is_ok());
    assert!(ensure_workload_command_exists("/r", &strings(&["sh"]), &missing(None)).is_ok());
}

#[test]
fn proot_may_fail_to_start() {
    match spawn_failure("no such file") {
        DroidError::Process(m) => assert_eq!(m, "proot spawn failed: no such file"),
        other => panic!("{other:?}"),
    }
}
