//! Tests against a real pseudo-terminal: every stream the caller leaves
//! alone is connected to the pty, every stream the caller configures
//! explicitly is not, and the builder's pass-through configuration
//! reaches the spawned program.

use pty_process::{Command, NoopHook, OsLayer, Pty, PreExecHook};
use rustix::fd::{AsFd, AsRawFd, OwnedFd};

struct SlaveOs {
    slave: OwnedFd,
}

impl OsLayer<NoopHook> for SlaveOs {
    fn derive_stdio(
        &mut self,
        _pts_fd: i32,
    ) -> Result<(async_process::Stdio, async_process::Stdio, async_process::Stdio), std::io::Error>
    {
        let a = rustix::io::dup(&self.slave)?;
        let b = rustix::io::dup(&self.slave)?;
        let c = rustix::io::dup(&self.slave)?;
        Ok((
            async_process::Stdio::from(a),
            async_process::Stdio::from(b),
            async_process::Stdio::from(c),
        ))
    }

    fn install_pre_exec(
        &mut self,
        _delegate: &mut async_process::Command,
        _pts_fd: i32,
        _user_hook: Option<NoopHook>,
    ) {
    }
}

fn open_pty() -> (OwnedFd, SlaveOs, Pty) {
    let master = rustix::pty::openpt(
        rustix::pty::OpenptFlags::RDWR | rustix::pty::OpenptFlags::NOCTTY,
    )
    .unwrap();
    rustix::pty::grantpt(&master).unwrap();
    rustix::pty::unlockpt(&master).unwrap();
    let name = rustix::pty::ptsname(&master, Vec::new()).unwrap();
    let slave = rustix::fs::open(
        &name,
        rustix::fs::OFlags::RDWR | rustix::fs::OFlags::NOCTTY,
        rustix::fs::Mode::empty(),
    )
    .unwrap();
    let pty = Pty::new(slave.as_fd().as_raw_fd());
    (master, SlaveOs { slave }, pty)
}

/// Reads from the pty master until `needle` has appeared in the output.
fn read_until(master: &OwnedFd, needle: &str) -> String {
    let mut out: Vec<u8> = Vec::new();
    let mut buf = [0u8; 1024];
    loop {
        match rustix::io::read(master, &mut buf[..]) {
            Ok(0) => break,
            Ok(n) => {
                out.extend_from_slice(&buf[..n]);
                if String::from_utf8_lossy(&out).contains(needle) {
                    break;
                }
            },
            Err(_) => break,
        }
    }
    String::from_utf8_lossy(&out).into_owned()
}

/// Reads whatever is buffered on the pty master without blocking.
fn drain(master: &OwnedFd) -> String {
    rustix::io::ioctl_fionbio(master, true).unwrap();
    let mut out: Vec<u8> = Vec::new();
    let mut buf = [0u8; 1024];
    loop {
        match rustix::io::read(master, &mut buf[..]) {
            Ok(0) => break,
            Ok(n) => out.extend_from_slice(&buf[..n]),
            Err(_) => break,
        }
    }
    String::from_utf8_lossy(&out).into_owned()
}

fn wait(child: &mut async_process::Child) {
    futures_lite::future::block_on(child.status()).unwrap();
}

#[test]
fn all_streams_default_to_pty() {
    let (master, mut os, pty) = open_pty();
    let mut cmd = Command::<NoopHook>::new("sh");
    cmd.arg("-c").arg("read line; echo got_$line");
    let mut child = cmd.spawn(&mut os, &pty).unwrap();
    rustix::io::write(&master, b"abc\n").unwrap();
    let out = read_until(&master, "got_abc");
    assert!(out.contains("got_abc"));
    wait(&mut child);
}

#[test]
fn explicit_stderr_not_connected_to_pty() {
    let (master, mut os, pty) = open_pty();
    let mut cmd = Command::<NoopHook>::new("sh");
    cmd.arg("-c");
    cmd.arg("echo visible; echo hidden 1>&2");
    cmd.stderr(async_process::Stdio::null());
    let mut child = cmd.spawn(&mut os, &pty).unwrap();
    wait(&mut child);
    let out = read_until(&master, "visible");
    assert!(out.contains("visible"));
    let rest = drain(&master);
    assert!(!out.contains("hidden"));
    assert!(!rest.contains("hidden"));
}

#[test]
fn explicit_stdout_leaves_other_streams_on_pty() {
    let (master, mut os, pty) = open_pty();
    let mut cmd = Command::<NoopHook>::new("sh");
    cmd.arg("-c");
    cmd.arg("echo dropped; echo kept 1>&2");
    cmd.stdout(async_process::Stdio::null());
    let mut child = cmd.spawn(&mut os, &pty).unwrap();
    wait(&mut child);
    let out = read_until(&master, "kept");
    assert!(out.contains("kept"));
    let rest = drain(&master);
    assert!(!out.contains("dropped"));
    assert!(!rest.contains("dropped"));
}

#[test]
fn arguments_reach_program() {
    let (master, mut os, pty) = open_pty();
    let mut cmd = Command::<NoopHook>::new("echo");
    cmd.arg("one").args(&vec![String::from("two"), String::from("three")]);
    let mut child = cmd.spawn(&mut os, &pty).unwrap();
    let out = read_until(&master, "one two three");
    assert!(out.contains("one two three"));
    wait(&mut child);
}

#[test]
fn environment_reaches_program() {
    let (master, mut os, pty) = open_pty();
    let mut cmd = Command::<NoopHook>::new("sh");
    cmd.env("PTY_SPAWN_TEST_VAR", "zap");
    cmd.envs(&vec![
        (String::from("PTY_SPAWN_TEST_A"), String::from("1")),
        (String::from("PTY_SPAWN_TEST_B"), String::from("2")),
    ]);
    cmd.arg("-c");
    cmd.arg("echo v=$PTY_SPAWN_TEST_VAR$PTY_SPAWN_TEST_A$PTY_SPAWN_TEST_B");
    let mut child = cmd.spawn(&mut os, &pty).unwrap();
    let out = read_until(&master, "v=zap12");
    assert!(out.contains("v=zap12"));
    wait(&mut child);
}

#[test]
fn env_remove_hides_inherited_variable() {
    let (master, mut os, pty) = open_pty();
    let mut cmd = Command::<NoopHook>::new("/bin/sh");
    cmd.env_remove("HOME");
    cmd.arg("-c");
    cmd.arg("echo p=${HOME}end");
    let mut child = cmd.spawn(&mut os, &pty).unwrap();
    let out = read_until(&master, "p=end");
    assert!(out.contains("p=end"));
    wait(&mut child);
}

#[test]
fn env_clear_clears_environment() {
    let (master, mut os, pty) = open_pty();
    let mut cmd = Command::<NoopHook>::new("/bin/sh");
    cmd.env_clear();
    cmd.arg("-c");
    cmd.arg("echo h=${HOME}end");
    let mut child = cmd.spawn(&mut os, &pty).unwrap();
    let out = read_until(&master, "h=end");
    assert!(out.contains("h=end"));
    wait(&mut child);
}

#[test]
fn env_remove_after_clear_drops_explicit_entry() {
    let (master, mut os, pty) = open_pty();
    let mut cmd = Command::<NoopHook>::new("/bin/sh");
    cmd.env_clear();
    cmd.env("PTY_SPAWN_TEST_GONE", "1");
    cmd.env_remove("PTY_SPAWN_TEST_GONE");
    cmd.arg("-c");
    cmd.arg("echo g=${PTY_SPAWN_TEST_GONE}end");
    let mut child = cmd.spawn(&mut os, &pty).unwrap();
    let out = read_until(&master, "g=end");
    assert!(out.contains("g=end"));
    wait(&mut child);
}

#[test]
fn current_dir_sets_working_directory() {
    let (master, mut os, pty) = open_pty();
    let mut cmd = Command::<NoopHook>::new("sh");
    cmd.current_dir("/tmp");
    cmd.arg("-c");
    cmd.arg("echo d=$(pwd)");
    let mut child = cmd.spawn(&mut os, &pty).unwrap();
    let out = read_until(&master, "d=/tmp");
    assert!(out.contains("d=/tmp"));
    wait(&mut child);
}

#[test]
fn arg0_overrides_program_name() {
    let (master, mut os, pty) = open_pty();
    let mut cmd = Command::<NoopHook>::new("/bin/sh");
    cmd.arg0("customname0");
    cmd.arg("-c");
    cmd.arg("echo name=$0");
    let mut child = cmd.spawn(&mut os, &pty).unwrap();
    let out = read_until(&master, "name=customname0");
    assert!(out.contains("name=customname0"));
    wait(&mut child);
}

#[test]
fn uid_and_gid_reach_child() {
    // Dropping privileges needs the test to run as root; these ids are
    // the conventional unprivileged "nobody" pair.
    if rustix::process::getuid().as_raw() != 0 {
        return;
    }
    let (master, mut os, pty) = open_pty();
    let mut cmd = Command::<NoopHook>::new("sh");
    cmd.uid(65534).gid(65534);
    cmd.arg("-c");
    cmd.arg("echo ids=$(id -u):$(id -g)");
    let mut child = cmd.spawn(&mut os, &pty).unwrap();
    let out = read_until(&master, "ids=65534:65534");
    assert!(out.contains("ids=65534:65534"));
    wait(&mut child);
}

#[test]
fn user_hook_type_is_usable_from_outside() {
    let mut hook = NoopHook;
    assert!(hook.run().is_ok());
}
