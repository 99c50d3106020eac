//! The trusted boundary to the operating system's pseudo-terminals.
//!
//! Every function here wraps one step of talking to the OS through
//! `portable_pty` (or to a process-shared flag through `std::sync`); Verus
//! believes the stated contracts and verifies nothing inside the bodies.
//! The handle types are opaque capabilities: the registry stores and routes
//! them, and all logic about them is stated over their plain-value results.
use vstd::prelude::*;
use std::io::Read;
use std::io::Write;
use std::sync::Arc;
use std::sync::Mutex;
use std::sync::atomic::AtomicBool;
use std::sync::atomic::Ordering;

verus! {

/// The controlling side of an open PTY pair. Supports resizing in place,
/// handing out its single writer, and cloning independent readers.
#[verifier::external_body]
pub struct MasterHandle {
    inner: Box<dyn portable_pty::MasterPty + Send>,
}

/// The process-facing side of an open PTY pair; a child process is started
/// attached to it.
#[verifier::external_body]
pub struct SlaveHandle {
    inner: Box<dyn portable_pty::SlavePty + Send>,
}

/// A running child process. Held alive for the whole session so the OS can
/// reap it cleanly, even though it is never polled after spawn.
#[verifier::external_body]
pub struct ChildHandle {
    inner: Box<dyn portable_pty::Child + Send + Sync>,
}

/// The exclusive writer to a PTY master. The lock scopes exclusivity to one
/// write-and-flush sequence at a time when callers dispatch concurrently.
#[verifier::external_body]
pub struct PtyWriter {
    inner: Mutex<Box<dyn Write + Send>>,
}

/// An independent read side cloned from a PTY master; the reader loop
/// drains it until EOF, error, or cancellation.
#[verifier::external_body]
pub struct PtyReader {
    inner: Box<dyn Read + Send>,
}

/// One end of a shared cancellation flag between a session and its reader
/// loop: raised once on close, polled by the loop.
#[verifier::external_body]
pub struct CancelFlag {
    inner: Arc<AtomicBool>,
}

#[verifier::external_type_specification]
#[verifier::external_body]
pub struct ExCommandBuilder(portable_pty::CommandBuilder);

/// Relies on `portable_pty::native_pty_system` and `PtySystem::openpty`:
/// asks the OS for a fresh PTY pair with the given size in character cells
/// (pixel sizes are not tracked and passed as zero). Whether it succeeds is
/// the OS's decision; nothing is promised beyond the error message shape.
#[verifier::external_body]
pub fn open_pty(cols: u16, rows: u16) -> Result<(MasterHandle, SlaveHandle), String> {
    let system = portable_pty::native_pty_system();
    let size = portable_pty::PtySize { rows, cols, pixel_width: 0, pixel_height: 0 };
    match system.openpty(size) {
        Ok(pair) => Ok((
            MasterHandle { inner: pair.master },
            SlaveHandle { inner: pair.slave },
        )),
        Err(e) => Err(format!("Failed to open PTY: {}", e)),
    }
}

/// Relies on `portable_pty::CommandBuilder::new`: a command that will run
/// the given program with the current environment as its base.
#[verifier::external_body]
pub fn command_new(program: &String) -> portable_pty::CommandBuilder {
    portable_pty::CommandBuilder::new(program.as_str())
}

/// Relies on `portable_pty::CommandBuilder::env`: sets one environment
/// variable on the command, overwriting an earlier entry of the same name.
#[verifier::external_body]
pub fn command_env(cmd: &mut portable_pty::CommandBuilder, key: &str, value: &str) {
    cmd.env(key, value);
}

/// Relies on `portable_pty::SlavePty::spawn_command`: starts the command as
/// a child process attached to the slave side. Success is the OS's decision.
#[verifier::external_body]
pub fn spawn_child(slave: &SlaveHandle, cmd: portable_pty::CommandBuilder) -> Result<ChildHandle, String> {
    match slave.inner.spawn_command(cmd) {
        Ok(child) => Ok(ChildHandle { inner: child }),
        Err(e) => Err(format!("Failed to spawn shell: {}", e)),
    }
}

/// Relies on `portable_pty::Child::process_id`: the OS process id of the
/// child, or `None` where the OS cannot report one.
#[verifier::external_body]
pub fn child_pid(child: &ChildHandle) -> Option<u32> {
    child.inner.process_id()
}

/// Relies on `portable_pty::MasterPty::take_writer`: the single writable
/// handle of the master, which may be taken only once per pair.
#[verifier::external_body]
pub fn take_writer(master: &MasterHandle) -> Result<PtyWriter, String> {
    match master.inner.take_writer() {
        Ok(w) => Ok(PtyWriter { inner: Mutex::new(w) }),
        Err(e) => Err(format!("Failed to get writer: {}", e)),
    }
}

/// Relies on `portable_pty::MasterPty::try_clone_reader`: an independent
/// handle on which the slave side's output can be read.
#[verifier::external_body]
pub fn clone_reader(master: &MasterHandle) -> Result<PtyReader, String> {
    match master.inner.try_clone_reader() {
        Ok(r) => Ok(PtyReader { inner: r }),
        Err(e) => Err(format!("Failed to get reader: {}", e)),
    }
}

/// Relies on `portable_pty::MasterPty::resize`: tells the kernel the new
/// size of the PTY in character cells and signals the child to notice it.
#[verifier::external_body]
pub fn master_resize(master: &MasterHandle, cols: u16, rows: u16) -> Result<(), String> {
    let size = portable_pty::PtySize { rows, cols, pixel_width: 0, pixel_height: 0 };
    match master.inner.resize(size) {
        Ok(()) => Ok(()),
        Err(e) => Err(format!("Failed to resize PTY: {}", e)),
    }
}

/// Relies on `std::io::Write::write_all` and `flush` on the writer that
/// `portable_pty` handed out, under its exclusion lock, so each call's
/// bytes reach the child contiguously. Whether the OS accepts the bytes
/// (the child may already have exited) is its decision.
#[verifier::external_body]
pub fn writer_send(writer: &PtyWriter, data: &[u8]) -> Result<(), String> {
    let mut guard = match writer.inner.lock() {
        Ok(g) => g,
        Err(e) => return Err(format!("Failed to lock writer: {}", e)),
    };
    if let Err(e) = guard.write_all(data) {
        return Err(format!("Failed to write to PTY: {}", e));
    }
    if let Err(e) = guard.flush() {
        return Err(format!("Failed to flush PTY: {}", e));
    }
    Ok(())
}

/// Relies on `std::io::Read::read` on the reader that `portable_pty` handed
/// out: blocks until output, EOF, or an error. `Ok` carries the bytes read,
/// at most one 8 KiB buffer per call, and is empty exactly on EOF.
#[verifier::external_body]
pub fn read_chunk(reader: &mut PtyReader) -> (r: Result<Vec<u8>, String>)
    ensures
        r matches Ok(v) ==> v@.len() <= 8192,
{
    let mut buffer = [0u8; 8192];
    match reader.inner.read(&mut buffer) {
        Ok(n) => Ok(buffer[..n].to_vec()),
        Err(e) => Err(format!("{}", e)),
    }
}

/// Relies on `uuid::Uuid::new_v4` and its `Display` form: a freshly drawn
/// random 128-bit identifier, written in the hyphenated form of 36
/// characters. The draw is random, so nothing relates two calls.
#[verifier::external_body]
pub fn new_session_id() -> (r: String)
    ensures
        r@.len() == 36,
{
    uuid::Uuid::new_v4().to_string()
}

/// Relies on `std::sync::Arc` and `std::sync::atomic::AtomicBool`: two ends
/// of one fresh shared flag, initially unraised.
#[verifier::external_body]
pub fn cancel_pair() -> (CancelFlag, CancelFlag) {
    let flag = Arc::new(AtomicBool::new(false));
    (CancelFlag { inner: Arc::clone(&flag) }, CancelFlag { inner: flag })
}

/// Relies on `std::sync::atomic::AtomicBool::store`: raises the shared flag.
#[verifier::external_body]
pub fn raise_cancel(flag: &CancelFlag) {
    flag.inner.store(true, Ordering::SeqCst);
}

/// Relies on `std::sync::atomic::AtomicBool::load`: whether the shared flag
/// has been raised. Another thread may raise it at any moment, so nothing
/// relates two calls.
#[verifier::external_body]
pub fn is_cancelled(flag: &CancelFlag) -> bool {
    flag.inner.load(Ordering::SeqCst)
}

} // verus!
