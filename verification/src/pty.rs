use vstd::prelude::*;

verus! {

#[verifier::external_type_specification]
#[verifier::external_body]
pub struct ExCommandBuilder(portable_pty::CommandBuilder);

#[verifier::external_type_specification]
#[verifier::external_body]
pub struct ExPtyPair(portable_pty::PtyPair);

/// The argument vector a command builder holds, program first.
pub uninterp spec fn cb_argv(b: portable_pty::CommandBuilder) -> Seq<Seq<char>>;

/// The working directory a command builder holds, if one was set.
pub uninterp spec fn cb_cwd(b: portable_pty::CommandBuilder) -> Option<Seq<char>>;

/// The environment overrides set on a command builder, by variable
/// name. Variables inherited from the surrounding process are not
/// overrides.
pub uninterp spec fn cb_overrides(b: portable_pty::CommandBuilder) -> Map<Seq<char>, Seq<char>>;

/// Whether a builder has no environment overrides at all.
pub open spec fn cb_no_overrides(b: portable_pty::CommandBuilder) -> bool {
    cb_overrides(b) == Map::<Seq<char>, Seq<char>>::empty()
}

/// Relies on portable_pty::CommandBuilder::new: a fresh builder whose
/// argv holds just the program, with no working directory and no
/// environment overrides.
#[verifier::external_body]
pub(crate) fn cmd_new(program: &String) -> (builder: portable_pty::CommandBuilder)
    ensures
        cb_argv(builder) == seq![program@],
        cb_cwd(builder) is None,
        cb_no_overrides(builder),
{
    portable_pty::CommandBuilder::new(program.as_str())
}

/// Relies on portable_pty::CommandBuilder::arg: appends one argument.
/// The builder always has a program, so the call cannot panic.
#[verifier::external_body]
pub(crate) fn cmd_arg(b: &mut portable_pty::CommandBuilder, arg: &String)
    requires
        cb_argv(*old(b)).len() >= 1,
    ensures
        cb_argv(*final(b)) == cb_argv(*old(b)).push(arg@),
        cb_cwd(*final(b)) == cb_cwd(*old(b)),
        cb_overrides(*final(b)) == cb_overrides(*old(b)),
{
    b.arg(arg.as_str());
}

/// Relies on portable_pty::CommandBuilder::cwd: sets the working
/// directory.
#[verifier::external_body]
pub(crate) fn cmd_cwd(b: &mut portable_pty::CommandBuilder, dir: &String)
    ensures
        cb_cwd(*final(b)) == Some(dir@),
        cb_argv(*final(b)) == cb_argv(*old(b)),
        cb_overrides(*final(b)) == cb_overrides(*old(b)),
{
    b.cwd(dir.as_str());
}

/// Relies on portable_pty::CommandBuilder::env: overrides one
/// environment variable.
#[verifier::external_body]
pub(crate) fn cmd_env(b: &mut portable_pty::CommandBuilder, key: &String, value: &String)
    ensures
        cb_overrides(*final(b)) == cb_overrides(*old(b)).insert(key@, value@),
        cb_argv(*final(b)) == cb_argv(*old(b)),
        cb_cwd(*final(b)) == cb_cwd(*old(b)),
{
    b.env(key.as_str(), value.as_str());
}

/// A child process spawned into a pseudo-terminal.
#[verifier::external_body]
pub struct PtyChild {
    inner: Box<dyn portable_pty::Child + Send + Sync>,
}

/// A readable handle onto a terminal's output side.
#[verifier::external_body]
pub struct PtyReader {
    inner: Box<dyn std::io::Read + Send>,
}

/// The retained master side of a terminal: the input-side writer,
/// taken once, behind a lock that serializes writers.
#[verifier::external_body]
pub struct PtyInput {
    master: std::sync::Mutex<Box<dyn portable_pty::MasterPty + Send>>,
    writer: std::sync::Mutex<Box<dyn std::io::Write + Send>>,
}

/// Relies on portable_pty::native_pty_system and PtySystem::openpty:
/// allocates a pseudo-terminal pair of the given visible size, or
/// fails with no other effect.
#[verifier::external_body]
pub(crate) fn open_pty(rows: u16, cols: u16) -> (r: Option<portable_pty::PtyPair>)
{
    let sys = portable_pty::native_pty_system();
    sys.openpty(
        portable_pty::PtySize { rows, cols, pixel_width: 0, pixel_height: 0 },
    ).ok()
}

/// Relies on portable_pty::SlavePty::spawn_command: starts the
/// builder's command bound to the pair's slave side, or fails with no
/// other effect.
#[verifier::external_body]
pub(crate) fn spawn_child(pair: &portable_pty::PtyPair, cmd: portable_pty::CommandBuilder) -> (r:
    Option<PtyChild>)
{
    match pair.slave.spawn_command(cmd) {
        Ok(c) => Some(PtyChild { inner: c }),
        Err(_) => None,
    }
}

/// Relies on portable_pty::Child::process_id: the child's OS process
/// id, when the platform reports one.
#[verifier::external_body]
pub(crate) fn child_pid(c: &PtyChild) -> (r: Option<u32>)
{
    c.inner.process_id()
}

/// Relies on portable_pty::Child::wait and ExitStatus::success:
/// blocks until the child exits and reports whether it exited
/// successfully; None when the wait itself failed.
#[verifier::external_body]
pub(crate) fn child_wait(c: &mut PtyChild) -> (r: Option<bool>)
{
    match c.inner.wait() {
        Ok(status) => Some(status.success()),
        Err(_) => None,
    }
}

/// Relies on portable_pty::MasterPty::try_clone_reader: a readable
/// handle onto the terminal's output side.
#[verifier::external_body]
pub(crate) fn clone_reader(pair: &portable_pty::PtyPair) -> (r: Option<PtyReader>)
{
    match pair.master.try_clone_reader() {
        Ok(x) => Some(PtyReader { inner: x }),
        Err(_) => None,
    }
}

/// Relies on portable_pty::MasterPty::take_writer: takes the single
/// input-side writer (valid to take once per terminal; this function
/// consumes the pair, so it is taken exactly once) and retains the
/// master so the terminal stays open.
#[verifier::external_body]
pub(crate) fn into_input(pair: portable_pty::PtyPair) -> (r: Option<PtyInput>)
{
    let master = pair.master;
    match master.take_writer() {
        Ok(w) => Some(
            PtyInput {
                master: std::sync::Mutex::new(master),
                writer: std::sync::Mutex::new(w),
            },
        ),
        Err(_) => None,
    }
}

/// Relies on std::io::Read::read on the terminal's output handle:
/// a chunk of at most 4096 bytes of output, in stream order; an empty
/// chunk means end of stream, None a read error.
#[verifier::external_body]
pub(crate) fn read_chunk(r: &mut PtyReader) -> (c: Option<Vec<u8>>)
    ensures
        c matches Some(v) ==> v@.len() <= 4096,
{
    let mut buf = [0u8; 4096];
    match r.inner.read(&mut buf) {
        Ok(n) => Some(buf[..n].to_vec()),
        Err(_) => None,
    }
}

/// Relies on std::io::Write::write_all on the terminal's input
/// writer: writes the bytes verbatim, serialized by the writer lock;
/// reports whether the write succeeded.
#[verifier::external_body]
pub(crate) fn pty_send(input: &PtyInput, data: &[u8]) -> (ok: bool)
{
    let mut w = match input.writer.lock() {
        Ok(g) => g,
        Err(_) => return false,
    };
    w.write_all(data).is_ok()
}

} // verus!
