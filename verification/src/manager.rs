use vstd::prelude::*;

use crate::errors::TaskError;
use crate::fanout::{chunk_channel, chunk_sender_clone, chunk_subscribe};
use crate::models::Task;
use crate::pipeline::{OutputPipeline, FANOUT_CAPACITY};
use crate::pty::{
    cb_argv, cb_cwd, cb_overrides, child_pid, clone_reader, cmd_arg, cmd_cwd, cmd_env, cmd_new,
    into_input, open_pty, spawn_child, PtyChild, PtyInput,
};
use crate::resolve::{
    build_command, get_env_vars, opt_text, opt_text_owned, pairs_view, spec_env_overrides,
    spec_resolution,
};
use crate::text::str_eq;

verus! {

/// The in-memory handle for a task under supervision. A spawned task
/// owns its terminal's input side and the fan-out sender; an attached
/// task has neither, only the process id it watches.
pub struct RunningTask {
    /// The terminal's input side; None for attached tasks.
    pub input: Option<PtyInput>,
    /// The supervised OS process id, when known.
    pub pid: Option<u32>,
    /// The fan-out sender live viewers subscribe to; None for
    /// attached tasks.
    pub output_tx: Option<tokio::sync::broadcast::Sender<Vec<u8>>>,
    /// Model of the bytes successfully issued to the terminal's
    /// input, in issue order.
    pub written: Ghost<Seq<u8>>,
}

impl RunningTask {
    /// A handle for a task this system spawned.
    pub open spec fn is_spawned(self) -> bool {
        self.input is Some && self.output_tx is Some
    }

    /// A handle for supervision attached to a foreign process.
    pub open spec fn is_attached(self) -> bool {
        self.input is None && self.output_tx is None
    }
}

/// Index of the entry with the given id, or -1.
pub open spec fn spec_index_of(entries: Seq<(String, RunningTask)>, id: Seq<char>) -> int
    decreases entries.len(),
{
    if entries.len() == 0 {
        -1
    } else if entries[0].0@ == id {
        0
    } else {
        let sub = spec_index_of(entries.skip(1), id);
        if sub == -1 {
            -1
        } else {
            sub + 1
        }
    }
}

/// The registry entry for an id, if any.
pub open spec fn spec_lookup(entries: Seq<(String, RunningTask)>, id: Seq<char>) -> Option<
    RunningTask,
> {
    let i = spec_index_of(entries, id);
    if i >= 0 {
        Some(entries[i].1)
    } else {
        None
    }
}

/// No two entries share an id.
pub open spec fn keys_unique(entries: Seq<(String, RunningTask)>) -> bool {
    forall|i: int, j: int|
        0 <= i < j < entries.len() ==> (#[trigger] entries[i]).0@ != (#[trigger] entries[j]).0@
}

proof fn lemma_index_of_at(entries: Seq<(String, RunningTask)>, id: Seq<char>, i: int)
    requires
        0 <= i < entries.len(),
        entries[i].0@ == id,
        forall|j: int| 0 <= j < i ==> (#[trigger] entries[j]).0@ != id,
    ensures
        spec_index_of(entries, id) == i,
    decreases entries.len(),
{
    if entries[0].0@ == id {
        assert(i == 0);
    } else {
        assert(i >= 1);
        let tail = entries.skip(1);
        assert(tail[i - 1].0@ == id);
        assert(forall|j: int| 0 <= j < i - 1 ==> (#[trigger] tail[j]).0@ != id);
        lemma_index_of_at(tail, id, i - 1);
    }
}

proof fn lemma_index_of_none(entries: Seq<(String, RunningTask)>, id: Seq<char>)
    requires
        forall|j: int| 0 <= j < entries.len() ==> (#[trigger] entries[j]).0@ != id,
    ensures
        spec_index_of(entries, id) == -1,
    decreases entries.len(),
{
    if entries.len() > 0 {
        lemma_index_of_none(entries.skip(1), id);
    }
}

proof fn lemma_index_of_in_range(entries: Seq<(String, RunningTask)>, id: Seq<char>)
    ensures
        spec_index_of(entries, id) == -1 || (0 <= spec_index_of(entries, id) < entries.len()
            && entries[spec_index_of(entries, id)].0@ == id && forall|j: int|
            0 <= j < spec_index_of(entries, id) ==> (#[trigger] entries[j]).0@ != id),
    decreases entries.len(),
{
    if entries.len() > 0 && entries[0].0@ != id {
        lemma_index_of_in_range(entries.skip(1), id);
        let sub = spec_index_of(entries.skip(1), id);
        if sub >= 0 {
            assert(forall|j: int|
                0 <= j < sub + 1 ==> (#[trigger] entries[j]).0@ == if j == 0 {
                    entries[0].0@
                } else {
                    entries.skip(1)[j - 1].0@
                });
        }
    }
}

proof fn lemma_index_of_absent(entries: Seq<(String, RunningTask)>, id: Seq<char>)
    requires
        spec_index_of(entries, id) == -1,
    ensures
        forall|j: int| 0 <= j < entries.len() ==> (#[trigger] entries[j]).0@ != id,
    decreases entries.len(),
{
    if entries.len() > 0 {
        assert(entries[0].0@ != id);
        lemma_index_of_in_range(entries.skip(1), id);
        assert(spec_index_of(entries.skip(1), id) == -1);
        lemma_index_of_absent(entries.skip(1), id);
        assert(forall|j: int|
            1 <= j < entries.len() ==> (#[trigger] entries[j]).0@ == entries.skip(1)[j - 1].0@);
    }
}

/// Inserting a handle binds its id and leaves every other id's
/// binding as it was.
pub proof fn lemma_insert_lookup(
    entries: Seq<(String, RunningTask)>,
    id: String,
    rt: RunningTask,
    other: Seq<char>,
)
    requires
        keys_unique(entries),
    ensures
        other == id@ ==> spec_lookup(spec_insert(entries, id, rt), other) == Some(rt),
        other != id@ ==> spec_lookup(spec_insert(entries, id, rt), other) == spec_lookup(
            entries,
            other,
        ),
        keys_unique(spec_insert(entries, id, rt)),
{
    lemma_index_of_in_range(entries, id@);
    let i = spec_index_of(entries, id@);
    let post = spec_insert(entries, id, rt);
    if i >= 0 {
        assert(post == entries.update(i, (id, rt)));
        assert(post.len() == entries.len());
        assert(forall|j: int| 0 <= j < post.len() && j != i ==> post[j] == entries[j]);
        if other == id@ {
            lemma_index_of_at(post, id@, i);
        } else {
            lemma_index_of_in_range(entries, other);
            let k = spec_index_of(entries, other);
            if k >= 0 {
                assert(k != i);
                lemma_index_of_at(post, other, k);
            } else {
                lemma_index_of_absent(entries, other);
                lemma_index_of_none(post, other);
            }
        }
        assert(keys_unique(post)) by {
            assert forall|a: int, b: int| 0 <= a < b < post.len() implies (#[trigger] post[a]).0@
                != (#[trigger] post[b]).0@ by {
                assert(entries[a].0@ != entries[b].0@);
            }
        }
    } else {
        lemma_index_of_absent(entries, id@);
        assert(post == entries.push((id, rt)));
        assert(forall|j: int| 0 <= j < entries.len() ==> post[j] == entries[j]);
        if other == id@ {
            lemma_index_of_at(post, id@, entries.len() as int);
        } else {
            lemma_index_of_in_range(entries, other);
            let k = spec_index_of(entries, other);
            if k >= 0 {
                lemma_index_of_at(post, other, k);
            } else {
                lemma_index_of_absent(entries, other);
                lemma_index_of_none(post, other);
            }
        }
        assert(keys_unique(post)) by {
            assert forall|a: int, b: int| 0 <= a < b < post.len() implies (#[trigger] post[a]).0@
                != (#[trigger] post[b]).0@ by {
                if b < entries.len() {
                    assert(entries[a].0@ != entries[b].0@);
                }
            }
        }
    }
}

/// The registry after inserting a handle under an id: the existing
/// entry is replaced, or a new entry appended.
pub open spec fn spec_insert(
    entries: Seq<(String, RunningTask)>,
    id: String,
    rt: RunningTask,
) -> Seq<(String, RunningTask)> {
    let i = spec_index_of(entries, id@);
    if i >= 0 {
        entries.update(i, (id, rt))
    } else {
        entries.push((id, rt))
    }
}

/// The environment-override pairs folded into a map, later entries
/// winning.
pub open spec fn overrides_map(list: Seq<(Seq<char>, Seq<char>)>) -> Map<Seq<char>, Seq<char>>
    decreases list.len(),
{
    if list.len() == 0 {
        Map::empty()
    } else {
        overrides_map(list.drop_last()).insert(list.last().0, list.last().1)
    }
}

/// What a successful spawn hands back: the refreshed record, the
/// output pipeline to drive on a dedicated worker, the child to wait
/// on, and what the child was started with.
pub struct SpawnHandles {
    pub task: Task,
    pub pipeline: OutputPipeline,
    pub child: PtyChild,
    /// Program and arguments, program first.
    pub argv: Ghost<Seq<Seq<char>>>,
    /// The environment overrides installed on the child.
    pub env_overrides: Ghost<Seq<(Seq<char>, Seq<char>)>>,
}

/// The concurrent-registry facade: the map from task id to in-memory
/// handle, plus the directory that per-task log files live under.
/// Handles are never removed, even after their task reaches a
/// terminal state.
pub struct TaskManager {
    pub log_root: String,
    pub tasks: Vec<(String, RunningTask)>,
}

impl TaskManager {
    /// Registry ids are unique.
    pub open spec fn wf(self) -> bool {
        keys_unique(self.tasks@)
    }

    /// A manager with an empty registry writing logs under
    /// `log_root`.
    pub fn new(log_root: String) -> (m: TaskManager)
        ensures
            m.wf(),
            m.log_root == log_root,
            m.tasks@.len() == 0,
    {
        TaskManager { log_root, tasks: Vec::new() }
    }

    /// Position of the registry entry for `id`, if there is one.
    fn find_index(&self, id: &str) -> (r: Option<usize>)
        ensures
            match r {
                Some(i) => spec_index_of(self.tasks@, id@) == i && i < self.tasks@.len()
                    && self.tasks@[i as int].0@ == id@,
                None => spec_index_of(self.tasks@, id@) == -1,
            },
    {
        let len = self.tasks.len();
        let mut i: usize = 0;
        while i < len
            invariant
                0 <= i <= len,
                len == self.tasks@.len(),
                forall|j: int| 0 <= j < i ==> (#[trigger] self.tasks@[j]).0@ != id@,
            decreases len - i,
        {
            if str_eq(self.tasks[i].0.as_str(), id) {
                proof {
                    lemma_index_of_at(self.tasks@, id@, i as int);
                }
                return Some(i);
            }
            i = i + 1;
        }
        proof {
            lemma_index_of_none(self.tasks@, id@);
        }
        None
    }

    /// Install a handle under an id, replacing any existing one.
    fn register(&mut self, id: String, rt: RunningTask)
        requires
            old(self).wf(),
        ensures
            final(self).wf(),
            final(self).log_root == old(self).log_root,
            final(self).tasks@ == spec_insert(old(self).tasks@, id, rt),
    {
        let idx = self.find_index(id.as_str());
        match idx {
            Some(i) => {
                proof {
                    lemma_index_of_in_range(self.tasks@, id@);
                }
                self.tasks.remove(i);
                self.tasks.insert(i, (id, rt));
                proof {
                    assert(self.tasks@ =~= spec_insert(old(self).tasks@, id, rt));
                    assert forall|a: int, b: int|
                        0 <= a < b < self.tasks@.len() implies (#[trigger] self.tasks@[a]).0@ != (
                    #[trigger] self.tasks@[b]).0@ by {
                        assert(old(self).tasks@[a].0@ != old(self).tasks@[b].0@);
                    }
                }
            },
            None => {
                self.tasks.push((id, rt));
                proof {
                    assert(self.tasks@ =~= spec_insert(old(self).tasks@, id, rt));
                    assert forall|a: int, b: int|
                        0 <= a < b < self.tasks@.len() implies (#[trigger] self.tasks@[a]).0@ != (
                    #[trigger] self.tasks@[b]).0@ by {
                        if b == self.tasks@.len() - 1 {
                            if old(self).tasks@[a].0@ == id@ {
                                lemma_index_of_at(old(self).tasks@, id@, a);
                            }
                        } else {
                            assert(old(self).tasks@[a].0@ != old(self).tasks@[b].0@);
                        }
                    }
                }
            },
        }
    }

    /// Route bytes to the terminal input of a spawned task.
    ///
    /// For an id that is unknown or attached this is a silent no-op.
    /// For a spawned task the bytes are written verbatim, serialized
    /// against concurrent writers, and on success they extend the
    /// issued-byte model in issue order.
    pub fn write_stdin(&mut self, id: &str, data: &[u8]) -> (r: Result<(), TaskError>)
        requires
            old(self).wf(),
        ensures
            final(self).wf(),
            final(self).log_root == old(self).log_root,
            ({
                let idx = spec_index_of(old(self).tasks@, id@);
                if idx == -1 {
                    r == Ok::<(), TaskError>(()) && final(self).tasks@ == old(self).tasks@
                } else {
                    let e = old(self).tasks@[idx];
                    &&& (e.1.input is None ==> r == Ok::<(), TaskError>(()) && final(self).tasks@
                        == old(self).tasks@)
                    &&& (e.1.input is Some ==> {
                        let e2 = final(self).tasks@[idx];
                        &&& final(self).tasks@ == old(self).tasks@.update(idx, e2)
                        &&& e2.0 == e.0
                        &&& e2.1.input == e.1.input
                        &&& e2.1.pid == e.1.pid
                        &&& e2.1.output_tx == e.1.output_tx
                        &&& (r == Ok::<(), TaskError>(()) ==> e2.1.written@ == e.1.written@
                            + data@)
                        &&& (r is Err ==> r == Err::<(), TaskError>(TaskError::WriteFailure)
                            && e2.1.written@ == e.1.written@)
                    })
                }
            }),
    {
        let idx = match self.find_index(id) {
            None => {
                return Ok(());
            },
            Some(i) => i,
        };
        let mut entry = self.tasks.remove(idx);
        let r: Result<(), TaskError> = match &entry.1.input {
            None => Ok(()),
            Some(input) => {
                if crate::pty::pty_send(input, data) {
                    entry.1.written = Ghost(entry.1.written@ + data@);
                    Ok(())
                } else {
                    Err(TaskError::WriteFailure)
                }
            },
        };
        self.tasks.insert(idx, entry);
        proof {
            let olds = old(self).tasks@;
            if olds[idx as int].1.input is None {
                assert(self.tasks@ =~= olds);
            } else {
                assert(self.tasks@ =~= olds.update(idx as int, self.tasks@[idx as int]));
            }
            assert forall|a: int, b: int|
                0 <= a < b < self.tasks@.len() implies (#[trigger] self.tasks@[a]).0@ != (
            #[trigger] self.tasks@[b]).0@ by {
                assert(olds[a].0@ != olds[b].0@);
                assert(self.tasks@[a].0@ == olds[a].0@);
                assert(self.tasks@[b].0@ == olds[b].0@);
            }
        }
        r
    }

    /// Begin supervising an already-running process.
    ///
    /// The record moves to Running carrying the given pid and start
    /// time, and an attached handle is registered under its id. The
    /// caller starts the poll-based liveness monitor; no terminal and
    /// no output stream exist for such a task.
    pub fn attach(&mut self, task: &Task, pid: u32, now: i64) -> (t: Task)
        requires
            old(self).wf(),
            task.status is Pending,
            task.wf(),
        ensures
            final(self).wf(),
            final(self).log_root == old(self).log_root,
            t == task.spec_mark_running(Some(pid), now),
            t.wf(),
            (spec_lookup(final(self).tasks@, task.id@) matches Some(rt) && rt.is_attached()
                && rt.pid == Some(pid) && rt.written@ == Seq::<u8>::empty()),
            forall|other: Seq<char>|
                other != task.id@ ==> #[trigger] spec_lookup(final(self).tasks@, other)
                    == spec_lookup(old(self).tasks@, other),
    {
        let t = task.to_running(Some(pid), now);
        let rt = RunningTask {
            input: None,
            pid: Some(pid),
            output_tx: None,
            written: Ghost(Seq::empty()),
        };
        let ghost rt_ghost = rt;
        let id = task.id.clone();
        let ghost id_ghost = id;
        self.register(id, rt);
        proof {
            assert forall|other: Seq<char>| true implies #[trigger] spec_lookup(
                self.tasks@,
                other,
            ) == if other == task.id@ {
                Some(rt_ghost)
            } else {
                spec_lookup(old(self).tasks@, other)
            } by {
                lemma_insert_lookup(old(self).tasks@, id_ghost, rt_ghost, other);
            }
        }
        t
    }

    /// Resolve, spawn into a fresh terminal, and register a task.
    ///
    /// On success the record moves to Running with the child's pid
    /// and the start time, a spawned handle is registered under the
    /// task's id, and the caller receives the output pipeline to
    /// drive and the child to wait on. On any failure nothing is
    /// registered and the record is untouched: resolution failures
    /// are returned exactly as resolution describes them, and
    /// otherwise only the terminal or the spawn itself can fail.
    ///
    /// `kernel_source` is the kernel-spec text for jupyter tasks and
    /// `path_var` the current search path, both supplied by the
    /// caller.
    pub fn spawn(
        &mut self,
        task: &Task,
        kernel_source: Option<&String>,
        path_var: Option<&String>,
        now: i64,
    ) -> (r: Result<SpawnHandles, TaskError>)
        requires
            old(self).wf(),
            task.status is Pending,
            task.wf(),
        ensures
            final(self).wf(),
            final(self).log_root == old(self).log_root,
            ({
                let sr = spec_resolution(
                    task.env_type@,
                    task.command@,
                    opt_text_owned(task.env_name),
                    opt_text(kernel_source),
                );
                match r {
                    Err(e) => {
                        &&& final(self).tasks@ == old(self).tasks@
                        &&& (sr matches Err(se) ==> e == se)
                        &&& (sr is Ok ==> e is PtyOpenFailure || e is SpawnFailure)
                    },
                    Ok(h) => {
                        &&& sr matches Ok(sa) && h.argv@ == seq![sa.0] + sa.1
                        &&& spec_env_overrides(
                            task.env_type@,
                            opt_text(kernel_source),
                            opt_text(path_var),
                        ) matches Ok(se) && h.env_overrides@ == se
                        &&& h.task == task.spec_mark_running(h.task.pid, now)
                        &&& h.task.wf()
                        &&& h.pipeline.wf()
                        &&& h.pipeline.chunks@ == Seq::<Seq<u8>>::empty()
                        &&& (spec_lookup(final(self).tasks@, task.id@) matches Some(rt)
                            && rt.is_spawned() && rt.pid == h.task.pid && rt.written@
                            == Seq::<u8>::empty())
                        &&& forall|other: Seq<char>|
                            other != task.id@ ==> #[trigger] spec_lookup(final(self).tasks@, other)
                                == spec_lookup(old(self).tasks@, other)
                    },
                }
            }),
    {
        let (prog, args) = match build_command(task, kernel_source) {
            Err(e) => {
                return Err(e);
            },
            Ok(pa) => pa,
        };
        let envs = match get_env_vars(task, kernel_source, path_var) {
            Err(e) => {
                // Unreachable: overrides only fail for a jupyter task
                // whose kernel spec is missing or unparsable, and
                // resolution has just accepted it.
                proof {
                    broadcast use vstd::string::group_string_axioms;

                    reveal_strlit("shell");
                    reveal_strlit("conda");
                    reveal_strlit("mamba");
                    reveal_strlit("micromamba");
                    reveal_strlit("uv");
                    reveal_strlit("jupyter");
                    let sr = spec_resolution(
                        task.env_type@,
                        task.command@,
                        opt_text_owned(task.env_name),
                        opt_text(kernel_source),
                    );
                    let se = spec_env_overrides(
                        task.env_type@,
                        opt_text(kernel_source),
                        opt_text(path_var),
                    );
                    assert(se is Err);
                    assert(task.env_type@ == "jupyter"@);
                    assert("jupyter"@.len() == 7);
                    assert("shell"@.len() == 5);
                    assert(task.env_type@ != "shell"@);
                    assert(!crate::resolve::is_conda_family(task.env_type@));
                    assert(task.env_type@ != "uv"@);
                    assert(sr is Ok);
                    assert(false);
                }
                return Err(e);
            },
            Ok(v) => v,
        };
        let mut cmd = cmd_new(&prog);
        assert(cb_argv(cmd) =~= seq![prog@] + args.deep_view().take(0));
        let mut i: usize = 0;
        let arg_count = args.len();
        while i < arg_count
            invariant
                0 <= i <= arg_count,
                arg_count == args@.len(),
                cb_argv(cmd) == seq![prog@] + args.deep_view().take(i as int),
                cb_cwd(cmd) is None,
                cb_overrides(cmd) == overrides_map(Seq::empty()),
            decreases arg_count - i,
        {
            cmd_arg(&mut cmd, &args[i]);
            proof {
                assert(args.deep_view()[i as int] == args@[i as int]@);
                assert((seq![prog@] + args.deep_view().take(i as int)).push(args@[i as int]@)
                    =~= seq![prog@] + args.deep_view().take(i + 1));
            }
            i = i + 1;
        }
        assert(args.deep_view().take(arg_count as int) =~= args.deep_view());
        cmd_cwd(&mut cmd, &task.cwd);
        let mut k: usize = 0;
        let env_count = envs.len();
        assert(pairs_view(envs@).take(0) =~= Seq::<(Seq<char>, Seq<char>)>::empty());
        while k < env_count
            invariant
                0 <= k <= env_count,
                env_count == envs@.len(),
                cb_argv(cmd) == seq![prog@] + args.deep_view(),
                cb_cwd(cmd) == Some(task.cwd@),
                cb_overrides(cmd) == overrides_map(pairs_view(envs@).take(k as int)),
            decreases env_count - k,
        {
            cmd_env(&mut cmd, &envs[k].0, &envs[k].1);
            proof {
                let pv = pairs_view(envs@);
                assert(pv[k as int] == (envs@[k as int].0@, envs@[k as int].1@));
                assert(pv.take(k + 1).drop_last() =~= pv.take(k as int));
                assert(pv.take(k + 1).last() == pv[k as int]);
            }
            k = k + 1;
        }
        assert(pairs_view(envs@).take(env_count as int) =~= pairs_view(envs@));
        let pair = match open_pty(24, 80) {
            None => {
                return Err(TaskError::PtyOpenFailure);
            },
            Some(p) => p,
        };
        let child = match spawn_child(&pair, cmd) {
            None => {
                return Err(TaskError::SpawnFailure);
            },
            Some(c) => c,
        };
        let reader = match clone_reader(&pair) {
            None => {
                return Err(TaskError::PtyOpenFailure);
            },
            Some(x) => x,
        };
        let pid = child_pid(&child);
        let (tx, _first_rx) = chunk_channel(FANOUT_CAPACITY);
        let tx_for_pipeline = chunk_sender_clone(&tx);
        let pipeline = OutputPipeline::new(reader, tx_for_pipeline);
        let input = match into_input(pair) {
            None => {
                return Err(TaskError::PtyOpenFailure);
            },
            Some(x) => x,
        };
        let t = task.to_running(pid, now);
        let rt = RunningTask {
            input: Some(input),
            pid,
            output_tx: Some(tx),
            written: Ghost(Seq::empty()),
        };
        let ghost rt_ghost = rt;
        let id = task.id.clone();
        let ghost id_ghost = id;
        self.register(id, rt);
        proof {
            assert forall|other: Seq<char>| true implies #[trigger] spec_lookup(
                self.tasks@,
                other,
            ) == if other == task.id@ {
                Some(rt_ghost)
            } else {
                spec_lookup(old(self).tasks@, other)
            } by {
                lemma_insert_lookup(old(self).tasks@, id_ghost, rt_ghost, other);
            }
        }
        Ok(
            SpawnHandles {
                task: t,
                pipeline,
                child,
                argv: Ghost(seq![prog@] + args.deep_view()),
                env_overrides: Ghost(pairs_view(envs@)),
            },
        )
    }

    /// A live view onto a spawned task's terminal output: a fresh
    /// subscription to its fan-out channel, seeing chunks published
    /// from now on. Unknown and attached tasks have no output stream.
    pub fn subscribe_output(&self, id: &str) -> (r: Option<
        tokio::sync::broadcast::Receiver<Vec<u8>>,
    >)
        ensures
            r is Some <==> (spec_lookup(self.tasks@, id@) matches Some(rt) && rt.output_tx is Some),
    {
        match self.find_index(id) {
            None => None,
            Some(i) => {
                match &self.tasks[i].1.output_tx {
                    None => None,
                    Some(tx) => Some(chunk_subscribe(tx)),
                }
            },
        }
    }
}

/// Bytes issued by two sequential writes stand in the terminal's
/// input stream in issue order: with `w` already issued, after
/// writing `d1` and then `d2` the stream is `w + d1 + d2` — the first
/// chunk precedes the second, and what was issued after one write is
/// a prefix of what is issued after the next.
pub proof fn lemma_sequential_writes_ordered(w: Seq<u8>, d1: Seq<u8>, d2: Seq<u8>)
    ensures
        ((w + d1) + d2).subrange(w.len() as int, (w.len() + d1.len()) as int) == d1,
        ((w + d1) + d2).subrange(
            (w.len() + d1.len()) as int,
            (w.len() + d1.len() + d2.len()) as int,
        ) == d2,
        (w + d1).is_prefix_of((w + d1) + d2),
{
    assert(((w + d1) + d2).subrange(w.len() as int, (w.len() + d1.len()) as int) =~= d1);
    assert(((w + d1) + d2).subrange(
        (w.len() + d1.len()) as int,
        (w.len() + d1.len() + d2.len()) as int,
    ) =~= d2);
    assert(((w + d1) + d2).subrange(0, (w.len() + d1.len()) as int) =~= w + d1);
}

} // verus!
