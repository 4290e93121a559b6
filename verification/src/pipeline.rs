use vstd::prelude::*;
use vstd::string::StrSliceExecFns;
use vstd::string::StringExecFns;

use crate::fanout::chunk_send;
use crate::pty::{read_chunk, PtyReader};

verus! {

/// How many pending chunks the fan-out channel holds per subscriber.
pub const FANOUT_CAPACITY: usize = 100;

/// The concatenation of a sequence of byte chunks.
pub open spec fn concat_chunks(cs: Seq<Seq<u8>>) -> Seq<u8>
    decreases cs.len(),
{
    if cs.len() == 0 {
        Seq::empty()
    } else {
        concat_chunks(cs.drop_last()) + cs.last()
    }
}

/// Appending one chunk extends the concatenation by that chunk.
pub proof fn lemma_concat_push(cs: Seq<Seq<u8>>, c: Seq<u8>)
    ensures
        concat_chunks(cs.push(c)) == concat_chunks(cs) + c,
{
    assert(cs.push(c).drop_last() =~= cs);
    assert(cs.push(c).last() == c);
}

/// The concatenation splits at any chunk boundary: what was published
/// before the boundary, then what was published after.
pub proof fn lemma_concat_split(cs: Seq<Seq<u8>>, k: int)
    requires
        0 <= k <= cs.len(),
    ensures
        concat_chunks(cs) == concat_chunks(cs.take(k)) + concat_chunks(cs.skip(k)),
    decreases cs.len(),
{
    if k == cs.len() {
        assert(cs.take(k) =~= cs);
        assert(concat_chunks(cs.skip(k)) == Seq::<u8>::empty());
        assert(concat_chunks(cs) + Seq::<u8>::empty() =~= concat_chunks(cs));
    } else {
        let head = cs.drop_last();
        lemma_concat_split(head, k);
        assert(cs.skip(k).drop_last() =~= head.skip(k));
        assert(cs.skip(k).last() == cs.last());
        assert(cs.skip(k).len() > 0);
        assert(concat_chunks(cs.skip(k)) == concat_chunks(head.skip(k)) + cs.last());
        assert(cs.take(k) =~= head.take(k));
        assert(concat_chunks(head.take(k)) + (concat_chunks(head.skip(k)) + cs.last())
            =~= (concat_chunks(head.take(k)) + concat_chunks(head.skip(k))) + cs.last());
    }
}

/// A byte-for-byte copy of a chunk.
pub fn copy_bytes(v: &Vec<u8>) -> (r: Vec<u8>)
    ensures
        r@ == v@,
{
    let mut out: Vec<u8> = Vec::new();
    let mut i: usize = 0;
    let len = v.len();
    while i < len
        invariant
            0 <= i <= len,
            len == v@.len(),
            out@ == v@.subrange(0, i as int),
        decreases len - i,
    {
        out.push(v[i]);
        assert(out@ =~= v@.subrange(0, i + 1 as int));
        i = i + 1;
    }
    assert(out@ =~= v@);
    out
}

/// The single reader that drains a task's terminal output, publishes
/// each chunk to the fan-out channel, and hands it back for the log
/// file. The ghost state records every chunk published, in order, and
/// the bytes handed over for the log.
pub struct OutputPipeline {
    pub reader: PtyReader,
    pub tx: tokio::sync::broadcast::Sender<Vec<u8>>,
    /// All chunks emitted so far, in terminal-output order.
    pub chunks: Ghost<Seq<Seq<u8>>>,
    /// All bytes handed over for appending to the log file.
    pub log_bytes: Ghost<Seq<u8>>,
}

impl OutputPipeline {
    /// The bytes for the log are exactly the concatenation of the
    /// published chunks.
    pub open spec fn wf(self) -> bool {
        self.log_bytes@ == concat_chunks(self.chunks@)
    }

    /// A pipeline over a fresh terminal reader and fan-out sender.
    pub fn new(reader: PtyReader, tx: tokio::sync::broadcast::Sender<Vec<u8>>) -> (p:
        OutputPipeline)
        ensures
            p.wf(),
            p.chunks@ == Seq::<Seq<u8>>::empty(),
            p.log_bytes@ == Seq::<u8>::empty(),
    {
        OutputPipeline { reader, tx, chunks: Ghost(Seq::empty()), log_bytes: Ghost(Seq::empty()) }
    }

    /// Drain one chunk: publish it to every subscriber and return it
    /// for the log file append. Returns None at end of stream or on a
    /// read error, and then nothing was published.
    ///
    /// Publication is best-effort: a chunk is returned for the log
    /// whether or not any subscriber currently exists.
    pub fn pump(&mut self) -> (r: Option<Vec<u8>>)
        requires
            old(self).wf(),
        ensures
            final(self).wf(),
            match r {
                Some(c) => {
                    &&& c@.len() > 0
                    &&& final(self).chunks@ == old(self).chunks@.push(c@)
                    &&& final(self).log_bytes@ == old(self).log_bytes@ + c@
                },
                None => {
                    &&& final(self).chunks@ == old(self).chunks@
                    &&& final(self).log_bytes@ == old(self).log_bytes@
                },
            },
    {
        let chunk = match read_chunk(&mut self.reader) {
            None => {
                return None;
            },
            Some(c) => c,
        };
        if chunk.len() == 0 {
            return None;
        }
        let shared = copy_bytes(&chunk);
        let _ = chunk_send(&self.tx, shared);
        proof {
            lemma_concat_push(self.chunks@, chunk@);
        }
        self.chunks = Ghost(self.chunks@.push(chunk@));
        self.log_bytes = Ghost(self.log_bytes@ + chunk@);
        Some(chunk)
    }
}

/// A from-the-start subscriber is shown every chunk in order, so the
/// log file's bytes are exactly the concatenation of what it sees; a
/// subscriber that joins after `k` chunks sees a suffix, so its bytes
/// are a suffix of the log's.
pub proof fn lemma_subscriber_coverage(p: OutputPipeline, k: int)
    requires
        p.wf(),
        0 <= k <= p.chunks@.len(),
    ensures
        p.log_bytes@ == concat_chunks(p.chunks@),
        p.log_bytes@ == concat_chunks(p.chunks@.take(k)) + concat_chunks(p.chunks@.skip(k)),
{
    lemma_concat_split(p.chunks@, k);
}

/// The log file path for a task id under a log directory.
pub fn log_path_for(log_root: &str, id: &str) -> (r: String)
    ensures
        r@ == log_root@ + "/"@ + id@ + ".log"@,
{
    let mut s = log_root.to_owned();
    s.append("/");
    s.append(id);
    s.append(".log");
    s
}

} // verus!
