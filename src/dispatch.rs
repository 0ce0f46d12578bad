//! Fan-out of one request over its chunks: each chunk gets a task and a file
//! named by its 1-based index, so order is recovered from the index and not
//! from completion order; the request succeeds only if every task did.
use crate::synthesis::{error_message, SynthesisError};
use crate::text::{decimal, decimal_injective, decimal_spec};
use vstd::prelude::*;

verus! {

/// Where the audio of chunk `index` of the request in `folder` is written.
pub open spec fn chunk_file_name_spec(folder: Seq<char>, index: nat) -> Seq<char> {
    folder + "/speech-chunk-"@ + decimal_spec(index) + ".mp3"@
}

/// The file of chunk `index` in the request folder `folder`.
pub fn chunk_file_name(folder: &str, index: u64) -> (r: String)
    ensures
        r@ == chunk_file_name_spec(folder@, index as nat),
{
    let n = decimal(index);
    String::from_str(folder).concat("/speech-chunk-").concat(n.as_str()).concat(".mp3")
}

/// Two chunks of one request never share a file.
pub proof fn chunk_file_names_distinct(folder: Seq<char>, a: nat, b: nat)
    requires
        a != b,
    ensures
        chunk_file_name_spec(folder, a) != chunk_file_name_spec(folder, b),
{
    let p = folder + "/speech-chunk-"@;
    let da = decimal_spec(a);
    let db = decimal_spec(b);
    let x = chunk_file_name_spec(folder, a);
    let y = chunk_file_name_spec(folder, b);
    if x == y {
        assert(x =~= p + da + ".mp3"@);
        assert(y =~= p + db + ".mp3"@);
        assert(da.len() == db.len());
        assert(x.subrange(p.len() as int, p.len() + da.len() as int) =~= da);
        assert(y.subrange(p.len() as int, p.len() + db.len() as int) =~= db);
        decimal_injective(a, b);
    }
}

/// One unit of fan-out work: the 1-based index of a chunk, its text and the
/// file its audio goes to.
#[derive(Debug, Clone)]
pub struct ChunkTask {
    pub index: u64,
    pub text: String,
    pub path: String,
}

/// One task per chunk, in chunk order, each with its own file in `folder`.
pub fn plan_chunk_tasks(folder: &str, chunks: &Vec<String>) -> (r: Vec<ChunkTask>)
    ensures
        r.len() == chunks.len(),
        forall|i: int|
            0 <= i < r.len() ==> {
                &&& #[trigger] r[i].index == i + 1
                &&& r[i].text@ == chunks[i]@
                &&& r[i].path@ == chunk_file_name_spec(folder@, (i + 1) as nat)
            },
{
    let mut tasks: Vec<ChunkTask> = Vec::new();
    let mut i: usize = 0;
    while i < chunks.len()
        invariant
            i <= chunks.len(),
            tasks.len() == i,
            forall|k: int|
                0 <= k < i ==> {
                    &&& #[trigger] tasks[k].index == k + 1
                    &&& tasks[k].text@ == chunks[k]@
                    &&& tasks[k].path@ == chunk_file_name_spec(folder@, (k + 1) as nat)
                },
        decreases chunks.len() - i,
    {
        let index = (i + 1) as u64;
        let text = chunks[i].clone();
        let path = chunk_file_name(folder, index);
        tasks.push(ChunkTask { index, text, path });
        i = i + 1;
    }
    tasks
}

/// How one task ended.
#[derive(Debug, Clone)]
pub enum TaskOutcome {
    /// The chunk's audio was written to this file.
    Saved(String),
    /// Synthesis or the write failed, for this reason.
    Failed(String),
    /// The task did not complete normally.
    JoinFailed(String),
}

/// The outcome of a task whose synthesis failed.
pub fn synthesis_failed(index: u64, err: &SynthesisError) -> (r: TaskOutcome)
    ensures
        r is Failed,
        r->Failed_0@ == "Chunk #"@ + decimal_spec(index as nat) + " TTS error: "@ + error_message(
            *err,
        ),
{
    let n = decimal(index);
    let m = err.message();
    TaskOutcome::Failed(
        String::from_str("Chunk #").concat(n.as_str()).concat(" TTS error: ").concat(m.as_str()),
    )
}

/// The outcome of a task whose audio could not be written to `path`.
pub fn write_failed(path: &str, cause: &str) -> (r: TaskOutcome)
    ensures
        r is Failed,
        r->Failed_0@ == "Failed to write "@ + path@ + ": "@ + cause@,
{
    TaskOutcome::Failed(String::from_str("Failed to write ").concat(path).concat(": ").concat(cause))
}

/// Why a request's fan-out failed: the 1-based index of the first chunk, in
/// chunk order, whose task did not succeed, and its cause.
#[derive(Debug, Clone)]
pub enum DispatchError {
    Task { index: u64, cause: String },
    Join { index: u64, cause: String },
}

impl DispatchError {
    pub open spec fn index_spec(self) -> u64 {
        match self {
            DispatchError::Task { index, .. } => index,
            DispatchError::Join { index, .. } => index,
        }
    }

    /// The 1-based index of the failing chunk.
    pub fn index(&self) -> (r: u64)
        ensures
            r == self.index_spec(),
    {
        match self {
            DispatchError::Task { index, .. } => *index,
            DispatchError::Join { index, .. } => *index,
        }
    }

    /// Describes the failure, naming the chunk.
    pub fn message(&self) -> (r: String)
        ensures
            r@ == dispatch_message(*self),
    {
        match self {
            DispatchError::Task { index, cause } => {
                let n = decimal(*index);
                String::from_str("Task #").concat(n.as_str()).concat(" error: ").concat(
                    cause.as_str(),
                )
            },
            DispatchError::Join { index, cause } => {
                let n = decimal(*index);
                String::from_str("Join error on task #").concat(n.as_str()).concat(": ").concat(
                    cause.as_str(),
                )
            },
        }
    }
}

/// The human-readable text of a fan-out failure.
pub open spec fn dispatch_message(e: DispatchError) -> Seq<char> {
    match e {
        DispatchError::Task { index, cause } => "Task #"@ + decimal_spec(index as nat)
            + " error: "@ + cause@,
        DispatchError::Join { index, cause } => "Join error on task #"@ + decimal_spec(
            index as nat,
        ) + ": "@ + cause@,
    }
}

/// The error reported for the task at 0-based position `i` that ended with `o`.
pub open spec fn failure_for(i: int, o: TaskOutcome) -> DispatchError {
    match o {
        TaskOutcome::JoinFailed(cause) => DispatchError::Join { index: (i + 1) as u64, cause },
        TaskOutcome::Failed(cause) => DispatchError::Task { index: (i + 1) as u64, cause },
        TaskOutcome::Saved(cause) => DispatchError::Task { index: (i + 1) as u64, cause },
    }
}

/// Gathers the outcomes of all tasks, given in chunk order. If every task
/// saved its chunk, the files come back in chunk order; otherwise the
/// request fails as a whole, with the first failing chunk in chunk order.
pub fn collect_outcomes(outcomes: Vec<TaskOutcome>) -> (r: Result<Vec<String>, DispatchError>)
    ensures
        r is Ok <==> forall|i: int| 0 <= i < outcomes.len() ==> #[trigger] outcomes[i] is Saved,
        r is Ok ==> r->Ok_0.len() == outcomes.len() && forall|i: int|
            0 <= i < outcomes.len() ==> #[trigger] r->Ok_0[i] == outcomes[i]->Saved_0,
        r is Err ==> {
            let k = r->Err_0.index_spec() - 1;
            &&& 0 <= k < outcomes.len()
            &&& !(outcomes[k] is Saved)
            &&& forall|j: int| 0 <= j < k ==> #[trigger] outcomes[j] is Saved
            &&& r->Err_0 == failure_for(k, outcomes[k])
        },
{
    let mut saved: Vec<String> = Vec::new();
    let mut i: usize = 0;
    while i < outcomes.len()
        invariant
            i <= outcomes.len(),
            saved.len() == i,
            forall|j: int| 0 <= j < i ==> #[trigger] outcomes[j] is Saved,
            forall|j: int| 0 <= j < i ==> #[trigger] saved[j] == outcomes[j]->Saved_0,
        decreases outcomes.len() - i,
    {
        match &outcomes[i] {
            TaskOutcome::Saved(path) => {
                saved.push(path.clone());
            },
            TaskOutcome::Failed(cause) => {
                return Err(DispatchError::Task { index: (i + 1) as u64, cause: cause.clone() });
            },
            TaskOutcome::JoinFailed(cause) => {
                return Err(DispatchError::Join { index: (i + 1) as u64, cause: cause.clone() });
            },
        }
        i = i + 1;
    }
    Ok(saved)
}

} // verus!
