use vstd::prelude::*;
use crate::error::{ProgramError, SyscallError};
use crate::errno::enospc;

verus! {

/// The number of program ids asked for at first.
pub open spec fn initial_query_len() -> nat {
    64
}

/// A `BPF_PROG_QUERY` in progress: the id buffer handed to the kernel, the
/// count it reads as the buffer's capacity and overwrites with the number of
/// programs attached, and how many times the query was retried.
#[derive(Debug)]
pub struct ProgQuery {
    pub prog_ids: Vec<u32>,
    pub prog_cnt: u32,
    pub retries: u32,
}

/// What to do after one `BPF_PROG_QUERY` call.
#[derive(Debug)]
pub enum QueryStep {
    /// The query is over: the ids of the attached programs.
    Done(Vec<u32>),
    /// Ask again with this buffer and count.
    Retry(ProgQuery),
    /// The query failed.
    Failed(ProgramError),
}

/// The buffer resized to `n` entries, new entries 0.
pub open spec fn resized(ids: Seq<u32>, n: nat) -> Seq<u32> {
    if n <= ids.len() {
        ids.take(n as int)
    } else {
        ids + Seq::new((n - ids.len()) as nat, |i: int| 0u32)
    }
}

/// Which step follows a call, by the retries so far and the call's result.
pub open spec fn query_retries_again(retries: u32, result: Result<(), i32>) -> bool {
    retries == 0 && result == Err::<(), i32>(28)
}

/// The first query: 64 zeroed slots, and a count of 64.
pub fn query_start() -> (q: ProgQuery)
    ensures
        q.prog_ids@ == Seq::new(initial_query_len(), |i: int| 0u32),
        q.prog_cnt == initial_query_len(),
        q.retries == 0,
{
    let mut prog_ids: Vec<u32> = Vec::new();
    let mut i: usize = 0;
    while i < 64
        invariant
            i <= 64,
            prog_ids@ == Seq::new(i as nat, |j: int| 0u32),
        decreases 64 - i,
    {
        prog_ids.push(0);
        i = i + 1;
        assert(prog_ids@ =~= Seq::new(i as nat, |j: int| 0u32));
    }
    ProgQuery { prog_ids, prog_cnt: 64, retries: 0 }
}

fn resize_ids(ids: &mut Vec<u32>, n: u32)
    ensures
        final(ids)@ == resized(old(ids)@, n as nat),
{
    ids.resize(n as usize, 0);
    assert(final(ids)@ =~= resized(old(ids)@, n as nat));
}

/// Decides what follows one `BPF_PROG_QUERY` call, given the buffer and count
/// as the kernel left them and the call's result.
///
/// On success the buffer is cut (or padded with 0) to the count, and that is
/// the answer. The first time the kernel reports `ENOSPC` (the buffer was too
/// small, and the count now says how many programs there are) the buffer is
/// resized to the count and the call is made once more. Any other failure,
/// and a second `ENOSPC`, ends the query with a `bpf_prog_query` syscall error.
pub fn query_step(q: ProgQuery, result: Result<(), i32>) -> (r: QueryStep)
    ensures
        result is Ok ==> (r matches QueryStep::Done(ids) && ids@ == resized(
            q.prog_ids@,
            q.prog_cnt as nat,
        )),
        query_retries_again(q.retries, result) ==> (r matches QueryStep::Retry(n) && n.prog_ids@
            == resized(q.prog_ids@, q.prog_cnt as nat) && n.prog_cnt == q.prog_cnt && n.retries
            == 1),
        result matches Err(e) ==> (!query_retries_again(q.retries, result) ==> r
            == QueryStep::Failed(
            ProgramError::SyscallError(SyscallError { call: "bpf_prog_query", io_error: e }),
        )),
{
    let ProgQuery { mut prog_ids, prog_cnt, retries } = q;
    match result {
        Ok(()) => {
            resize_ids(&mut prog_ids, prog_cnt);
            QueryStep::Done(prog_ids)
        },
        Err(io_error) => {
            if retries == 0 && io_error == enospc() {
                resize_ids(&mut prog_ids, prog_cnt);
                QueryStep::Retry(ProgQuery { prog_ids, prog_cnt, retries: 1 })
            } else {
                QueryStep::Failed(
                    ProgramError::SyscallError(SyscallError { call: "bpf_prog_query", io_error }),
                )
            }
        },
    }
}

/// A query is retried at most once: after a retry, the next call's result
/// ends the query, whatever it is.
pub proof fn lemma_query_retries_at_most_once(result: Result<(), i32>)
    ensures
        !query_retries_again(1, result),
{
}

} // verus!
