use vstd::prelude::*;

verus! {

/// A background worker that no longer answers.
#[derive(Debug, Clone, Copy, PartialEq, Eq, Structural)]
pub enum DispatchError {
    WorkerStopped,
}

#[verifier::external_type_specification]
#[verifier::external_body]
#[verifier::reject_recursive_types(T)]
pub struct ExReceiver<T>(std::sync::mpsc::Receiver<T>);

/// What a non-blocking look at a response channel found.
pub enum ChannelPoll<T> {
    Ready(T),
    Empty,
    Disconnected,
}

/// Looks at a response channel without waiting.
/// Calls `Receiver::try_recv` and tells its three outcomes apart; what it
/// finds depends on the worker thread's timing, so nothing is stated of it.
#[verifier::external_body]
fn poll_channel<T>(receiver: &std::sync::mpsc::Receiver<T>) -> ChannelPoll<T> {
    match receiver.try_recv() {
        Ok(response) => ChannelPoll::Ready(response),
        Err(std::sync::mpsc::TryRecvError::Empty) => ChannelPoll::Empty,
        Err(std::sync::mpsc::TryRecvError::Disconnected) => ChannelPoll::Disconnected,
    }
}

/// The answer to a poll: a response, nothing yet, or a stopped worker.
pub open spec fn poll_outcome<T>(poll: ChannelPoll<T>) -> Result<Option<T>, DispatchError> {
    match poll {
        ChannelPoll::Ready(response) => Ok(Some(response)),
        ChannelPoll::Empty => Ok(None),
        ChannelPoll::Disconnected => Err(DispatchError::WorkerStopped),
    }
}

/// Turns a poll into the answer the view states consume.
pub fn classify_poll<T>(poll: ChannelPoll<T>) -> (outcome: Result<Option<T>, DispatchError>)
    ensures
        outcome == poll_outcome(poll),
{
    match poll {
        ChannelPoll::Ready(response) => Ok(Some(response)),
        ChannelPoll::Empty => Ok(None),
        ChannelPoll::Disconnected => Err(DispatchError::WorkerStopped),
    }
}

/// Takes the next response of a worker if one is waiting; a worker whose
/// sending side is gone is reported as stopped.
pub fn try_receive<T>(receiver: &std::sync::mpsc::Receiver<T>) -> (outcome: Result<
    Option<T>,
    DispatchError,
>)
    ensures
        exists|poll: ChannelPoll<T>| outcome == poll_outcome(poll),
{
    let poll = poll_channel(receiver);
    let ghost observed = poll;
    let outcome = classify_poll(poll);
    assert(outcome == poll_outcome(observed));
    outcome
}

/// A request waiting in a worker's queue, as the scheduler sees it: a load
/// with its request id, or an ordered operation (a save, launch, open,
/// forget or cleanup) that must run on its own and in order.
#[derive(Debug, Clone, Copy, PartialEq, Eq, Structural)]
pub enum QueuedKind {
    Load(u64),
    Ordered,
}

/// What the worker runs next: the queue positions `start..end` it takes, and
/// for a load batch the request id it answers and the position of the load
/// whose parameters it uses.
#[derive(Debug, Clone, Copy, PartialEq, Eq, Structural)]
pub struct WorkerBatch {
    pub start: usize,
    pub end: usize,
    pub load: Option<LoadChoice>,
}

/// The request id a load batch answers and the queue position of the load
/// whose parameters it runs with.
#[derive(Debug, Clone, Copy, PartialEq, Eq, Structural)]
pub struct LoadChoice {
    pub request_id: u64,
    pub position: usize,
}

/// The position just after the run of loads that begins at `from`.
pub open spec fn load_run_end(queue: Seq<QueuedKind>, from: int) -> int
    decreases queue.len() - from,
{
    if from < 0 || from >= queue.len() {
        queue.len() as int
    } else if queue[from] is Load {
        load_run_end(queue, from + 1)
    } else {
        from
    }
}

/// Among the loads at `start..end`, the greatest request id and the last
/// position that carries it.
pub open spec fn best_load(queue: Seq<QueuedKind>, start: int, end: int) -> (u64, int)
    decreases end - start,
{
    if end <= start + 1 {
        (queue[start]->Load_0, start)
    } else {
        let (id, at) = best_load(queue, start, end - 1);
        if queue[end - 1]->Load_0 >= id {
            (queue[end - 1]->Load_0, end - 1)
        } else {
            (id, at)
        }
    }
}

/// The batch that starts at `start`: an ordered operation alone, or the whole
/// run of adjacent loads coalesced into one.
pub open spec fn batch_at(queue: Seq<QueuedKind>, start: int) -> WorkerBatch {
    if queue[start] is Ordered {
        WorkerBatch { start: start as usize, end: (start + 1) as usize, load: None }
    } else {
        let end = load_run_end(queue, start);
        let (id, at) = best_load(queue, start, end);
        WorkerBatch { start: start as usize, end: end as usize, load: Some(LoadChoice { request_id: id, position: at as usize }) }
    }
}

/// All batches the worker runs for the queue positions from `start` on.
pub open spec fn schedule(queue: Seq<QueuedKind>, start: int) -> Seq<WorkerBatch>
    decreases queue.len() - start,
{
    if start < 0 || start >= queue.len() {
        Seq::empty()
    } else {
        let batch = batch_at(queue, start);
        if batch.end <= start || batch.end > queue.len() {
            Seq::empty()
        } else {
            seq![batch] + schedule(queue, batch.end as int)
        }
    }
}

proof fn lemma_load_run_end_bounds(queue: Seq<QueuedKind>, from: int)
    requires
        0 <= from <= queue.len(),
    ensures
        from <= load_run_end(queue, from) <= queue.len(),
        forall|i: int| from <= i < load_run_end(queue, from) ==> (#[trigger] queue[i]) is Load,
        load_run_end(queue, from) < queue.len() ==> queue[load_run_end(queue, from)] is Ordered,
    decreases queue.len() - from,
{
    if from < queue.len() && queue[from] is Load {
        lemma_load_run_end_bounds(queue, from + 1);
    }
}

proof fn lemma_best_load(queue: Seq<QueuedKind>, start: int, end: int)
    requires
        0 <= start < end <= queue.len(),
        forall|i: int| start <= i < end ==> (#[trigger] queue[i]) is Load,
    ensures
        start <= best_load(queue, start, end).1 < end,
        queue[best_load(queue, start, end).1]->Load_0 == best_load(queue, start, end).0,
        forall|i: int| start <= i < end ==> (#[trigger] queue[i])->Load_0 <= best_load(queue, start, end).0,
        forall|i: int| best_load(queue, start, end).1 < i < end ==> (#[trigger] queue[i])->Load_0 < best_load(
            queue,
            start,
            end,
        ).0,
    decreases end - start,
{
    if end > start + 1 {
        lemma_best_load(queue, start, end - 1);
    }
}

/// The shape of every batch: an ordered operation runs alone; a load batch
/// takes the whole run of adjacent loads and stops before the next ordered
/// operation, answers the greatest request id of the run, and uses the
/// parameters of the last load that carries that id.
pub proof fn law_batch_shape(queue: Seq<QueuedKind>, start: int)
    requires
        0 <= start < queue.len(),
        queue.len() <= usize::MAX,
    ensures
        batch_at(queue, start).start == start,
        start < batch_at(queue, start).end <= queue.len(),
        queue[start] is Ordered ==> batch_at(queue, start).end == start + 1 && batch_at(
            queue,
            start,
        ).load is None,
        queue[start] is Load ==> ({
            let batch = batch_at(queue, start);
            &&& batch.load is Some
            &&& forall|i: int| start <= i < batch.end ==> (#[trigger] queue[i]) is Load
            &&& batch.end < queue.len() ==> queue[batch.end as int] is Ordered
            &&& start <= batch.load->0.position < batch.end
            &&& queue[batch.load->0.position as int]->Load_0 == batch.load->0.request_id
            &&& forall|i: int| start <= i < batch.end ==> (#[trigger] queue[i])->Load_0 <= batch.load->0.request_id
            &&& forall|i: int| batch.load->0.position < i < batch.end ==> (#[trigger] queue[i])->Load_0
                < batch.load->0.request_id
        }),
{
    if queue[start] is Load {
        lemma_load_run_end_bounds(queue, start + 1);
        lemma_load_run_end_bounds(queue, start);
        lemma_best_load(queue, start, load_run_end(queue, start));
    }
}

/// The batches cut the queue into consecutive pieces in order, each of the
/// shape that `law_batch_shape` states: nothing is skipped or reordered, so
/// ordered operations run first in, first out, and loads are coalesced only
/// with the loads next to them.
pub proof fn law_schedule_partitions_queue(queue: Seq<QueuedKind>, start: int)
    requires
        0 <= start <= queue.len(),
        queue.len() <= usize::MAX,
    ensures
        ({
            let batches = schedule(queue, start);
            &&& start == queue.len() <==> batches.len() == 0
            &&& batches.len() > 0 ==> batches[0].start == start && batches.last().end == queue.len()
            &&& forall|k: int| 0 <= k < batches.len() ==> #[trigger] batches[k] == batch_at(queue, batches[k].start as int)
                && batches[k].start < batches[k].end
            &&& forall|k: int| 0 <= k < batches.len() - 1 ==> #[trigger] batches[k].end == batches[k + 1].start
        }),
    decreases queue.len() - start,
{
    if start < queue.len() {
        law_batch_shape(queue, start);
        let batch = batch_at(queue, start);
        law_schedule_partitions_queue(queue, batch.end as int);
        let rest = schedule(queue, batch.end as int);
        let batches = schedule(queue, start);
        assert(batches == seq![batch] + rest);
        assert forall|k: int| 0 <= k < batches.len() implies #[trigger] batches[k] == batch_at(
            queue,
            batches[k].start as int,
        ) && batches[k].start < batches[k].end by {
            if k > 0 {
                assert(batches[k] == rest[k - 1]);
            }
        }
        assert forall|k: int| 0 <= k < batches.len() - 1 implies #[trigger] batches[k].end
            == batches[k + 1].start by {
            assert(batches[k + 1] == rest[k]);
            if k > 0 {
                assert(batches[k] == rest[k - 1]);
            }
        }
        if rest.len() > 0 {
            assert(batches.last() == rest.last());
        }
    }
}

/// The batch the worker runs next from the queue position `start`.
pub fn next_batch(queue: &Vec<QueuedKind>, start: usize) -> (batch: WorkerBatch)
    requires
        start < queue@.len(),
    ensures
        batch == batch_at(queue@, start as int),
{
    let len = queue.len();
    match queue[start] {
        QueuedKind::Ordered => WorkerBatch { start, end: start + 1, load: None },
        QueuedKind::Load(first) => {
            let mut id = first;
            let mut at = start;
            let mut end = start + 1;
            proof {
                lemma_load_run_end_bounds(queue@, start as int);
            }
            while end < len
                invariant
                    start < end <= queue@.len(),
                    len == queue@.len(),
                    queue@[start as int] is Load,
                    forall|i: int| start <= i < end ==> (#[trigger] queue@[i]) is Load,
                    load_run_end(queue@, start as int) == load_run_end(queue@, end as int),
                    (id, at as int) == best_load(queue@, start as int, end as int),
                ensures
                    start < end <= queue@.len(),
                    forall|i: int| start <= i < end ==> (#[trigger] queue@[i]) is Load,
                    load_run_end(queue@, start as int) == load_run_end(queue@, end as int),
                    (id, at as int) == best_load(queue@, start as int, end as int),
                    end == queue@.len() || queue@[end as int] is Ordered,
                decreases queue@.len() - end,
            {
                match queue[end] {
                    QueuedKind::Load(next) => {
                        if next >= id {
                            id = next;
                            at = end;
                        }
                        end = end + 1;
                    },
                    QueuedKind::Ordered => {
                        break;
                    },
                }
            }
            proof {
                assert(load_run_end(queue@, end as int) == end);
            }
            WorkerBatch { start, end, load: Some(LoadChoice { request_id: id, position: at }) }
        },
    }
}

/// The request id an overview worker answers when `first` is taken and
/// `pending` were queued meanwhile: the greatest of them, since a newer
/// overview supersedes every older one.
pub open spec fn latest_request(first: u64, pending: Seq<u64>) -> u64
    decreases pending.len(),
{
    if pending.len() == 0 {
        first
    } else {
        let rest = latest_request(first, pending.drop_last());
        if pending.last() > rest {
            pending.last()
        } else {
            rest
        }
    }
}

/// Coalesces an overview request with those queued behind it.
pub fn coalesce_requests(first: u64, pending: &Vec<u64>) -> (request_id: u64)
    ensures
        request_id == latest_request(first, pending@),
        request_id >= first,
        forall|i: int| 0 <= i < pending@.len() ==> pending@[i] <= request_id,
        request_id == first || pending@.contains(request_id),
{
    let mut request_id = first;
    let mut i: usize = 0;
    while i < pending.len()
        invariant
            i <= pending@.len(),
            request_id == latest_request(first, pending@.take(i as int)),
            request_id >= first,
            forall|j: int| 0 <= j < i ==> pending@[j] <= request_id,
            request_id == first || pending@.take(i as int).contains(request_id),
        decreases pending@.len() - i,
    {
        proof {
            assert(pending@.take(i + 1).drop_last() =~= pending@.take(i as int));
            assert(pending@.take(i + 1).last() == pending@[i as int]);
        }
        if pending[i] > request_id {
            request_id = pending[i];
            proof {
                assert(pending@.take(i + 1)[i as int] == request_id);
            }
        } else {
            proof {
                if request_id != first {
                    let k = choose|k: int| 0 <= k < i && pending@.take(i as int)[k] == request_id;
                    assert(pending@.take(i + 1)[k] == request_id);
                }
            }
        }
        i = i + 1;
    }
    proof {
        assert(pending@.take(pending@.len() as int) =~= pending@);
    }
    request_id
}

} // verus!
