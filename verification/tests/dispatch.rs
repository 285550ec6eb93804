use codex_plus_manager_native::dispatch::{
    classify_poll, coalesce_requests, next_batch, try_receive, ChannelPoll, DispatchError,
    LoadChoice, QueuedKind, WorkerBatch,
};

#[test]
fn dispatcher_coalesces_requests_queued_during_load_and_wakes_after_send() {
    // Request 1 is taken alone; requests 2 and 3 queue up while it loads and
    // are answered once, under the greatest id.
    assert_eq!(coalesce_requests(1, &vec![]), 1);
    assert_eq!(coalesce_requests(2, &vec![3]), 3);
}

#[test]
fn adjacent_loads_coalesce_to_greatest_request_id_without_crossing_mutations() {
    let first = vec![QueuedKind::Load(1)];
    assert_eq!(
        next_batch(&first, 0),
        WorkerBatch { start: 0, end: 1, load: Some(LoadChoice { request_id: 1, position: 0 }) }
    );
    let queued = vec![QueuedKind::Load(2), QueuedKind::Load(3)];
    assert_eq!(
        next_batch(&queued, 0),
        WorkerBatch { start: 0, end: 2, load: Some(LoadChoice { request_id: 3, position: 1 }) }
    );
    let mixed = vec![QueuedKind::Load(4), QueuedKind::Ordered, QueuedKind::Load(6)];
    assert_eq!(
        next_batch(&mixed, 0),
        WorkerBatch { start: 0, end: 1, load: Some(LoadChoice { request_id: 4, position: 0 }) }
    );
}

#[test]
fn save_open_forget_remain_fifo_while_loads_are_coalesced() {
    let queue = vec![QueuedKind::Ordered, QueuedKind::Ordered, QueuedKind::Ordered];
    let mut start = 0;
    let mut order = Vec::new();
    while start < queue.len() {
        let batch = next_batch(&queue, start);
        assert_eq!(batch.load, None);
        order.push(batch.start);
        start = batch.end;
    }
    assert_eq!(order, vec![0, 1, 2]);
}

#[test]
fn coalesced_loads_keep_the_latest_parameters_on_ties() {
    let queue = vec![QueuedKind::Load(5), QueuedKind::Load(5), QueuedKind::Load(4)];
    assert_eq!(
        next_batch(&queue, 0),
        WorkerBatch { start: 0, end: 3, load: Some(LoadChoice { request_id: 5, position: 1 }) }
    );
    assert_eq!(coalesce_requests(9, &vec![3, 4]), 9);
}

#[test]
fn polls_map_to_worker_answers() {
    assert_eq!(classify_poll(ChannelPoll::Ready(7)), Ok(Some(7)));
    assert_eq!(classify_poll::<u8>(ChannelPoll::Empty), Ok(None));
    assert_eq!(
        classify_poll::<u8>(ChannelPoll::Disconnected),
        Err(DispatchError::WorkerStopped)
    );
    let (sender, receiver) = std::sync::mpsc::channel::<u32>();
    assert_eq!(try_receive(&receiver), Ok(None));
    sender.send(5).unwrap();
    assert_eq!(try_receive(&receiver), Ok(Some(5)));
    drop(sender);
    assert_eq!(try_receive(&receiver), Err(DispatchError::WorkerStopped));
}
