use server::{ControlMessage, DispatchQueue, PoolError, TaskOutcome, Worker, WorkerState};

#[test]
fn a_new_queue_is_empty_and_open() {
    let queue: DispatchQueue<u8> = DispatchQueue::new();
    assert_eq!(queue.len(), 0);
    assert!(queue.is_empty());
    assert!(!queue.is_closed());
}

#[test]
fn messages_leave_the_queue_in_the_order_they_were_sent() {
    let mut queue: DispatchQueue<u32> = DispatchQueue::new();
    assert_eq!(queue.send(ControlMessage::Run(1)), Ok(()));
    assert_eq!(queue.send(ControlMessage::Run(2)), Ok(()));
    assert_eq!(queue.send(ControlMessage::Stop), Ok(()));
    assert_eq!(queue.send(ControlMessage::Run(3)), Ok(()));
    assert_eq!(queue.len(), 4);
    assert!(matches!(queue.receive(), Some(ControlMessage::Run(1))));
    assert!(matches!(queue.receive(), Some(ControlMessage::Run(2))));
    assert!(matches!(queue.receive(), Some(ControlMessage::Stop)));
    assert!(matches!(queue.receive(), Some(ControlMessage::Run(3))));
    assert!(queue.receive().is_none());
    assert!(queue.is_empty());
}

#[test]
fn a_closed_queue_refuses_messages_and_keeps_what_it_holds() {
    let mut queue: DispatchQueue<u32> = DispatchQueue::new();
    assert_eq!(queue.send(ControlMessage::Run(9)), Ok(()));
    queue.close();
    assert!(queue.is_closed());
    assert_eq!(queue.send(ControlMessage::Run(10)), Err(PoolError::QueueClosed));
    assert_eq!(queue.send(ControlMessage::Stop), Err(PoolError::QueueClosed));
    assert_eq!(queue.len(), 1);
    assert!(matches!(queue.receive(), Some(ControlMessage::Run(9))));
    assert!(queue.receive().is_none());
    assert!(queue.is_closed());
}

#[test]
fn receiving_from_an_empty_queue_gives_nothing() {
    let mut queue: DispatchQueue<u32> = DispatchQueue::new();
    assert!(queue.receive().is_none());
    assert_eq!(queue.len(), 0);
    assert!(!queue.is_closed());
}

#[test]
fn control_message_accessors() {
    let run: ControlMessage<u32> = ControlMessage::Run(4);
    let stop: ControlMessage<u32> = ControlMessage::Stop;
    assert!(!run.is_stop());
    assert!(stop.is_stop());
    assert_eq!(run.into_task(), Some(4));
    assert_eq!(stop.into_task(), None);
}

#[test]
fn a_new_worker_is_running_and_idle() {
    let worker = Worker::new(6);
    assert_eq!(worker.id(), 6);
    assert_eq!(worker.state(), WorkerState::Running);
    assert!(worker.is_alive());
    assert!(worker.is_idle());
    assert!(!worker.is_busy());
}

#[test]
fn a_worker_takes_a_task_and_is_idle_again_when_it_completes() {
    let mut worker = Worker::new(0);
    worker.accept(&ControlMessage::Run(11u32));
    assert!(worker.is_busy());
    assert!(!worker.is_idle());
    assert_eq!(worker.state(), WorkerState::Running);
    assert_eq!(worker.finish(TaskOutcome::Completed), Ok(()));
    assert!(worker.is_idle());
    assert_eq!(worker.id(), 0);
}

#[test]
fn a_worker_terminates_on_stop() {
    let mut worker = Worker::new(3);
    worker.accept(&ControlMessage::<u32>::Stop);
    assert_eq!(worker.state(), WorkerState::Terminated);
    assert!(!worker.is_alive());
    assert!(!worker.is_idle());
    assert!(!worker.is_busy());
    assert_eq!(worker.id(), 3);
}

#[test]
fn a_worker_dies_of_a_faulted_task() {
    let mut worker = Worker::new(1);
    worker.accept(&ControlMessage::Run(5u32));
    assert_eq!(worker.finish(TaskOutcome::Faulted), Err(PoolError::WorkerFault));
    assert_eq!(worker.state(), WorkerState::Terminated);
    assert!(!worker.is_busy());
    // Nothing is left to report.
    assert_eq!(worker.finish(TaskOutcome::Faulted), Ok(()));
    assert_eq!(worker.state(), WorkerState::Terminated);
}

#[test]
fn a_worker_without_a_task_has_nothing_to_finish() {
    let mut worker = Worker::new(2);
    assert_eq!(worker.finish(TaskOutcome::Faulted), Ok(()));
    assert_eq!(worker.finish(TaskOutcome::Completed), Ok(()));
    assert_eq!(worker.state(), WorkerState::Running);
    assert!(worker.is_idle());
}

#[test]
fn only_an_idle_worker_is_abandoned() {
    let mut idle = Worker::new(0);
    assert!(idle.abandon());
    assert_eq!(idle.state(), WorkerState::Terminated);
    assert!(!idle.abandon());

    let mut busy = Worker::new(1);
    busy.accept(&ControlMessage::Run(1u32));
    assert!(!busy.abandon());
    assert_eq!(busy.state(), WorkerState::Running);
    assert!(busy.is_busy());
}
