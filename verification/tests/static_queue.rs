use rust_gpu_driver_lab::command::RawCommand;
use rust_gpu_driver_lab::static_queue::{StaticCommandQueue, StaticQueueError};
use rust_gpu_driver_lab::submission::{validate_submission, SubmissionRequest, ValidatedSubmission};
use rust_gpu_driver_lab::GpuDevice;

fn make_submission(id: u64) -> ValidatedSubmission {
    let mut device = GpuDevice::default();
    let buffer_id = device.allocate_buffer(8).unwrap();
    device.write_buffer(buffer_id, &[0; 8]).unwrap();
    validate_submission(
        &device,
        SubmissionRequest { buffer_id, command: RawCommand { id, offset: 0, length: 4, priority: 1 } },
    )
    .unwrap()
}

#[test]
fn static_queue_zero_capacity_is_rejected() {
    assert!(matches!(StaticCommandQueue::<0>::new(), Err(StaticQueueError::ZeroCapacity)));
}

#[test]
fn queue_capacity_return_const() {
    let queue = StaticCommandQueue::<2>::new().unwrap();
    assert_eq!(queue.capacity(), 2);
}

#[test]
fn queue_is_empty() {
    let queue = StaticCommandQueue::<2>::new().unwrap();
    assert!(queue.is_empty());
}

#[test]
fn queue_fifo_ordering_preserved() {
    let mut queue = StaticCommandQueue::<2>::new().unwrap();
    queue.enqueue(make_submission(10)).unwrap();
    queue.enqueue(make_submission(20)).unwrap();
    let first = queue.dequeue().unwrap();
    let second = queue.dequeue().unwrap();
    assert_eq!(first.command().id().get(), 10);
    assert_eq!(second.command().id().get(), 20);
    assert!(queue.is_empty());
}

#[test]
fn static_queue_duplicate_command_id_is_rejected() {
    let mut queue = StaticCommandQueue::<2>::new().unwrap();
    queue.enqueue(make_submission(10)).unwrap();
    let result = queue.enqueue(make_submission(10));
    assert!(matches!(result, Err(StaticQueueError::DuplicateCommandId { id: 10 })));
    assert_eq!(queue.len(), 1);
    assert_eq!(queue.peek().unwrap().command().id().get(), 10);
}

#[test]
fn static_queue_full_queue_rejects_new_submission() {
    let mut queue = StaticCommandQueue::<1>::new().unwrap();
    queue.enqueue(make_submission(10)).unwrap();
    let result = queue.enqueue(make_submission(20));
    assert!(matches!(result, Err(StaticQueueError::QueueFull { capacity: 1 })));
    assert_eq!(queue.len(), 1);
    assert_eq!(queue.peek().unwrap().command().id().get(), 10);
}

#[test]
fn static_queue_peek_does_not_remove_submission() {
    let mut queue = StaticCommandQueue::<2>::new().unwrap();
    queue.enqueue(make_submission(7)).unwrap();
    let first = queue.peek().unwrap();
    assert_eq!(first.command().id().get(), 7);
    assert_eq!(queue.len(), 1);
    assert!(!queue.is_empty());
}

#[test]
fn dequeue_transfer_ownership() {
    let mut queue = StaticCommandQueue::<2>::new().unwrap();
    queue.enqueue(make_submission(7)).unwrap();
    let first = queue.dequeue().unwrap();
    assert_eq!(first.command().id().get(), 7);
    assert_eq!(queue.peek(), None);
}

#[test]
fn static_queue_dequeued_command_id_can_be_reused() {
    let mut queue = StaticCommandQueue::<2>::new().unwrap();
    queue.enqueue(make_submission(7)).unwrap();
    let first = queue.dequeue().unwrap();
    assert_eq!(first.command().id().get(), 7);
    queue.enqueue(make_submission(7)).unwrap();
    let peek_result = queue.peek().unwrap();
    assert_eq!(peek_result.command().id().get(), 7);
    assert_eq!(queue.len(), 1);
    assert!(!queue.is_empty());
}

#[test]
fn fifo_ordering_survives_wraparound() {
    let mut queue = StaticCommandQueue::<3>::new().unwrap();
    queue.enqueue(make_submission(1)).unwrap();
    queue.enqueue(make_submission(2)).unwrap();
    queue.enqueue(make_submission(3)).unwrap();
    assert_eq!(queue.dequeue().unwrap().command().id().get(), 1);
    queue.enqueue(make_submission(4)).unwrap();
    assert_eq!(queue.dequeue().unwrap().command().id().get(), 2);
    assert_eq!(queue.dequeue().unwrap().command().id().get(), 3);
    assert_eq!(queue.dequeue().unwrap().command().id().get(), 4);
    assert!(queue.is_empty());
}

#[test]
fn static_dequeue_from_empty_returns_none() {
    let mut queue = StaticCommandQueue::<2>::new().unwrap();
    assert_eq!(queue.dequeue(), None);
    assert!(!queue.is_full());
}

#[test]
fn duplicate_detected_after_wraparound() {
    let mut queue = StaticCommandQueue::<2>::new().unwrap();
    queue.enqueue(make_submission(1)).unwrap();
    queue.enqueue(make_submission(2)).unwrap();
    assert!(queue.is_full());
    queue.dequeue().unwrap();
    queue.enqueue(make_submission(3)).unwrap();
    assert!(matches!(
        queue.enqueue(make_submission(3)),
        Err(StaticQueueError::DuplicateCommandId { id: 3 })
    ));
    assert!(matches!(queue.enqueue(make_submission(9)), Err(StaticQueueError::QueueFull { capacity: 2 })));
    assert_eq!(queue.dequeue().unwrap().command().id().get(), 2);
    assert_eq!(queue.dequeue().unwrap().command().id().get(), 3);
}
