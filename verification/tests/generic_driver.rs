use rust_gpu_driver_lab::command::{CommandError, RawCommand};
use rust_gpu_driver_lab::generic_driver::{GenericDriverError, GenericGpuDriver};
use rust_gpu_driver_lab::queue::{CommandQueue, QueueError};
use rust_gpu_driver_lab::queue_backend::SubmissionQueue;
use rust_gpu_driver_lab::static_queue::{StaticCommandQueue, StaticQueueError};
use rust_gpu_driver_lab::submission::SubmissionError;

fn firmware() -> [u8; 6] {
    *b"RGPU\x01\x01"
}

fn valid_command(id: u64) -> RawCommand {
    RawCommand { id, offset: 0, length: 4, priority: 1 }
}

fn start_driver<Q>(queue: Q) -> GenericGpuDriver<Q>
where
    Q: SubmissionQueue,
{
    let mut driver = GenericGpuDriver::new(queue);
    driver.load_firmware(&firmware()).unwrap();
    driver.start().unwrap();
    driver
}

fn process_next_id<Q>(driver: &mut GenericGpuDriver<Q>) -> Option<u64>
where
    Q: SubmissionQueue,
{
    driver.next_submission().map(|submission| submission.command().id().get())
}

#[test]
fn dynamic_queue_backend_processes_submission() {
    let queue = CommandQueue::new(2).unwrap();
    let mut driver = start_driver(queue);
    let buffer_id = driver.allocate_buffer(8).unwrap();
    driver.write_buffer(buffer_id, &[0; 8]).unwrap();
    driver.submit(buffer_id, valid_command(10)).unwrap();
    assert_eq!(process_next_id(&mut driver), Some(10));
}

#[test]
fn static_queue_backend_processes_submission() {
    let queue = StaticCommandQueue::<2>::new().unwrap();
    let mut driver = start_driver(queue);
    let buffer_id = driver.allocate_buffer(8).unwrap();
    driver.write_buffer(buffer_id, &[0; 8]).unwrap();
    driver.submit(buffer_id, valid_command(20)).unwrap();
    assert_eq!(process_next_id(&mut driver), Some(20));
}

#[test]
fn dynamic_queue_error_is_preserved() {
    let queue = CommandQueue::new(1).unwrap();
    let mut driver = start_driver(queue);
    let buffer_id = driver.allocate_buffer(8).unwrap();
    driver.write_buffer(buffer_id, &[0; 8]).unwrap();
    driver.submit(buffer_id, valid_command(1)).unwrap();
    assert_eq!(
        driver.submit(buffer_id, valid_command(2)),
        Err(GenericDriverError::Queue(QueueError::QueueFull { capacity: 1 }))
    );
}

#[test]
fn static_queue_error_is_preserved() {
    let queue = StaticCommandQueue::<2>::new().unwrap();
    let mut driver = start_driver(queue);
    let buffer_id = driver.allocate_buffer(8).unwrap();
    driver.write_buffer(buffer_id, &[0; 8]).unwrap();
    driver.submit(buffer_id, valid_command(7)).unwrap();
    assert_eq!(
        driver.submit(buffer_id, valid_command(7)),
        Err(GenericDriverError::Queue(StaticQueueError::DuplicateCommandId { id: 7 }))
    );
    assert_eq!(driver.queued_len(), 1);
}

#[test]
fn dynamic_invalid_command_rejected() {
    let queue = CommandQueue::new(1).unwrap();
    let mut driver = start_driver(queue);
    let buffer_id = driver.allocate_buffer(8).unwrap();
    driver.write_buffer(buffer_id, &[0; 8]).unwrap();
    assert_eq!(
        driver.submit(buffer_id, valid_command(0)),
        Err(GenericDriverError::Submission(SubmissionError::Command(CommandError::ZeroCommandId)))
    );
    assert_eq!(driver.queued_len(), 0);
}

#[test]
fn static_invalid_command_rejected() {
    let queue = StaticCommandQueue::<1>::new().unwrap();
    let mut driver = start_driver(queue);
    let buffer_id = driver.allocate_buffer(8).unwrap();
    driver.write_buffer(buffer_id, &[0; 8]).unwrap();
    assert_eq!(
        driver.submit(buffer_id, valid_command(0)),
        Err(GenericDriverError::Submission(SubmissionError::Command(CommandError::ZeroCommandId)))
    );
    assert_eq!(driver.queued_len(), 0);
}

#[test]
fn dynamic_peek_submission() {
    let queue = CommandQueue::new(2).unwrap();
    let mut driver = start_driver(queue);
    let buffer_id = driver.allocate_buffer(8).unwrap();
    driver.write_buffer(buffer_id, &[0; 8]).unwrap();
    driver.submit(buffer_id, valid_command(10)).unwrap();
    driver.submit(buffer_id, valid_command(20)).unwrap();
    let first = driver.peek_submission().unwrap();
    assert_eq!(first.command().id().get(), 10);
    assert_eq!(driver.queued_len(), 2);
}

#[test]
fn static_peek_submission() {
    let queue = StaticCommandQueue::<2>::new().unwrap();
    let mut driver = start_driver(queue);
    let buffer_id = driver.allocate_buffer(8).unwrap();
    driver.write_buffer(buffer_id, &[0; 8]).unwrap();
    driver.submit(buffer_id, valid_command(10)).unwrap();
    driver.submit(buffer_id, valid_command(20)).unwrap();
    let first = driver.peek_submission().unwrap();
    assert_eq!(first.command().id().get(), 10);
    assert_eq!(driver.queued_len(), 2);
}

#[test]
fn dynamic_readiness() {
    let queue = CommandQueue::new(2).unwrap();
    let mut driver = GenericGpuDriver::new(queue);
    assert!(matches!(driver.allocate_buffer(8), Err(GenericDriverError::State(_))));
}

#[test]
fn static_readiness() {
    let queue = StaticCommandQueue::<2>::new().unwrap();
    let mut driver = GenericGpuDriver::new(queue);
    assert!(matches!(driver.allocate_buffer(8), Err(GenericDriverError::State(_))));
}

#[test]
fn generic_queue_status_follows_backend() {
    let queue = StaticCommandQueue::<1>::new().unwrap();
    let mut driver = start_driver(queue);
    assert!(driver.is_queue_empty());
    assert!(driver.peek_submission().is_none());
    let buffer_id = driver.allocate_buffer(4).unwrap();
    driver.write_buffer(buffer_id, &[0; 4]).unwrap();
    driver.submit(buffer_id, valid_command(5)).unwrap();
    assert!(driver.is_queue_full());
    assert!(!driver.is_queue_empty());
    assert_eq!(process_next_id(&mut driver), Some(5));
    assert_eq!(process_next_id(&mut driver), None);
}
