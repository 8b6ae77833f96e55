use rust_gpu_driver_lab::command::{CommandError, RawCommand};
use rust_gpu_driver_lab::generic_driver::GenericDriverError;
use rust_gpu_driver_lab::queue::{CommandQueue, QueueError};
use rust_gpu_driver_lab::queue_backend::SubmissionQueue;
use rust_gpu_driver_lab::static_queue::{StaticCommandQueue, StaticQueueError};
use rust_gpu_driver_lab::submission::SubmissionError;
use rust_gpu_driver_lab::typed_driver::{Offline, Ready};
use rust_gpu_driver_lab::typed_generic_driver::TypedGenericGpuDriver;

fn firmware() -> [u8; 6] {
    *b"RGPU\x01\x04"
}

fn valid_command(id: u64) -> RawCommand {
    RawCommand { id, offset: 0, length: 4, priority: 1 }
}

fn ready_driver<Q>(queue: Q) -> TypedGenericGpuDriver<Ready, Q>
where
    Q: SubmissionQueue,
{
    TypedGenericGpuDriver::<Offline, Q>::new(queue).load_firmware(&firmware()).unwrap().start().unwrap()
}

#[test]
fn dynamic_session_submits_commands() {
    let queue = CommandQueue::new(2).unwrap();
    let mut driver = ready_driver(queue);
    let buffer_id = driver.allocate_buffer(8).unwrap();
    driver.write_buffer(buffer_id, &[0; 8]).unwrap();
    {
        let mut session = driver.begin_submission_session();
        session.submit(buffer_id, valid_command(10)).unwrap();
        assert_eq!(session.queued_len(), 1);
        assert_eq!(session.state_name(), "ready");
    }
    assert_eq!(driver.queued_len(), 1);
}

#[test]
fn static_session_submits_commands() {
    let queue = StaticCommandQueue::<2>::new().unwrap();
    let mut driver = ready_driver(queue);
    let buffer_id = driver.allocate_buffer(8).unwrap();
    driver.write_buffer(buffer_id, &[0; 8]).unwrap();
    let mut session = driver.begin_submission_session();
    session.submit(buffer_id, valid_command(20)).unwrap();
    assert_eq!(session.queued_len(), 1);
}

#[test]
fn finish_releases_driver_borrow() {
    let queue = CommandQueue::new(2).unwrap();
    let mut driver = ready_driver(queue);
    let buffer_id = driver.allocate_buffer(8).unwrap();
    driver.write_buffer(buffer_id, &[0; 8]).unwrap();
    let mut session = driver.begin_submission_session();
    session.submit(buffer_id, valid_command(1)).unwrap();
    session.finish();
    let submission = driver.next_submission().unwrap();
    assert_eq!(submission.command().id().get(), 1);
}

#[test]
fn dropping_session_releases_driver_borrow() {
    let queue = CommandQueue::new(2).unwrap();
    let mut driver = ready_driver(queue);
    let buffer_id = driver.allocate_buffer(8).unwrap();
    driver.write_buffer(buffer_id, &[0; 8]).unwrap();
    {
        let mut session = driver.begin_submission_session();
        session.submit(buffer_id, valid_command(2)).unwrap();
    }
    assert_eq!(driver.next_submission().unwrap().command().id().get(), 2);
}

#[test]
fn failed_submission_does_not_end_session() {
    let queue = CommandQueue::new(2).unwrap();
    let mut driver = ready_driver(queue);
    let buffer_id = driver.allocate_buffer(8).unwrap();
    driver.write_buffer(buffer_id, &[0; 8]).unwrap();
    let mut session = driver.begin_submission_session();
    assert_eq!(
        session.submit(buffer_id, valid_command(0)),
        Err(GenericDriverError::Submission(SubmissionError::Command(CommandError::ZeroCommandId)))
    );
    assert_eq!(session.queued_len(), 0);
    session.submit(buffer_id, valid_command(3)).unwrap();
    assert_eq!(session.queued_len(), 1);
}

#[test]
fn submission_session_dynamic_queue_error_remains_concrete() {
    let queue = CommandQueue::new(1).unwrap();
    let mut driver = ready_driver(queue);
    let buffer_id = driver.allocate_buffer(8).unwrap();
    driver.write_buffer(buffer_id, &[0; 8]).unwrap();
    let mut session = driver.begin_submission_session();
    session.submit(buffer_id, valid_command(1)).unwrap();
    assert_eq!(
        session.submit(buffer_id, valid_command(2)),
        Err(GenericDriverError::Queue(QueueError::QueueFull { capacity: 1 }))
    );
}

#[test]
fn submission_session_static_queue_error_remains_concrete() {
    let queue = StaticCommandQueue::<2>::new().unwrap();
    let mut driver = ready_driver(queue);
    let buffer_id = driver.allocate_buffer(8).unwrap();
    driver.write_buffer(buffer_id, &[0; 8]).unwrap();
    let mut session = driver.begin_submission_session();
    session.submit(buffer_id, valid_command(7)).unwrap();
    assert_eq!(
        session.submit(buffer_id, valid_command(7)),
        Err(GenericDriverError::Queue(StaticQueueError::DuplicateCommandId { id: 7 }))
    );
}

#[test]
fn session_reports_queue_status() {
    let queue = StaticCommandQueue::<1>::new().unwrap();
    let mut driver = ready_driver(queue);
    let buffer_id = driver.allocate_buffer(4).unwrap();
    driver.write_buffer(buffer_id, &[0; 4]).unwrap();
    let mut session = driver.begin_submission_session();
    assert!(session.is_queue_empty());
    assert!(!session.is_queue_full());
    session.submit(buffer_id, valid_command(9)).unwrap();
    assert!(session.is_queue_full());
    assert!(!session.is_queue_empty());
}
