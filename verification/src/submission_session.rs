use crate::command::RawCommand;
use crate::generic_driver::{generic_submit_outcome, GenericDriverError, GenericDriverView};
use crate::queue_backend::SubmissionQueue;
use crate::submission::SubmissionRequest;
use crate::typed_driver::{DriverState, Operational};
use crate::typed_generic_driver::TypedGenericGpuDriver;
use crate::BufferId;
use vstd::prelude::*;

verus! {

/// Exclusive, lifetime-bound access to the submission API.
///
/// A session cannot outlive the driver it borrows, and offline drivers
/// cannot create submission sessions.
#[derive(Debug)]
pub struct SubmissionSession<'a, S, Q> where S: DriverState + Operational, Q: SubmissionQueue {
    driver: &'a mut TypedGenericGpuDriver<S, Q>,
}

impl<'a, S, Q> SubmissionSession<'a, S, Q> where S: DriverState + Operational, Q: SubmissionQueue {
    /// The borrowed driver's current state.
    pub closed spec fn driver_view(&self) -> GenericDriverView {
        (*self.driver)@
    }

    pub closed spec fn wf(&self) -> bool {
        (*self.driver).wf()
    }

    pub(crate) fn new(driver: &'a mut TypedGenericGpuDriver<S, Q>) -> (r: Self)
        requires
            old(driver).wf(),
        ensures
            r.wf(),
            r.driver_view() == old(driver)@,
    {
        Self { driver }
    }

    pub fn submit(&mut self, buffer_id: BufferId, command: RawCommand) -> (r: Result<
        (),
        GenericDriverError<Q::Error>,
    >)
        requires
            old(self).wf(),
        ensures
            final(self).wf(),
            generic_submit_outcome::<Q>(
                old(self).driver_view(),
                SubmissionRequest { buffer_id, command },
                r,
                final(self).driver_view(),
            ),
    {
        self.driver.submit(buffer_id, command)
    }

    pub fn queued_len(&self) -> (r: usize)
        requires
            self.wf(),
        ensures
            r == self.driver_view().queue.len(),
    {
        self.driver.queued_len()
    }

    pub fn is_queue_empty(&self) -> (r: bool)
        requires
            self.wf(),
        ensures
            r == (self.driver_view().queue.len() == 0),
    {
        self.driver.is_queue_empty()
    }

    pub fn is_queue_full(&self) -> (r: bool)
        requires
            self.wf(),
        ensures
            r == (self.driver_view().queue.len() == self.driver_view().capacity),
    {
        self.driver.is_queue_full()
    }

    pub fn state_name(&self) -> (r: &'static str)
        ensures
            r@ == S::name_spec(),
    {
        self.driver.state_name()
    }

    /// Consume the session and release its exclusive borrow.
    pub fn finish(self) {
    }
}

} // verus!
