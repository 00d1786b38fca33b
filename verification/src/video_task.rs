//! One long-running video moderation job, as the states it passes
//! through. The driver fetches, moderates and persists between the steps;
//! the task only records where it stands, so that `describe` can report a
//! pending job and the queue can retire a finished one.

use vstd::prelude::*;

verus! {

/// Where a video job stands.
#[derive(PartialEq, Eq, Structural, Clone, Copy, Debug)]
pub enum VideoModerationState {
    AddToBucket,
    WaitingForResult,
    GotResult,
    Failed,
}

/// One video moderation job, keyed by its URL.
pub struct VideoModerationTask {
    pub url: String,
    pub req_id: u128,
    pub state: VideoModerationState,
}

impl VideoModerationTask {
    /// A fresh job, not yet started.
    pub fn new(url: String, req_id: u128) -> (r: VideoModerationTask)
        ensures
            r.state == VideoModerationState::AddToBucket,
            r.url == url,
            r.req_id == req_id,
    {
        VideoModerationTask { url, req_id, state: VideoModerationState::AddToBucket }
    }

    /// The queue identifier of the job: its URL.
    pub fn get_id(&self) -> (r: String)
        ensures
            r@ == self.url@,
    {
        self.url.clone()
    }

    /// Whether the job is running.
    pub fn is_active(&self) -> (r: bool)
        ensures
            r == (self.state == VideoModerationState::WaitingForResult),
    {
        match self.state {
            VideoModerationState::WaitingForResult => true,
            _ => false,
        }
    }

    /// Whether the job has yet to start.
    pub fn is_ready(&self) -> (r: bool)
        ensures
            r == (self.state == VideoModerationState::AddToBucket),
    {
        match self.state {
            VideoModerationState::AddToBucket => true,
            _ => false,
        }
    }

    /// Starts the job: only a job that has yet to start begins waiting;
    /// anything else is left alone, so running a job twice does nothing.
    pub fn begin(&mut self) -> (r: bool)
        ensures
            final(self).url == old(self).url,
            final(self).req_id == old(self).req_id,
            old(self).state == VideoModerationState::AddToBucket ==> r && final(self).state == VideoModerationState::WaitingForResult,
            old(self).state != VideoModerationState::AddToBucket ==> !r && *final(self)
                == *old(self),
    {
        match self.state {
            VideoModerationState::AddToBucket => {
                self.state = VideoModerationState::WaitingForResult;
                true
            },
            _ => false,
        }
    }

    /// Records that the fetch or the moderation call failed.
    pub fn fail(&mut self)
        ensures
            final(self).url == old(self).url,
            final(self).req_id == old(self).req_id,
            final(self).state == VideoModerationState::Failed,
    {
        self.state = VideoModerationState::Failed;
    }

    /// Records the persist outcome: a stored verdict finishes the job, a
    /// store failure fails it.
    pub fn on_persisted(&mut self, ok: bool)
        ensures
            final(self).url == old(self).url,
            final(self).req_id == old(self).req_id,
            final(self).state == if ok {
                VideoModerationState::GotResult
            } else {
                VideoModerationState::Failed
            },
    {
        if ok {
            self.state = VideoModerationState::GotResult;
        } else {
            self.state = VideoModerationState::Failed;
        }
    }
}

} // verus!
