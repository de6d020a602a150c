//! The settings a session is run with.

use vstd::prelude::*;
use crate::error::FatalError;
use crate::session::{fresh, Controller};

verus! {

/// The settings of the service. A session reads the output directory, the
/// path of the metadata store, the sampling stride, the time budget and the
/// verbosity flag; the rest belongs to its collaborators.
#[derive(Clone, Debug, PartialEq, Eq)]
pub struct Config {
    pub port: u32,
    /// Where the metadata store lies.
    pub db_path: String,
    /// The directory the still images are written to. It must exist.
    pub dump_path: String,
    pub predict_worker_num: u32,
    pub notify_svr_url: String,
    pub notify_timeout: u64,
    pub redis_stream_tag: String,
    pub static_dir: String,
    pub svr_root_url: String,
    /// Whether running counts and frame rates are printed.
    pub is_test: bool,
    /// The sampling stride, in frames. Zero is invalid.
    pub frame_interval_count: u32,
    pub watch_interval: u64,
    pub rtmp_max_timeout: u64,
    pub main_cmd: String,
    /// The wall-clock budget of a session, in nanoseconds.
    pub max_duration_nanos: u128,
}

impl Config {
    /// Whether a session can be run with these settings.
    pub open spec fn valid(&self) -> bool {
        self.frame_interval_count >= 1
    }

    /// The controller of a session run with these settings. Settings with a
    /// stride of zero are refused, before anything is opened or read.
    pub fn controller(&self) -> (made: Result<Controller, FatalError>)
        ensures
            match made {
                Ok(controller) => self.valid() && controller.wf() && controller@ == fresh(
                    self.frame_interval_count,
                    self.max_duration_nanos,
                ),
                Err(error) => !self.valid() && error == FatalError::InvalidInterval,
            },
    {
        Controller::new(self.frame_interval_count, self.max_duration_nanos)
    }
}

} // verus!
