//! Configuration types for stream consumers.

use vstd::prelude::*;

verus! {

/// Where a consumer starts reading in the stream.
#[derive(Clone, Debug)]
pub enum StartPosition {
    /// Only entries appended after the consumer starts.
    EndOfStream,
    /// A literal entry identifier.
    Other(String),
    /// The very beginning of the stream.
    StartOfStream,
}

/// Failures surfaced by a consumer.
#[derive(Debug)]
pub enum StreamError {
    /// Creating the remote group or stream failed: the instance is
    /// unusable.
    Init(String),
    /// A blocking read failed; the instance stays usable for another try.
    Read(String),
    /// The caller's handler rejected a message; the rest of the batch is
    /// not processed.
    Handler(String),
}

impl StreamError {
    /// The message carried by the error.
    pub open spec fn spec_message(&self) -> Seq<char> {
        match self {
            StreamError::Init(m) => m@,
            StreamError::Read(m) => m@,
            StreamError::Handler(m) => m@,
        }
    }

    /// The message carried by the error.
    pub fn message(&self) -> (r: &String)
        ensures
            r@ == self.spec_message(),
    {
        match self {
            StreamError::Init(m) => m,
            StreamError::Read(m) => m,
            StreamError::Handler(m) => m,
        }
    }
}

/// Configuration settings for stream consumers (simple or group).
///
/// Built from `ConsumerOpts::default()` by chained setters; construction
/// never fails and every field has a default.
#[derive(Debug)]
pub struct ConsumerOpts {
    pub count: Option<usize>,
    pub create_stream_if_not_exists: bool,
    pub group: Option<(String, String)>,
    pub process_pending: bool,
    pub start_pos: StartPosition,
    pub timeout: usize,
}

impl Default for ConsumerOpts {
    /// Defaults: unlimited batch, create the stream, no group, drain
    /// pending first, start at the end of the stream, block for 2000 ms.
    fn default() -> (r: Self)
        ensures
            r.count is None,
            r.create_stream_if_not_exists,
            r.group is None,
            r.process_pending,
            r.start_pos is EndOfStream,
            r.timeout == 2000,
    {
        Self {
            count: None,
            create_stream_if_not_exists: true,
            group: None,
            process_pending: true,
            start_pos: StartPosition::EndOfStream,
            timeout: 2000,
        }
    }
}

impl ConsumerOpts {
    /// Maximum number of messages to read from the stream in one batch.
    pub fn count(self, count: usize) -> (r: Self)
        ensures
            r.count == Some(count),
            r.create_stream_if_not_exists == self.create_stream_if_not_exists,
            r.group == self.group,
            r.process_pending == self.process_pending,
            r.start_pos == self.start_pos,
            r.timeout == self.timeout,
    {
        let mut opts = self;
        opts.count = Some(count);
        opts
    }

    /// Create the stream before registering the group (default: `true`).
    pub fn create_stream_if_not_exists(self, create_stream_if_not_exists: bool) -> (r: Self)
        ensures
            r.count == self.count,
            r.create_stream_if_not_exists == create_stream_if_not_exists,
            r.group == self.group,
            r.process_pending == self.process_pending,
            r.start_pos == self.start_pos,
            r.timeout == self.timeout,
    {
        let mut opts = self;
        opts.create_stream_if_not_exists = create_stream_if_not_exists;
        opts
    }

    /// Name of the group and consumer. Enables group-consumer behavior.
    pub fn group(self, group_name: &str, consumer_name: &str) -> (r: Self)
        ensures
            r.count == self.count,
            r.create_stream_if_not_exists == self.create_stream_if_not_exists,
            r.group matches Some(g) && g.0@ == group_name@ && g.1@ == consumer_name@,
            r.process_pending == self.process_pending,
            r.start_pos == self.start_pos,
            r.timeout == self.timeout,
    {
        let mut opts = self;
        opts.group = Some((group_name.to_owned(), consumer_name.to_owned()));
        opts
    }

    /// Start by processing pending messages before switching to real-time
    /// data (default: `true`).
    pub fn process_pending(self, process_pending: bool) -> (r: Self)
        ensures
            r.count == self.count,
            r.create_stream_if_not_exists == self.create_stream_if_not_exists,
            r.group == self.group,
            r.process_pending == process_pending,
            r.start_pos == self.start_pos,
            r.timeout == self.timeout,
    {
        let mut opts = self;
        opts.process_pending = process_pending;
        opts
    }

    /// Where to start reading messages in the stream.
    pub fn start_pos(self, start_pos: StartPosition) -> (r: Self)
        ensures
            r.count == self.count,
            r.create_stream_if_not_exists == self.create_stream_if_not_exists,
            r.group == self.group,
            r.process_pending == self.process_pending,
            r.start_pos == start_pos,
            r.timeout == self.timeout,
    {
        let mut opts = self;
        opts.start_pos = start_pos;
        opts
    }

    /// Maximum duration in milliseconds to block waiting for messages.
    pub fn timeout(self, timeout: usize) -> (r: Self)
        ensures
            r.count == self.count,
            r.create_stream_if_not_exists == self.create_stream_if_not_exists,
            r.group == self.group,
            r.process_pending == self.process_pending,
            r.start_pos == self.start_pos,
            r.timeout == timeout,
    {
        let mut opts = self;
        opts.timeout = timeout;
        opts
    }
}

} // verus!
