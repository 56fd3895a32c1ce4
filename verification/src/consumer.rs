//! The consumer's position resolution and read-loop state machine.
//!
//! A `Consumer` owns the current cursor into one stream and the decision
//! logic of the read-dispatch loop: which read to issue, when to switch
//! from draining pending entries to live delivery, how the cursor
//! advances past a delivered entry, and when a handled message must be
//! acknowledged. The remote commands themselves are issued by an
//! unverified shell, which drives one logical step as: build the request
//! with [`Consumer::read_request`], perform the blocking read, call
//! [`Consumer::on_empty_read`] on an empty reply (retrying the read once
//! when asked to), and for each delivered entry in order call
//! [`Consumer::advance_cursor`], run the handler, and on success call
//! [`Consumer::on_message_handled`], acknowledging the entry when told
//! to.

use vstd::prelude::*;

use crate::cursor::{cursor_ok, cursor_step, spec_beginning, spec_end, spec_live};

pub use crate::types::{ConsumerOpts, StartPosition, StreamError};

verus! {

/// The anchor at which a newly created group starts tracking delivery,
/// as a function of the configured start position: present exactly when
/// a group is configured.
pub open spec fn spec_group_anchor(group_present: bool, start: StartPosition) -> Option<
    Seq<char>,
> {
    if group_present {
        match start {
            StartPosition::StartOfStream => Some(spec_beginning()),
            StartPosition::EndOfStream => Some(spec_end()),
            StartPosition::Other(id) => Some(id@),
        }
    } else {
        None
    }
}

/// The cursor a consumer starts reading at. A standalone consumer reads
/// linearly from the configured position. A group member either drains
/// the entries previously delivered to it but unacknowledged (pending),
/// or jumps straight to live delivery, except that an explicit start
/// identifier is honored as given.
pub open spec fn spec_initial_cursor(
    group_present: bool,
    process_pending: bool,
    start: StartPosition,
) -> Seq<char> {
    if group_present {
        if process_pending {
            spec_beginning()
        } else {
            match start {
                StartPosition::StartOfStream => spec_live(),
                StartPosition::EndOfStream => spec_live(),
                StartPosition::Other(id) => id@,
            }
        }
    } else {
        match start {
            StartPosition::StartOfStream => spec_beginning(),
            StartPosition::EndOfStream => spec_end(),
            StartPosition::Other(id) => id@,
        }
    }
}

/// The resolved initial cursor is a valid start for a trace of consume
/// steps: whenever a configured explicit start identifier names an entry
/// of the log, the cursor `positions` hands out is a reserved token or
/// an entry of the log.
pub proof fn lemma_initial_cursor_ok(
    log: Seq<Seq<char>>,
    group_present: bool,
    process_pending: bool,
    start: StartPosition,
)
    requires
        start matches StartPosition::Other(id) ==> log.contains(id@),
    ensures
        cursor_ok(log, spec_initial_cursor(group_present, process_pending, start)),
{
}

/// Returns the pair (group creation position, consumer start position):
/// where the group is anchored if it has to be created, and the cursor
/// this consumer first reads at, resolved from the configuration as the
/// two spec functions above state.
pub fn positions(
    group_name: &Option<(String, String)>,
    process_pending: bool,
    start_pos: StartPosition,
) -> (r: (Option<String>, String))
    ensures
        r.0.deep_view() == spec_group_anchor(group_name is Some, start_pos),
        r.1@ == spec_initial_cursor(group_name is Some, process_pending, start_pos),
{
    match (group_name, process_pending, start_pos) {
        (None, _, StartPosition::StartOfStream) => (None, "0".to_owned()),
        (None, _, StartPosition::EndOfStream) => (None, "$".to_owned()),
        (None, _, StartPosition::Other(id)) => (None, id),
        (_, true, StartPosition::StartOfStream) => str_to_positions("0", "0"),
        (_, true, StartPosition::EndOfStream) => str_to_positions("$", "0"),
        (_, true, StartPosition::Other(id)) => (Some(id), "0".to_owned()),
        (_, false, StartPosition::StartOfStream) => str_to_positions("0", ">"),
        (_, false, StartPosition::EndOfStream) => str_to_positions("$", ">"),
        (_, false, StartPosition::Other(id)) => {
            let start = id.clone();
            (Some(id), start)
        },
    }
}

/// Pairs the two borrowed position tokens as owned strings.
pub fn str_to_positions(a: &str, b: &str) -> (r: (Option<String>, String))
    ensures
        r.0 matches Some(s) && s@ == a@,
        r.1@ == b@,
{
    (Some(a.to_owned()), b.to_owned())
}

/// One blocking read against the stream, described as plain values: a
/// group-scoped read using the member's identity when `group` is set,
/// otherwise a plain positional read, bounded by the blocking timeout
/// and the optional batch-size limit.
pub struct ReadRequest {
    pub stream: String,
    pub group: Option<(String, String)>,
    pub cursor: String,
    pub timeout: usize,
    pub count: Option<usize>,
}

/// A consumer of one stream: its configuration, the cursor the next read
/// starts at, and the count of messages handled so far.
pub struct Consumer {
    pub count: Option<usize>,
    pub group: Option<(String, String)>,
    pub handled_messages: u32,
    pub next_pos: String,
    pub process_pending: bool,
    pub stream: String,
    pub timeout: usize,
}

impl Consumer {
    /// Initializes a new `Consumer` from its configuration. Returns the
    /// consumer positioned at its initial cursor, together with the
    /// anchor at which the remote group must be created before the first
    /// read — present exactly when a group is configured.
    pub fn init(stream: &str, opts: ConsumerOpts) -> (r: (Consumer, Option<String>))
        ensures
            r.0.count == opts.count,
            r.0.group == opts.group,
            r.0.handled_messages == 0,
            r.0.next_pos@ == spec_initial_cursor(
                opts.group is Some,
                opts.process_pending,
                opts.start_pos,
            ),
            r.0.process_pending == opts.process_pending,
            r.0.stream@ == stream@,
            r.0.timeout == opts.timeout,
            r.1.deep_view() == spec_group_anchor(opts.group is Some, opts.start_pos),
            r.1 is Some <==> opts.group is Some,
    {
        let ConsumerOpts { count, group, process_pending, start_pos, timeout, .. } = opts;
        let (group_create_pos, consumer_start_pos) = positions(
            &group,
            process_pending,
            start_pos,
        );
        let consumer = Consumer {
            count,
            group,
            handled_messages: 0,
            next_pos: consumer_start_pos,
            process_pending,
            stream: stream.to_owned(),
            timeout,
        };
        (consumer, group_create_pos)
    }

    /// Describes the one blocking read the next step must issue: at the
    /// current cursor, with this consumer's identity, timeout and batch
    /// limit.
    pub fn read_request(&self) -> (r: ReadRequest)
        ensures
            r.stream == self.stream,
            r.group == self.group,
            r.cursor == self.next_pos,
            r.timeout == self.timeout,
            r.count == self.count,
    {
        let group = match &self.group {
            Some((group_name, consumer_name)) => Some(
                (group_name.clone(), consumer_name.clone()),
            ),
            None => None,
        };
        ReadRequest {
            stream: self.stream.clone(),
            group,
            cursor: self.next_pos.clone(),
            timeout: self.timeout,
            count: self.count,
        }
    }

    /// Reacts to a blocking read that delivered no entries. While a
    /// group member is draining pending entries, an empty reply means
    /// the backlog is exhausted: switch irreversibly to live delivery
    /// and ask the caller to retry the read once within the same step.
    /// Otherwise the read simply timed out and the step is over.
    pub fn on_empty_read(&mut self) -> (retry: bool)
        ensures
            retry == (old(self).group is Some && old(self).process_pending),
            retry ==> !final(self).process_pending && final(self).next_pos@ == spec_live(),
            !retry ==> final(self).process_pending == old(self).process_pending,
            !retry ==> final(self).next_pos == old(self).next_pos,
            final(self).count == old(self).count,
            final(self).group == old(self).group,
            final(self).handled_messages == old(self).handled_messages,
            final(self).stream == old(self).stream,
            final(self).timeout == old(self).timeout,
            cursor_step(old(self).next_pos@, final(self).next_pos@, Seq::<Seq<char>>::empty()),
    {
        if self.group.is_some() && self.process_pending {
            self.process_pending = false;
            self.next_pos = ">".to_owned();
            true
        } else {
            false
        }
    }

    /// Advances the cursor past a delivered entry, so that the next read
    /// resumes exactly after it. Once the cursor is the live sentinel it
    /// stays there: the service then tracks delivery for this member.
    pub fn advance_cursor(&mut self, id: &str)
        ensures
            old(self).next_pos@ == spec_live() ==> final(self).next_pos == old(self).next_pos,
            old(self).next_pos@ != spec_live() ==> final(self).next_pos@ == id@,
            final(self).count == old(self).count,
            final(self).group == old(self).group,
            final(self).handled_messages == old(self).handled_messages,
            final(self).process_pending == old(self).process_pending,
            final(self).stream == old(self).stream,
            final(self).timeout == old(self).timeout,
            cursor_step(old(self).next_pos@, final(self).next_pos@, seq![id@]),
    {
        let live: String = ">".to_owned();
        if self.next_pos != live {
            self.next_pos = id.to_owned();
            proof {
                assert(seq![id@][0] == id@);
            }
        }
    }

    /// Records one successfully handled message: bumps the processed
    /// counter and says whether the entry must be acknowledged to the
    /// group.
    pub fn on_message_handled(&mut self) -> (ack: bool)
        requires
            old(self).handled_messages < u32::MAX,
        ensures
            final(self).handled_messages == old(self).handled_messages + 1,
            ack == (old(self).group is Some),
            final(self).count == old(self).count,
            final(self).group == old(self).group,
            final(self).next_pos == old(self).next_pos,
            final(self).process_pending == old(self).process_pending,
            final(self).stream == old(self).stream,
            final(self).timeout == old(self).timeout,
    {
        self.handled_messages = self.handled_messages + 1;
        self.group.is_some()
    }
}

/// The reply the service gives when the group of a creation command
/// already exists.
pub open spec fn spec_already_exists() -> Seq<char> {
    "BUSYGROUP: Consumer Group name already exists"@
}

/// Classifies the service's reply to a group-creation command. Success
/// and "group already exists" both count as success — concurrent or
/// repeated bootstrap is expected and harmless, and the group keeps its
/// position. Any other failure is a fatal initialization error carrying
/// the service's message.
pub fn classify_group_create(outcome: Result<String, String>) -> (r: Result<(), StreamError>)
    ensures
        r is Ok <==> (outcome is Ok || (outcome matches Err(m) && m@ == spec_already_exists())),
        r matches Err(e) ==> e matches StreamError::Init(msg) && outcome matches Err(m) && msg@
            == m@,
{
    match outcome {
        Ok(_) => Ok(()),
        Err(m) => {
            let already: String = "BUSYGROUP: Consumer Group name already exists".to_owned();
            if m == already {
                Ok(())
            } else {
                Err(StreamError::Init(m))
            }
        },
    }
}

} // verus!
