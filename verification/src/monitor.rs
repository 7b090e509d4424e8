//! The monitor block: configuration, the severity state machine, the
//! per-poll aggregation, and the display pair left for the host surface.

use vstd::prelude::*;
use vstd::string::StringExecFns;

use crate::errors::Error;
use crate::header::extract_sender;
use crate::header::extract_sender_spec;
use crate::text::display_text_spec;
use crate::text::format_display_text;

verus! {

/// The severity signal conveyed to the display layer.
#[derive(Clone, Copy, Debug, PartialEq, Eq, Structural)]
pub enum State {
    Idle,
    Warning,
}

/// The severity for a mail count: a single message is enough to warn.
pub open spec fn state_for_count(count: nat) -> State {
    if count > 0 {
        State::Warning
    } else {
        State::Idle
    }
}

/// Configuration, consumed once at block construction and immutable
/// thereafter.
pub struct MaildirConfig {
    /// Path of the directory to collect information from.
    pub path: String,
    /// Alias that is displayed for the path.
    pub label: String,
    /// Update interval in seconds.
    pub interval: u64,
}

impl MaildirConfig {
    /// The default directory to scan.
    pub fn default_path() -> (r: String)
        ensures
            r@ == "/"@,
    {
        String::from_str("/")
    }

    /// The default label shown in the summary text.
    pub fn default_label() -> (r: String)
        ensures
            r@ == "/"@,
    {
        String::from_str("/")
    }

    /// The default delay between polls, in seconds.
    pub fn default_interval() -> (r: u64)
        ensures
            r == 20,
    {
        20
    }
}

/// Relies on `uuid::Uuid::new_v4` and the `Simple` display format: a fresh
/// random identifier rendered as exactly 32 hexadecimal digits.  Nothing
/// more is promised of the random value.
#[verifier::external_body]
fn new_block_id() -> (r: String)
    ensures
        r@.len() == 32,
{
    uuid::Uuid::new_v4().simple().to_string()
}

/// The senders collected over a whole scan, one message per regular file in
/// directory-enumeration order: each message's first decoded `From:` value,
/// with messages that carry none excluded.
pub open spec fn collect_senders_spec(files: Seq<Seq<Seq<char>>>) -> Seq<Seq<char>>
    decreases files.len(),
{
    if files.len() == 0 {
        Seq::empty()
    } else {
        match extract_sender_spec(files.last()) {
            Some(v) => collect_senders_spec(files.drop_last()).push(v),
            None => collect_senders_spec(files.drop_last()),
        }
    }
}

/// Runs the extractor over every scanned message, in order, and collects
/// the senders found.
pub fn collect_senders(files: &Vec<Vec<String>>) -> (r: Vec<String>)
    ensures
        r.deep_view() == collect_senders_spec(files.deep_view()),
{
    let ghost dv = files.deep_view();
    let mut senders: Vec<String> = Vec::new();
    let mut i: usize = 0;
    while i < files.len()
        invariant
            dv == files.deep_view(),
            i <= files.len(),
            senders.deep_view() == collect_senders_spec(dv.take(i as int)),
        decreases files.len() - i,
    {
        proof {
            assert(dv.take(i as int + 1).drop_last() =~= dv.take(i as int));
            assert(dv.take(i as int + 1).last() == dv[i as int]);
            assert(dv[i as int] == files@[i as int].deep_view());
        }
        let ghost senders_before = senders.deep_view();
        match extract_sender(&files[i]) {
            Some(v) => {
                senders.push(v);
                proof {
                    assert(senders.deep_view() =~= senders_before.push(
                        extract_sender_spec(dv[i as int])->0,
                    ));
                }
            },
            None => {},
        }
        i += 1;
    }
    proof {
        assert(dv.take(files@.len() as int) =~= dv);
    }
    senders
}

/// A message whose scan yields no sender leaves the collected senders — and
/// so the mail count — unchanged.
pub proof fn lemma_skipped_file_adds_no_sender(files: Seq<Seq<Seq<char>>>, lines: Seq<Seq<char>>)
    requires
        extract_sender_spec(lines) is None,
    ensures
        collect_senders_spec(files.push(lines)) == collect_senders_spec(files),
{
    assert(files.push(lines).drop_last() =~= files);
    assert(files.push(lines).last() == lines);
}

/// The long-lived monitor block: the configuration plus the display pair
/// left by the most recent successful poll.
pub struct Maildir {
    id: String,
    update_interval: u64,
    label: String,
    path: String,
    display_text: String,
    state: State,
}

impl Maildir {
    /// The block's unique identifier.
    pub closed spec fn spec_id(&self) -> Seq<char> {
        self.id@
    }

    /// The configured delay between polls, in seconds.
    pub closed spec fn spec_interval(&self) -> u64 {
        self.update_interval
    }

    /// The configured label shown in the summary text.
    pub closed spec fn spec_label(&self) -> Seq<char> {
        self.label@
    }

    /// The configured directory to scan.
    pub closed spec fn spec_path(&self) -> Seq<char> {
        self.path@
    }

    /// The display text left by the most recent successful poll.
    pub closed spec fn spec_display_text(&self) -> Seq<char> {
        self.display_text@
    }

    /// The severity left by the most recent successful poll.
    pub closed spec fn spec_state(&self) -> State {
        self.state
    }

    /// Creates the block from its configuration, with a fresh identifier
    /// and the placeholder display pair the host shows before the first
    /// poll completes.
    pub fn new(block_config: MaildirConfig) -> (r: Maildir)
        ensures
            r.spec_id().len() == 32,
            r.spec_interval() == block_config.interval,
            r.spec_label() == block_config.label@,
            r.spec_path() == block_config.path@,
            r.spec_display_text() == "Maildir"@,
            r.spec_state() == State::Idle,
    {
        Maildir {
            id: new_block_id(),
            update_interval: block_config.interval,
            label: block_config.label,
            path: block_config.path,
            display_text: String::from_str("Maildir"),
            state: State::Idle,
        }
    }

    /// The severity for a mail count: `Warning` as soon as the count is
    /// positive, `Idle` otherwise.
    pub fn compute_state(&self, count: usize) -> (r: State)
        ensures
            r == state_for_count(count as nat),
    {
        if count > 0 {
            State::Warning
        } else {
            State::Idle
        }
    }

    /// Finishes one poll.  On a successful scan the display pair is fully
    /// recomputed from the senders found and the configured interval is
    /// returned as the next poll delay; on a failed scan the fault is
    /// reported unchanged and the display pair is left exactly as the last
    /// successful poll wrote it (stale but valid).
    pub fn update(&mut self, scan: Result<Vec<String>, Error>) -> (r: Result<Option<u64>, Error>)
        ensures
            final(self).spec_id() == old(self).spec_id(),
            final(self).spec_interval() == old(self).spec_interval(),
            final(self).spec_label() == old(self).spec_label(),
            final(self).spec_path() == old(self).spec_path(),
            match scan {
                Ok(senders) => {
                    &&& final(self).spec_display_text() == display_text_spec(
                        old(self).spec_label(),
                        senders.deep_view(),
                    )
                    &&& final(self).spec_state() == state_for_count(senders.deep_view().len())
                    &&& r == Ok::<Option<u64>, Error>(Some(old(self).spec_interval()))
                },
                Err(e) => {
                    &&& final(self).spec_display_text() == old(self).spec_display_text()
                    &&& final(self).spec_state() == old(self).spec_state()
                    &&& r == Err::<Option<u64>, Error>(e)
                },
            },
    {
        match scan {
            Ok(senders) => {
                let count = senders.len();
                let text = format_display_text(self.label.as_str(), &senders);
                self.display_text = text;
                let state = self.compute_state(count);
                self.state = state;
                Ok(Some(self.update_interval))
            },
            Err(e) => Err(e),
        }
    }

    /// Runs one whole successful poll over the scanned messages (the lines
    /// of each regular file, in directory-enumeration order): extraction,
    /// aggregation, summary and severity.
    pub fn poll(&mut self, files: &Vec<Vec<String>>) -> (r: Result<Option<u64>, Error>)
        ensures
            final(self).spec_id() == old(self).spec_id(),
            final(self).spec_interval() == old(self).spec_interval(),
            final(self).spec_label() == old(self).spec_label(),
            final(self).spec_path() == old(self).spec_path(),
            final(self).spec_display_text() == display_text_spec(
                old(self).spec_label(),
                collect_senders_spec(files.deep_view()),
            ),
            final(self).spec_state() == state_for_count(
                collect_senders_spec(files.deep_view()).len(),
            ),
            r == Ok::<Option<u64>, Error>(Some(old(self).spec_interval())),
    {
        let senders = collect_senders(files);
        self.update(Ok(senders))
    }

    /// The block's identifier, 32 hexadecimal digits.
    pub fn id(&self) -> (r: &str)
        ensures
            r@ == self.spec_id(),
    {
        self.id.as_str()
    }

    /// The configured label.
    pub fn label(&self) -> (r: &str)
        ensures
            r@ == self.spec_label(),
    {
        self.label.as_str()
    }

    /// The configured directory to scan.
    pub fn path(&self) -> (r: &str)
        ensures
            r@ == self.spec_path(),
    {
        self.path.as_str()
    }

    /// The display text the host surface should show.
    pub fn display_text(&self) -> (r: &str)
        ensures
            r@ == self.spec_display_text(),
    {
        self.display_text.as_str()
    }

    /// The severity the host surface should show.
    pub fn state(&self) -> (r: State)
        ensures
            r == self.spec_state(),
    {
        self.state
    }

    /// The delay before the next poll, in seconds: always the configured
    /// interval, whether or not the last scan succeeded — the cadence is
    /// static.
    pub fn poll_delay(&self) -> (r: u64)
        ensures
            r == self.spec_interval(),
    {
        self.update_interval
    }
}

/// Idempotence of the pipeline: the display pair after a successful poll is
/// a function of the label and the scanned senders alone, never of the pair
/// it overwrites.  So two polls against an unchanged directory — `first`
/// the block after the first poll, `second` the block after the second —
/// leave an identical pair.
pub proof fn lemma_poll_idempotent(first: Maildir, second: Maildir, senders: Seq<Seq<char>>)
    requires
        first.spec_label() == second.spec_label(),
        first.spec_display_text() == display_text_spec(first.spec_label(), senders),
        first.spec_state() == state_for_count(senders.len()),
        second.spec_display_text() == display_text_spec(second.spec_label(), senders),
        second.spec_state() == state_for_count(senders.len()),
    ensures
        first.spec_display_text() == second.spec_display_text(),
        first.spec_state() == second.spec_state(),
{
}

/// The display pair is mutually consistent: the text left by a successful
/// poll is empty exactly when the severity is `Idle`.
pub proof fn lemma_display_consistent_with_state(label: Seq<char>, senders: Seq<Seq<char>>)
    ensures
        display_text_spec(label, senders).len() == 0 <==> state_for_count(senders.len())
            == State::Idle,
{
}

} // verus!

