use vstd::prelude::*;

use crate::chrono_utils::{ts_le, ts_max, Timestamp};
use crate::diff::{diff_dates, fresh_indices, latest, lemma_watermark_monotone, positions};
use crate::feed::{channel_items, item_dates, parse_feed, publication_dates, FeedItemView};
use crate::notify::{notice_views, notices_of, plan_notices, Notice, NoticeView};
use crate::subscription::{
    error_text, recorded_failure, recorded_some_failure, recorded_success, Error, Model,
    SubscriptionError,
};

verus! {

/// Where the cycle stands with the current subscription.
#[derive(Clone, Copy, Debug, PartialEq, Eq, Structural)]
pub enum Phase {
    /// Waiting for the response to the feed request.
    Fetching,
    /// Waiting for the body of a successful response.
    Reading,
    /// Waiting for the outcome of delivering one notice.
    Delivering,
    /// Waiting for the outcome of storing the attempt's record.
    Recording,
    /// Every subscription has been handled.
    Finished,
}

/// What the caller observed while carrying out the last step.
#[derive(Debug)]
pub enum Event {
    /// The feed request did not complete; the text says why.
    RequestFailed(String),
    /// The server answered with this status.
    Responded(u16),
    /// The response body was read.
    BodyReceived(String),
    /// The response body could not be read; the text says why.
    BodyFailed(String),
    /// The notice was delivered.
    Delivered,
    /// The notice could not be delivered.
    DeliveryFailed,
    /// The record was stored.
    Recorded,
    /// The record could not be stored.
    RecordFailed,
}

/// What the caller is to do next.
#[derive(Debug)]
pub enum Step {
    /// Request the feed at this URL.
    Fetch(String),
    /// Read the body of the response.
    ReadBody,
    /// Deliver this notice.
    Deliver(Notice),
    /// Store this record of the subscription.
    Record(Model),
    /// The cycle is over.
    Done,
}

/// One sync cycle over a snapshot of all subscriptions, handled one after
/// another: fetch, diff, deliver, record.
pub struct SyncCycle {
    subscriptions: Vec<Model>,
    index: usize,
    phase: Phase,
    notices: Vec<Notice>,
    next: usize,
    watermark: Timestamp,
    newest_sent: Option<Timestamp>,
    record: Option<Model>,
}

/// The state of a cycle: the subscriptions, the position of the current one,
/// the phase, and for the current attempt its notices, the next notice to
/// deliver, the new watermark, the newest delivered item and the record
/// awaiting storage.
pub struct CycleState {
    pub subscriptions: Seq<Model>,
    pub index: int,
    pub phase: Phase,
    pub notices: Seq<NoticeView>,
    pub next: int,
    pub watermark: Timestamp,
    pub newest_sent: Option<Timestamp>,
    pub record: Option<Model>,
}

impl View for SyncCycle {
    type V = CycleState;

    closed spec fn view(&self) -> CycleState {
        CycleState {
            subscriptions: self.subscriptions@,
            index: self.index as int,
            phase: self.phase,
            notices: notice_views(self.notices@),
            next: self.next as int,
            watermark: self.watermark,
            newest_sent: self.newest_sent,
            record: self.record,
        }
    }
}

/// The subscription that the cycle is working on.
pub open spec fn current(s: CycleState) -> Model {
    s.subscriptions[s.index]
}

/// The states that a cycle can be in.
pub open spec fn valid(s: CycleState) -> bool {
    &&& 0 <= s.index <= s.subscriptions.len()
    &&& (s.phase == Phase::Finished <==> s.index == s.subscriptions.len())
    &&& s.phase == Phase::Delivering ==> 0 <= s.next < s.notices.len()
    &&& s.phase == Phase::Delivering ==> ts_le(current(s).watermark, s.watermark)
    &&& s.phase == Phase::Recording <==> s.record is Some
    &&& s.record matches Some(r) ==> ts_le(current(s).watermark, r.watermark)
}

/// A status in the success range.
pub open spec fn is_success_status(code: u16) -> bool {
    200 <= code <= 299
}

/// Whether `code` is a success status.
pub fn status_is_success(code: u16) -> (r: bool)
    ensures
        r == is_success_status(code),
{
    200 <= code && code <= 299
}

/// The step that state `s` waits on.
pub open spec fn pending(s: CycleState, step: Step) -> bool {
    match s.phase {
        Phase::Fetching => step matches Step::Fetch(u) && u == current(s).url,
        Phase::Reading => step is ReadBody,
        Phase::Delivering => step matches Step::Deliver(n) && n@ == s.notices[s.next],
        Phase::Recording => step matches Step::Record(r) && s.record == Some(r),
        Phase::Finished => step is Done,
    }
}

/// The text stored for an attempt that failed with `e`.
pub open spec fn failure_text(e: SubscriptionError) -> Seq<char> {
    error_text(Error::Rss(e))
}

/// The attempt on the current subscription failed: the record keeps the
/// watermark and carries an error, and the cycle waits for it to be stored.
pub open spec fn ends_in_failure(s: CycleState, now: Timestamp, t: CycleState, step: Step) -> bool {
    step matches Step::Record(r) && recorded_some_failure(current(s), r, now)
        && t == (CycleState { phase: Phase::Recording, record: Some(r), ..s })
}

/// As `ends_in_failure`, with the error text `text`.
pub open spec fn fails_with(s: CycleState, now: Timestamp, text: Seq<char>, t: CycleState, step: Step) -> bool {
    ends_in_failure(s, now, t, step) && (step matches Step::Record(r) && recorded_failure(current(s), r, now, text))
}

/// The text that every parse failure's error starts with.
pub open spec fn parse_failure_prefix() -> Seq<char> {
    "RSS error: "@ + "Failed to parse feed: "@
}

/// The attempt on the current subscription succeeded: the record carries the
/// new watermark and the newest delivered item.
pub open spec fn ends_in_success(
    s: CycleState,
    now: Timestamp,
    watermark: Timestamp,
    sent: Option<Timestamp>,
    t: CycleState,
    step: Step,
) -> bool {
    step matches Step::Record(r) && recorded_success(current(s), r, now, watermark, sent)
        && t.phase == Phase::Recording && t.record == Some(r)
        && t.subscriptions == s.subscriptions && t.index == s.index
}

/// The newest of the items delivered so far, after one more at `p`.
pub open spec fn newest(sent: Option<Timestamp>, p: Timestamp) -> Option<Timestamp> {
    match sent {
        Some(a) => Some(ts_max(a, p)),
        None => Some(p),
    }
}

/// The cycle after a body: its items, their dates, the new items and the
/// notices for them.
pub open spec fn after_body(s: CycleState, items: Seq<FeedItemView>, now: Timestamp, t: CycleState, step: Step) -> bool {
    let sub = current(s);
    let dates = item_dates(items);
    let mark = latest(dates, sub.watermark);
    let notices = notices_of(items, dates, fresh_indices(dates, sub.watermark), sub.target_chat);
    if notices.len() == 0 {
        ends_in_success(s, now, mark, None, t, step)
    } else {
        &&& step matches Step::Deliver(n) && n@ == notices[0]
        &&& t == (CycleState {
            phase: Phase::Delivering,
            notices,
            next: 0,
            watermark: mark,
            newest_sent: None,
            ..s
        })
    }
}

/// The cycle after the outcome of one delivery, `sent` being the newest
/// delivered item so far.
pub open spec fn after_delivery(s: CycleState, sent: Option<Timestamp>, now: Timestamp, t: CycleState, step: Step) -> bool {
    if s.next + 1 < s.notices.len() {
        &&& step matches Step::Deliver(n) && n@ == s.notices[s.next + 1]
        &&& t == (CycleState { next: s.next + 1, newest_sent: sent, ..s })
    } else {
        ends_in_success(s, now, s.watermark, sent, t, step)
    }
}

/// The cycle moves on to the next subscription, or finishes.
pub open spec fn moves_on(s: CycleState, t: CycleState, step: Step) -> bool {
    let i = s.index + 1;
    &&& t == (CycleState {
        index: i,
        phase: if i < s.subscriptions.len() { Phase::Fetching } else { Phase::Finished },
        notices: Seq::empty(),
        next: 0,
        newest_sent: None,
        record: None,
        ..s
    })
    &&& pending(t, step)
}

/// One transition: from `s`, on `ev` observed at `now`, the cycle goes to `t`
/// and asks for `step`. An event that does not answer the step that `s`
/// waits on changes nothing, and that step is asked for again.
pub open spec fn advances(s: CycleState, ev: Event, now: Timestamp, t: CycleState, step: Step) -> bool {
    match s.phase {
        Phase::Fetching => match ev {
            Event::RequestFailed(m) => fails_with(
                s,
                now,
                failure_text(SubscriptionError::FetchError(m)),
                t,
                step,
            ),
            Event::Responded(code) => if is_success_status(code) {
                t == (CycleState { phase: Phase::Reading, ..s }) && step is ReadBody
            } else {
                fails_with(s, now, failure_text(SubscriptionError::ResponseStatusNotOk(code)), t, step)
            },
            _ => t == s && pending(s, step),
        },
        Phase::Reading => match ev {
            Event::BodyFailed(m) => fails_with(
                s,
                now,
                failure_text(SubscriptionError::FetchError(m)),
                t,
                step,
            ),
            Event::BodyReceived(b) => match channel_items(b@) {
                None => ends_in_failure(s, now, t, step) && (step matches Step::Record(r) && (
                r.last_error matches Some(e) && parse_failure_prefix().is_prefix_of(e@))),
                Some(items) => after_body(s, items, now, t, step),
            },
            _ => t == s && pending(s, step),
        },
        Phase::Delivering => match ev {
            Event::Delivered => after_delivery(
                s,
                newest(s.newest_sent, s.notices[s.next].published),
                now,
                t,
                step,
            ),
            Event::DeliveryFailed => after_delivery(s, s.newest_sent, now, t, step),
            _ => t == s && pending(s, step),
        },
        Phase::Recording => match ev {
            Event::Recorded | Event::RecordFailed => moves_on(s, t, step),
            _ => t == s && pending(s, step),
        },
        Phase::Finished => t == s && step is Done,
    }
}

impl SyncCycle {
    /// The cycle's invariant.
    pub open spec fn wf(&self) -> bool {
        valid(self@)
    }

    /// Starts a cycle over `subscriptions`, in that order, and asks for the
    /// first feed.
    pub fn start(subscriptions: Vec<Model>) -> (r: (SyncCycle, Step))
        ensures
            r.0.wf(),
            r.0@.subscriptions == subscriptions@,
            r.0@.index == 0,
            r.0@.phase == (if subscriptions@.len() == 0 { Phase::Finished } else { Phase::Fetching }),
            pending(r.0@, r.1),
    {
        let phase = if subscriptions.len() == 0 { Phase::Finished } else { Phase::Fetching };
        let cycle = SyncCycle {
            subscriptions,
            index: 0,
            phase,
            notices: Vec::new(),
            next: 0,
            watermark: Timestamp { secs: 0, nanos: 0 },
            newest_sent: None,
            record: None,
        };
        let step = cycle.pending_step();
        (cycle, step)
    }

    /// The step that the cycle waits on.
    pub fn pending_step(&self) -> (r: Step)
        requires
            self.wf(),
        ensures
            pending(self@, r),
    {
        match self.phase {
            Phase::Fetching => Step::Fetch(self.subscriptions[self.index].url.clone()),
            Phase::Reading => Step::ReadBody,
            Phase::Delivering => Step::Deliver(self.notices[self.next].duplicate()),
            Phase::Recording => match &self.record {
                Some(r) => Step::Record(r.duplicate()),
                None => Step::Done,
            },
            Phase::Finished => Step::Done,
        }
    }

    /// Whether the cycle is over.
    pub fn is_finished(&self) -> (r: bool)
        ensures
            r == (self@.phase == Phase::Finished),
    {
        self.phase == Phase::Finished
    }

    /// Ends the current attempt with the failure `e`.
    fn fail(&mut self, now: Timestamp, e: SubscriptionError) -> (r: Step)
        requires
            old(self).wf(),
            old(self)@.phase == Phase::Fetching || old(self)@.phase == Phase::Reading,
        ensures
            final(self).wf(),
            fails_with(old(self)@, now, failure_text(e), final(self)@, r),
    {
        let text = Error::Rss(e).message();
        let record = self.subscriptions[self.index].after_failure(now, text);
        self.phase = Phase::Recording;
        self.record = Some(record.duplicate());
        Step::Record(record)
    }

    /// Ends the current attempt with success.
    fn succeed(&mut self, now: Timestamp, watermark: Timestamp, sent: Option<Timestamp>) -> (r: Step)
        requires
            old(self).wf(),
            old(self)@.phase != Phase::Finished,
            old(self)@.phase != Phase::Recording,
            ts_le(current(old(self)@).watermark, watermark),
        ensures
            final(self).wf(),
            ends_in_success(old(self)@, now, watermark, sent, final(self)@, r),
            final(self)@.notices == old(self)@.notices,
            final(self)@.next == old(self)@.next,
            final(self)@.watermark == old(self)@.watermark,
            final(self)@.newest_sent == old(self)@.newest_sent,
    {
        let record = self.subscriptions[self.index].after_success(now, watermark, sent);
        self.phase = Phase::Recording;
        self.record = Some(record.duplicate());
        Step::Record(record)
    }

    /// Takes in what the caller observed while carrying out the last step,
    /// at time `now`, and says what to do next.
    pub fn on_event(&mut self, event: Event, now: Timestamp) -> (r: Step)
        requires
            old(self).wf(),
        ensures
            final(self).wf(),
            final(self)@.subscriptions == old(self)@.subscriptions,
            advances(old(self)@, event, now, final(self)@, r),
    {
        match self.phase {
            Phase::Fetching => match event {
                Event::RequestFailed(m) => self.fail(now, SubscriptionError::FetchError(m)),
                Event::Responded(code) => {
                    if status_is_success(code) {
                        self.phase = Phase::Reading;
                        Step::ReadBody
                    } else {
                        self.fail(now, SubscriptionError::ResponseStatusNotOk(code))
                    }
                },
                _ => self.pending_step(),
            },
            Phase::Reading => match event {
                Event::BodyFailed(m) => self.fail(now, SubscriptionError::FetchError(m)),
                Event::BodyReceived(b) => self.take_body(b.as_str(), now),
                _ => self.pending_step(),
            },
            Phase::Delivering => match event {
                Event::Delivered => {
                    let p = self.notices[self.next].published;
                    let sent = match self.newest_sent {
                        Some(a) => Some(a.max(p)),
                        None => Some(p),
                    };
                    self.after_delivery(sent, now)
                },
                Event::DeliveryFailed => {
                    let sent = self.newest_sent;
                    self.after_delivery(sent, now)
                },
                _ => self.pending_step(),
            },
            Phase::Recording => match event {
                Event::Recorded | Event::RecordFailed => {
                    assert(self.index < self.subscriptions.len());
                    self.index = self.index + 1;
                    self.phase = if self.index < self.subscriptions.len() {
                        Phase::Fetching
                    } else {
                        Phase::Finished
                    };
                    self.notices = Vec::new();
                    self.next = 0;
                    self.newest_sent = None;
                    self.record = None;
                    assert(self@.notices =~= Seq::<NoticeView>::empty());
                    self.pending_step()
                },
                _ => self.pending_step(),
            },
            Phase::Finished => Step::Done,
        }
    }

    /// Parses the body, diffs it against the watermark and plans the notices.
    fn take_body(&mut self, body: &str, now: Timestamp) -> (r: Step)
        requires
            old(self).wf(),
            old(self)@.phase == Phase::Reading,
        ensures
            final(self).wf(),
            final(self)@.subscriptions == old(self)@.subscriptions,
            match channel_items(body@) {
                None => ends_in_failure(old(self)@, now, final(self)@, r) && (r matches Step::Record(m) && (
                m.last_error matches Some(e) && parse_failure_prefix().is_prefix_of(e@))),
                Some(items) => after_body(old(self)@, items, now, final(self)@, r),
            },
    {
        match parse_feed(body) {
            Err(e) => {
                let ghost text = failure_text(e);
                let r = self.fail(now, e);
                proof {
                    reveal_strlit("RSS error: ");
                    reveal_strlit("Failed to parse feed: ");
                    assert(parse_failure_prefix().is_prefix_of(text));
                }
                r
            },
            Ok(items) => {
                let sub = &self.subscriptions[self.index];
                let w = sub.watermark;
                let chat = sub.target_chat;
                let dates = publication_dates(&items);
                let diff = diff_dates(&dates, w);
                proof {
                    lemma_watermark_monotone(dates@, w);
                    assert forall|k: int| 0 <= k < diff.fresh@.len() implies diff.fresh@[k] < items@.len()
                        && #[trigger] dates@[diff.fresh@[k] as int] is Some by {
                        assert(positions(diff.fresh@)[k] == diff.fresh@[k] as int);
                        crate::diff::lemma_fresh_items_are_dated(dates@, w, k);
                    }
                }
                let notices = plan_notices(&items, &dates, &diff.fresh, chat);
                if notices.len() == 0 {
                    self.succeed(now, diff.watermark, None)
                } else {
                    let first = notices[0].duplicate();
                    self.phase = Phase::Delivering;
                    self.notices = notices;
                    self.next = 0;
                    self.watermark = diff.watermark;
                    self.newest_sent = None;
                    Step::Deliver(first)
                }
            },
        }
    }

    /// Moves past the notice just handled, `sent` being the newest delivered
    /// item so far.
    fn after_delivery(&mut self, sent: Option<Timestamp>, now: Timestamp) -> (r: Step)
        requires
            old(self).wf(),
            old(self)@.phase == Phase::Delivering,
        ensures
            final(self).wf(),
            final(self)@.subscriptions == old(self)@.subscriptions,
            after_delivery(old(self)@, sent, now, final(self)@, r),
    {
        assert(self.notices@.len() == self@.notices.len());
        if self.next < self.notices.len() - 1 {
            self.next = self.next + 1;
            self.newest_sent = sent;
            Step::Deliver(self.notices[self.next].duplicate())
        } else {
            self.newest_sent = sent;
            let w = self.watermark;
            self.succeed(now, w, sent)
        }
    }
}

/// The watermark never moves back: every record that the cycle asks to store
/// carries a watermark at or after the stored one, on success and on failure.
pub proof fn lemma_record_watermark_monotone(
    s: CycleState,
    ev: Event,
    now: Timestamp,
    t: CycleState,
    step: Step,
)
    requires
        valid(s),
        advances(s, ev, now, t, step),
    ensures
        step matches Step::Record(r) ==> ts_le(current(s).watermark, r.watermark),
{
    if s.phase == Phase::Reading {
        if let Event::BodyReceived(b) = ev {
            if let Some(items) = channel_items(b@) {
                lemma_watermark_monotone(item_dates(items), current(s).watermark);
            }
        }
    }
}

/// Fetching a feed again that has not changed since the last attempt
/// delivers nothing and stores the same watermark.
pub proof fn lemma_unchanged_feed_delivers_nothing(
    s: CycleState,
    body: String,
    earlier: Timestamp,
    now: Timestamp,
    t: CycleState,
    step: Step,
)
    requires
        valid(s),
        s.phase == Phase::Reading,
        channel_items(body@) matches Some(items) && current(s).watermark == latest(
            item_dates(items),
            earlier,
        ),
        advances(s, Event::BodyReceived(body), now, t, step),
    ensures
        step matches Step::Record(r) && r.watermark == current(s).watermark
            && r.last_error is None,
{
    let items = channel_items(body@)->0;
    let dates = item_dates(items);
    crate::diff::lemma_diff_idempotent(dates, earlier);
    let sub = current(s);
    assert(fresh_indices(dates, sub.watermark) =~= Seq::<int>::empty());
    assert(notices_of(items, dates, fresh_indices(dates, sub.watermark), sub.target_chat).len() == 0);
}

/// A failed fetch ends only the current subscription's attempt: its record
/// keeps the watermark and carries an error, and once that record is stored,
/// or fails to be stored, the cycle goes on with the next subscription.
pub proof fn lemma_fetch_failure_moves_on(
    s: CycleState,
    ev: Event,
    now: Timestamp,
    t: CycleState,
    step: Step,
    ev2: Event,
    now2: Timestamp,
    u: CycleState,
    step2: Step,
)
    requires
        valid(s),
        s.phase == Phase::Fetching,
        ev is RequestFailed || (ev matches Event::Responded(code) && !is_success_status(code)),
        advances(s, ev, now, t, step),
        ev2 is Recorded || ev2 is RecordFailed,
        advances(t, ev2, now2, u, step2),
    ensures
        step matches Step::Record(r) && recorded_some_failure(current(s), r, now),
        u.subscriptions == s.subscriptions,
        u.index == s.index + 1,
        s.index + 1 < s.subscriptions.len() ==> u.phase == Phase::Fetching && (step2 matches Step::Fetch(
            url,
        ) && url == s.subscriptions[s.index + 1].url),
        s.index + 1 == s.subscriptions.len() ==> u.phase == Phase::Finished && step2 is Done,
{
}

/// Each subscription's attempt ends in exactly one record: the cycle enters
/// the recording phase only by asking to store a record, and leaves a
/// subscription only from that phase, for the next one.
pub proof fn lemma_one_record_per_subscription(
    s: CycleState,
    ev: Event,
    now: Timestamp,
    t: CycleState,
    step: Step,
)
    requires
        valid(s),
        advances(s, ev, now, t, step),
    ensures
        s.phase != Phase::Recording && t.phase == Phase::Recording ==> step is Record
            && t.index == s.index,
        t.index != s.index ==> s.phase == Phase::Recording && t.index == s.index + 1,
        t.index == s.index || t.index == s.index + 1,
{
}

} // verus!
