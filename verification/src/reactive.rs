//! Reactive strings: a value that scripts and widgets share, and that tells its watcher
//! when a write changed it.
use crate::text::str_eq;
use vstd::prelude::*;

verus! {

/// The current text of a reactive string.
#[derive(Debug)]
pub struct ReactiveValue {
    pub value: String,
}

/// What a script's assignment to a field of a reactive value reaches.
#[derive(Debug, Clone, Copy, PartialEq, Eq, Structural)]
pub enum NewIndexTarget {
    /// More than a key and a value were given.
    TooManyArguments,
    /// The `value` field, the only one that can be written.
    Value,
    /// Any other field: it cannot be written.
    ReadOnly,
}

/// What the watcher of a reactive value does after one poll of its channel.
#[derive(Debug, Clone, Copy, PartialEq, Eq, Structural)]
pub enum ChannelPoll {
    /// A change was announced.
    Received,
    /// Nothing arrived since the last poll.
    Empty,
    /// Every sender is gone.
    Disconnected,
}

/// The watcher's reaction to a poll: whether it forwards a redraw message and whether it
/// keeps polling.
#[derive(Debug, Clone, Copy, PartialEq, Eq, Structural)]
pub struct WatcherStep {
    pub forward: bool,
    pub keep_polling: bool,
}

/// The text a reactive value holds after a write of `written` over `current`.
pub open spec fn text_after_write(current: Seq<char>, written: Seq<char>) -> Seq<char> {
    if current == written {
        current
    } else {
        written
    }
}

/// Whether a write of `written` over `current` tells the watcher.
pub open spec fn write_notifies(current: Seq<char>, written: Seq<char>, has_watcher: bool) -> bool {
    current != written && has_watcher
}

/// The watcher's reaction to a poll: it forwards a redraw for an announced change and
/// keeps polling until every sender is gone.
pub open spec fn watcher_step_of(poll: ChannelPoll) -> WatcherStep {
    WatcherStep {
        forward: poll == ChannelPoll::Received,
        keep_polling: poll != ChannelPoll::Disconnected,
    }
}

/// What happens around a watcher: a change is announced on the channel, the last sender
/// goes away, or the watcher's timer ticks and it polls once.
#[derive(Debug, Clone, Copy, PartialEq, Eq, Structural)]
pub enum WatchEvent {
    Send,
    DropSenders,
    Tick,
}

/// A watcher and its channel: the announcements waiting in the channel, whether a sender
/// is still alive, how many changes were announced and how many redraws forwarded, and
/// whether the watcher still polls.
pub struct WatchState {
    pub queued: nat,
    pub senders_alive: bool,
    pub sent: nat,
    pub forwarded: nat,
    pub polling: bool,
}

/// A watcher just made: nothing sent, a sender alive, polling.
pub open spec fn watch_start() -> WatchState {
    WatchState { queued: 0, senders_alive: true, sent: 0, forwarded: 0, polling: true }
}

/// What a poll of the channel finds: a waiting announcement first, nothing while a sender
/// lives, and the disconnection once every sender is gone and the channel is drained.
pub open spec fn channel_poll(s: WatchState) -> ChannelPoll {
    if s.queued > 0 {
        ChannelPoll::Received
    } else if s.senders_alive {
        ChannelPoll::Empty
    } else {
        ChannelPoll::Disconnected
    }
}

/// The watcher and its channel after one event; a tick after the watcher stopped changes
/// nothing, and nothing can be sent once every sender is gone.
pub open spec fn watch_event(s: WatchState, e: WatchEvent) -> WatchState {
    match e {
        WatchEvent::Send => if s.senders_alive {
            WatchState { queued: s.queued + 1, sent: s.sent + 1, ..s }
        } else {
            s
        },
        WatchEvent::DropSenders => WatchState { senders_alive: false, ..s },
        WatchEvent::Tick => if s.polling {
            let step = watcher_step_of(channel_poll(s));
            WatchState {
                queued: if step.forward { (s.queued - 1) as nat } else { s.queued },
                forwarded: if step.forward { s.forwarded + 1 } else { s.forwarded },
                polling: step.keep_polling,
                ..s
            }
        } else {
            s
        },
    }
}

/// The watcher and its channel after `events`, in order.
pub open spec fn watch_run(s: WatchState, events: Seq<WatchEvent>) -> WatchState
    decreases events.len(),
{
    if events.len() == 0 {
        s
    } else {
        watch_event(watch_run(s, events.drop_last()), events.last())
    }
}

/// `n` ticks of the watcher's timer.
pub open spec fn ticks(n: nat) -> Seq<WatchEvent> {
    Seq::new(n, |i: int| WatchEvent::Tick)
}

impl ReactiveValue {
    /// A reactive value that starts at `value`.
    pub fn new(value: String) -> (r: Self)
        ensures
            r.value@ == value@,
    {
        ReactiveValue { value }
    }

    /// The current text.
    pub fn get(&self) -> (v: String)
        ensures
            v@ == self.value@,
    {
        self.value.clone()
    }

    /// Writes `new` and says whether the watcher is told: only a write that changes the
    /// text, and only where there is a watcher.
    pub fn set(&mut self, new: String, has_watcher: bool) -> (notify: bool)
        ensures
            final(self).value@ == text_after_write(old(self).value@, new@),
            notify == write_notifies(old(self).value@, new@, has_watcher),
    {
        let same = str_eq(self.value.as_str(), new.as_str());
        if !same {
            self.value = new;
            has_watcher
        } else {
            false
        }
    }

    /// Writes `new` without telling the watcher, as an assignment to the `value` field
    /// from a script does.
    pub fn assign(&mut self, new: String)
        ensures
            final(self).value@ == new@,
    {
        self.value = new;
    }
}

/// Which field a script's assignment reaches, given the number of arguments it passed and
/// its key (`None` for a key that is not a string).
pub fn new_index_target(arg_count: usize, key: Option<&str>) -> (t: NewIndexTarget)
    ensures
        arg_count > 2 ==> t == NewIndexTarget::TooManyArguments,
        arg_count <= 2 ==> (t == NewIndexTarget::Value <==> (key matches Some(k) && k@
            == "value"@)),
        arg_count <= 2 ==> t != NewIndexTarget::TooManyArguments,
{
    if arg_count > 2 {
        return NewIndexTarget::TooManyArguments;
    }
    match key {
        Some(k) => {
            if str_eq(k, "value") {
                NewIndexTarget::Value
            } else {
                NewIndexTarget::ReadOnly
            }
        },
        None => NewIndexTarget::ReadOnly,
    }
}

/// Whether a script's read of the field `key` gives the current text (otherwise it gives
/// nil).
pub fn index_reads_value(key: Option<&str>) -> (reads: bool)
    ensures
        reads == (key matches Some(k) && k@ == "value"@),
{
    match key {
        Some(k) => str_eq(k, "value"),
        None => false,
    }
}

/// The watcher forwards a redraw for each announced change and stops polling once every
/// sender is gone.
pub fn watcher_step(poll: ChannelPoll) -> (step: WatcherStep)
    ensures
        step == watcher_step_of(poll),
{
    match poll {
        ChannelPoll::Received => WatcherStep { forward: true, keep_polling: true },
        ChannelPoll::Empty => WatcherStep { forward: false, keep_polling: true },
        ChannelPoll::Disconnected => WatcherStep { forward: false, keep_polling: false },
    }
}

/// A read after a write gives back what was written.
pub proof fn law_read_after_write(current: Seq<char>, written: Seq<char>)
    ensures
        text_after_write(current, written) == written,
{
}

/// Writing the same text twice tells the watcher at most once: the second write is silent.
pub proof fn law_repeated_write_is_silent(current: Seq<char>, written: Seq<char>, has_watcher: bool)
    ensures
        !write_notifies(text_after_write(current, written), written, has_watcher),
{
}

/// A write that changes the text tells a watcher, when there is one.
pub proof fn law_change_notifies_watcher(current: Seq<char>, written: Seq<char>)
    requires
        current != written,
    ensures
        write_notifies(current, written, true),
{
}

/// Whatever happens, every announced change is either forwarded or still waiting, a tick
/// forwards at most one redraw and only for a waiting change, and the watcher stops only
/// once every sender is gone and nothing waits.
pub proof fn law_watcher_forwards_each_change(events: Seq<WatchEvent>)
    ensures
        watch_run(watch_start(), events).forwarded + watch_run(watch_start(), events).queued
            == watch_run(watch_start(), events).sent,
        !watch_run(watch_start(), events).polling ==> watch_run(watch_start(), events).queued == 0
            && !watch_run(watch_start(), events).senders_alive,
        watch_event(watch_run(watch_start(), events), WatchEvent::Tick).forwarded <= watch_run(
            watch_start(),
            events,
        ).forwarded + 1,
        watch_event(watch_run(watch_start(), events), WatchEvent::Tick).forwarded > watch_run(
            watch_start(),
            events,
        ).forwarded ==> watch_run(watch_start(), events).queued > 0,
    decreases events.len(),
{
    if events.len() > 0 {
        law_watcher_forwards_each_change(events.drop_last());
    }
}

proof fn lemma_drain(s: WatchState, n: nat)
    requires
        s.polling,
        !s.senders_alive,
        s.forwarded + s.queued == s.sent,
        n > s.queued,
    ensures
        watch_run(s, ticks(n)).forwarded == s.sent,
        watch_run(s, ticks(n)).queued == 0,
        !watch_run(s, ticks(n)).polling,
    decreases n,
{
    let t = ticks(n);
    assert(t.drop_last() =~= ticks((n - 1) as nat));
    if n == s.queued + 1 {
        lemma_drain_partial(s, (n - 1) as nat);
    } else {
        lemma_drain(s, (n - 1) as nat);
    }
}

proof fn lemma_drain_partial(s: WatchState, n: nat)
    requires
        s.polling,
        !s.senders_alive,
        s.forwarded + s.queued == s.sent,
        n <= s.queued,
    ensures
        watch_run(s, ticks(n)).forwarded == s.forwarded + n,
        watch_run(s, ticks(n)).queued == s.queued - n,
        watch_run(s, ticks(n)).polling,
        !watch_run(s, ticks(n)).senders_alive,
        watch_run(s, ticks(n)).sent == s.sent,
    decreases n,
{
    if n > 0 {
        assert(ticks(n).drop_last() =~= ticks((n - 1) as nat));
        lemma_drain_partial(s, (n - 1) as nat);
    } else {
        assert(ticks(0) =~= Seq::<WatchEvent>::empty());
    }
}

/// Once every sender is gone, enough ticks forward every change that was announced and
/// stop the watcher: one tick per waiting change, and one more.
pub proof fn law_watcher_drains_then_stops(events: Seq<WatchEvent>, extra: nat)
    requires
        !watch_run(watch_start(), events).senders_alive,
        watch_run(watch_start(), events).polling,
        extra > watch_run(watch_start(), events).queued,
    ensures
        watch_run(watch_start(), events + ticks(extra)).forwarded == watch_run(watch_start(), events).sent,
        !watch_run(watch_start(), events + ticks(extra)).polling,
{
    law_watcher_forwards_each_change(events);
    lemma_watch_run_append(watch_start(), events, ticks(extra));
    lemma_drain(watch_run(watch_start(), events), extra);
}

proof fn lemma_watch_run_append(s: WatchState, a: Seq<WatchEvent>, b: Seq<WatchEvent>)
    ensures
        watch_run(s, a + b) == watch_run(watch_run(s, a), b),
    decreases b.len(),
{
    if b.len() == 0 {
        assert(a + b =~= a);
    } else {
        lemma_watch_run_append(s, a, b.drop_last());
        assert((a + b).drop_last() =~= a + b.drop_last());
        assert((a + b).last() == b.last());
    }
}

} // verus!

