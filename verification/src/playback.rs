//! Timed playback of battle events and the recent battle log.
use vstd::prelude::*;
use std::collections::VecDeque;
use crate::hud::{format_event, log_line, spec_format_event, spec_log_line};
use crate::layout::{PixelPoint, spec_iso_center_x, spec_iso_center_y, iso_center, TOKEN_HEIGHT};
use crate::model::{BattleEvent, BattleFacts, GridPos};
use crate::text::{signed_dec, push_signed};
use crate::theme::{log_dot_color, spec_log_dot_color, Icon, ThemeColor};

verus! {

/// The event being played and how long it runs.
#[derive(Clone, Copy, Debug, PartialEq, Eq, Structural)]
pub struct PlayingEvent {
    pub event: BattleEvent,
    pub duration_ms: u32,
}

/// Playback of queued events. While `input_locked`, pointer and keyboard
/// input do not reach the battle.
#[derive(Clone, Copy, Debug, PartialEq, Eq, Structural)]
pub struct EventPlayback {
    pub current: Option<PlayingEvent>,
    pub input_locked: bool,
}

impl Default for EventPlayback {
    fn default() -> (p: Self)
        ensures
            p.current.is_none(),
            !p.input_locked,
    {
        EventPlayback { current: None, input_locked: false }
    }
}

pub open spec fn spec_event_duration_ms(event: BattleEvent) -> u32 {
    match event {
        BattleEvent::UnitMoved { .. } | BattleEvent::UnitPushed { .. } => 300,
        BattleEvent::AttackRolled { .. } | BattleEvent::DamageApplied { .. }
        | BattleEvent::UnitKnockedOut { .. } | BattleEvent::ExplosionTriggered { .. } => 220,
        BattleEvent::IntentCommitted { .. } | BattleEvent::IntentCanceled { .. } => 120,
        _ => 180,
    }
}

/// How long an event's animation runs, in milliseconds.
pub fn event_duration_ms(event: &BattleEvent) -> (ms: u32)
    ensures
        ms == spec_event_duration_ms(*event),
{
    match event {
        BattleEvent::UnitMoved { .. } | BattleEvent::UnitPushed { .. } => 300,
        BattleEvent::AttackRolled { .. } | BattleEvent::DamageApplied { .. }
        | BattleEvent::UnitKnockedOut { .. } | BattleEvent::ExplosionTriggered { .. } => 220,
        BattleEvent::CollisionOccurred { .. } | BattleEvent::HazardTriggered { .. }
        | BattleEvent::ExplosiveDamaged { .. } | BattleEvent::AttackHitEmpty { .. }
        | BattleEvent::CounterFired { .. } => 180,
        BattleEvent::IntentCommitted { .. } | BattleEvent::IntentCanceled { .. } => 120,
        BattleEvent::OptionalObjectiveCompleted | BattleEvent::MissionCompleted
        | BattleEvent::MissionFailed => 180,
    }
}

/// Number of lines the recent battle log keeps.
pub const LOG_CAPACITY: usize = 6;

/// The six newest playback messages, newest first.
#[derive(Clone, Debug)]
pub struct RecentBattleLog(pub VecDeque<String>);

impl Default for RecentBattleLog {
    fn default() -> (l: Self)
        ensures
            l.0@.len() == 0,
    {
        RecentBattleLog(VecDeque::new())
    }
}

pub open spec fn spec_log_after_push(log: Seq<String>, entry: String) -> Seq<String> {
    let all = seq![entry] + log;
    if all.len() <= 6 {
        all
    } else {
        all.subrange(0, 6)
    }
}

impl RecentBattleLog {
    /// Records `entry` as the newest line and drops lines beyond six.
    pub fn push(&mut self, entry: String)
        ensures
            final(self).0@ == spec_log_after_push(old(self).0@, entry),
            final(self).0@.len() <= LOG_CAPACITY,
            final(self).0@[0] == entry,
    {
        self.0.push_front(entry);
        self.0.truncate(LOG_CAPACITY);
    }

    pub fn clear(&mut self)
        ensures
            final(self).0@.len() == 0,
    {
        self.0.clear();
    }
}

/// The log after pushing `entries` in order.
pub open spec fn log_after_pushes(log: Seq<String>, entries: Seq<String>) -> Seq<String>
    decreases entries.len(),
{
    if entries.len() == 0 {
        log
    } else {
        spec_log_after_push(log_after_pushes(log, entries.drop_last()), entries.last())
    }
}

/// However many lines are pushed, the recent log holds at most six, and
/// they are the newest ones, newest first.
pub proof fn law_recent_log_keeps_the_newest_lines(log: Seq<String>, entries: Seq<String>)
    requires
        log.len() <= LOG_CAPACITY,
    ensures
        log_after_pushes(log, entries).len() == if log.len() + entries.len() <= 6 {
            log.len() + entries.len()
        } else {
            6
        },
        forall|j: int|
            0 <= j < entries.len() && j < 6 ==> #[trigger] log_after_pushes(log, entries)[j]
                == entries[entries.len() - 1 - j],
    decreases entries.len(),
{
    if entries.len() > 0 {
        let prev = entries.drop_last();
        law_recent_log_keeps_the_newest_lines(log, prev);
        let before = log_after_pushes(log, prev);
        let after = log_after_pushes(log, entries);
        assert(after == spec_log_after_push(before, entries.last()));
        assert forall|j: int| 0 <= j < entries.len() && j < 6 implies #[trigger] after[j]
            == entries[entries.len() - 1 - j] by {
            if j > 0 {
                assert(after[j] == before[j - 1]);
                assert(prev[prev.len() - 1 - (j - 1)] == entries[entries.len() - 1 - j]);
            }
        }
    }
}

/// What the playback system does this frame.
#[derive(Clone, Copy, Debug, PartialEq, Eq, Structural)]
pub enum PlaybackStep {
    /// The current event is still running: keep animating it.
    Animate,
    /// Nothing left to play: input is unlocked. `finished_previous` asks to
    /// remove the effects of the event that just ended.
    Idle { finished_previous: bool },
    /// Start playing `event` for `duration_ms`.
    Start { finished_previous: bool, event: BattleEvent, duration_ms: u32 },
}

/// One frame of event playback. The queue is the single playback boundary:
/// every event is logged exactly once, when it leaves the queue.
pub fn play_battle_events(
    playback: &mut EventPlayback,
    queue: &mut VecDeque<BattleEvent>,
    log: &mut RecentBattleLog,
    battle: &BattleFacts,
    timer_finished: bool,
) -> (step: PlaybackStep)
    ensures
        ({
            let finished = old(playback).current.is_some() && timer_finished;
            if old(playback).current.is_some() && !timer_finished {
                step == PlaybackStep::Animate && *final(playback) == *old(playback) && final(queue)@
                    == old(queue)@ && final(log).0@ == old(log).0@
            } else if old(queue)@.len() == 0 {
                step == PlaybackStep::Idle { finished_previous: finished } && final(playback).current.is_none() && !final(playback).input_locked && final(queue)@ == old(queue)@ && final(log).0@ == old(log).0@
            } else {
                let e = old(queue)@[0];
                &&& step == PlaybackStep::Start {
                    finished_previous: finished,
                    event: e,
                    duration_ms: spec_event_duration_ms(e),
                }
                &&& final(playback).current == Some(
                    PlayingEvent { event: e, duration_ms: spec_event_duration_ms(e) },
                )
                &&& final(playback).input_locked
                &&& final(queue)@ == old(queue)@.subrange(1, old(queue)@.len() as int)
                &&& final(log).0@.len() == spec_log_after_push(old(log).0@, final(log).0@[0]).len()
                &&& final(log).0@[0]@ == spec_format_event(e, *battle)
                &&& final(log).0@ == spec_log_after_push(old(log).0@, final(log).0@[0])
            }
        }),
{
    let finished = playback.current.is_some() && timer_finished;
    if finished {
        playback.current = None;
    } else if playback.current.is_some() {
        return PlaybackStep::Animate;
    }
    match queue.pop_front() {
        None => {
            playback.input_locked = false;
            PlaybackStep::Idle { finished_previous: finished }
        },
        Some(event) => {
            let line = format_event(&event, battle);
            log.push(line);
            let duration_ms = event_duration_ms(&event);
            playback.current = Some(PlayingEvent { event, duration_ms });
            playback.input_locked = true;
            PlaybackStep::Start { finished_previous: finished, event, duration_ms }
        },
    }
}

/// A restarted mission's opening round has begun with `events`: they are
/// queued, input stays locked while any remain, and the pending flag clears.
/// Returns the status line.
pub fn restarted_round_begun(
    pending: &mut bool,
    events: Vec<BattleEvent>,
    playback: &mut EventPlayback,
    queue: &mut VecDeque<BattleEvent>,
) -> (status: &'static str)
    ensures
        status@ == "Mission restarted."@,
        !*final(pending),
        final(playback).input_locked == (events@.len() > 0),
        final(playback).current == old(playback).current,
        final(queue)@ == old(queue)@ + events@,
{
    playback.input_locked = events.len() > 0;
    let mut i: usize = 0;
    while i < events.len()
        invariant
            i <= events@.len(),
            queue@ == old(queue)@ + events@.subrange(0, i as int),
        decreases events@.len() - i,
    {
        queue.push_back(events[i]);
        proof {
            assert(events@.subrange(0, i + 1) == events@.subrange(0, i as int).push(events@[i as int]));
        }
        i = i + 1;
    }
    assert(events@.subrange(0, events@.len() as int) == events@);
    *pending = false;
    "Mission restarted."
}

pub open spec fn spec_event_effect(event: BattleEvent, battle: BattleFacts) -> Option<(GridPos, Icon)> {
    match event {
        BattleEvent::AttackHitEmpty { cell } => Some((cell, Icon::Attack)),
        BattleEvent::ExplosionTriggered { position } => Some((position, Icon::Attack)),
        BattleEvent::HazardTriggered { position } => Some((position, Icon::Guard)),
        BattleEvent::ExplosiveDamaged { position, .. } => Some((position, Icon::Attack)),
        BattleEvent::CollisionOccurred { blocked_at } => Some((blocked_at, Icon::Counter)),
        BattleEvent::AttackRolled { target, hit, .. } => if hit {
            match battle.unit_of(target) {
                Some(u) => Some((u.position, Icon::Attack)),
                None => None,
            }
        } else {
            None
        },
        BattleEvent::DamageApplied { target, .. } => match battle.unit_of(target) {
            Some(u) => Some((u.position, Icon::Attack)),
            None => None,
        },
        BattleEvent::UnitKnockedOut { unit } => match battle.unit_of(unit) {
            Some(u) => Some((u.position, Icon::Attack)),
            None => None,
        },
        _ => None,
    }
}

/// Where an event's impact flash appears and which icon it shows: the event's
/// cell, or the struck unit's cell; none for other events.
pub fn event_effect(event: &BattleEvent, battle: &BattleFacts) -> (r: Option<(GridPos, Icon)>)
    ensures
        r == spec_event_effect(*event, *battle),
{
    let position = match *event {
        BattleEvent::AttackHitEmpty { cell } => Some(cell),
        BattleEvent::ExplosionTriggered { position } => Some(position),
        BattleEvent::HazardTriggered { position } => Some(position),
        BattleEvent::ExplosiveDamaged { position, .. } => Some(position),
        BattleEvent::CollisionOccurred { blocked_at } => Some(blocked_at),
        BattleEvent::AttackRolled { target, hit, .. } => if hit {
            match battle.unit(target) {
                Some(u) => Some(u.position),
                None => None,
            }
        } else {
            None
        },
        BattleEvent::DamageApplied { target, .. } => match battle.unit(target) {
            Some(u) => Some(u.position),
            None => None,
        },
        BattleEvent::UnitKnockedOut { unit } => match battle.unit(unit) {
            Some(u) => Some(u.position),
            None => None,
        },
        _ => None,
    };
    let position = match position {
        Some(p) => p,
        None => {
            return None;
        },
    };
    let icon = match *event {
        BattleEvent::HazardTriggered { .. } => Icon::Guard,
        BattleEvent::CollisionOccurred { .. } => Icon::Counter,
        _ => Icon::Attack,
    };
    Some((position, icon))
}

/// The floating damage number of a `DamageApplied` event: its origin above
/// the struck unit and its text `-amount`.
pub fn damage_number(event: &BattleEvent, battle: &BattleFacts) -> (r: Option<(PixelPoint, String)>)
    ensures
        match *event {
            BattleEvent::DamageApplied { target, amount } => match battle.unit_of(target) {
                Some(u) => r.is_some() && r.unwrap().0.x == spec_iso_center_x(u.position)
                    && r.unwrap().0.y == spec_iso_center_y(u.position) - TOKEN_HEIGHT - 10
                    && r.unwrap().1@ == "-"@ + signed_dec(amount as int),
                None => r.is_none(),
            },
            _ => r.is_none(),
        },
{
    match *event {
        BattleEvent::DamageApplied { target, amount } => match battle.unit(target) {
            Some(u) => {
                let c = iso_center(u.position);
                let mut text = String::new();
                text.append("-");
                push_signed(&mut text, amount as i64);
                Some((PixelPoint { x: c.x, y: c.y - TOKEN_HEIGHT - 10 }, text))
            },
            None => None,
        },
        _ => None,
    }
}

/// One row of the sidebar's recent battle log: whether it is shown, its
/// text on one line, and its dot colour. Rows past the log are hidden,
/// empty and border-coloured.
pub fn log_row(log: &RecentBattleLog, row: usize) -> (r: (bool, String, ThemeColor))
    ensures
        row < log.0@.len() ==> r.0 && r.1@ == spec_log_line(log.0@[row as int]@) && r.2
            == spec_log_dot_color(log.0@[row as int]@),
        row >= log.0@.len() ==> !r.0 && r.1@.len() == 0 && r.2 == ThemeColor::Border,
{
    if row < log.0.len() {
        let entry = &log.0[row];
        (true, log_line(entry.as_str()), log_dot_color(entry.as_str()))
    } else {
        (false, String::new(), ThemeColor::Border)
    }
}

} // verus!
