//! The double-buffered snapshot monitor and the change channel.
//!
//! Two `System` instances stand side by side; an index says which one is
//! published. A refresh cycle works only on the other instance and flips
//! the index as its last step, so the published snapshot is never touched
//! while it can be read: a reader sees the pre-cycle state or the
//! post-cycle state, whole, never a mixture.

use vstd::prelude::*;

use crate::cgroup::CGroup;
use crate::settings::Settings;
use crate::system::System;

verus! {

/// One message of the change channel: a cgroup discovered by a request
/// handler, or a whole replacement settings tree.
pub enum ChangeEvent {
    CGroupEvent(CGroup),
    SettingsEvent(Settings),
}

/// Relies on crossbeam_channel's Sender: declared so library types can
/// carry channel endpoints.
#[verifier::external_type_specification]
#[verifier::external_body]
#[verifier::reject_recursive_types(T)]
pub struct ExSender<T>(crossbeam::channel::Sender<T>);

/// Relies on crossbeam_channel's Receiver: declared so library types can
/// carry channel endpoints.
#[verifier::external_type_specification]
#[verifier::external_body]
#[verifier::reject_recursive_types(T)]
pub struct ExReceiver<T>(crossbeam::channel::Receiver<T>);

/// Relies on crossbeam_channel::unbounded: a connected queue of unbounded
/// capacity. Which messages later arrive depends on every sender, so
/// nothing more is promised here.
#[verifier::external_body]
pub fn new_change_channel() -> (
    crossbeam::channel::Sender<ChangeEvent>,
    crossbeam::channel::Receiver<ChangeEvent>,
) {
    crossbeam::channel::unbounded()
}

/// Relies on crossbeam_channel's Sender::send: queues the message; the
/// result says only whether the channel was still connected.
#[verifier::external_body]
pub fn send_event(sender: &crossbeam::channel::Sender<ChangeEvent>, ev: ChangeEvent) -> bool {
    match sender.send(ev) {
        Ok(()) => true,
        Err(_) => false,
    }
}

/// Relies on crossbeam_channel's Receiver::try_recv: a queued message, or
/// nothing when the queue is momentarily empty. Concurrent senders may add
/// messages at any time, so no more can be said of the outcome.
#[verifier::external_body]
pub fn try_recv_event(receiver: &crossbeam::channel::Receiver<ChangeEvent>) -> Option<ChangeEvent> {
    match receiver.try_recv() {
        Ok(ev) => Some(ev),
        Err(_) => None,
    }
}

/// The queued messages, in arrival order: the drain polls until the queue
/// reports empty or `max` messages have been taken, so a burst of
/// concurrent senders cannot hold the collector in the drain forever;
/// whatever remains waits for the next cycle.
pub fn drain_events(receiver: &crossbeam::channel::Receiver<ChangeEvent>, max: usize) -> (r: Vec<
    ChangeEvent,
>)
    ensures
        r@.len() <= max,
{
    let mut out: Vec<ChangeEvent> = Vec::new();
    let mut i: usize = 0;
    while i < max
        invariant
            out@.len() <= i <= max,
        decreases max - i,
    {
        match try_recv_event(receiver) {
            Some(ev) => {
                out.push(ev);
            },
            None => {
                return out;
            },
        }
        i = i + 1;
    }
    out
}

/// The settings carried by the last settings message among `events[..n]`.
pub open spec fn spec_last_settings(events: Seq<ChangeEvent>, n: int) -> Option<Settings>
    decreases n,
{
    if n <= 0 {
        None
    } else {
        match events[n - 1] {
            ChangeEvent::SettingsEvent(s) => Some(s),
            ChangeEvent::CGroupEvent(_) => spec_last_settings(events, n - 1),
        }
    }
}

/// The cgroup table after the discovery messages of `events[..n]` are
/// registered in order, first write winning.
pub open spec fn spec_insert_events(
    table: Map<Seq<char>, CGroup>,
    events: Seq<ChangeEvent>,
    n: int,
) -> Map<Seq<char>, CGroup>
    decreases n,
{
    if n <= 0 {
        table
    } else {
        let prev = spec_insert_events(table, events, n - 1);
        match events[n - 1] {
            ChangeEvent::CGroupEvent(cg) => if prev.contains_key(cg.user_path@) {
                prev
            } else {
                prev.insert(cg.user_path@, cg)
            },
            ChangeEvent::SettingsEvent(_) => prev,
        }
    }
}

/// Every discovery message is well formed.
pub open spec fn spec_events_wf(events: Seq<ChangeEvent>) -> bool {
    forall|i: int|
        0 <= i < events.len() ==> match #[trigger] events[i] {
            ChangeEvent::CGroupEvent(cg) => cg.wf(),
            ChangeEvent::SettingsEvent(_) => true,
        }
}

/// Apply one cycle's drained messages to the writer: each discovered
/// cgroup is registered first-write-wins, in arrival order, and of several
/// settings messages only the last survives — it is handed back to be
/// applied once, after the drain.
pub fn apply_events(system: &mut System, events: Vec<ChangeEvent>) -> (r: Option<Settings>)
    requires
        old(system).wf(),
        spec_events_wf(events@),
    ensures
        final(system).wf(),
        r == spec_last_settings(events@, events@.len() as int),
        final(system).cgroup_list.map_view() == spec_insert_events(
            old(system).cgroup_list.map_view(),
            events@,
            events@.len() as int,
        ),
        *final(system) == (System { cgroup_list: final(system).cgroup_list, ..*old(system) }),
{
    let mut new_settings: Option<Settings> = None;
    let mut events = events;
    let ghost ev0 = events@;
    let n = events.len();
    let mut i: usize = 0;
    while i < n
        invariant
            n == ev0.len(),
            i <= n,
            events@ == ev0.subrange(i as int, n as int),
            spec_events_wf(ev0),
            system.wf(),
            new_settings == spec_last_settings(ev0, i as int),
            system.cgroup_list.map_view() == spec_insert_events(
                old(system).cgroup_list.map_view(),
                ev0,
                i as int,
            ),
            *system == (System { cgroup_list: system.cgroup_list, ..*old(system) }),
        decreases n - i,
    {
        let ev = events.remove(0);
        proof {
            assert(ev == ev0[i as int]);
            assert(events@ =~= ev0.subrange(i + 1, n as int));
        }
        match ev {
            ChangeEvent::CGroupEvent(cg) => {
                system.insert_cgroups_item(cg);
            },
            ChangeEvent::SettingsEvent(s) => {
                new_settings = Some(s);
            },
        }
        i = i + 1;
    }
    new_settings
}

/// The double buffer: two snapshots and the index of the published one.
pub struct SystemMonitor {
    pub instance_one: System,
    pub instance_two: System,
    /// True when the first instance is published.
    pub pointer: bool,
    pub settings: Settings,
}

impl SystemMonitor {
    pub open spec fn wf(&self) -> bool {
        self.instance_one.wf() && self.instance_two.wf()
    }

    /// The snapshot readers currently see.
    pub open spec fn spec_published(&self) -> System {
        if self.pointer {
            self.instance_one
        } else {
            self.instance_two
        }
    }

    /// The snapshot the collector may write.
    pub open spec fn spec_standby(&self) -> System {
        if self.pointer {
            self.instance_two
        } else {
            self.instance_one
        }
    }

    pub fn new(instance_one: System, instance_two: System, settings: Settings) -> (r:
        SystemMonitor)
        requires
            instance_one.wf(),
            instance_two.wf(),
        ensures
            r.wf(),
            r.pointer == true,
            r.instance_one == instance_one,
            r.instance_two == instance_two,
            r.settings == settings,
    {
        SystemMonitor { instance_one, instance_two, pointer: true, settings }
    }

    /// The published snapshot, for readers.
    pub fn get_monitor_reader(&self) -> (r: &System)
        ensures
            *r == self.spec_published(),
    {
        if self.pointer {
            &self.instance_one
        } else {
            &self.instance_two
        }
    }

    /// Publish the other instance. Nothing else moves: the previously
    /// published snapshot survives whole as the new standby.
    pub fn change_pointer(&mut self)
        ensures
            final(self).pointer == !old(self).pointer,
            final(self).instance_one == old(self).instance_one,
            final(self).instance_two == old(self).instance_two,
            final(self).settings == old(self).settings,
            final(self).spec_published() == old(self).spec_standby(),
            final(self).spec_standby() == old(self).spec_published(),
    {
        self.pointer = !self.pointer;
    }

    pub fn get_settings(&self) -> (r: &Settings)
        ensures
            *r == self.settings,
    {
        &self.settings
    }

    /// One collection cycle, from the baseline the caller copied out of the
    /// published snapshot: the baseline takes the drained messages, a
    /// captured settings replacement is stored and applied through the
    /// writer's switch pass, and only then is the result published.
    ///
    /// The previously published snapshot is never written during the cycle:
    /// it survives whole as the new standby, so a reader that started
    /// before the flip read pre-cycle state only, and one that starts after
    /// it reads post-cycle state only — never a mixture.
    pub fn update_once(
        &mut self,
        baseline: System,
        events: Vec<ChangeEvent>,
        path_exists: &Vec<Vec<bool>>,
        now: u64,
    )
        requires
            old(self).wf(),
            baseline.wf(),
            spec_events_wf(events@),
        ensures
            final(self).wf(),
            final(self).pointer == !old(self).pointer,
            final(self).spec_standby() == old(self).spec_published(),
            final(self).settings == (match spec_last_settings(events@, events@.len() as int) {
                Some(s) => s,
                None => old(self).settings,
            }),
            final(self).spec_published().cgroup_list.map_view().dom() == spec_insert_events(
                baseline.cgroup_list.map_view(),
                events@,
                events@.len() as int,
            ).dom(),
            // With no settings replacement in the drain, the published
            // snapshot is exactly the baseline with the discovered cgroups
            // registered.
            spec_last_settings(events@, events@.len() as int) is None ==> final(self).spec_published().cgroup_list.map_view() == spec_insert_events(
                baseline.cgroup_list.map_view(),
                events@,
                events@.len() as int,
            ) && final(self).spec_published() == (System {
                cgroup_list: final(self).spec_published().cgroup_list,
                ..baseline
            }),
    {
        let mut writer = baseline;
        let captured = apply_events(&mut writer, events);
        match captured {
            Some(s) => {
                self.settings.update(s);
                writer.switch(&s, path_exists, now);
            },
            None => {},
        }
        if self.pointer {
            self.instance_two = writer;
        } else {
            self.instance_one = writer;
        }
        self.change_pointer();
    }
}

/// A settings replacement reaches the published snapshot in the same cycle
/// as its switch pass: after a cycle whose drain captured a replacement,
/// the monitor's settings are exactly the replacement, and of several
/// replacements in one cycle only the last survives.
pub proof fn lemma_settings_last_one_wins(
    events: Seq<ChangeEvent>,
    n: int,
    s1: Settings,
    s2: Settings,
)
    requires
        0 <= n,
        n + 2 <= events.len(),
        events[n] == ChangeEvent::SettingsEvent(s1),
        events[n + 1] == ChangeEvent::SettingsEvent(s2),
    ensures
        spec_last_settings(events, n + 2) == Some(s2),
{
}

} // verus!
