//! The telemetry handle: a broker client, the robot's identifier and the
//! synchronisation counters, shared by every clone of the handle.

use std::sync::atomic::{AtomicU64, Ordering};
use std::sync::Arc;
use rumqttc::{AsyncClient, EventLoop, MqttOptions};
use tokio::sync::{Mutex, MutexGuard};
use vstd::prelude::*;
use vstd::string::*;
use crate::config::{connect_settings, REQUEST_CAPACITY};
use crate::message::{frame_message, full_topic_of, envelope_of, Counters, Delivery, Outgoing};

verus! {

#[verifier::external_type_specification]
#[verifier::external_body]
pub struct ExAsyncClient(AsyncClient);

#[verifier::external_type_specification]
#[verifier::external_body]
pub struct ExEventLoop(EventLoop);

#[verifier::external_type_specification]
#[verifier::external_body]
pub struct ExMqttOptions(MqttOptions);

#[verifier::external_type_specification]
#[verifier::external_body]
#[verifier::reject_recursive_types(T)]
pub struct ExMutex<T: ?Sized>(Mutex<T>);

#[verifier::external_type_specification]
#[verifier::external_body]
#[verifier::reject_recursive_types(T)]
pub struct ExMutexGuard<'a, T: ?Sized>(MutexGuard<'a, T>);

/// Relies on rumqttc's `MqttOptions::new`, which stores its arguments and
/// never panics.
#[verifier::external_body]
fn new_options(id: String, host: &str, port: u16) -> MqttOptions {
    MqttOptions::new(id, host, port)
}

/// Relies on rumqttc's `MqttOptions::set_keep_alive`, which panics only on a
/// non-zero interval below one second.
#[verifier::external_body]
fn set_keep_alive(options: &mut MqttOptions, secs: u64)
    requires
        secs >= 1,
{
    options.set_keep_alive(std::time::Duration::from_secs(secs));
}

/// Relies on rumqttc's `AsyncClient::new`: a client and the event loop that
/// carries its requests, joined by a queue of `cap` requests; no I/O happens.
#[verifier::external_body]
fn new_client(options: MqttOptions, cap: usize) -> (AsyncClient, EventLoop) {
    AsyncClient::new(options, cap)
}

/// Relies on tokio's `Mutex::new`.
#[verifier::external_body]
fn new_cell(v: u64) -> Mutex<u64> {
    Mutex::new(v)
}

/// Relies on tokio's `Mutex::try_lock`: the guard, or nothing when the lock is
/// held elsewhere; it never waits.
#[verifier::external_body]
fn try_lock<T>(m: &Mutex<T>) -> Option<MutexGuard<'_, T>> {
    m.try_lock().ok()
}

/// Relies on `MutexGuard`'s `Deref`: the value under the lock.
#[verifier::external_body]
fn guarded<'a, 'b, T>(g: &'a MutexGuard<'b, T>) -> &'a T {
    &**g
}

/// Relies on `MutexGuard`'s `DerefMut`: replaces the value under the lock.
#[verifier::external_body]
fn set_guarded(g: &mut MutexGuard<'_, u64>, v: u64) {
    **g = v;
}

/// A shared telemetry handle. Clones share the connection and the counters.
pub struct Telemetry {
    client: Arc<AsyncClient>,
    pub robot_id: String,
    frame_number: Arc<Mutex<u64>>,
    video_timestamp: Arc<Mutex<u64>>,
    inference_step: Arc<AtomicU64>,
}

impl Clone for Telemetry {
    fn clone(&self) -> (r: Self)
        ensures
            r == *self,
    {
        Telemetry {
            client: self.client.clone(),
            robot_id: self.robot_id.clone(),
            frame_number: self.frame_number.clone(),
            video_timestamp: self.video_timestamp.clone(),
            inference_step: self.inference_step.clone(),
        }
    }
}

/// The slot after `t` is installed: it holds `t` and nothing of what it held.
pub open spec fn installed(t: Telemetry) -> Option<Telemetry> {
    Some(t)
}

/// What the gated accessor hands out of a slot: nothing while telemetry is
/// switched off, else what the slot holds.
pub open spec fn visible(enabled: bool, slot: Option<Telemetry>) -> Option<Telemetry> {
    if enabled {
        slot
    } else {
        None
    }
}

/// The frame counter after one best-effort increment that took the lock.
pub open spec fn next_frame(n: u64) -> u64 {
    if n == u64::MAX {
        0
    } else {
        (n + 1) as u64
    }
}

/// One more than `n`, from the largest value back to zero.
pub fn successor(n: u64) -> (r: u64)
    ensures
        r == next_frame(n),
{
    if n == u64::MAX {
        0
    } else {
        n + 1
    }
}

/// A best-effort read: the value when the lock was had, else zero.
pub fn value_or_zero(read: Option<u64>) -> (r: u64)
    ensures
        r == match read {
            Some(v) => v,
            None => 0,
        },
{
    match read {
        Some(v) => v,
        None => 0,
    }
}

impl Telemetry {
    /// The robot's identifier.
    pub closed spec fn robot(&self) -> Seq<char> {
        self.robot_id@
    }

    /// Connects `robot_id` to the broker at `mqtt_host:mqtt_port` as client
    /// `kos-<robot_id>` with a five-second keep-alive, with all counters at
    /// zero, and installs the new handle in `slot` in place of whatever it held.
    /// Returns the event loop that must be polled for the connection to move.
    pub fn initialize(
        robot_id: &str,
        mqtt_host: &str,
        mqtt_port: u16,
        slot: &mut Option<Telemetry>,
    ) -> (events: EventLoop)
        ensures
            *final(slot) is Some,
            (*final(slot))->0.robot() == robot_id@,
    {
        let settings = connect_settings(robot_id, mqtt_host, mqtt_port);
        let mut options = new_options(settings.client_id, settings.host.as_str(), settings.port);
        set_keep_alive(&mut options, settings.keep_alive_secs);
        let (client, events) = new_client(options, REQUEST_CAPACITY);
        let telemetry = Telemetry {
            client: Arc::new(client),
            robot_id: String::from_str(robot_id),
            frame_number: Arc::new(new_cell(0)),
            video_timestamp: Arc::new(new_cell(0)),
            inference_step: Arc::new(AtomicU64::new(0)),
        };
        Telemetry::install(slot, telemetry);
        events
    }

    /// The robot's identifier, as text.
    pub fn robot_identifier(&self) -> (r: &str)
        ensures
            r@ == self.robot(),
    {
        self.robot_id.as_str()
    }

    /// Makes `t` the one handle in `slot`; the previous one is dropped.
    pub fn install(slot: &mut Option<Telemetry>, t: Telemetry)
        ensures
            *final(slot) == installed(t),
    {
        *slot = Some(t);
    }

    /// The handle in `slot`, or nothing when telemetry is switched off or no
    /// handle was installed.
    pub fn get(enabled: bool, slot: &Option<Telemetry>) -> (r: Option<Telemetry>)
        ensures
            r == visible(enabled, *slot),
    {
        if !enabled {
            return None;
        }
        Telemetry::current(slot)
    }

    /// The handle in `slot`, whatever the enable switch says.
    pub fn current(slot: &Option<Telemetry>) -> (r: Option<Telemetry>)
        ensures
            r == *slot,
    {
        match slot {
            Some(t) => Some(t.clone()),
            None => None,
        }
    }

    /// The handle in the locked `slot` without waiting: nothing when the lock
    /// is held elsewhere or no handle was installed. The enable switch is not
    /// consulted.
    pub fn try_get(slot: &Mutex<Option<Telemetry>>) -> Option<Telemetry> {
        let held = try_lock(slot);
        let seen = match &held {
            Some(guard) => Some(guarded(guard)),
            None => None,
        };
        Telemetry::held_or_none(seen)
    }

    /// What a non-waiting look at a locked slot yields: the handle in the slot
    /// when the lock was had, else nothing.
    pub fn held_or_none(seen: Option<&Option<Telemetry>>) -> (r: Option<Telemetry>)
        ensures
            r == match seen {
                Some(slot) => *slot,
                None => None,
            },
    {
        match seen {
            Some(slot) => Telemetry::current(slot),
            None => None,
        }
    }

    /// Sets the frame number unless its lock is held elsewhere, in which case
    /// the update is dropped.
    pub fn update_frame_number(&self, new_frame_number: u64) {
        if let Some(mut guard) = try_lock(&*self.frame_number) {
            set_guarded(&mut guard, new_frame_number);
        }
    }

    /// Sets the video timestamp unless its lock is held elsewhere, in which
    /// case the update is dropped.
    pub fn update_video_timestamp(&self, new_video_timestamp: u64) {
        if let Some(mut guard) = try_lock(&*self.video_timestamp) {
            set_guarded(&mut guard, new_video_timestamp);
        }
    }

    /// The frame number, or zero while its lock is held elsewhere.
    pub fn get_frame_number(&self) -> u64 {
        let read = match try_lock(&*self.frame_number) {
            Some(guard) => Some(*guarded(&guard)),
            None => None,
        };
        value_or_zero(read)
    }

    /// Adds one to the frame number (from the largest value back to zero),
    /// unless its lock is held elsewhere, in which case nothing changes.
    pub fn increment_frame_number(&self) {
        if let Some(mut guard) = try_lock(&*self.frame_number) {
            let next = successor(*guarded(&guard));
            set_guarded(&mut guard, next);
        }
    }

    /// The video timestamp, or zero while its lock is held elsewhere.
    pub fn get_video_timestamp(&self) -> u64 {
        let read = match try_lock(&*self.video_timestamp) {
            Some(guard) => Some(*guarded(&guard)),
            None => None,
        };
        value_or_zero(read)
    }

    /// Sets the inference step; never dropped.
    pub fn update_inference_step(&self, new_inference_step: u64) {
        self.inference_step.store(new_inference_step, Ordering::SeqCst);
    }

    /// Adds one to the inference step atomically (from the largest value back
    /// to zero); never dropped.
    pub fn increment_inference_step(&self) {
        self.inference_step.fetch_add(1, Ordering::SeqCst);
    }

    /// The inference step.
    pub fn get_inference_step(&self) -> u64 {
        self.inference_step.load(Ordering::SeqCst)
    }

    /// A best-effort snapshot of the three counters, each read on its own.
    pub fn counters(&self) -> Counters {
        Counters {
            frame_number: self.get_frame_number(),
            video_timestamp: self.get_video_timestamp(),
            inference_step: self.get_inference_step(),
        }
    }

    /// The event carrying `data` (the payload's JSON text) under `topic`,
    /// stamped with a snapshot of the counters: its topic is
    /// `robots/<robot_id>/<topic>`, it is sent at least once and not retained.
    pub fn message(&self, topic: &str, data: &str) -> (m: Outgoing)
        ensures
            m.topic@ == full_topic_of(self.robot(), topic@),
            exists|c: Counters| m.body@ == envelope_of(c, data@),
            m.delivery == Delivery::AtLeastOnce,
            !m.retain,
    {
        let counters = self.counters();
        frame_message(self.robot_id.as_str(), topic, counters, data)
    }

    /// The broker client that sends this handle's events.
    pub fn client(&self) -> &AsyncClient {
        &*self.client
    }
}

/// Re-initialising replaces: after two installs in turn, the gated accessor of
/// an enabled process hands out the second handle, so its identifier, and the
/// first handle is no longer reachable through it.
pub proof fn lemma_reinstall_replaces(first: Telemetry, second: Telemetry)
    requires
        first.robot() != second.robot(),
    ensures
        ({
            let after = installed(second);
            &&& visible(true, after) == Some(second)
            &&& visible(true, after)->0.robot() == second.robot()
            &&& visible(true, after) != Some(first)
        }),
{
}

/// While telemetry is switched off, the gated accessor hands out nothing,
/// whatever was installed before.
pub proof fn lemma_disabled_gives_nothing(slot: Option<Telemetry>)
    ensures
        visible(false, slot) is None,
{
}

} // verus!
