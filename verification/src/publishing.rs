//! The acquisition loop's publish side: the fixed topics, the two
//! auto-discovery descriptors, the per-cycle state payload, and the decision
//! each tick of what to publish.

use vstd::prelude::*;
use vstd::string::StringExecFns;

verus! {

/// Topic the auto-discovery descriptors go to.
pub open spec fn config_topic_spec() -> Seq<char> {
    "homeassistant/sensor/aquariumTemp/config"@
}

/// Topic the per-cycle state payload goes to.
pub open spec fn state_topic_spec() -> Seq<char> {
    "homeassistant/sensor/aquariumTemp/state"@
}

/// The config topic as a plain string.
pub fn config_topic() -> (t: &'static str)
    ensures
        t@ == config_topic_spec(),
{
    "homeassistant/sensor/aquariumTemp/config"
}

/// The state topic as a plain string.
pub fn state_topic() -> (t: &'static str)
    ensures
        t@ == state_topic_spec(),
{
    "homeassistant/sensor/aquariumTemp/state"
}

/// The two fixed timing bounds of the bridge: the per-read device timeout
/// and the inter-cycle sleep.
#[derive(Clone, Copy, Debug, PartialEq, Eq, Structural)]
pub struct BridgeTiming {
    /// Bound on every single HID read, in milliseconds.
    pub read_timeout_ms: i32,
    /// Unconditional sleep between poll cycles, in seconds.
    pub poll_interval_secs: u64,
}

/// The timing the bridge runs with: 1000 ms per read, 10 s between cycles.
pub fn default_timing() -> (t: BridgeTiming)
    ensures
        t.read_timeout_ms == 1000,
        t.poll_interval_secs == 10,
{
    BridgeTiming { read_timeout_ms: 1000, poll_interval_secs: 10 }
}

/// One auto-discovery descriptor, as the home-automation hub expects it.
/// Two are built at startup from one shared template and reused on every
/// publish.
pub struct AutoDiscoveryDescriptor {
    pub state_topic: String,
    pub state_class: String,
    pub device_class: String,
    pub unit_of_measurement: String,
    pub name: String,
    pub icon: String,
    pub value_template: String,
    pub unique_id: String,
}

/// The unique identifier both descriptors carry, derived from the host
/// identifier.
pub open spec fn unique_id_spec(host_id: Seq<char>) -> Seq<char> {
    "aquarium_"@ + host_id
}

/// Builds the shared unique identifier from a host identifier.
pub fn build_unique_id(host_id: &str) -> (u: String)
    ensures
        u@ == unique_id_spec(host_id@),
{
    String::from_str("aquarium_").concat(host_id)
}

/// The invariant the two descriptors keep: they are derived from one shared
/// template and differ only in `name` and `value_template`, so topic, unit,
/// class, icon and identifier stay consistent.
pub open spec fn shared_fields_agree(
    a: AutoDiscoveryDescriptor,
    b: AutoDiscoveryDescriptor,
) -> bool {
    &&& a.state_topic@ == b.state_topic@
    &&& a.state_class@ == b.state_class@
    &&& a.device_class@ == b.device_class@
    &&& a.unit_of_measurement@ == b.unit_of_measurement@
    &&& a.icon@ == b.icon@
    &&& a.unique_id@ == b.unique_id@
}

impl AutoDiscoveryDescriptor {
    /// A field-for-field copy of this descriptor.
    pub fn duplicate(&self) -> (d: AutoDiscoveryDescriptor)
        ensures
            d.state_topic@ == self.state_topic@,
            d.state_class@ == self.state_class@,
            d.device_class@ == self.device_class@,
            d.unit_of_measurement@ == self.unit_of_measurement@,
            d.name@ == self.name@,
            d.icon@ == self.icon@,
            d.value_template@ == self.value_template@,
            d.unique_id@ == self.unique_id@,
    {
        AutoDiscoveryDescriptor {
            state_topic: self.state_topic.clone(),
            state_class: self.state_class.clone(),
            device_class: self.device_class.clone(),
            unit_of_measurement: self.unit_of_measurement.clone(),
            name: self.name.clone(),
            icon: self.icon.clone(),
            value_template: self.value_template.clone(),
            unique_id: self.unique_id.clone(),
        }
    }
}

/// Builds the two descriptors from the host identifier: first the room
/// ("outside") sensor, then the aquarium ("inside") sensor. Both point at
/// the state topic and share every field but `name` and `value_template`.
pub fn build_descriptors(host_id: &str) -> (pair: (
    AutoDiscoveryDescriptor,
    AutoDiscoveryDescriptor,
))
    ensures
        pair.0.state_topic@ == state_topic_spec(),
        pair.0.state_class@ == "measurement"@,
        pair.0.device_class@ == "temperature"@,
        pair.0.unit_of_measurement@ == "\u{b0}C"@,
        pair.0.icon@ == "mdi:thermometer"@,
        pair.0.unique_id@ == unique_id_spec(host_id@),
        pair.0.name@ == "Room Temperature"@,
        pair.0.value_template@ == "{{ value_json.outside_temperature }}"@,
        pair.1.name@ == "Aquarium Temperature"@,
        pair.1.value_template@ == "{{ value_json.inside_temperature }}"@,
        shared_fields_agree(pair.0, pair.1),
{
    let room = AutoDiscoveryDescriptor {
        state_topic: String::from_str(state_topic()),
        state_class: String::from_str("measurement"),
        device_class: String::from_str("temperature"),
        unit_of_measurement: String::from_str("\u{b0}C"),
        name: String::from_str("Room Temperature"),
        icon: String::from_str("mdi:thermometer"),
        value_template: String::from_str("{{ value_json.outside_temperature }}"),
        unique_id: build_unique_id(host_id),
    };
    let mut aquarium = room.duplicate();
    aquarium.name = String::from_str("Aquarium Temperature");
    aquarium.value_template = String::from_str("{{ value_json.inside_temperature }}");
    (room, aquarium)
}

/// The state document published each successful cycle: both samples in
/// centi-degrees Celsius, built fresh from one acquisition.
#[derive(Clone, Copy, Debug, PartialEq, Eq, Structural)]
pub struct StatePayload {
    pub outside_centi: i16,
    pub inside_centi: i16,
}

/// What one tick of the acquisition loop does with an acquisition result.
#[derive(Clone, Copy, Debug)]
pub enum CycleAction {
    /// Publish the two descriptors and this state payload, three messages in
    /// all, each independent of the others.
    Publish(StatePayload),
    /// Record the error and publish nothing this tick; the next tick's full
    /// cycle is the retry mechanism.
    Skip(crate::protocol::SensorError),
}

/// The per-tick decision: a successful acquisition becomes a state payload
/// carrying both samples, any failure becomes a skip carrying the error.
pub fn plan_cycle(result: &Result<crate::protocol::TemperaturePair, crate::protocol::SensorError>)
    -> (a: CycleAction)
    ensures
        *result matches Ok(p) ==> a == CycleAction::Publish(
            (StatePayload { outside_centi: p.outside_centi, inside_centi: p.inside_centi }),
        ),
        *result matches Err(e) ==> a == CycleAction::Skip(e),
{
    match result {
        Ok(p) => CycleAction::Publish(
            StatePayload { outside_centi: p.outside_centi, inside_centi: p.inside_centi },
        ),
        Err(e) => CycleAction::Skip(*e),
    }
}

/// Success accounting of one publish round: the tick counts as published
/// only when all three messages — both descriptors and the state document —
/// reported success. The three publishes are independent; a failure in one
/// marks the round failed without suppressing the others, and the next
/// tick's full cycle is the retry.
pub fn publish_round_succeeded(room_ok: bool, aquarium_ok: bool, state_ok: bool) -> (ok: bool)
    ensures
        ok == (room_ok && aquarium_ok && state_ok),
{
    room_ok && aquarium_ok && state_ok
}

/// A connection-lifecycle event of the broker transport, as the event loop
/// classifies it.
#[derive(Clone, Copy, Debug, PartialEq, Eq, Structural)]
pub enum TransportEvent {
    /// The broker acknowledged the connection.
    Connected,
    /// The transport disconnected; a retry follows.
    Disconnected,
    /// Any other lifecycle event; only logged.
    Other,
    /// An unrecoverable transport error.
    Failed,
}

/// The event loop's one decision: only an unrecoverable transport error
/// terminates the process; every other event keeps it alive.
pub fn should_terminate(event: &TransportEvent) -> (stop: bool)
    ensures
        stop == (*event is Failed),
{
    match event {
        TransportEvent::Failed => true,
        _ => false,
    }
}

} // verus!
