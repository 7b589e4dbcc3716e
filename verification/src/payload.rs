//! The discovery-payload generator: for every decoded value it builds exactly
//! one descriptor/state message pair, with deterministic topics and a
//! populated unit of measure exactly for numeric values.

use crate::consts::EXPIRES_AFTER_SECONDS;
use crate::decode::Decimal;
use crate::structs::Point;
use std::collections::HashMap;
use vstd::prelude::*;
use vstd::string::StringExecFns;

verus! {

/// The stable identity of the polled device, embedded into every descriptor
/// message.
#[derive(Debug)]
pub struct DeviceInfo {
    pub identifiers: Vec<String>,
    pub manufacturer: String,
    pub name: String,
    pub model: String,
    pub sw_version: String,
}

/// All the fields of a device description, by view.
pub open spec fn device_view(d: DeviceInfo) -> (Seq<Seq<char>>, Seq<char>, Seq<char>, Seq<
    char,
>, Seq<char>) {
    (d.identifiers.deep_view(), d.manufacturer@, d.name@, d.model@, d.sw_version@)
}

fn clone_string_vec(v: &Vec<String>) -> (r: Vec<String>)
    ensures
        r.deep_view() == v.deep_view(),
{
    let mut r: Vec<String> = Vec::new();
    let mut i: usize = 0;
    while i < v.len()
        invariant
            i <= v.len(),
            r@.len() == i,
            forall|j: int| 0 <= j < i ==> #[trigger] r@[j]@ == v@[j]@,
        decreases v.len() - i,
    {
        r.push(v[i].clone());
        i += 1;
    }
    proof {
        assert forall|j: int| 0 <= j < r.deep_view().len() implies r.deep_view()[j]
            == v.deep_view()[j] by {
            assert(r@[j]@ == v@[j]@);
        }
        assert(r.deep_view() =~= v.deep_view());
    }
    r
}

impl Clone for DeviceInfo {
    fn clone(&self) -> (r: Self)
        ensures
            device_view(r) == device_view(*self),
    {
        DeviceInfo {
            identifiers: clone_string_vec(&self.identifiers),
            manufacturer: self.manufacturer.clone(),
            name: self.name.clone(),
            model: self.model.clone(),
            sw_version: self.sw_version.clone(),
        }
    }
}

impl Default for DeviceInfo {
    fn default() -> (r: Self)
        ensures
            r.identifiers@.len() == 0,
            r.manufacturer@.len() == 0,
            r.name@.len() == 0,
            r.model@.len() == 0,
            r.sw_version@.len() == 0,
    {
        DeviceInfo {
            identifiers: Vec::new(),
            manufacturer: String::new(),
            name: String::new(),
            model: String::new(),
            sw_version: String::new(),
        }
    }
}

/// A decoded register value, tagged by its runtime type.  `Pad` is the
/// no-op/padding variant: it still produces a well-formed, empty-bodied state
/// message.
#[derive(Debug, Clone)]
pub enum ValueType {
    String(String),
    Integer(i64),
    Float(Decimal),
    Boolean(bool),
    Array(Vec<String>),
    Pad,
}

/// The value slot of a state message.
#[derive(Debug, Clone)]
pub enum PayloadValueType {
    Float(Decimal),
    Int(i64),
    String(String),
    Boolean(bool),
    Empty,
}

/// Either half of a compound payload, or nothing.
#[derive(Debug, Clone)]
pub enum Payload {
    Config(HAConfigPayload),
    CurrentState(StatePayload),
    Empty,
}

/// How a consuming system should categorise the entity.
#[derive(Debug, Clone)]
pub enum EntityCategory {
    Config,
    Diagnostic,
}

impl Default for EntityCategory {
    fn default() -> (r: Self)
        ensures
            r is Diagnostic,
    {
        EntityCategory::Diagnostic
    }
}

/// The descriptor message: advertises a point's metadata so that an observing
/// system can auto-configure a consumer for it.
#[derive(Debug, Clone)]
pub struct HAConfigPayload {
    pub name: String,
    pub device: DeviceInfo,
    pub unique_id: String,
    pub entity_id: String,
    pub state_topic: String,
    pub expires_after: u64,
    pub entity_category: Option<EntityCategory>,
    pub command_topic: Option<String>,
    pub payload_on: Option<String>,
    pub payload_off: Option<String>,
    pub state_class: Option<String>,
    pub device_class: Option<String>,
    pub native_uom: Option<String>,
    pub options: Option<Vec<String>>,
    pub value_template: Option<String>,
    pub suggested_display_precision: Option<u8>,
    pub assumed_state: Option<bool>,
    pub attribution: Option<String>,
    pub available: Option<bool>,
    pub entity_picture: Option<String>,
    pub extra_state_attributes: Option<HashMap<String, String>>,
    pub has_entity_name: Option<bool>,
    pub should_poll: Option<bool>,
    pub translation_key: Option<String>,
    pub payload_press: Option<String>,
    pub min: Option<i32>,
    pub max: Option<i32>,
    pub mode: Option<String>,
    pub step: Option<i32>,
}

impl Default for HAConfigPayload {
    fn default() -> (r: Self)
        ensures
            r.name@.len() == 0,
            r.unique_id@.len() == 0,
            r.entity_id@.len() == 0,
            r.state_topic@.len() == 0,
            r.expires_after == 0,
            r.entity_category is None,
            r.command_topic is None,
            r.payload_on is None,
            r.payload_off is None,
            r.state_class is None,
            r.device_class is None,
            r.native_uom is None,
            r.options is None,
            r.value_template is None,
            r.suggested_display_precision is None,
            r.assumed_state is None,
            r.attribution is None,
            r.available is None,
            r.entity_picture is None,
            r.extra_state_attributes is None,
            r.has_entity_name is None,
            r.should_poll is None,
            r.translation_key is None,
            r.payload_press is None,
            r.min is None,
            r.max is None,
            r.mode is None,
            r.step is None,
    {
        HAConfigPayload {
            name: String::new(),
            device: DeviceInfo::default(),
            unique_id: String::new(),
            entity_id: String::new(),
            state_topic: String::new(),
            expires_after: 0,
            entity_category: None,
            command_topic: None,
            payload_on: None,
            payload_off: None,
            state_class: None,
            device_class: None,
            native_uom: None,
            options: None,
            value_template: None,
            suggested_display_precision: None,
            assumed_state: None,
            attribution: None,
            available: None,
            entity_picture: None,
            extra_state_attributes: None,
            has_entity_name: None,
            should_poll: None,
            translation_key: None,
            payload_press: None,
            min: None,
            max: None,
            mode: None,
            step: None,
        }
    }
}

/// Relies on chrono's `From<SystemTime>` conversion, which handles a clock
/// standing before the Unix epoch without failing, and on
/// `DateTime::timestamp_millis`, which is plain arithmetic.  The clock is
/// outside the program, so nothing is promised of the value.
#[verifier::external_body]
fn now_millis() -> i64 {
    chrono::DateTime::<chrono::Utc>::from(std::time::SystemTime::now()).timestamp_millis()
}

/// The state message: a point's current decoded value and the time it was
/// observed, in milliseconds since the Unix epoch.
#[derive(Debug, Clone)]
pub struct StatePayload {
    pub value: PayloadValueType,
    pub label: Option<String>,
    pub description: Option<String>,
    pub notes: Option<String>,
    pub last_seen: i64,
}

impl Default for StatePayload {
    fn default() -> (r: Self)
        ensures
            r.value is Empty,
            r.label is None,
            r.description is None,
            r.notes is None,
    {
        StatePayload {
            value: PayloadValueType::Empty,
            last_seen: now_millis(),
            description: None,
            label: None,
            notes: None,
        }
    }
}

/// One descriptor message and one state message, each with its topic.
#[derive(Debug, Clone)]
pub struct CompoundPayload {
    pub config: HAConfigPayload,
    pub config_topic: String,
    pub state: StatePayload,
    pub state_topic: String,
}

/// The descriptor topic: a discovery-namespace path keyed by serial number
/// and point name.
pub open spec fn spec_config_topic(sn: Seq<char>, name: Seq<char>) -> Seq<char> {
    "homeassistant/sensor/"@ + sn + "/"@ + name + "/config"@
}

/// The state topic: a flat namespace path keyed by serial number and point
/// name.
pub open spec fn spec_state_topic(sn: Seq<char>, name: Seq<char>) -> Seq<char> {
    "growatt/"@ + sn + "/"@ + name
}

/// The stable unique id of a point: manufacturer, model, serial number and
/// point name, joined by underscores.
pub open spec fn spec_unique_id(
    manufacturer: Seq<char>,
    model: Seq<char>,
    sn: Seq<char>,
    name: Seq<char>,
) -> Seq<char> {
    manufacturer + "_"@ + model + "_"@ + sn + "_"@ + name
}

fn make_config_topic(sn: &String, name: &String) -> (t: String)
    ensures
        t@ == spec_config_topic(sn@, name@),
{
    let mut t = String::from_str("homeassistant/sensor/");
    t.append(sn.as_str());
    t.append("/");
    t.append(name.as_str());
    t.append("/config");
    proof {
        assert(t@ =~= spec_config_topic(sn@, name@));
    }
    t
}

fn make_state_topic(sn: &String, name: &String) -> (t: String)
    ensures
        t@ == spec_state_topic(sn@, name@),
{
    let mut t = String::from_str("growatt/");
    t.append(sn.as_str());
    t.append("/");
    t.append(name.as_str());
    proof {
        assert(t@ =~= spec_state_topic(sn@, name@));
    }
    t
}

fn make_unique_id(manufacturer: &String, model: &String, sn: &String, name: &String) -> (t: String)
    ensures
        t@ == spec_unique_id(manufacturer@, model@, sn@, name@),
{
    let mut t = manufacturer.clone();
    t.append("_");
    t.append(model.as_str());
    t.append("_");
    t.append(sn.as_str());
    t.append("_");
    t.append(name.as_str());
    proof {
        assert(t@ =~= spec_unique_id(manufacturer@, model@, sn@, name@));
    }
    t
}

/// What joining string elements with a separator yields.
pub open spec fn spec_join(elems: Seq<Seq<char>>, sep: Seq<char>) -> Seq<char>
    decreases elems.len(),
{
    if elems.len() == 0 {
        Seq::empty()
    } else if elems.len() == 1 {
        elems[0]
    } else {
        spec_join(elems.drop_last(), sep) + sep + elems.last()
    }
}

fn join_strings(v: &Vec<String>, sep: &str) -> (r: String)
    ensures
        r@ == spec_join(v.deep_view(), sep@),
{
    let mut r = String::new();
    let mut i: usize = 0;
    while i < v.len()
        invariant
            i <= v.len(),
            r@ == spec_join(v.deep_view().subrange(0, i as int), sep@),
        decreases v.len() - i,
    {
        if i > 0 {
            r.append(sep);
        }
        r.append(v[i].as_str());
        proof {
            let dv = v.deep_view();
            assert(dv.subrange(0, i as int + 1).drop_last() =~= dv.subrange(0, i as int));
            assert(r@ =~= spec_join(dv.subrange(0, i as int + 1), sep@));
        }
        i += 1;
    }
    proof {
        assert(v.deep_view().subrange(0, v.deep_view().len() as int) =~= v.deep_view());
    }
    r
}

/// How a decoded value appears in the state message's value slot.
pub open spec fn state_value_matches(val: ValueType, p: PayloadValueType) -> bool {
    match val {
        ValueType::String(s) => p matches PayloadValueType::String(q) && q@ == s@,
        ValueType::Integer(i) => p matches PayloadValueType::Int(j) && j == i,
        ValueType::Float(d) => p matches PayloadValueType::Float(e) && e == d,
        ValueType::Boolean(b) => p matches PayloadValueType::Boolean(c) && c == b,
        ValueType::Array(v) => p matches PayloadValueType::String(q) && q@ == spec_join(
            v.deep_view(),
            ","@,
        ),
        ValueType::Pad => p is Empty,
    }
}

/// Everything the generator promises of one compound payload, given the
/// device, the serial number, the point and the decoded value.
pub open spec fn compound_ok(
    c: CompoundPayload,
    device: DeviceInfo,
    sn: Seq<char>,
    p: Point,
    val: ValueType,
) -> bool {
    &&& c.config_topic@ == spec_config_topic(sn, p.name@)
    &&& c.state_topic@ == spec_state_topic(sn, p.name@)
    &&& c.config.state_topic@ == spec_state_topic(sn, p.name@)
    &&& c.config.unique_id@ == spec_unique_id(device.manufacturer@, device.model@, sn, p.name@)
    &&& c.config.name@ == p.name@
    &&& device_view(c.config.device) == device_view(device)
    &&& c.config.device_class matches Some(d) && d@ == p.device_class@
    &&& c.config.state_class matches Some(s) && s@ == p.state_class@
    &&& c.config.suggested_display_precision == Some((p.precision % 256) as u8)
    &&& c.config.expires_after == EXPIRES_AFTER_SECONDS
    &&& c.config.value_template matches Some(t) && t@ == "{{ value_json.value }}"@
    &&& (c.config.native_uom is Some <==> val is Float)
    &&& (c.config.native_uom matches Some(u) ==> u@ == p.uom@)
    &&& state_value_matches(val, c.state.value)
    &&& c.state.label is None
    &&& c.state.description is None
    &&& c.state.notes is None
    &&& c.config.entity_id@.len() == 0
    &&& c.config.entity_category is None
    &&& c.config.command_topic is None
    &&& c.config.payload_on is None
    &&& c.config.payload_off is None
    &&& c.config.options is None
    &&& c.config.assumed_state is None
    &&& c.config.attribution is None
    &&& c.config.available is None
    &&& c.config.entity_picture is None
    &&& c.config.extra_state_attributes is None
    &&& c.config.has_entity_name is None
    &&& c.config.should_poll is None
    &&& c.config.translation_key is None
    &&& c.config.payload_press is None
    &&& c.config.min is None
    &&& c.config.max is None
    &&& c.config.mode is None
    &&& c.config.step is None
}

/// Build the descriptor and state messages for one decoded value.  Total:
/// every value variant, the padding variant included, yields exactly one
/// well-formed compound payload, and the topics are deterministic functions
/// of the serial number and the point name.
pub fn generate_payloads(device: &DeviceInfo, sn: String, p: &Point, val: ValueType) -> (r: Vec<
    CompoundPayload,
>)
    ensures
        r@.len() == 1,
        compound_ok(r@[0], *device, sn@, *p, val),
{
    let mut config_payload: HAConfigPayload = HAConfigPayload::default();
    let mut state_payload: StatePayload = StatePayload::default();

    config_payload.unique_id = make_unique_id(&device.manufacturer, &device.model, &sn, &p.name);
    config_payload.device = device.clone();
    config_payload.name = p.name.clone();
    config_payload.device_class = Some(p.device_class.clone());
    config_payload.state_class = Some(p.state_class.clone());
    config_payload.suggested_display_precision = Some((p.precision % 256) as u8);
    config_payload.expires_after = EXPIRES_AFTER_SECONDS;
    config_payload.value_template = Some(String::from_str("{{ value_json.value }}"));
    match val {
        ValueType::String(str_v) => {
            state_payload.value = PayloadValueType::String(str_v);
        },
        ValueType::Integer(int_v) => {
            state_payload.value = PayloadValueType::Int(int_v);
        },
        ValueType::Float(dec) => {
            state_payload.value = PayloadValueType::Float(dec);
            config_payload.native_uom = Some(p.uom.clone());
        },
        ValueType::Boolean(bool_v) => {
            state_payload.value = PayloadValueType::Boolean(bool_v);
        },
        ValueType::Array(arr) => {
            state_payload.value = PayloadValueType::String(join_strings(&arr, ","));
        },
        ValueType::Pad => {},
    }

    let config_topic = make_config_topic(&sn, &p.name);
    let state_topic = make_state_topic(&sn, &p.name);

    config_payload.state_topic = state_topic.clone();

    let resp = CompoundPayload {
        config: config_payload,
        state: state_payload,
        config_topic,
        state_topic,
    };
    let mut out: Vec<CompoundPayload> = Vec::new();
    out.push(resp);
    out
}

} // verus!
