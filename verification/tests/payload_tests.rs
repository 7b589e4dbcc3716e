use growatt_bridge::decode::{decode, Decimal};
use growatt_bridge::payload::{
    generate_payloads, DeviceInfo, EntityCategory, HAConfigPayload, PayloadValueType,
    StatePayload, ValueType,
};
use growatt_bridge::structs::Point;

fn sample_device() -> DeviceInfo {
    DeviceInfo {
        identifiers: vec!["SER123".to_string()],
        manufacturer: "Growatt".to_string(),
        name: "SPF3000TL".to_string(),
        model: "SPF3000TL".to_string(),
        sw_version: "1.07".to_string(),
    }
}

fn sample_point() -> Point {
    Point {
        address: 0x19,
        name: "pv_voltage".to_string(),
        scale_factor: -1,
        length: 1,
        uom: "V".to_string(),
        device_class: "voltage".to_string(),
        state_class: "measurement".to_string(),
        precision: 2,
    }
}

#[test]
fn end_to_end_pv_voltage() {
    // raw word 0x00C8 (200) at scale factor -1 decodes to 20.0 volts
    let device = sample_device();
    let point = sample_point();
    let d = decode(0x00C8, point.scale_factor);
    let value = d.mantissa as f64 * 10f64.powi(d.exponent as i32);
    assert_eq!(value, 20.0);

    let payloads = generate_payloads(&device, "SER123".to_string(), &point, ValueType::Float(d));
    assert_eq!(payloads.len(), 1);
    let c = &payloads[0];
    assert_eq!(c.config.native_uom.as_deref(), Some("V"));
    assert_eq!(c.config.expires_after, 300);
    match &c.state.value {
        PayloadValueType::Float(f) => {
            assert_eq!(*f, Decimal { mantissa: 200, exponent: -1 });
            assert_eq!(f.mantissa as f64 * 10f64.powi(f.exponent as i32), 20.0);
        }
        _ => panic!("expected a float state value"),
    }
}

#[test]
fn topics_are_deterministic() {
    let device = sample_device();
    let point = sample_point();
    let payloads =
        generate_payloads(&device, "SER123".to_string(), &point, ValueType::Integer(7));
    let c = &payloads[0];
    assert_eq!(c.config_topic, "homeassistant/sensor/SER123/pv_voltage/config");
    assert_eq!(c.state_topic, "growatt/SER123/pv_voltage");
    assert_eq!(c.config.state_topic, "growatt/SER123/pv_voltage");
    assert_eq!(c.config.unique_id, "Growatt_SPF3000TL_SER123_pv_voltage");
    assert_eq!(c.config.name, "pv_voltage");
    assert_eq!(c.config.value_template.as_deref(), Some("{{ value_json.value }}"));
    assert_eq!(c.config.suggested_display_precision, Some(2));
    assert_eq!(c.config.device_class.as_deref(), Some("voltage"));
    assert_eq!(c.config.state_class.as_deref(), Some("measurement"));
    assert_eq!(c.config.device.manufacturer, "Growatt");
    assert_eq!(c.config.device.identifiers, vec!["SER123".to_string()]);
}

#[test]
fn uom_only_for_floats() {
    let device = sample_device();
    let point = sample_point();
    let sn = "SER123".to_string();
    let with_float =
        generate_payloads(&device, sn.clone(), &point, ValueType::Float(decode(1, 0)));
    assert!(with_float[0].config.native_uom.is_some());
    for val in [
        ValueType::String("x".to_string()),
        ValueType::Integer(1),
        ValueType::Boolean(true),
        ValueType::Array(vec!["a".to_string()]),
        ValueType::Pad,
    ] {
        let p = generate_payloads(&device, sn.clone(), &point, val);
        assert_eq!(p.len(), 1);
        assert!(p[0].config.native_uom.is_none());
    }
}

#[test]
fn every_variant_produces_one_payload() {
    let device = sample_device();
    let point = sample_point();
    let sn = "SER123".to_string();

    let p = generate_payloads(&device, sn.clone(), &point, ValueType::String("hi".to_string()));
    assert!(matches!(&p[0].state.value, PayloadValueType::String(s) if s == "hi"));

    let p = generate_payloads(&device, sn.clone(), &point, ValueType::Integer(-5));
    assert!(matches!(p[0].state.value, PayloadValueType::Int(-5)));

    let p = generate_payloads(&device, sn.clone(), &point, ValueType::Boolean(false));
    assert!(matches!(p[0].state.value, PayloadValueType::Boolean(false)));

    let p = generate_payloads(
        &device,
        sn.clone(),
        &point,
        ValueType::Array(vec!["a".to_string(), "b".to_string(), "c".to_string()]),
    );
    assert!(matches!(&p[0].state.value, PayloadValueType::String(s) if s == "a,b,c"));

    let p = generate_payloads(&device, sn.clone(), &point, ValueType::Pad);
    assert_eq!(p.len(), 1);
    assert!(matches!(p[0].state.value, PayloadValueType::Empty));
    assert!(p[0].state.label.is_none());
    assert!(p[0].state.description.is_none());
    assert!(p[0].state.notes.is_none());
}

#[test]
fn array_join_edge_cases() {
    let device = sample_device();
    let point = sample_point();
    let p = generate_payloads(&device, "S".to_string(), &point, ValueType::Array(vec![]));
    assert!(matches!(&p[0].state.value, PayloadValueType::String(s) if s.is_empty()));
    let p = generate_payloads(
        &device,
        "S".to_string(),
        &point,
        ValueType::Array(vec!["only".to_string()]),
    );
    assert!(matches!(&p[0].state.value, PayloadValueType::String(s) if s == "only"));
}

#[test]
fn defaults_are_empty() {
    let state = StatePayload::default();
    assert!(matches!(state.value, PayloadValueType::Empty));
    assert!(state.label.is_none());

    let config = HAConfigPayload::default();
    assert_eq!(config.name, "");
    assert_eq!(config.expires_after, 0);
    assert!(config.native_uom.is_none());
    assert!(config.entity_category.is_none());

    let device = DeviceInfo::default();
    assert!(device.identifiers.is_empty());
    assert_eq!(device.manufacturer, "");

    assert!(matches!(EntityCategory::default(), EntityCategory::Diagnostic));
}
