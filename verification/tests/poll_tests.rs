use growatt_bridge::payload::PayloadValueType;
use growatt_bridge::poll::{build_device_info, pass_payloads, point_payloads};
use growatt_bridge::structs::{Config, GrowattModel, Locator, LocatorType, Point};

fn point(address: u16, name: &str, scale_factor: i16, length: usize) -> Point {
    Point {
        address,
        name: name.to_string(),
        scale_factor,
        length,
        uom: "V".to_string(),
        device_class: "voltage".to_string(),
        state_class: "measurement".to_string(),
        precision: 1,
    }
}

fn model(points: Vec<Point>) -> GrowattModel {
    GrowattModel(Config {
        manufacturer: "Growatt".to_string(),
        model: "SPF3000TL".to_string(),
        serial_number: Locator { format: LocatorType::String, address: 23, length: 5 },
        firmware_version: Locator { format: LocatorType::String, address: 9, length: 3 },
        points,
    })
}

#[test]
fn device_info_is_assembled_from_model_and_reads() {
    let m = model(vec![]);
    let d = build_device_info(&m, &"SER123".to_string(), &"1.07".to_string());
    assert_eq!(d.manufacturer, "Growatt");
    assert_eq!(d.model, "SPF3000TL");
    assert_eq!(d.name, "SPF3000TL");
    assert_eq!(d.sw_version, "1.07");
    assert_eq!(d.identifiers, vec!["SER123".to_string()]);
}

#[test]
fn one_payload_pair_per_register_word() {
    let m = model(vec![]);
    let d = build_device_info(&m, &"S".to_string(), &"f".to_string());
    let p = point(0x19, "pv_voltage", -1, 2);
    let words: Vec<u16> = vec![0x00C8, 0x0001];
    let out = point_payloads(&d, &"S".to_string(), &p, &words);
    assert_eq!(out.len(), 2);
    assert!(
        matches!(&out[0].state.value, PayloadValueType::Float(f) if f.mantissa == 200 && f.exponent == -1)
    );
    assert!(
        matches!(&out[1].state.value, PayloadValueType::Float(f) if f.mantissa == 1 && f.exponent == -1)
    );
}

#[test]
fn pass_keeps_declaration_order() {
    // points A, B, C must come out in order A, B, C, never interleaved
    let points = vec![point(1, "a", 0, 1), point(2, "b", 0, 1), point(3, "c", 0, 2)];
    let m = model(points.clone());
    let d = build_device_info(&m, &"S".to_string(), &"f".to_string());
    let responses: Vec<Vec<u16>> = vec![vec![10], vec![20], vec![30, 31]];
    let out = pass_payloads(&d, &"S".to_string(), &points, &responses);
    let topics: Vec<&str> = out.iter().map(|c| c.state_topic.as_str()).collect();
    assert_eq!(
        topics,
        vec!["growatt/S/a", "growatt/S/b", "growatt/S/c", "growatt/S/c"]
    );
    assert!(
        matches!(&out[2].state.value, PayloadValueType::Float(f) if f.mantissa == 30)
    );
    assert!(
        matches!(&out[3].state.value, PayloadValueType::Float(f) if f.mantissa == 31)
    );
}

#[test]
fn empty_model_yields_empty_pass() {
    let m = model(vec![]);
    let d = build_device_info(&m, &"S".to_string(), &"f".to_string());
    let out = pass_payloads(&d, &"S".to_string(), &vec![], &vec![]);
    assert!(out.is_empty());
}
