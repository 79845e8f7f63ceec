use mutil::device::{filter_devices, find_device, Device, DeviceDirection};

fn dev(id: i32, name: &str, direction: DeviceDirection) -> Device {
    Device { id, name: name.to_string(), direction }
}

fn sample() -> Vec<Device> {
    vec![
        dev(0, "Midi Through In", DeviceDirection::Input),
        dev(1, "Midi Through Out", DeviceDirection::Output),
        dev(2, "Keys", DeviceDirection::Input),
        dev(3, "Synth", DeviceDirection::Output),
    ]
}

fn ids(devices: &[Device]) -> Vec<i32> {
    devices.iter().map(|d| d.id).collect()
}

#[test]
fn filter_none_keeps_all() {
    let r = filter_devices(sample(), None);
    assert_eq!(ids(&r), vec![0, 1, 2, 3]);
    assert_eq!(r[2].name, "Keys");
}

#[test]
fn filter_inputs() {
    let r = filter_devices(sample(), Some(DeviceDirection::Input));
    assert_eq!(ids(&r), vec![0, 2]);
    assert!(r.iter().all(|d| d.direction == DeviceDirection::Input));
}

#[test]
fn filter_outputs() {
    let r = filter_devices(sample(), Some(DeviceDirection::Output));
    assert_eq!(ids(&r), vec![1, 3]);
    assert_eq!(r[1].name, "Synth");
}

#[test]
fn filter_empty_list() {
    let r = filter_devices(Vec::new(), Some(DeviceDirection::Input));
    assert!(r.is_empty());
}

#[test]
fn filter_no_match() {
    let only_inputs = vec![dev(4, "Pad", DeviceDirection::Input)];
    let r = filter_devices(only_inputs, Some(DeviceDirection::Output));
    assert!(r.is_empty());
}

#[test]
fn find_existing_device() {
    assert_eq!(find_device(&sample(), 2), Some(2));
}

#[test]
fn find_first_of_equal_ids() {
    let list = vec![
        dev(7, "a", DeviceDirection::Output),
        dev(5, "b", DeviceDirection::Input),
        dev(5, "c", DeviceDirection::Output),
    ];
    assert_eq!(find_device(&list, 5), Some(1));
}

#[test]
fn find_missing_device() {
    assert_eq!(find_device(&sample(), 9), None);
    assert_eq!(find_device(&Vec::new(), 0), None);
}
