use deck8_hub::audio::devices::{find_device, list_devices, readable_devices, resolve_devices, DevicePair};
use deck8_hub::audio::error::AudioError;
use deck8_hub::audio::slot::PipelineSlot;

fn names(list: &[Option<&str>]) -> Vec<Option<String>> {
    list.iter().map(|n| n.map(|s| s.to_string())).collect()
}

#[test]
fn unreadable_devices_are_left_out() {
    let reported = names(&[Some("Mic"), None, Some("Line In"), None]);
    let devices = readable_devices(&reported);
    let got: Vec<&str> = devices.iter().map(|d| d.name.as_str()).collect();
    assert_eq!(got, vec!["Mic", "Line In"]);
    assert!(readable_devices(&names(&[])).is_empty());
    assert!(readable_devices(&names(&[None])).is_empty());
}

#[test]
fn list_devices_names_inputs_and_outputs() {
    let list = list_devices(&names(&[Some("Mic")]), &names(&[None, Some("CABLE Input"), Some("Speakers")]));
    assert_eq!(list.input_devices.len(), 1);
    assert_eq!(list.input_devices[0].name, "Mic");
    assert_eq!(list.output_devices.len(), 2);
    assert_eq!(list.output_devices[0].name, "CABLE Input");
    assert_eq!(list.output_devices[1].name, "Speakers");
    let copy = list.input_devices[0].clone();
    assert_eq!(copy.name, "Mic");
}

#[test]
fn find_device_takes_the_first_match() {
    let reported = names(&[Some("A"), None, Some("B"), Some("A")]);
    assert_eq!(find_device(&reported, &"A".to_string()), Some(0));
    assert_eq!(find_device(&reported, &"B".to_string()), Some(2));
    assert_eq!(find_device(&reported, &"C".to_string()), None);
    assert_eq!(find_device(&reported, &"".to_string()), None);
    assert_eq!(find_device(&names(&[]), &"A".to_string()), None);
}

#[test]
fn unknown_devices_are_not_found() {
    let inputs = names(&[Some("Mic")]);
    let outputs = names(&[Some("Speakers"), Some("CABLE Input")]);
    assert_eq!(
        resolve_devices(&inputs, &outputs, &"Mic".to_string(), &"CABLE Input".to_string()),
        Ok(DevicePair { input: 0, output: 1 })
    );
    assert_eq!(
        resolve_devices(&inputs, &outputs, &"Webcam".to_string(), &"CABLE Input".to_string()),
        Err(AudioError::DeviceNotFound)
    );
    assert_eq!(
        resolve_devices(&inputs, &outputs, &"Mic".to_string(), &"Headset".to_string()),
        Err(AudioError::DeviceNotFound)
    );
    assert_eq!(
        resolve_devices(&inputs, &outputs, &"mic".to_string(), &"Speakers".to_string()),
        Err(AudioError::DeviceNotFound)
    );
}

#[test]
fn slot_starts_empty() {
    let slot: PipelineSlot<u32> = PipelineSlot::new();
    assert!(!slot.is_active());
    assert_eq!(slot.active(), None);
}

#[test]
fn second_start_tears_the_first_pipeline_down_first() {
    let mut slot: PipelineSlot<&str> = PipelineSlot::new();
    assert_eq!(slot.stop(), None);
    assert_eq!(slot.install("first"), None);
    assert!(slot.is_active());
    assert_eq!(slot.active(), Some(&"first"));
    let released = slot.stop();
    assert_eq!(released, Some("first"));
    assert!(!slot.is_active());
    assert_eq!(slot.install("second"), None);
    assert_eq!(slot.active(), Some(&"second"));
}

#[test]
fn install_never_keeps_two_pipelines() {
    let mut slot: PipelineSlot<&str> = PipelineSlot::new();
    slot.install("first");
    assert_eq!(slot.install("second"), Some("first"));
    assert_eq!(slot.active(), Some(&"second"));
    assert_eq!(slot.stop(), Some("second"));
    assert_eq!(slot.stop(), None);
}
