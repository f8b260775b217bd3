use media_widget::volume::{VolumeEndpoint, VOLUME_SCALE};

#[test]
fn in_range_level_is_stored_unchanged() {
    let mut endpoint = VolumeEndpoint::new(0);
    endpoint.set_volume(250_000);
    assert_eq!(endpoint.get_volume(), 250_000);
    endpoint.set_volume(VOLUME_SCALE);
    assert_eq!(endpoint.get_volume() as i64, VOLUME_SCALE);
}

#[test]
fn out_of_range_level_is_clamped_not_rejected() {
    let mut endpoint = VolumeEndpoint::new(0);
    endpoint.set_volume(1_500_000);
    assert_eq!(endpoint.get_volume() as i64, VOLUME_SCALE);
    endpoint.set_volume(-5);
    assert_eq!(endpoint.get_volume(), 0);
}

#[test]
fn observed_endpoint_level_is_clamped_on_construction() {
    let endpoint = VolumeEndpoint::new(2_000_000);
    assert_eq!(endpoint.get_volume() as i64, VOLUME_SCALE);
    let silent = VolumeEndpoint::new(-1);
    assert_eq!(silent.get_volume(), 0);
}
