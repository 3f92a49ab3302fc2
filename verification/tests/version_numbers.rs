use triangle::version::{instance_api_version, version_parts};

#[test]
fn instance_asks_for_vulkan_1_4() {
    let v = instance_api_version(4);
    assert_eq!(v, (1 << 22) | (4 << 12));
    assert_eq!(v, 4_210_688);
    assert_eq!(v, ash::vk::make_api_version(0, 1, 4, 0));
}

#[test]
fn instance_version_matches_ash_constants() {
    assert_eq!(instance_api_version(0), ash::vk::API_VERSION_1_0);
    assert_eq!(instance_api_version(3), ash::vk::API_VERSION_1_3);
}

#[test]
fn version_parts_unpack() {
    assert_eq!(version_parts(4_210_688), (1, 4, 0));
    assert_eq!(version_parts(ash::vk::make_api_version(0, 1, 3, 281)), (1, 3, 281));
    // The variant bits do not leak into the major number.
    assert_eq!(version_parts(ash::vk::make_api_version(7, 127, 1023, 4095)), (127, 1023, 4095));
    assert_eq!(version_parts(0), (0, 0, 0));
}

#[test]
fn version_roundtrip_on_concrete_values() {
    for minor in [0u32, 1, 2, 3, 4, 1023] {
        assert_eq!(version_parts(instance_api_version(minor)), (1, minor, 0));
    }
}
