use triangle::instance::{instance_settings, surface_created_message, DisplayKind, InstanceError, VALIDATION_LAYER};

#[test]
fn instance_for_named_app() {
    let settings = instance_settings("Vulkan App: Triangle", 4, true).unwrap();
    assert_eq!(settings.application_name, "Vulkan App: Triangle");
    assert_eq!(settings.engine_name, "Vulkan App: Triangle");
    assert_eq!(settings.application_version, 0);
    assert_eq!(settings.engine_version, 0);
    assert_eq!(settings.api_version, ash::vk::make_api_version(0, 1, 4, 0));
    assert_eq!(settings.enabled_layers, vec![VALIDATION_LAYER]);
}

#[test]
fn release_instance_has_no_layers() {
    let settings = instance_settings("x", 3, false).unwrap();
    assert!(settings.enabled_layers.is_empty());
    assert_eq!(settings.api_version, ash::vk::API_VERSION_1_3);
}

#[test]
fn nul_in_name_is_refused() {
    assert_eq!(instance_settings("bad\0name", 4, true), Err(InstanceError::NulInAppName));
    assert_eq!(instance_settings("\0", 4, false), Err(InstanceError::NulInAppName));
    assert!(instance_settings("", 4, false).is_ok());
}

#[test]
fn surface_messages() {
    assert_eq!(surface_created_message(DisplayKind::Windows), "Created Vulkan surface for Windows.");
    assert_eq!(surface_created_message(DisplayKind::Wayland), "Created Vulkan surface for Wayland.");
    assert_eq!(surface_created_message(DisplayKind::Xlib), "Created Vulkan surface for Xlib.");
    assert_eq!(surface_created_message(DisplayKind::Xcb), "Created Vulkan surface for XCB.");
    assert_eq!(surface_created_message(DisplayKind::Android), "Created Vulkan surface for Android.");
    assert_eq!(surface_created_message(DisplayKind::Other), "Created Vulkan surface for unknown display handle.");
}
