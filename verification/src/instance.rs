//! The Vulkan instance and the window surface.
use vstd::prelude::*;
use vstd::string::StringSliceAdditionalSpecFns;
use crate::version::{instance_api_version, spec_api_version};

verus! {

/// The Khronos validation layer, enabled in debug builds.
pub const VALIDATION_LAYER: &'static str = "VK_LAYER_KHRONOS_validation";

/// What the renderer puts into its `vk::ApplicationInfo` and
/// `vk::InstanceCreateInfo`, apart from the extensions that the window
/// system requires.
#[derive(Clone, Debug, PartialEq, Eq)]
pub struct InstanceSettings {
    pub application_name: String,
    pub application_version: u32,
    pub engine_name: String,
    pub engine_version: u32,
    pub api_version: u32,
    pub enabled_layers: Vec<&'static str>,
}

/// Why the instance cannot be described.
#[derive(Clone, Copy, Debug, PartialEq, Eq, Structural)]
pub enum InstanceError {
    /// The application name holds a NUL byte, so it is no C string.
    NulInAppName,
}

/// The instance for the application `app_name`: the name serves as both
/// application and engine name, both versions are 0, the API version is
/// 1.`api_minor`.0, and the validation layer is enabled when `validation`
/// holds.  The name must become a C string, so it may not hold a NUL byte.
pub fn instance_settings(app_name: &str, api_minor: u32, validation: bool) -> (res: Result<InstanceSettings, InstanceError>)
    ensures
        res is Err <==> app_name.spec_bytes().contains(0u8),
        res matches Err(e) ==> e == InstanceError::NulInAppName,
        res matches Ok(s) ==> {
            &&& s.application_name@ == app_name@
            &&& s.engine_name@ == app_name@
            &&& s.application_version == 0
            &&& s.engine_version == 0
            &&& s.api_version == spec_api_version(0, 1, api_minor, 0)
            &&& validation ==> s.enabled_layers@.len() == 1 && s.enabled_layers@[0]@ == VALIDATION_LAYER@
            &&& !validation ==> s.enabled_layers@.len() == 0
        },
{
    let bytes = app_name.as_bytes();
    let mut i: usize = 0;
    while i < bytes.len()
        invariant
            0 <= i <= bytes@.len(),
            bytes@ == app_name.spec_bytes(),
            forall|j: int| 0 <= j < i ==> bytes@[j] != 0u8,
        decreases bytes@.len() - i,
    {
        if bytes[i] == 0u8 {
            assert(app_name.spec_bytes()[i as int] == 0u8);
            return Err(InstanceError::NulInAppName);
        }
        i += 1;
    }
    assert(!app_name.spec_bytes().contains(0u8));
    let mut enabled_layers: Vec<&'static str> = Vec::new();
    if validation {
        enabled_layers.push(VALIDATION_LAYER);
    }
    Ok(InstanceSettings {
        application_name: app_name.to_owned(),
        application_version: 0,
        engine_name: app_name.to_owned(),
        engine_version: 0,
        api_version: instance_api_version(api_minor),
        enabled_layers,
    })
}

/// The kind of window system that a display handle belongs to.
#[derive(Clone, Copy, Debug, PartialEq, Eq, Structural)]
pub enum DisplayKind {
    Windows,
    Wayland,
    Xlib,
    Xcb,
    Android,
    Other,
}

/// The line that the renderer prints once it created the window surface.
pub fn surface_created_message(kind: DisplayKind) -> (message: &'static str)
    ensures
        message@ == (match kind {
            DisplayKind::Windows => "Created Vulkan surface for Windows."@,
            DisplayKind::Wayland => "Created Vulkan surface for Wayland."@,
            DisplayKind::Xlib => "Created Vulkan surface for Xlib."@,
            DisplayKind::Xcb => "Created Vulkan surface for XCB."@,
            DisplayKind::Android => "Created Vulkan surface for Android."@,
            DisplayKind::Other => "Created Vulkan surface for unknown display handle."@,
        }),
{
    match kind {
        DisplayKind::Windows => "Created Vulkan surface for Windows.",
        DisplayKind::Wayland => "Created Vulkan surface for Wayland.",
        DisplayKind::Xlib => "Created Vulkan surface for Xlib.",
        DisplayKind::Xcb => "Created Vulkan surface for XCB.",
        DisplayKind::Android => "Created Vulkan surface for Android.",
        DisplayKind::Other => "Created Vulkan surface for unknown display handle.",
    }
}

} // verus!
