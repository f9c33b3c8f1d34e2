use sufat::negotiation::{
    contains_name, debug_utils_extension_name, make_api_version, missing_names, negotiate,
    required_extensions, required_layers, resolve_api_version, validation_layer_name,
};
use sufat::render_context::{decide_outcome, RenderContextError};

fn names(list: &[&str]) -> Vec<String> {
    list.iter().map(|n| n.to_string()).collect()
}

#[test]
fn missing_list_is_exact_subtraction() {
    let required = names(&["X", "Y"]);
    let available = names(&["X"]);
    let missing = missing_names(&required, &available);
    assert_eq!(missing, names(&["Y"]));
}

#[test]
fn missing_list_preserves_required_order() {
    let required = names(&["A", "B", "C", "D"]);
    let available = names(&["C", "A"]);
    let missing = missing_names(&required, &available);
    assert_eq!(missing, names(&["B", "D"]));
}

#[test]
fn nothing_missing_when_all_available() {
    let required = names(&["A", "B"]);
    let available = names(&["B", "A", "Z"]);
    let missing = missing_names(&required, &available);
    assert!(missing.is_empty());
}

#[test]
fn name_match_is_exact_and_case_sensitive() {
    let available = names(&["VK_KHR_surface"]);
    assert!(contains_name(&available, &"VK_KHR_surface".to_string()));
    assert!(!contains_name(&available, &"vk_khr_surface".to_string()));
    assert!(!contains_name(&available, &"VK_KHR_surf".to_string()));
}

#[test]
fn outcome_table_all_four_combinations() {
    assert_eq!(
        decide_outcome(true, true),
        Some(RenderContextError::MissingExtensionAndLayer)
    );
    assert_eq!(decide_outcome(false, true), Some(RenderContextError::MissingLayer));
    assert_eq!(decide_outcome(true, false), Some(RenderContextError::MissingExtension));
    assert_eq!(decide_outcome(false, false), None);
}

#[test]
fn scenario_missing_extension() {
    let available_extensions = names(&["X", "VK_EXT_debug_utils"]);
    let available_layers = names(&["VK_LAYER_KHRONOS_validation"]);
    let outcome = negotiate(
        None,
        names(&["X", "Y"]),
        &available_extensions,
        &available_layers,
    );
    let failure = outcome.err().unwrap();
    assert_eq!(failure.error, RenderContextError::MissingExtension);
    assert_eq!(failure.missing_extensions, names(&["Y"]));
    assert!(failure.missing_layers.is_empty());
}

#[test]
fn scenario_missing_layer() {
    let available_extensions = names(&["X", "VK_EXT_debug_utils"]);
    let available_layers = names(&[]);
    let outcome = negotiate(Some(7), names(&["X"]), &available_extensions, &available_layers);
    let failure = outcome.err().unwrap();
    assert_eq!(failure.error, RenderContextError::MissingLayer);
    assert!(failure.missing_extensions.is_empty());
    assert_eq!(failure.missing_layers, names(&["VK_LAYER_KHRONOS_validation"]));
}

#[test]
fn scenario_missing_extension_and_layer() {
    let available_extensions = names(&["X", "VK_EXT_debug_utils"]);
    let available_layers = names(&["some_other_layer"]);
    let outcome = negotiate(
        None,
        names(&["X", "Y"]),
        &available_extensions,
        &available_layers,
    );
    let failure = outcome.err().unwrap();
    assert_eq!(failure.error, RenderContextError::MissingExtensionAndLayer);
    assert_eq!(failure.missing_extensions, names(&["Y"]));
    assert_eq!(failure.missing_layers, names(&["VK_LAYER_KHRONOS_validation"]));
}

#[test]
fn scenario_success_requests_full_sets() {
    let available_extensions = names(&["VK_KHR_surface", "VK_EXT_debug_utils", "unrelated"]);
    let available_layers = names(&["VK_LAYER_KHRONOS_validation"]);
    let request = negotiate(
        None,
        names(&["VK_KHR_surface"]),
        &available_extensions,
        &available_layers,
    )
    .ok()
    .unwrap();
    assert_eq!(request.api_version, ash::vk::API_VERSION_1_0);
    assert_eq!(request.application_name, "sufat");
    assert_eq!(request.application_version, 0);
    assert_eq!(request.engine_name, "Rageware");
    assert_eq!(request.engine_version, 0);
    assert_eq!(
        request.enabled_extensions,
        names(&["VK_KHR_surface", "VK_EXT_debug_utils"])
    );
    assert_eq!(request.enabled_layers, names(&["VK_LAYER_KHRONOS_validation"]));
}

#[test]
fn required_extensions_appends_diagnostics_extension() {
    let required = required_extensions(names(&["VK_KHR_surface", "VK_KHR_xlib_surface"]));
    assert_eq!(
        required,
        names(&["VK_KHR_surface", "VK_KHR_xlib_surface", "VK_EXT_debug_utils"])
    );
}

#[test]
fn required_layers_is_exactly_the_validation_layer() {
    assert_eq!(required_layers(), names(&["VK_LAYER_KHRONOS_validation"]));
}

#[test]
fn extension_and_layer_names_match_the_native_binding() {
    let native_extension = ash::extensions::ext::DebugUtils::name().to_str().unwrap();
    assert_eq!(debug_utils_extension_name(), native_extension);
    assert_eq!(validation_layer_name(), "VK_LAYER_KHRONOS_validation");
}

#[test]
fn api_version_packs_fields_like_the_native_binding() {
    assert_eq!(make_api_version(0, 1, 2, 3), ash::vk::make_api_version(0, 1, 2, 3));
    assert_eq!(make_api_version(0, 1, 0, 0), ash::vk::API_VERSION_1_0);
    assert_eq!(make_api_version(0, 1, 2, 3), 4202499);
}

#[test]
fn reported_version_is_used_and_fallback_is_the_floor() {
    assert_eq!(resolve_api_version(Some(12345)), 12345);
    assert_eq!(resolve_api_version(None), ash::vk::API_VERSION_1_0);
}
