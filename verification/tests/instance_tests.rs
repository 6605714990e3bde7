use gpu_bootstrap::error::BootstrapError;
use gpu_bootstrap::instance::{
    check_validation_layer, debug_callback_policy, instance_extensions, Category, Severity,
};

#[test]
fn validation_off_needs_no_layer() {
    let none: Vec<String> = Vec::new();
    assert!(check_validation_layer(&none, false).is_ok());
}

#[test]
fn present_layer_passes_the_check() {
    let layers = vec![
        "VK_LAYER_LUNARG_api_dump".to_string(),
        "VK_LAYER_KHRONOS_validation".to_string(),
    ];
    assert!(check_validation_layer(&layers, true).is_ok());
}

#[test]
fn missing_layer_is_a_named_configuration_error() {
    let layers = vec!["VK_LAYER_LUNARG_api_dump".to_string()];
    match check_validation_layer(&layers, true) {
        Err(BootstrapError::MissingLayer(l)) => {
            assert_eq!(l, "VK_LAYER_KHRONOS_validation")
        },
        _ => panic!("expected the missing layer to be named"),
    }
}

#[test]
fn extension_list_follows_the_two_toggles() {
    let platform = vec!["VK_KHR_surface".to_string(), "VK_KHR_xlib_surface".to_string()];
    assert_eq!(instance_extensions(&platform, false, false), platform);
    assert_eq!(
        instance_extensions(&platform, true, false),
        vec![
            "VK_KHR_surface".to_string(),
            "VK_KHR_xlib_surface".to_string(),
            "VK_EXT_debug_utils".to_string(),
        ]
    );
    assert_eq!(
        instance_extensions(&platform, true, true),
        vec![
            "VK_KHR_surface".to_string(),
            "VK_KHR_xlib_surface".to_string(),
            "VK_EXT_debug_utils".to_string(),
            "VK_KHR_portability_enumeration".to_string(),
        ]
    );
}

#[test]
fn only_warnings_and_errors_are_logged_and_nothing_aborts() {
    for category in [Category::General, Category::Validation, Category::Performance] {
        assert!(!debug_callback_policy(Severity::Verbose, category).log);
        assert!(!debug_callback_policy(Severity::Info, category).log);
        assert!(debug_callback_policy(Severity::Warning, category).log);
        assert!(debug_callback_policy(Severity::Error, category).log);
        assert!(!debug_callback_policy(Severity::Error, category).abort_call);
        assert!(!debug_callback_policy(Severity::Verbose, category).abort_call);
    }
}
