use ash::vk::DebugUtilsMessageTypeFlagsEXT;
use sufat::debug_sink::{
    category_bits, route_all, route_message, run_self_test, self_test_messages, CategoryFlags,
    DebugMessage, LogLevel,
};
use sufat::severity::Severity;

fn message(severity: Severity) -> DebugMessage {
    DebugMessage {
        severity,
        categories: CategoryFlags { general: false, validation: true, performance: false },
        id_name: Some("VUID-check".to_string()),
        id_number: -42,
        text: "a diagnostic".to_string(),
    }
}

#[test]
fn each_severity_routes_to_the_matching_level() {
    assert_eq!(route_message(message(Severity::Error)).level, LogLevel::Error);
    assert_eq!(route_message(message(Severity::Warning)).level, LogLevel::Warn);
    assert_eq!(route_message(message(Severity::Info)).level, LogLevel::Info);
    assert_eq!(route_message(message(Severity::Verbose)).level, LogLevel::Trace);
}

#[test]
fn routing_preserves_every_field_verbatim() {
    let entry = route_message(message(Severity::Warning));
    assert_eq!(
        entry.categories,
        CategoryFlags { general: false, validation: true, performance: false }
    );
    assert_eq!(entry.id_name, Some("VUID-check".to_string()));
    assert_eq!(entry.id_number, -42);
    assert_eq!(entry.text, "a diagnostic");
}

#[test]
fn routing_keeps_a_missing_identifier_name() {
    let mut msg = message(Severity::Info);
    msg.id_name = None;
    let entry = route_message(msg);
    assert_eq!(entry.id_name, None);
}

#[test]
fn route_all_keeps_order_and_length() {
    let entries = route_all(vec![message(Severity::Verbose), message(Severity::Error)]);
    assert_eq!(entries.len(), 2);
    assert_eq!(entries[0].level, LogLevel::Trace);
    assert_eq!(entries[1].level, LogLevel::Error);
}

#[test]
fn self_test_submits_one_message_at_each_severity() {
    let messages = self_test_messages();
    assert_eq!(messages.len(), 4);
    assert_eq!(messages[0].severity, Severity::Error);
    assert_eq!(messages[1].severity, Severity::Warning);
    assert_eq!(messages[2].severity, Severity::Info);
    assert_eq!(messages[3].severity, Severity::Verbose);
    assert_eq!(
        messages[0].categories,
        CategoryFlags { general: true, validation: false, performance: false }
    );
    assert_eq!(
        messages[1].categories,
        CategoryFlags { general: false, validation: false, performance: true }
    );
    assert_eq!(
        messages[2].categories,
        CategoryFlags { general: false, validation: true, performance: false }
    );
    assert_eq!(
        messages[3].categories,
        CategoryFlags { general: true, validation: false, performance: false }
    );
    for msg in &messages {
        assert_eq!(msg.id_name, Some("testing".to_string()));
        assert_eq!(msg.id_number, 1);
        assert_eq!(msg.text, "test");
    }
}

#[test]
fn self_test_produces_exactly_four_routed_entries() {
    let entries = run_self_test();
    assert_eq!(entries.len(), 4);
    assert_eq!(entries[0].level, LogLevel::Error);
    assert_eq!(entries[1].level, LogLevel::Warn);
    assert_eq!(entries[2].level, LogLevel::Info);
    assert_eq!(entries[3].level, LogLevel::Trace);
    for entry in &entries {
        assert_eq!(entry.id_name, Some("testing".to_string()));
        assert_eq!(entry.id_number, 1);
        assert_eq!(entry.text, "test");
    }
}

#[test]
fn category_bits_match_the_native_binding() {
    let general = CategoryFlags { general: true, validation: false, performance: false };
    let validation = CategoryFlags { general: false, validation: true, performance: false };
    let performance = CategoryFlags { general: false, validation: false, performance: true };
    let all = CategoryFlags { general: true, validation: true, performance: true };
    assert_eq!(category_bits(&general), DebugUtilsMessageTypeFlagsEXT::GENERAL.as_raw());
    assert_eq!(category_bits(&validation), DebugUtilsMessageTypeFlagsEXT::VALIDATION.as_raw());
    assert_eq!(category_bits(&performance), DebugUtilsMessageTypeFlagsEXT::PERFORMANCE.as_raw());
    assert_eq!(
        category_bits(&all),
        (DebugUtilsMessageTypeFlagsEXT::GENERAL
            | DebugUtilsMessageTypeFlagsEXT::VALIDATION
            | DebugUtilsMessageTypeFlagsEXT::PERFORMANCE)
            .as_raw()
    );
}
