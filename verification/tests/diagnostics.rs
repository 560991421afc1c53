use surface_lifecycle::diagnostics::{
    debug_messenger_config, format_debug_message, i32_decimal, u32_decimal, Category, Severity,
    StartupError,
};

#[test]
fn messenger_subscribes_to_all_three_severities_and_categories() {
    let c = debug_messenger_config();
    assert_eq!(c.severities, vec![Severity::Error, Severity::Warning, Severity::Info]);
    assert_eq!(c.categories, vec![
        Category::General,
        Category::Validation,
        Category::Performance,
    ]);
}

#[test]
fn null_id_name_and_body_become_empty_strings() {
    let s = format_debug_message(Severity::Error, Category::Validation, None, 0, None);
    assert_eq!(s, "ERROR:\nVALIDATION [ (0)] : \n");
}

#[test]
fn message_with_all_fields() {
    let s = format_debug_message(
        Severity::Warning,
        Category::General,
        Some("VUID-Check"),
        -105,
        Some("descriptor out of date"),
    );
    assert_eq!(s, "WARNING:\nGENERAL [VUID-Check (-105)] : descriptor out of date\n");
}

#[test]
fn info_and_performance_labels() {
    let s = format_debug_message(Severity::Info, Category::Performance, Some("perf"), 7, None);
    assert_eq!(s, "INFO:\nPERFORMANCE [perf (7)] : \n");
}

#[test]
fn unsigned_decimal_rendering() {
    assert_eq!(u32_decimal(0), "0");
    assert_eq!(u32_decimal(9), "9");
    assert_eq!(u32_decimal(10), "10");
    assert_eq!(u32_decimal(105), "105");
    assert_eq!(u32_decimal(u32::MAX), "4294967295");
}

#[test]
fn signed_decimal_rendering() {
    assert_eq!(i32_decimal(0), "0");
    assert_eq!(i32_decimal(-1), "-1");
    assert_eq!(i32_decimal(i32::MAX), "2147483647");
    assert_eq!(i32_decimal(i32::MIN), "-2147483648");
}

#[test]
fn startup_error_diagnostics_identify_the_step() {
    assert_eq!(
        StartupError::NoDisplayBackend.describe(),
        "no supported display backend detected"
    );
    assert_eq!(StartupError::EventLoopCreation.describe(), "failed to create event loop");
    assert_eq!(StartupError::WindowCreation.describe(), "failed to create window");
    assert_eq!(StartupError::InstanceCreation.describe(), "failed to create instance");
    assert_eq!(
        StartupError::DebugMessengerCreation.describe(),
        "failed to create debug messenger"
    );
}
