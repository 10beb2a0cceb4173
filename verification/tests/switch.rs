//! Tests for switch types, bandwidth modes and switch settings validation.

use hyperv::switch::{
    BandwidthReservationMode, IovMode, SwitchType, VirtualSwitchSettings,
};

// ========== SwitchType Tests ==========

#[test]
fn test_switch_type_from_value() {
    assert_eq!(SwitchType::from_value(0), SwitchType::Private);
    assert_eq!(SwitchType::from_value(1), SwitchType::Internal);
    assert_eq!(SwitchType::from_value(2), SwitchType::External);
    assert_eq!(SwitchType::from_value(99), SwitchType::Private); // Default for unknown
}

#[test]
fn test_switch_type_to_value() {
    assert_eq!(SwitchType::Private.to_value(), 0);
    assert_eq!(SwitchType::Internal.to_value(), 1);
    assert_eq!(SwitchType::External.to_value(), 2);
}

#[test]
fn test_switch_type_roundtrip() {
    for st in [SwitchType::Private, SwitchType::Internal, SwitchType::External] {
        assert_eq!(SwitchType::from_value(st.to_value()), st);
    }
}

#[test]
fn test_switch_type_default() {
    assert_eq!(SwitchType::default(), SwitchType::Private);
}

#[test]
fn test_switch_type_description() {
    assert!(!SwitchType::External.description().is_empty());
    assert!(!SwitchType::Internal.description().is_empty());
    assert!(!SwitchType::Private.description().is_empty());
}

#[test]
fn test_switch_type_display() {
    assert_eq!(SwitchType::External.display_string(), "External");
    assert_eq!(SwitchType::Internal.display_string(), "Internal");
    assert_eq!(SwitchType::Private.display_string(), "Private");
}

// ========== IovMode Tests ==========

#[test]
fn test_iov_mode_from_bool() {
    assert_eq!(IovMode::from_bool(true), IovMode::Enabled);
    assert_eq!(IovMode::from_bool(false), IovMode::Disabled);
}

#[test]
fn test_iov_mode_is_enabled() {
    assert!(IovMode::Enabled.is_enabled());
    assert!(!IovMode::Disabled.is_enabled());
}

#[test]
fn test_iov_mode_default() {
    assert_eq!(IovMode::default(), IovMode::Disabled);
}

// ========== BandwidthReservationMode Tests ==========

#[test]
fn test_bandwidth_mode_from_value() {
    assert_eq!(BandwidthReservationMode::from_value(0), BandwidthReservationMode::NoReservation);
    assert_eq!(BandwidthReservationMode::from_value(1), BandwidthReservationMode::Default);
    assert_eq!(BandwidthReservationMode::from_value(2), BandwidthReservationMode::Weight);
    assert_eq!(BandwidthReservationMode::from_value(3), BandwidthReservationMode::Absolute);
    assert_eq!(BandwidthReservationMode::from_value(99), BandwidthReservationMode::NoReservation);
}

#[test]
fn test_bandwidth_mode_to_value() {
    assert_eq!(BandwidthReservationMode::NoReservation.to_value(), 0);
    assert_eq!(BandwidthReservationMode::Default.to_value(), 1);
    assert_eq!(BandwidthReservationMode::Weight.to_value(), 2);
    assert_eq!(BandwidthReservationMode::Absolute.to_value(), 3);
}

#[test]
fn test_bandwidth_mode_roundtrip() {
    for mode in [
        BandwidthReservationMode::NoReservation,
        BandwidthReservationMode::Default,
        BandwidthReservationMode::Weight,
        BandwidthReservationMode::Absolute,
    ] {
        assert_eq!(BandwidthReservationMode::from_value(mode.to_value()), mode);
    }
}

// ========== VirtualSwitchSettings Builder Tests ==========

#[test]
fn test_switch_settings_builder_private() {
    let result = VirtualSwitchSettings::builder()
        .name("TestSwitch")
        .private()
        .build();
    assert!(result.is_ok());
    let settings = result.unwrap();
    assert_eq!(settings.name, "TestSwitch");
    assert_eq!(settings.switch_type, SwitchType::Private);
    assert!(!settings.allow_management_os);
}

#[test]
fn test_switch_settings_builder_internal() {
    let result = VirtualSwitchSettings::builder()
        .name("InternalSwitch")
        .internal()
        .build();
    assert!(result.is_ok());
    let settings = result.unwrap();
    assert_eq!(settings.switch_type, SwitchType::Internal);
    assert!(settings.allow_management_os);
}

#[test]
fn test_switch_settings_builder_external_with_adapter() {
    let result = VirtualSwitchSettings::builder()
        .name("ExternalSwitch")
        .external("Ethernet0")
        .allow_management_os(true)
        .build();
    assert!(result.is_ok());
    let settings = result.unwrap();
    assert_eq!(settings.switch_type, SwitchType::External);
    assert_eq!(settings.external_adapter_id, Some("Ethernet0".to_string()));
}

#[test]
fn test_switch_settings_builder_external_without_adapter() {
    let result = VirtualSwitchSettings::builder()
        .name("ExternalSwitch")
        .switch_type(SwitchType::External)
        .build();
    assert!(result.is_err());
}

#[test]
fn test_switch_settings_builder_missing_name() {
    let result = VirtualSwitchSettings::builder()
        .switch_type(SwitchType::Private)
        .build();
    assert!(result.is_err());
}

#[test]
fn test_switch_settings_builder_missing_type() {
    let result = VirtualSwitchSettings::builder()
        .name("TestSwitch")
        .build();
    assert!(result.is_err());
}

#[test]
fn test_switch_settings_validation_empty_name() {
    let result = VirtualSwitchSettings::builder()
        .name("")
        .private()
        .build();
    assert!(result.is_err());
}

#[test]
fn test_switch_settings_validation_name_too_long() {
    let long_name = "x".repeat(101);
    let result = VirtualSwitchSettings::builder()
        .name(&long_name)
        .private()
        .build();
    assert!(result.is_err());
}

#[test]
fn test_switch_settings_validation_invalid_name_chars() {
    for invalid_char in ['\\', '/', ':', '*', '?', '"', '<', '>', '|'] {
        let name = format!("Test{}Switch", invalid_char);
        let result = VirtualSwitchSettings::builder()
            .name(&name)
            .private()
            .build();
        assert!(result.is_err(), "Should reject name with '{}'", invalid_char);
    }
}

#[test]
fn test_switch_settings_private_with_adapter() {
    let result = VirtualSwitchSettings::builder()
        .name("PrivateSwitch")
        .private()
        .build();
    // Private switch doesn't have external_adapter_id, so this should work
    assert!(result.is_ok());

    // But if we manually set external_adapter_id on a private switch, validation should fail
    let settings = VirtualSwitchSettings {
        name: "PrivateSwitch".to_string(),
        switch_type: SwitchType::Private,
        notes: None,
        allow_management_os: false,
        external_adapter_id: Some("Ethernet0".to_string()), // Invalid for private
        enable_iov: false,
        bandwidth_reservation_mode: BandwidthReservationMode::NoReservation,
        default_flow_min_bandwidth_mbps: None,
        default_flow_min_bandwidth_weight: None,
        enable_packet_direct: false,
        enable_embedded_teaming: false,
    };
    assert!(settings.validate().is_err());
}

#[test]
fn test_switch_settings_private_with_management_os() {
    let settings = VirtualSwitchSettings {
        name: "PrivateSwitch".to_string(),
        switch_type: SwitchType::Private,
        notes: None,
        allow_management_os: true, // Invalid for private
        external_adapter_id: None,
        enable_iov: false,
        bandwidth_reservation_mode: BandwidthReservationMode::NoReservation,
        default_flow_min_bandwidth_mbps: None,
        default_flow_min_bandwidth_weight: None,
        enable_packet_direct: false,
        enable_embedded_teaming: false,
    };
    assert!(settings.validate().is_err());
}

#[test]
fn test_switch_settings_with_notes() {
    let result = VirtualSwitchSettings::builder()
        .name("TestSwitch")
        .private()
        .notes("This is a test switch")
        .build();
    assert!(result.is_ok());
    let settings = result.unwrap();
    assert_eq!(settings.notes, Some("This is a test switch".to_string()));
}

#[test]
fn test_switch_settings_bandwidth_weight_valid() {
    let result = VirtualSwitchSettings::builder()
        .name("TestSwitch")
        .private()
        .bandwidth_weight(50)
        .build();
    assert!(result.is_ok());
}

#[test]
fn test_switch_settings_bandwidth_weight_invalid_zero() {
    let result = VirtualSwitchSettings::builder()
        .name("TestSwitch")
        .private()
        .bandwidth_weight(0)
        .build();
    assert!(result.is_err());
}

#[test]
fn test_switch_settings_bandwidth_weight_invalid_over_100() {
    let result = VirtualSwitchSettings::builder()
        .name("TestSwitch")
        .private()
        .bandwidth_weight(101)
        .build();
    assert!(result.is_err());
}

#[test]
fn test_switch_settings_bandwidth_weight_mode_without_value() {
    let settings = VirtualSwitchSettings {
        name: "TestSwitch".to_string(),
        switch_type: SwitchType::Private,
        notes: None,
        allow_management_os: false,
        external_adapter_id: None,
        enable_iov: false,
        bandwidth_reservation_mode: BandwidthReservationMode::Weight,
        default_flow_min_bandwidth_mbps: None,
        default_flow_min_bandwidth_weight: None, // Required for Weight mode
        enable_packet_direct: false,
        enable_embedded_teaming: false,
    };
    assert!(settings.validate().is_err());
}

#[test]
fn test_switch_settings_bandwidth_absolute_mode_without_value() {
    let settings = VirtualSwitchSettings {
        name: "TestSwitch".to_string(),
        switch_type: SwitchType::Private,
        notes: None,
        allow_management_os: false,
        external_adapter_id: None,
        enable_iov: false,
        bandwidth_reservation_mode: BandwidthReservationMode::Absolute,
        default_flow_min_bandwidth_mbps: None, // Required for Absolute mode
        default_flow_min_bandwidth_weight: None,
        enable_packet_direct: false,
        enable_embedded_teaming: false,
    };
    assert!(settings.validate().is_err());
}

#[test]
fn test_switch_settings_bandwidth_absolute_valid() {
    let result = VirtualSwitchSettings::builder()
        .name("TestSwitch")
        .private()
        .bandwidth_absolute_mbps(1000)
        .build();
    assert!(result.is_ok());
}

#[test]
fn test_switch_settings_iov_requires_external() {
    let settings = VirtualSwitchSettings {
        name: "TestSwitch".to_string(),
        switch_type: SwitchType::Internal,
        notes: None,
        allow_management_os: true,
        external_adapter_id: None,
        enable_iov: true, // Invalid for non-external
        bandwidth_reservation_mode: BandwidthReservationMode::NoReservation,
        default_flow_min_bandwidth_mbps: None,
        default_flow_min_bandwidth_weight: None,
        enable_packet_direct: false,
        enable_embedded_teaming: false,
    };
    assert!(settings.validate().is_err());
}

#[test]
fn test_switch_settings_packet_direct_requires_external() {
    let settings = VirtualSwitchSettings {
        name: "TestSwitch".to_string(),
        switch_type: SwitchType::Private,
        notes: None,
        allow_management_os: false,
        external_adapter_id: None,
        enable_iov: false,
        bandwidth_reservation_mode: BandwidthReservationMode::NoReservation,
        default_flow_min_bandwidth_mbps: None,
        default_flow_min_bandwidth_weight: None,
        enable_packet_direct: true, // Invalid for non-external
        enable_embedded_teaming: false,
    };
    assert!(settings.validate().is_err());
}

#[test]
fn test_switch_settings_external_with_iov() {
    let result = VirtualSwitchSettings::builder()
        .name("ExternalSwitch")
        .external("Ethernet0")
        .enable_iov(true)
        .build();
    assert!(result.is_ok());
}

#[test]
fn test_switch_settings_external_with_packet_direct() {
    let result = VirtualSwitchSettings::builder()
        .name("ExternalSwitch")
        .external("Ethernet0")
        .enable_packet_direct(true)
        .build();
    assert!(result.is_ok());
}

#[test]
fn test_switch_settings_external_with_embedded_teaming() {
    let result = VirtualSwitchSettings::builder()
        .name("ExternalSwitch")
        .external("Ethernet0")
        .enable_embedded_teaming(true)
        .build();
    assert!(result.is_ok());
}
