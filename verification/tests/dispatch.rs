use call_models::{AdminCallKind, ConfigKind};

#[test]
fn config_kind_decode_is_total() {
    for b in 0u16..=255 {
        let k = ConfigKind::from_u8(b as u8);
        let expected = match b {
            1 => ConfigKind::MultisigAddress,
            2 => ConfigKind::RequiredGas,
            3 => ConfigKind::SetBalance,
            4 => ConfigKind::DumpState,
            _ => ConfigKind::Unknown,
        };
        assert_eq!(k, expected);
    }
}

#[test]
fn admin_call_kind_decode_is_total() {
    for b in 0u16..=255 {
        let k = AdminCallKind::from_u8(b as u8);
        let expected = match b {
            1 => AdminCallKind::EmergencyStop,
            2 => AdminCallKind::ReloadRuntimeConfig,
            3 => AdminCallKind::Mint,
            4 => AdminCallKind::Burn,
            _ => AdminCallKind::Unknown,
        };
        assert_eq!(k, expected);
    }
}

#[test]
fn config_kind_ordinals_are_the_wire_bytes() {
    assert_eq!(ConfigKind::MultisigAddress as u8, 1);
    assert_eq!(ConfigKind::RequiredGas as u8, 2);
    assert_eq!(ConfigKind::SetBalance as u8, 3);
    assert_eq!(ConfigKind::DumpState as u8, 4);
}

#[test]
fn admin_call_kind_ordinals_are_the_wire_bytes() {
    assert_eq!(AdminCallKind::EmergencyStop as u8, 1);
    assert_eq!(AdminCallKind::ReloadRuntimeConfig as u8, 2);
    assert_eq!(AdminCallKind::Mint as u8, 3);
    assert_eq!(AdminCallKind::Burn as u8, 4);
}

#[test]
fn config_kind_decodes_its_own_ordinal() {
    let named = [
        ConfigKind::MultisigAddress,
        ConfigKind::RequiredGas,
        ConfigKind::SetBalance,
        ConfigKind::DumpState,
    ];
    for k in named {
        assert_eq!(ConfigKind::from_u8(k as u8), k);
    }
}

#[test]
fn admin_call_kind_decodes_its_own_ordinal() {
    let named = [
        AdminCallKind::EmergencyStop,
        AdminCallKind::ReloadRuntimeConfig,
        AdminCallKind::Mint,
        AdminCallKind::Burn,
    ];
    for k in named {
        assert_eq!(AdminCallKind::from_u8(k as u8), k);
    }
}

#[test]
fn config_kind_round_trip() {
    assert_eq!(ConfigKind::from_u8(1), ConfigKind::MultisigAddress);
    assert_eq!(ConfigKind::from_u8(2), ConfigKind::RequiredGas);
    assert_eq!(ConfigKind::from_u8(3), ConfigKind::SetBalance);
    assert_eq!(ConfigKind::from_u8(4), ConfigKind::DumpState);
    assert_eq!(ConfigKind::from_u8(5), ConfigKind::Unknown);
    assert_eq!(ConfigKind::from_u8(0), ConfigKind::Unknown);
    assert_eq!(ConfigKind::from_u8(255), ConfigKind::Unknown);
}

#[test]
fn admin_call_kind_round_trip() {
    assert_eq!(AdminCallKind::from_u8(1), AdminCallKind::EmergencyStop);
    assert_eq!(AdminCallKind::from_u8(2), AdminCallKind::ReloadRuntimeConfig);
    assert_eq!(AdminCallKind::from_u8(3), AdminCallKind::Mint);
    assert_eq!(AdminCallKind::from_u8(4), AdminCallKind::Burn);
    assert_eq!(AdminCallKind::from_u8(5), AdminCallKind::Unknown);
    assert_eq!(AdminCallKind::from_u8(0), AdminCallKind::Unknown);
    assert_eq!(AdminCallKind::from_u8(255), AdminCallKind::Unknown);
}
