use uds_rs::{IsoTpConfig, UdsSocketOptions};

#[test]
fn default_options_are_default() {
    assert!(UdsSocketOptions::default().is_default());
}

#[test]
fn vw_options_pad_both_directions() {
    let options = UdsSocketOptions::vw().unwrap();
    assert!(!options.is_default());
    assert_eq!(
        Some(IsoTpConfig {
            flags: 0x0C,
            frame_txtime_ns: 1_000_000_000,
            ext_address: 0xFF,
            txpad_content: 0x55,
            rxpad_content: 0xAA,
            rx_ext_address: 0xFF,
        }),
        options.isotp_options
    );
    assert_eq!(None, options.rx_flow_control_options);
    assert_eq!(None, options.link_layer_options);
}

#[test]
fn isotp_config_frame_time_must_fit_32_bits() {
    assert_eq!(None, IsoTpConfig::new(0, 0x1_0000_0000, 0, 0, 0, 0));
    assert_eq!(
        Some(IsoTpConfig {
            flags: 1,
            frame_txtime_ns: 0xFFFF_FFFF,
            ext_address: 2,
            txpad_content: 3,
            rxpad_content: 4,
            rx_ext_address: 5,
        }),
        IsoTpConfig::new(1, 0xFFFF_FFFF, 2, 3, 4, 5)
    );
}
