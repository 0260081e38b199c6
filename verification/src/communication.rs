//! Options of the ISO-TP transport underneath the services, as plain values.
//!
//! The socket itself lives with the caller; these types hold what it is
//! configured with, field for field as the ISO-TP socket options of
//! `tokio_socketcan_isotp` hold it.
use vstd::prelude::*;

use crate::error::UdsCommunicationError;

verus! {

/// ISO-TP options (`can_isotp_options`).
#[derive(Debug, Clone, Copy, PartialEq, Eq, Structural)]
pub struct IsoTpConfig {
    /// Behaviour flags (`IsoTpBehaviour` bits).
    pub flags: u32,
    /// Frame transmission time (N_As/N_Ar) in nanoseconds.
    pub frame_txtime_ns: u32,
    /// Address for extended addressing.
    pub ext_address: u8,
    /// Content of padding bytes (tx).
    pub txpad_content: u8,
    /// Content of padding bytes (rx).
    pub rxpad_content: u8,
    /// Address for extended addressing (rx).
    pub rx_ext_address: u8,
}

/// Flow control options (`can_isotp_fc_options`).
#[derive(Debug, Clone, Copy, PartialEq, Eq, Structural)]
pub struct FlowControlConfig {
    /// Block size in flow control frames; 0 = off.
    pub bs: u8,
    /// Separation time in flow control frames.
    pub stmin: u8,
    /// Maximum number of wait frames; 0 = omit.
    pub wftmax: u8,
}

/// Link layer options (`can_isotp_ll_options`).
#[derive(Debug, Clone, Copy, PartialEq, Eq, Structural)]
pub struct LinkLayerConfig {
    /// Generated and accepted CAN frame type.
    pub mtu: u8,
    /// Link layer data length in bytes (tx).
    pub tx_dl: u8,
    /// CAN FD frame flags (`TxFlags` bits).
    pub tx_flags: u8,
}

impl IsoTpConfig {
    /// Options with the given values; the frame transmission time must fit the
    /// 32 bits that the socket holds it in.
    pub fn new(
        flags: u32,
        frame_txtime_ns: u64,
        ext_address: u8,
        txpad_content: u8,
        rxpad_content: u8,
        rx_ext_address: u8,
    ) -> (r: Option<IsoTpConfig>)
        ensures
            frame_txtime_ns <= u32::MAX <==> r is Some,
            r matches Some(c) ==> c == (IsoTpConfig {
                flags,
                frame_txtime_ns: frame_txtime_ns as u32,
                ext_address,
                txpad_content,
                rxpad_content,
                rx_ext_address,
            }),
    {
        if frame_txtime_ns > 0xFFFF_FFFF {
            return None;
        }
        Some(
            IsoTpConfig {
                flags,
                frame_txtime_ns: frame_txtime_ns as u32,
                ext_address,
                txpad_content,
                rxpad_content,
                rx_ext_address,
            },
        )
    }

    /// Replaces the behaviour flags.
    pub fn set_flags(&mut self, flags: u32)
        ensures
            *final(self) == (IsoTpConfig { flags, ..*old(self) }),
    {
        self.flags = flags;
    }
}

/// `IsoTpBehaviour::CAN_ISOTP_RX_PADDING`: pad received CAN frames.
#[verifier::external_body]
fn isotp_rx_padding_flag() -> (r: u32)
    ensures
        r == 0x008,
{
    tokio_socketcan_isotp::IsoTpBehaviour::CAN_ISOTP_RX_PADDING.bits()
}

/// `IsoTpBehaviour::CAN_ISOTP_TX_PADDING`: pad sent CAN frames.
#[verifier::external_body]
fn isotp_tx_padding_flag() -> (r: u32)
    ensures
        r == 0x004,
{
    tokio_socketcan_isotp::IsoTpBehaviour::CAN_ISOTP_TX_PADDING.bits()
}

/// Options of the transport socket; where all are absent, the socket is
/// opened with the system's defaults.
#[derive(Debug, Clone, Copy, PartialEq, Eq, Structural)]
pub struct UdsSocketOptions {
    pub isotp_options: Option<IsoTpConfig>,
    pub rx_flow_control_options: Option<FlowControlConfig>,
    pub link_layer_options: Option<LinkLayerConfig>,
}

/// The ISO-TP options of [`UdsSocketOptions::vw`]: padding in both directions
/// with 0x55 sent and 0xAA expected, one second frame transmission time and
/// 0xFF for both extended addresses.
pub open spec fn spec_vw_isotp_options() -> IsoTpConfig {
    IsoTpConfig {
        flags: 0x00C,
        frame_txtime_ns: 1_000_000_000,
        ext_address: 0xFF,
        txpad_content: 0x55,
        rxpad_content: 0xAA,
        rx_ext_address: 0xFF,
    }
}

impl Default for UdsSocketOptions {
    fn default() -> (r: UdsSocketOptions)
        ensures
            r.isotp_options is None,
            r.rx_flow_control_options is None,
            r.link_layer_options is None,
    {
        UdsSocketOptions {
            isotp_options: None,
            rx_flow_control_options: None,
            link_layer_options: None,
        }
    }
}

impl UdsSocketOptions {
    /// Whether no option is set.
    pub fn is_default(&self) -> (r: bool)
        ensures
            r == (self.isotp_options is None && self.rx_flow_control_options is None
                && self.link_layer_options is None),
    {
        self.isotp_options.is_none() && self.rx_flow_control_options.is_none()
            && self.link_layer_options.is_none()
    }

    /// Options for ECUs that expect padded CAN frames.
    pub fn vw() -> (r: Result<UdsSocketOptions, UdsCommunicationError>)
        ensures
            r == Ok::<UdsSocketOptions, UdsCommunicationError>(
                UdsSocketOptions {
                    isotp_options: Some(spec_vw_isotp_options()),
                    rx_flow_control_options: None,
                    link_layer_options: None,
                },
            ),
    {
        let initial_flags = isotp_rx_padding_flag() | isotp_tx_padding_flag();
        let mut isotp_options = match IsoTpConfig::new(
            initial_flags,
            1_000_000_000,
            0xFF,
            0x55,
            0xAA,
            0xFF,
        ) {
            Some(options) => options,
            None => {
                return Err(UdsCommunicationError::SocketCreationError);
            },
        };
        let runtime_flags = isotp_rx_padding_flag() | isotp_tx_padding_flag();
        assert(0x008u32 | 0x004u32 == 0x00Cu32) by (bit_vector);
        isotp_options.set_flags(runtime_flags);
        Ok(
            UdsSocketOptions {
                isotp_options: Some(isotp_options),
                rx_flow_control_options: None,
                link_layer_options: None,
            },
        )
    }
}

} // verus!
