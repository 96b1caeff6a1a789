use xhci::extended_capabilities::usb_legacy_support_capability as legacy;
use xhci::extended_capabilities::hci_extended_power_management::{
    HciExtendedPowerManagement, PowerManagementControlStatusRegister,
};
use xhci::extended_capabilities::usb_legacy_support_capability::{
    LegSup, UsbLegacySupportControlStatus,
};
use xhci::extended_capabilities::xhci_supported_protocol::{
    BitRate, Header, LinkProtocol, ProtocolSpeedId, PsiType, XhciSupportedProtocol,
};
use xhci::extended_capabilities::{
    ExtendedCapability, Header as CapabilityHeader, List, NotSupportedId,
};
use xhci::registers::capability::CapabilityParameters1;

#[test]
fn supported_protocol_header_is_mapped_as_individual_dwords() {
    let registers = [0x0310_0002, 0x3342_5355, 0x0700_0402, 5];
    let base = registers.as_ptr() as usize;

    let protocol = XhciSupportedProtocol::new(base);
    let header = Header::from_raw(registers);

    assert_eq!(header.minor_revision(), 0x10);
    assert_eq!(header.major_revision(), 3);
    assert_eq!(header.name_string(), 0x3342_5355);
    assert_eq!(header.compatible_port_offset(), 2);
    assert_eq!(header.compatible_port_count(), 4);
    assert_eq!(header.protocol_slot_type(), 5);
    assert_eq!(
        protocol.header_dwords(),
        [(base, 4), (base + 4, 4), (base + 8, 4), (base + 12, 4)]
    );
}

#[test]
fn supported_protocol_speed_ids_follow_the_header() {
    let protocol = XhciSupportedProtocol::new(0x1000);
    let header = Header::from_raw([0x0310_0002, 0x3342_5355, 0x3700_0402, 5]);
    assert_eq!(header.protocol_speed_id_count(), 3);
    assert_eq!(header.hub_depth(), 3);
    assert_eq!(protocol.psis(header), Some((0x1010, 3)));
    let header = Header::from_raw([0, 0, 0x0700_0402, 0]);
    assert_eq!(protocol.psis(header), None);
}

#[test]
fn protocol_speed_id_fields() {
    let p = ProtocolSpeedId::from_raw((5000 << 16) | (1 << 14) | (1 << 8) | (3 << 4) | 4);
    assert_eq!(p.protocol_speed_id_value(), 4);
    assert_eq!(p.protocol_speed_id_exponent(), BitRate::Gb);
    assert_eq!(p.psi_type(), PsiType::Symmetric);
    assert!(p.psi_full_duplex());
    assert_eq!(p.link_protocol(), LinkProtocol::SuperSpeedPlus);
    assert_eq!(p.protocol_speed_id_mantissa(), 5000);
}

#[test]
fn extended_capability_list_is_walked() {
    let hccparams1 = CapabilityParameters1::from_raw(0x0040_0000);
    let mut list = List::new(0x1000, hccparams1).unwrap();
    assert_eq!(list.base(), 0x1100);
    let mut it = list.iter_mut();
    assert_eq!(it.current(), Some(0x1100));
    // A USB Legacy Support Capability, whose next one is 2 Dwords further.
    let first = it.next(CapabilityHeader::from_raw(0x0000_0201));
    assert_eq!(first, Some(Ok(ExtendedCapability::UsbLegacySupportCapability(0x1100))));
    assert_eq!(it.current(), Some(0x1108));
    // A capability that this crate does not support, which ends the list.
    let second = it.next(CapabilityHeader::from_raw(0x0000_000a));
    assert_eq!(second, Some(Err(NotSupportedId(10))));
    assert_eq!(it.current(), None);
    assert_eq!(it.next(CapabilityHeader::from_raw(0x0000_0101)), None);
}

#[test]
fn no_extended_capability_list_without_pointer() {
    let hccparams1 = CapabilityParameters1::from_raw(0x0000_ffff);
    assert!(List::new(0x1000, hccparams1).is_none());
}

#[test]
fn usb_legacy_support_bits() {
    let mut l = LegSup::from_raw(0);
    l.set_hc_os_owned_semaphore(true);
    assert!(l.hc_os_owned_semaphore());
    assert!(!l.hc_bios_owned_semaphore());
    assert_eq!(l.into_raw(), 1 << 24);
    l.set_hc_os_owned_semaphore(false);
    assert_eq!(l.into_raw(), 0);

    let mut c = UsbLegacySupportControlStatus::from_raw(0xe000_0000);
    assert!(c.smi_on_bar());
    assert!(c.smi_on_pci_command());
    assert!(c.smi_on_os_ownership_change());
    c.set_usb_smi_enable(true);
    c.clear_smi_on_bar();
    assert_eq!(c.into_raw(), 0xe000_0001);
}

#[test]
fn hci_extended_power_management_fields() {
    let mut h = HciExtendedPowerManagement::from_raw([0xf800_0000, 0x0000_0103]);
    assert_eq!(h.pme_support(), 0x1f);
    assert_eq!(h.power_state(), 3);
    assert!(h.pme_en());
    h.set_power_state(1);
    h.set_data_select(0xf);
    assert_eq!(h.power_state(), 1);
    assert_eq!(h.data_select(), 0xf);
    h.clear_pme_status();
    assert!(h.pme_status());

    let mut p = PowerManagementControlStatusRegister::from_raw(0x8000);
    assert!(p.pme_status());
    p.set_0_pme_status().set_data_select(3).set_power_state(2);
    assert_eq!(p.into_raw(), (3 << 9) | 2);
}

#[test]
fn usb_legacy_support_registers_are_consecutive_dwords() {
    assert_eq!(legacy::USBLEGSUP_OFFSET, 0);
    assert_eq!(legacy::USBLEGCTLSTS_OFFSET, 4);
}
