use xhci::registers::{capability as cap, operational as op, runtime as rt};
use xhci::registers::capability::{
    CapabilityParameters1, CapabilityParameters2, CapabilityRegistersLength, DoorbellOffset,
    InterfaceVersionNumber, RuntimeRegisterSpaceOffset, StructuralParameters1,
    StructuralParameters2, StructuralParameters3,
};
use xhci::registers::doorbell;
use xhci::registers::operational::{
    operational_base, CommandRingControlRegister, ConfigureRegister,
    DeviceContextBaseAddressArrayPointerRegister, DeviceNotificationControl, L1Status,
    PageSizeRegister, PortHardwareLpmControlRegister, PortIndicator, PortLinkInfoRegister,
    PortPowerManagementStatusAndControlRegister, PortRegisterSet, PortStatusAndControlRegister,
    TestMode, UsbCommandRegister, UsbStatusRegister,
};
use xhci::registers::register64::{join, split, Access64};
use xhci::registers::runtime::{
    runtime_base, EventRingDequeuePointerRegister, EventRingSegmentTableBaseAddressRegister,
    EventRingSegmentTableSizeRegister, InterrupterManagementRegister,
    InterrupterModerationRegister, InterrupterRegisterSet, MicroframeIndexRegister,
};

#[test]
fn usb_command_bits_read_back_and_leave_the_others() {
    let mut c = UsbCommandRegister::from_raw(0);
    c.set_run_stop().set_interrupter_enable();
    assert!(c.run_stop());
    assert!(c.interrupter_enable());
    assert!(!c.host_controller_reset());
    assert_eq!(c.into_raw(), 0b101);
    c.clear_run_stop();
    assert!(!c.run_stop());
    assert!(c.interrupter_enable());
    assert_eq!(c.into_raw(), 0b100);
    let c = UsbCommandRegister::from_raw(1 << 15);
    assert!(c.extended_tbc_status_enable());
    assert!(c.extended_tbc_trb_status_enable());
    assert!(!c.extended_tbc_enable());
}

#[test]
fn usb_status_write_one_to_clear_bits() {
    let mut s = UsbStatusRegister::from_raw(0x1 | (1 << 3));
    assert!(s.hc_halted());
    assert!(s.event_interrupt());
    assert!(!s.port_change_detect());
    s.set_0_event_interrupt().clear_port_change_detect();
    assert_eq!(s.into_raw(), 0x1 | (1 << 4));
}

#[test]
fn capability_registers_decode() {
    assert_eq!(CapabilityRegistersLength::from_raw(0x20).get(), 0x20);
    assert_eq!(InterfaceVersionNumber::from_raw(0x0110).get(), 0x0110);
    let p = StructuralParameters1::from_raw(0x0800_0420);
    assert_eq!(p.number_of_device_slots(), 0x20);
    assert_eq!(p.number_of_ports(), 8);
    let p = StructuralParameters3::from_raw(0x0100_000a);
    assert_eq!(p.u1_device_exit_latency(), 0x0a);
    assert_eq!(p.u2_device_exit_latency(), 0x100);
    let p = CapabilityParameters1::from_raw(0x0123_0004);
    assert!(p.context_size());
    assert_eq!(p.xhci_extended_capabilities_pointer(), 0x123);
    assert_eq!(DoorbellOffset::from_raw(0x3000).get(), 0x3000);
    assert_eq!(RuntimeRegisterSpaceOffset::from_raw(0x2000).get(), 0x2000);
    let p = CapabilityParameters2::from_raw(0b10_0000_0001);
    assert!(p.u3_entry_capability());
    assert!(!p.force_save_context_capability());
    assert!(p.virtualization_based_trusted_io_capability());
}

#[test]
fn event_ring_segment_table_max_is_a_power_of_two() {
    assert_eq!(StructuralParameters2::from_raw(0).event_ring_segment_table_max(), 1);
    assert_eq!(StructuralParameters2::from_raw(3 << 4).event_ring_segment_table_max(), 8);
    assert_eq!(StructuralParameters2::from_raw(15 << 4).event_ring_segment_table_max(), 32768);
}

#[test]
fn max_scratchpad_buffers_joins_its_halves() {
    // High part (bits 21..=25) 3, low part (bits 27..=31) 5.
    let p = StructuralParameters2::from_raw((3 << 21) | (5 << 27));
    assert_eq!(p.max_scratchpad_buffers(), (3 << 5) | 5);
    assert_eq!(StructuralParameters2::from_raw(0).max_scratchpad_buffers(), 0);
    // Bit 20 is reserved and does not count.
    assert_eq!(StructuralParameters2::from_raw(1 << 20).max_scratchpad_buffers(), 0);
    assert_eq!(StructuralParameters2::from_raw(u32::MAX).max_scratchpad_buffers(), 1023);
}

#[test]
fn page_size_and_device_notification() {
    assert_eq!(PageSizeRegister::from_raw(1).get(), 1);
    let mut d = DeviceNotificationControl::from_raw(0);
    d.set(1, true).set(15, true);
    assert!(d.get(1));
    assert!(d.get(15));
    assert!(!d.get(0));
    d.clear(1);
    assert!(!d.get(1));
    d.set(15, false);
    assert_eq!(d.into_raw(), 0);
}

#[test]
fn command_ring_pointer_keeps_the_low_bits() {
    let mut c = CommandRingControlRegister::from_raw(0);
    c.set_ring_cycle_state().set_command_abort();
    c.set_command_ring_pointer(0xffff_ffff_ffff_ffc0);
    assert_eq!(c.into_raw(), 0xffff_ffff_ffff_ffc0 | 0b101);
    let c = CommandRingControlRegister::from_raw(1 << 3);
    assert!(c.command_ring_running());
}

#[test]
fn device_context_base_address_array_pointer() {
    let mut d = DeviceContextBaseAddressArrayPointerRegister::default();
    assert_eq!(d.get(), 0);
    d.set(0x1000);
    assert_eq!(d.get(), 0x1000);
}

#[test]
fn configure_register_fields() {
    let mut c = ConfigureRegister::from_raw(0);
    c.set_max_device_slots_enabled(64);
    c.set_u3_entry_enable();
    assert_eq!(c.max_device_slots_enabled(), 64);
    assert!(c.u3_entry_enable());
    assert!(!c.configuration_information_enable());
    assert_eq!(c.into_raw(), 64 | (1 << 8));
}

#[test]
fn port_status_and_control_fields() {
    let mut p = PortStatusAndControlRegister::from_raw(0);
    p.set_port_link_state(5);
    p.set_port_indicator_control(PortIndicator::Green);
    p.set_port_power().set_port_reset();
    assert_eq!(p.port_link_state(), 5);
    assert_eq!(p.port_indicator_control(), PortIndicator::Green);
    assert!(p.port_power());
    assert!(p.port_reset());
    assert_eq!(p.into_raw(), (5 << 5) | (2 << 14) | (1 << 9) | (1 << 4));
    let p = PortStatusAndControlRegister::from_raw((4 << 10) | 1 | (1 << 17));
    assert_eq!(p.port_speed(), 4);
    assert!(p.current_connect_status());
    assert!(p.connect_status_change());
}

#[test]
fn port_indicator_conversions() {
    assert_eq!(PortIndicator::try_from(0), Ok(PortIndicator::Off));
    assert_eq!(PortIndicator::try_from(3), Ok(PortIndicator::Undefined));
    assert_eq!(PortIndicator::try_from(4), Err(4));
    assert_eq!(PortIndicator::Amber.to_u32(), 1);
    assert_eq!(PortIndicator::from_u32(2), Some(PortIndicator::Green));
}

#[test]
fn port_power_management_fields() {
    let mut p = PortPowerManagementStatusAndControlRegister::from_raw(0);
    p.set_u1_timeout(0x7f);
    p.set_u2_timeout(0xfe);
    p.set_force_link_pm_accept(true);
    assert_eq!(p.u1_timeout(), 0x7f);
    assert_eq!(p.u2_timeout(), 0xfe);
    assert!(p.force_link_pm_accept());
    p.set_port_test_control(TestMode::PortTestControlError);
    assert_eq!(p.port_test_control(), Some(TestMode::PortTestControlError));
    let p = PortPowerManagementStatusAndControlRegister::from_raw(6 << 28);
    assert_eq!(p.port_test_control(), None);
    let p = PortPowerManagementStatusAndControlRegister::from_raw(4);
    assert_eq!(p.l1_status(), Some(L1Status::TimeOutOrError));
    let p = PortPowerManagementStatusAndControlRegister::from_raw(5);
    assert_eq!(p.l1_status(), None);
    let mut p = PortPowerManagementStatusAndControlRegister::from_raw(0);
    p.set_best_effort_service_latency(15);
    p.set_l1_device_slot(3);
    p.set_remote_wake_enable(true);
    p.set_hardware_lpm_enable(true);
    assert_eq!(p.into_raw(), (15 << 4) | (3 << 8) | (1 << 3) | (1 << 16));
}

#[test]
fn port_link_info_and_hardware_lpm_fields() {
    let mut l = PortLinkInfoRegister::from_raw((2 << 16) | (3 << 20));
    l.set_link_error_count(0xffff);
    assert_eq!(l.link_error_count(), 0xffff);
    assert_eq!(l.rx_lane_count(), 2);
    assert_eq!(l.tx_lane_count(), 3);
    let mut h = PortHardwareLpmControlRegister::from_raw(0);
    h.set_host_initiated_resume_duration_mode(3);
    h.set_l1_timeout(0xff);
    h.set_best_effort_service_latency_deep(9);
    assert_eq!(h.host_initiated_resume_duration_mode(), 3);
    assert_eq!(h.l1_timeout(), 0xff);
    assert_eq!(h.best_effort_service_latency_deep(), 9);
    assert_eq!(h.into_raw(), 3 | (0xff << 2) | (9 << 10));
}

#[test]
fn port_register_set_location() {
    let caplength = CapabilityRegistersLength::from_raw(0x20);
    let hcsparams1 = StructuralParameters1::from_raw(0x0400_0010);
    assert_eq!(operational_base(0x10000, caplength), 0x10020);
    assert_eq!(PortRegisterSet::array_location(0x10000, caplength, hcsparams1), (0x10420, 4));
    let s = PortRegisterSet::from_raw([1, 2, 3, 4]);
    assert!(s.portsc.current_connect_status());
    assert_eq!(s.portli.into_raw(), 3);
}

#[test]
fn doorbell_register_and_location() {
    let mut d = doorbell::Register::from_raw(0xffff_ff00);
    d.set_doorbell_target(5);
    assert_eq!(d.doorbell_target(), 5);
    assert_eq!(d.into_raw(), 0xffff_ff05);
    let dboff = DoorbellOffset::from_raw(0x3000);
    let hcsparams1 = StructuralParameters1::from_raw(0x0400_0010);
    assert_eq!(doorbell::Register::array_location(0x10000, dboff, hcsparams1), (0x13000, 0x10));
}

#[test]
fn runtime_registers() {
    let rtoff = RuntimeRegisterSpaceOffset::from_raw(0x2000);
    assert_eq!(runtime_base(0x10000, rtoff), 0x12000);
    let set = InterrupterRegisterSet::new(0x10000, rtoff);
    assert_eq!(set.base(), 0x12020);
    assert_eq!(set.interrupter_base(0), 0x12020);
    assert_eq!(set.interrupter_base(1023), 0x12020 + 1023 * 0x20);
    assert_eq!(MicroframeIndexRegister::from_raw(0xffff_ffff).microframe_index(), 0x3fff);
    let mut m = InterrupterManagementRegister::from_raw(1);
    assert!(m.interrupt_pending());
    m.set_interrupt_enable().set_0_interrupt_pending();
    assert_eq!(m.into_raw(), 2);
    let mut i = InterrupterModerationRegister::default();
    i.set_interrupt_moderation_interval(4000).set_interrupt_moderation_counter(7);
    assert_eq!(i.interrupt_moderation_interval(), 4000);
    assert_eq!(i.interrupt_moderation_counter(), 7);
    let mut s = EventRingSegmentTableSizeRegister::from_raw(0);
    s.set(1);
    assert_eq!(s.get(), 1);
    let mut b = EventRingSegmentTableBaseAddressRegister::from_raw(0x3f);
    b.set(0x1_0000_0040);
    assert_eq!(b.get(), 0x1_0000_0040);
    assert_eq!(b.into_raw(), 0x1_0000_007f);
    let mut d = EventRingDequeuePointerRegister::default();
    d.set_dequeue_erst_segment_index(5).set_event_ring_dequeue_pointer(0x2010);
    d.clear_event_handler_busy();
    assert_eq!(d.dequeue_erst_segment_index(), 5);
    assert_eq!(d.event_ring_dequeue_pointer(), 0x2010);
    assert!(d.event_handler_busy());
    assert_eq!(d.into_raw(), 0x2010 | 0b1101);
}

#[test]
fn sixty_four_bit_access_splits_and_joins() {
    let (low, high) = split(0x1122_3344_5566_7788);
    assert_eq!(low, 0x5566_7788);
    assert_eq!(high, 0x1122_3344);
    assert_eq!(join(low, high), 0x1122_3344_5566_7788);
    assert_eq!(join(low ^ u32::MAX, high ^ u32::MAX), 0xeedd_ccbb_aa99_8877);
    assert_eq!(Access64::default(), Access64::Native);
}

#[test]
fn sixty_four_bit_access_alignment() {
    assert_eq!(Access64::LowHigh.alignment::<u64>(), 4);
    assert_eq!(Access64::HighLow.alignment::<u64>(), 4);
    assert_eq!(Access64::Native.alignment::<u64>(), core::mem::align_of::<u64>());
    let m = Access64::LowHigh.mapping::<u64>(0x1004).unwrap();
    assert_eq!((m.phys_start, m.bytes), (0x1004, 8));
    assert!(Access64::LowHigh.mapping::<u64>(0x1002).is_none());
    assert!(Access64::Native.mapping::<u32>(0x1000).is_none());
}

#[test]
fn register_offsets_follow_the_layout() {
    assert_eq!(cap::HCIVERSION_OFFSET, 0x02);
    assert_eq!(cap::DBOFF_OFFSET, 0x14);
    assert_eq!(cap::VTIOSOFF_OFFSET, 0x20);
    assert_eq!(op::DNCTRL_OFFSET, 0x14);
    assert_eq!(op::DCBAAP_OFFSET, 0x30);
    assert_eq!(op::CONFIG_OFFSET, 0x38);
    assert_eq!(op::PORT_REGISTER_SETS_OFFSET, 0x400);
    assert_eq!(rt::ERSTBA_OFFSET, 0x10);
    assert_eq!(rt::ERDP_OFFSET, 0x18);
    assert_eq!(rt::INTERRUPTER_REGISTER_SETS_OFFSET, 0x20);
}
