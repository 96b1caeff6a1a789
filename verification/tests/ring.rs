use xhci::ring::trb::command;
use xhci::ring::trb::event::{
    Allowed, BandwidthRequest, CommandCompletion, CompletionCode, DeviceNotification, Doorbell,
    PortStatusChange, TransferEvent,
};
use xhci::ring::trb::transfer::{self, SetupStage, TransferType};
use xhci::ring::EventRingSegmentTableEntry;

#[test]
fn try_from_macro() {
    let raw = [
        0x00c8_8800, // address low
        0x0000_0000, // address high
        0x01_000000, // completion code 1, transfer length 0
        0x0000_8401, // endpoint id 0, slot id 0, type 33, event data 0, cycle bit 1
    ];
    assert_eq!(
        Allowed::try_from(raw),
        Ok(Allowed::CommandCompletion(
            CommandCompletion::try_from(raw).unwrap()
        )),
    );
}

#[test]
fn command_completion_fields_are_decoded() {
    let raw = [0x00c8_8800, 0x0000_0001, 0x01_000005, 0x0300_8401];
    let c = CommandCompletion::try_from(raw).unwrap();
    assert_eq!(c.command_trb_pointer(), 0x1_00c8_8800);
    assert_eq!(c.command_completion_parameter(), 5);
    assert_eq!(c.completion_code(), Ok(CompletionCode::Success));
    assert_eq!(c.slot_id(), 3);
    assert_eq!(c.vf_id(), 0);
    assert!(c.cycle_bit());
}

#[test]
fn reserved_completion_code_is_returned_as_an_error() {
    let raw = [0, 0, 30 << 24, 33 << 10];
    let c = CommandCompletion::try_from(raw).unwrap();
    assert_eq!(c.completion_code(), Err(30));
    let raw = [0, 0, 200 << 24, 33 << 10];
    let c = CommandCompletion::try_from(raw).unwrap();
    assert_eq!(c.completion_code(), Err(200));
    let raw = [0, 0, 36 << 24, 33 << 10];
    let c = CommandCompletion::try_from(raw).unwrap();
    assert_eq!(c.completion_code(), Ok(CompletionCode::SplitTransactionError));
}

#[test]
fn event_with_set_reserved_bit_is_refused() {
    // Command Completion with bit 0 of the first Dword set, which is RsvdZ.
    let raw = [0x0000_0001, 0, 0x0100_0000, 0x0000_8401];
    assert_eq!(CommandCompletion::try_from(raw), Err(raw));
    assert_eq!(Allowed::try_from(raw), Err(raw));
}

#[test]
fn event_with_unknown_type_is_refused() {
    let raw = [0, 0, 0, 40 << 10];
    assert_eq!(Allowed::try_from(raw), Err(raw));
    let raw = [0, 0, 0, 1 << 10];
    assert_eq!(Allowed::try_from(raw), Err(raw));
}

#[test]
fn every_event_type_is_recognised() {
    let t = TransferEvent::new();
    assert_eq!(Allowed::try_from(t.into_raw()), Ok(Allowed::TransferEvent(t)));
    let p = PortStatusChange::new();
    assert_eq!(Allowed::try_from(p.into_raw()), Ok(Allowed::PortStatusChange(p)));
    let b = BandwidthRequest::new();
    assert_eq!(Allowed::try_from(b.into_raw()), Ok(Allowed::BandwidthRequest(b)));
    let d = Doorbell::new();
    assert_eq!(Allowed::try_from(d.into_raw()), Ok(Allowed::Doorbell(d)));
    let n = DeviceNotification::new();
    assert_eq!(Allowed::try_from(n.into_raw()), Ok(Allowed::DeviceNotification(n)));
}

#[test]
fn transfer_event_fields_are_decoded() {
    let raw = [0x1234_5670, 0x0000_00ab, 0x0700_0010, (5 << 24) | (3 << 16) | (32 << 10) | (1 << 2)];
    let t = TransferEvent::try_from(raw).unwrap();
    assert_eq!(t.trb_pointer(), 0xab_1234_5670);
    assert_eq!(t.trb_transfer_length(), 0x10);
    assert_eq!(t.completion_code(), Ok(CompletionCode::ResourceError));
    assert!(t.event_data());
    assert_eq!(t.endpoint_id(), 3);
    assert_eq!(t.slot_id(), 5);
    assert!(!t.cycle_bit());
}

#[test]
fn device_notification_fields_are_decoded() {
    let mut n = DeviceNotification::new();
    n.set_cycle_bit();
    assert!(n.cycle_bit());
    assert_eq!(n.device_notification_data(), 0);
    assert_eq!(n.notification_type(), 0);
    let raw = [0xabcd_ef50, 0x0000_0012, 0x0100_0000, (3 << 24) | (38 << 10)];
    let n = DeviceNotification::try_from(raw).unwrap();
    assert_eq!(n.notification_type(), 5);
    assert_eq!(n.device_notification_data(), 0x12_abcd_ef);
    assert_eq!(n.slot_id(), 3);
    assert_eq!(n.completion_code(), Ok(CompletionCode::Success));
    // Bits 0 to 3 of the first Dword are RsvdZ.
    let bad = [0xabcd_ef51, 0x0000_0012, 0x0100_0000, (3 << 24) | (38 << 10)];
    assert_eq!(DeviceNotification::try_from(bad), Err(bad));
    // So are bits 16 to 23 of the fourth.
    let bad = [0, 0, 0x0100_0000, (1 << 16) | (38 << 10)];
    assert_eq!(DeviceNotification::try_from(bad), Err(bad));
}

#[test]
fn port_status_change_and_doorbell_fields() {
    let p = PortStatusChange::try_from([7 << 24, 0, 1 << 24, 34 << 10]).unwrap();
    assert_eq!(p.port_id(), 7);
    assert_eq!(p.completion_code(), Ok(CompletionCode::Success));
    let d = Doorbell::try_from([0x1f, 0, 0, (9 << 24) | (2 << 16) | (36 << 10)]).unwrap();
    assert_eq!(d.db_reason(), 0x1f);
    assert_eq!(d.vf_id(), 2);
    assert_eq!(d.slot_id(), 9);
}

#[test]
fn new_command_trbs_pass_their_own_check() {
    let l = command::Link::new();
    assert_eq!(command::Link::try_from(l.into_trb()), Ok(l));
    let e = command::EnableSlot::new();
    assert_eq!(command::EnableSlot::try_from(e.into_trb()), Ok(e));
    let n = command::NoOp::new();
    assert_eq!(command::NoOp::try_from(n.into_trb()), Ok(n));
    // A TRB of another type is refused.
    assert_eq!(command::NoOp::try_from(e.into_trb()), Err(e.into_trb()));
}

#[test]
fn command_trb_type_field_is_set() {
    let n = command::NoOp::new();
    assert_eq!(n.into_trb().into_raw(), [0, 0, 0, 23 << 10]);
    let a = command::AddressDevice::new();
    assert_eq!(a.into_trb().into_raw(), [0, 0, 0, 11 << 10]);
}

#[test]
fn address_device_fields_read_back() {
    let mut a = command::AddressDevice::new();
    a.set_input_context_pointer(0x1234_5678_9abc_def0)
        .set_slot_id(7)
        .set_block_set_address_request();
    assert_eq!(a.input_context_pointer(), 0x1234_5678_9abc_def0);
    assert_eq!(a.slot_id(), 7);
    assert!(a.block_set_address_request());
    assert_eq!(
        a.into_trb().into_raw(),
        [0x9abc_def0, 0x1234_5678, 0, (7 << 24) | (11 << 10) | (1 << 9)]
    );
    let mut t = a.into_trb();
    t.set_cycle_bit();
    assert!(t.cycle_bit());
    assert!(command::AddressDevice::try_from(a.into_trb()).is_ok());
    a.clear_block_set_address_request();
    assert!(!a.block_set_address_request());
}

#[test]
fn set_tr_dequeue_pointer_keeps_the_low_bits() {
    let mut s = command::SetTrDequeuePointer::new();
    s.set_dequeue_cycle_state().set_stream_context_type(5);
    s.set_new_tr_dequeue_pointer(0xffff_fff0);
    assert!(s.dequeue_cycle_state());
    assert_eq!(s.stream_context_type(), 5);
    assert_eq!(s.new_tr_dequeue_pointer(), 0xffff_fff0);
    s.set_stream_id(0xbeef).set_endpoint_id(31);
    assert_eq!(s.stream_id(), 0xbeef);
    assert_eq!(s.endpoint_id(), 31);
}

#[test]
fn force_header_info_reads_back() {
    let mut f = command::ForceHeader::new();
    f.set_packet_type(0x1f);
    f.set_header_info([0xffff_ffe0, 1, 2]);
    assert_eq!(f.header_info(), [0xffff_ffe0, 1, 2]);
    assert_eq!(f.packet_type(), 0x1f);
    f.set_root_hub_port_number(4);
    assert_eq!(f.root_hub_port_number(), 4);
}

#[test]
fn setup_stage_new_sets_idt_and_length() {
    let s = SetupStage::new();
    assert_eq!(s.into_trb().into_raw(), [0, 0, 8, (2 << 10) | (1 << 6)]);
    assert_eq!(SetupStage::try_from(s.into_trb()), Ok(s));
}

#[test]
fn setup_stage_transfer_type() {
    let mut s = SetupStage::new();
    s.set_transfer_type(TransferType::In)
        .set_request_type(0x80)
        .set_request(6)
        .set_value(0x0100)
        .set_index(0)
        .set_length(18);
    assert_eq!(s.transfer_type(), TransferType::In);
    assert_eq!(s.request_type(), 0x80);
    assert_eq!(s.request(), 6);
    assert_eq!(s.value(), 0x0100);
    assert_eq!(s.length(), 18);
    s.set_transfer_type(TransferType::No);
    assert_eq!(s.transfer_type(), TransferType::No);
}

#[test]
fn normal_trb_fields() {
    let mut n = transfer::Normal::new();
    n.set_data_buffer_pointer(0xdead_beef_0000_1234)
        .set_trb_transfer_length(0x1_ffff)
        .set_td_size(31)
        .set_interrupter_target(1023)
        .set_interrupt_on_completion()
        .set_chain_bit();
    assert_eq!(n.data_buffer_pointer(), 0xdead_beef_0000_1234);
    assert_eq!(n.trb_transfer_length(), 0x1_ffff);
    assert_eq!(n.td_size(), 31);
    assert_eq!(n.interrupter_target(), 1023);
    assert!(n.interrupt_on_completion());
    assert!(n.chain_bit());
    assert!(n.into_trb().chain_bit());
    assert!(transfer::Normal::try_from(n.into_trb()).is_ok());
}

#[test]
fn isoch_accepts_any_trb_of_its_type() {
    let raw = [u32::MAX, u32::MAX, u32::MAX, (u32::MAX & !(0x3f << 10)) | (5 << 10)];
    assert!(transfer::Isoch::try_from(transfer::TRB::from_raw(raw)).is_ok());
}

#[test]
fn event_ring_segment_table_entry() {
    let e = EventRingSegmentTableEntry::new(0x1_0000_1000, 256);
    assert_eq!(e.ring_segment_base_address(), 0x1_0000_1000);
    assert_eq!(e.ring_segment_size(), 4096);
    assert_eq!(e.len(), 256);
    assert_eq!(e.ring_segment_bound_address(), 0x1_0000_2000);
    assert_eq!(e.into_raw(), [0x1000, 1, 4096, 0]);
}

#[test]
fn event_ring_segment_table_entry_fields_can_be_changed() {
    let mut e = EventRingSegmentTableEntry::new(0x40, 1);
    e.set_ring_segment_base_address(0x8000).set_ring_segment_size(32);
    assert_eq!(e.ring_segment_base_address(), 0x8000);
    assert_eq!(e.len(), 2);
}

#[test]
fn changed_trbs_still_pass_their_own_check() {
    let mut s = command::SetTrDequeuePointer::new();
    s.set_new_tr_dequeue_pointer(0xdead_bee0).set_stream_id(3).set_slot_id(200);
    assert_eq!(command::SetTrDequeuePointer::try_from(s.into_trb()), Ok(s));
    let mut n = transfer::Normal::new();
    n.set_data_buffer_pointer(0x8000).set_trb_transfer_length(512).set_interrupt_on_completion();
    assert_eq!(transfer::Normal::try_from(n.into_trb()), Ok(n));
    let mut t = TransferEvent::new();
    t.set_cycle_bit();
    assert_eq!(TransferEvent::try_from(t.into_raw()), Ok(t));
}

#[test]
fn set_extended_property_capability_parameter_overlaps_a_reserved_field() {
    let mut s = command::SetExtendedProperty::new();
    s.set_extended_capability_identifier(0x1234);
    assert_eq!(command::SetExtendedProperty::try_from(s.into_trb()), Ok(s));
    s.set_capability_parameter(1);
    assert_eq!(s.capability_parameter(), 1);
    assert_eq!(
        command::SetExtendedProperty::try_from(s.into_trb()),
        Err(s.into_trb())
    );
}
