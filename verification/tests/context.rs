use xhci::context::any_size::{AnyEndpoint, AnyInputControl, AnySlot};
use xhci::context::endpoint::{Byte32, Byte64, Type};
use xhci::context::{
    slot, Device, Endpoint, EndpointState, EndpointType, Input, Input32Byte, InputControl,
    Slot, SlotState,
};

#[test]
fn input_control_flags() {
    let mut input = Input32Byte::new_32byte();
    let c = input.control_mut();
    c.set_add_context_flag(0).set_add_context_flag(1);
    c.set_drop_context_flag(2).set_drop_context_flag(31);
    assert!(input.control().add_context_flag(0));
    assert!(input.control().add_context_flag(1));
    assert!(!input.control().add_context_flag(2));
    assert!(input.control().drop_context_flag(2));
    assert!(input.control().drop_context_flag(31));
    input.control_mut().clear_drop_context_flag(31).clear_add_context_flag(0);
    assert!(!input.control().drop_context_flag(31));
    assert!(!input.control().add_context_flag(0));
    let raw = input.control.into_raw();
    assert_eq!(raw[0], 1 << 2);
    assert_eq!(raw[1], 1 << 1);
}

#[test]
fn input_control_configuration_fields() {
    let mut c = InputControl::<16>::new_64byte();
    c.set_configuration_value(1).set_interface_number(2).set_alternate_setting(3);
    assert_eq!(c.configuration_value(), 1);
    assert_eq!(c.interface_number(), 2);
    assert_eq!(c.alternate_setting(), 3);
    assert_eq!(c.into_raw()[7], 0x0003_0201);
}

#[test]
fn slot_context_fields() {
    let mut input = Input::<8>::new_32byte();
    let slot = input.device_mut().slot_mut();
    slot.set_context_entries(1);
    slot.set_root_hub_port_number(3);
    slot.set_route_string(0xf_ffff).set_speed(4).set_hub();
    slot.set_slot_state(SlotState::Addressed);
    let s = input.device().slot();
    assert_eq!(s.context_entries(), 1);
    assert_eq!(s.root_hub_port_number(), 3);
    assert_eq!(s.route_string(), 0xf_ffff);
    assert_eq!(s.speed(), 4);
    assert!(s.hub());
    assert!(!s.multi_tt());
    assert_eq!(s.slot_state(), SlotState::Addressed);
    let raw = s.into_raw();
    assert_eq!(raw[0], 0xf_ffff | (4 << 20) | (1 << 26) | (1 << 27));
    assert_eq!(raw[1], 3 << 16);
    assert_eq!(raw[3], 2 << 27);
}

#[test]
fn endpoint_context_fields() {
    let mut d = Device::<16>::new_64byte();
    let ep = d.endpoint_mut(1);
    ep.set_endpoint_type(EndpointType::Control)
        .set_max_packet_size(512)
        .set_max_burst_size(0)
        .set_error_count(3)
        .set_interval(4)
        .set_average_trb_length(8)
        .set_dequeue_cycle_state();
    ep.set_endpoint_state(EndpointState::Running);
    ep.set_tr_dequeue_pointer(0x1_0000_0040);
    let e = d.endpoint(1);
    assert_eq!(e.endpoint_type(), EndpointType::Control);
    assert_eq!(e.max_packet_size(), 512);
    assert_eq!(e.error_count(), 3);
    assert_eq!(e.interval(), 4);
    assert_eq!(e.average_trb_length(), 8);
    assert_eq!(e.endpoint_state(), EndpointState::Running);
    // The Dequeue Cycle State bit keeps its value, and is read as bit 0 of the pointer.
    assert!(e.dequeue_cycle_state());
    assert_eq!(e.tr_dequeue_pointer(), 0x1_0000_0041);
    assert_eq!(e.tr_dequeue_pointer() & !0xf, 0x1_0000_0040);
    assert_eq!(d.endpoint(2).into_raw(), Endpoint::<16>::new_64byte().into_raw());
}

#[test]
fn slot_context_as_an_array() {
    let mut s = slot::Slot::new();
    s.set_context_entries(31).set_root_hub_port_number(2);
    assert_eq!(s.into_32byte()[0], 31 << 27);
    assert_eq!(s.into_32byte()[1], 2 << 16);
    let wide = s.into_64byte();
    assert_eq!(wide[0], 31 << 27);
    assert_eq!(wide[1], 2 << 16);
    assert_eq!(wide[8..], [0; 8]);
    let back = slot::Slot::from_64byte(wide);
    assert_eq!(back, s);
    assert_eq!(slot::Slot::from_32byte([7; 8]).into_32byte(), [7; 8]);
    assert_eq!(slot::Slot::default(), slot::Slot::new());
}

#[test]
fn endpoint_context_as_an_array() {
    let mut e = Byte32::new();
    e.set_mult(3)
        .set_max_primary_streams(31)
        .set_interval(255)
        .set_error_count(2)
        .set_endpoint_type(Type::BulkIn)
        .set_max_burst_size(15)
        .set_max_packet_size(1024)
        .set_dequeue_cycle_state(true);
    e.set_transfer_ring_dequeue_pointer(0xabcd_0010);
    let raw = e.into_32byte();
    assert_eq!(raw[0], (3 << 8) | (31 << 10) | (255 << 16));
    assert_eq!(raw[1], (2 << 1) | (6 << 3) | (15 << 8) | (1024 << 16));
    // The Dequeue Cycle State bit keeps its value.
    assert_eq!(raw[2], 0xabcd_0011);
    assert_eq!(raw[3], 0);
    let e = Byte64::from_raw([1; 16]);
    assert_eq!(e.into_64byte(), [1; 16]);
}

#[test]
fn context_defaults_are_empty() {
    assert_eq!(Slot::<8>::default().into_raw(), [0; 8]);
    assert_eq!(Endpoint::<16>::default().into_raw(), [0; 16]);
    assert_eq!(InputControl::<8>::default().into_raw(), [0; 8]);
    let d = Device::<8>::default();
    assert_eq!(d.slot.into_raw(), [0; 8]);
    assert_eq!(Input::<16>::default().device.endpoints[30].into_raw(), [0; 16]);
}

#[test]
fn slot_state_encodings() {
    assert_eq!(SlotState::from_u32(3), Some(SlotState::Configured));
    assert_eq!(SlotState::from_u32(4), None);
    assert_eq!(EndpointState::Error.to_u32(), 4);
    assert_eq!(EndpointType::from_u32(7), Some(EndpointType::InterruptIn));
}

#[test]
fn contexts_count_their_dwords() {
    assert_eq!(Slot::<8>::new_32byte().dword_count(), 8);
    assert_eq!(Endpoint::<16>::new_64byte().dword_count(), 16);
    assert_eq!(InputControl::<16>::new_64byte().dword_count(), 16);
}

#[test]
fn contexts_of_either_size_share_their_methods() {
    for csz in [false, true] {
        let mut s = AnySlot::new(csz);
        assert_eq!(s.dword_count(), if csz { 16 } else { 8 });
        s.set_context_entries(1).set_root_hub_port_number(3);
        s.set_slot_state(SlotState::Default);
        assert_eq!(s.context_entries(), 1);
        assert_eq!(s.root_hub_port_number(), 3);
        assert_eq!(s.slot_state(), SlotState::Default);

        let mut e = AnyEndpoint::new(csz);
        e.set_endpoint_type(EndpointType::BulkOut).set_dequeue_cycle_state();
        e.set_tr_dequeue_pointer(0x4000);
        assert_eq!(e.endpoint_type(), EndpointType::BulkOut);
        assert_eq!(e.tr_dequeue_pointer(), 0x4001);

        let mut c = AnyInputControl::new(csz);
        c.set_add_context_flag(0).set_add_context_flag(1);
        assert!(c.add_context_flag(1));
        assert!(!c.drop_context_flag(2));
    }
    let s = AnySlot::Byte64(Slot::<16>::new_64byte());
    assert_eq!(s, AnySlot::new(true));
}
