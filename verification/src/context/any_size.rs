//! Contexts whose size is known only at run time.
//!
//! The size of the contexts is given by the Context Size bit of the Capability Parameters 1
//! register. The enums of this module hold a context of either size and offer its methods.
use super::{Endpoint, EndpointState, EndpointType, InputControl, Slot, SlotState};
use crate::bits;
use vstd::prelude::*;

verus! {

/// An Input Control Context of either size: the 32-byte form holds 8 Dwords and the 64-byte form 16.
///
/// Its methods are those of [`InputControl`], with the same contracts, so that code can handle a
/// context whose size is known only at run time.
#[derive(Copy, Clone, Debug, PartialEq, Eq, Hash)]
pub enum AnyInputControl {
    /// The 32-byte form.
    Byte32(InputControl<8>),
    /// The 64-byte form.
    Byte64(InputControl<16>),
}

impl View for AnyInputControl {
    type V = Seq<u32>;

    open spec fn view(&self) -> Seq<u32> {
        match self {
            AnyInputControl::Byte32(c) => c@,
            AnyInputControl::Byte64(c) => c@,
        }
    }
}

impl AnyInputControl {
    /// Creates an empty context: the 64-byte form if `csz`, the Context Size bit of the
    /// Capability Parameters 1 register, is set, and the 32-byte form otherwise.
    pub fn new(csz: bool) -> (r: Self)
        ensures
            r@ == Seq::new(if csz { 16 } else { 8 }, |i: int| 0u32),
            csz ==> r is Byte64,
            !csz ==> r is Byte32,
    {
        if csz {
            AnyInputControl::Byte64(InputControl::new_64byte())
        } else {
            AnyInputControl::Byte32(InputControl::new_32byte())
        }
    }

    /// Returns the number of Dwords of the context: 8 or 16.
    pub fn dword_count(&self) -> (r: usize)
        ensures
            r == self@.len(),
            r == 8 || r == 16,
    {
        match self {
            AnyInputControl::Byte32(c) => c.dword_count(),
            AnyInputControl::Byte64(c) => c.dword_count(),
        }
    }

    /// Returns the `i`th Drop Context flag. `i` starts from 0.
    ///
    /// `i` must be within `2..=31`.
    pub fn drop_context_flag(self, i: usize) -> (r: bool)
        requires
            2 <= i <= 31,
        ensures
            r == bits::bit32(self@[0], i as u32),
    {
        match self {
            AnyInputControl::Byte32(c) => c.drop_context_flag(i),
            AnyInputControl::Byte64(c) => c.drop_context_flag(i),
        }
    }

    /// Sets the `i`th Drop Context flag. `i` starts from 0.
    ///
    /// `i` must be within `2..=31`.
    pub fn set_drop_context_flag(&mut self, i: usize) -> (r: &mut Self)
        requires
            2 <= i <= 31,
        ensures
            (*r)@ == old(self)@.update(0, bits::with_bit32(old(self)@[0], i as u32, true)),
            *final(self) == *final(r),
    {
        match self {
            AnyInputControl::Byte32(c) => {
                c.set_drop_context_flag(i);
            },
            AnyInputControl::Byte64(c) => {
                c.set_drop_context_flag(i);
            },
        }
        self
    }

    /// Clears the `i`th Drop Context flag. `i` starts from 0.
    ///
    /// `i` must be within `2..=31`.
    pub fn clear_drop_context_flag(&mut self, i: usize) -> (r: &mut Self)
        requires
            2 <= i <= 31,
        ensures
            (*r)@ == old(self)@.update(0, bits::with_bit32(old(self)@[0], i as u32, false)),
            *final(self) == *final(r),
    {
        match self {
            AnyInputControl::Byte32(c) => {
                c.clear_drop_context_flag(i);
            },
            AnyInputControl::Byte64(c) => {
                c.clear_drop_context_flag(i);
            },
        }
        self
    }

    /// Returns the `i`th Add Context flag. `i` starts from 0.
    ///
    /// `i` must be at most 31.
    pub fn add_context_flag(self, i: usize) -> (r: bool)
        requires
            i <= 31,
        ensures
            r == bits::bit32(self@[1], i as u32),
    {
        match self {
            AnyInputControl::Byte32(c) => c.add_context_flag(i),
            AnyInputControl::Byte64(c) => c.add_context_flag(i),
        }
    }

    /// Sets the `i`th Add Context flag. `i` starts from 0.
    ///
    /// `i` must be at most 31.
    pub fn set_add_context_flag(&mut self, i: usize) -> (r: &mut Self)
        requires
            i <= 31,
        ensures
            (*r)@ == old(self)@.update(1, bits::with_bit32(old(self)@[1], i as u32, true)),
            *final(self) == *final(r),
    {
        match self {
            AnyInputControl::Byte32(c) => {
                c.set_add_context_flag(i);
            },
            AnyInputControl::Byte64(c) => {
                c.set_add_context_flag(i);
            },
        }
        self
    }

    /// Clears the `i`th Add Context flag. `i` starts from 0.
    ///
    /// `i` must be at most 31.
    pub fn clear_add_context_flag(&mut self, i: usize) -> (r: &mut Self)
        requires
            i <= 31,
        ensures
            (*r)@ == old(self)@.update(1, bits::with_bit32(old(self)@[1], i as u32, false)),
            *final(self) == *final(r),
    {
        match self {
            AnyInputControl::Byte32(c) => {
                c.clear_add_context_flag(i);
            },
            AnyInputControl::Byte64(c) => {
                c.clear_add_context_flag(i);
            },
        }
        self
    }

    /// Returns the value of the Configuration Value field.
    pub fn configuration_value(self) -> (r: u8)
        ensures
            r == bits::field32(self@[7], 0, 8),
    {
        match self {
            AnyInputControl::Byte32(c) => c.configuration_value(),
            AnyInputControl::Byte64(c) => c.configuration_value(),
        }
    }

    /// Sets the value of the Configuration Value field.
    pub fn set_configuration_value(&mut self, value: u8) -> (r: &mut Self)
        ensures
            (*r)@ == old(self)@.update(7, bits::with_field32(old(self)@[7], 0, 8, value as u32)),
            *final(self) == *final(r),
    {
        match self {
            AnyInputControl::Byte32(c) => {
                c.set_configuration_value(value);
            },
            AnyInputControl::Byte64(c) => {
                c.set_configuration_value(value);
            },
        }
        self
    }

    /// Returns the value of the Interface Number field.
    pub fn interface_number(self) -> (r: u8)
        ensures
            r == bits::field32(self@[7], 8, 8),
    {
        match self {
            AnyInputControl::Byte32(c) => c.interface_number(),
            AnyInputControl::Byte64(c) => c.interface_number(),
        }
    }

    /// Sets the value of the Interface Number field.
    pub fn set_interface_number(&mut self, value: u8) -> (r: &mut Self)
        ensures
            (*r)@ == old(self)@.update(7, bits::with_field32(old(self)@[7], 8, 8, value as u32)),
            *final(self) == *final(r),
    {
        match self {
            AnyInputControl::Byte32(c) => {
                c.set_interface_number(value);
            },
            AnyInputControl::Byte64(c) => {
                c.set_interface_number(value);
            },
        }
        self
    }

    /// Returns the value of the Alternate Setting field.
    pub fn alternate_setting(self) -> (r: u8)
        ensures
            r == bits::field32(self@[7], 16, 8),
    {
        match self {
            AnyInputControl::Byte32(c) => c.alternate_setting(),
            AnyInputControl::Byte64(c) => c.alternate_setting(),
        }
    }

    /// Sets the value of the Alternate Setting field.
    pub fn set_alternate_setting(&mut self, value: u8) -> (r: &mut Self)
        ensures
            (*r)@ == old(self)@.update(7, bits::with_field32(old(self)@[7], 16, 8, value as u32)),
            *final(self) == *final(r),
    {
        match self {
            AnyInputControl::Byte32(c) => {
                c.set_alternate_setting(value);
            },
            AnyInputControl::Byte64(c) => {
                c.set_alternate_setting(value);
            },
        }
        self
    }
}

/// A Slot Context of either size: the 32-byte form holds 8 Dwords and the 64-byte form 16.
///
/// Its methods are those of [`Slot`], with the same contracts, so that code can handle a
/// context whose size is known only at run time.
#[derive(Copy, Clone, Debug, PartialEq, Eq, Hash)]
pub enum AnySlot {
    /// The 32-byte form.
    Byte32(Slot<8>),
    /// The 64-byte form.
    Byte64(Slot<16>),
}

impl View for AnySlot {
    type V = Seq<u32>;

    open spec fn view(&self) -> Seq<u32> {
        match self {
            AnySlot::Byte32(c) => c@,
            AnySlot::Byte64(c) => c@,
        }
    }
}

impl AnySlot {
    /// Creates an empty context: the 64-byte form if `csz`, the Context Size bit of the
    /// Capability Parameters 1 register, is set, and the 32-byte form otherwise.
    pub fn new(csz: bool) -> (r: Self)
        ensures
            r@ == Seq::new(if csz { 16 } else { 8 }, |i: int| 0u32),
            csz ==> r is Byte64,
            !csz ==> r is Byte32,
    {
        if csz {
            AnySlot::Byte64(Slot::new_64byte())
        } else {
            AnySlot::Byte32(Slot::new_32byte())
        }
    }

    /// Returns the number of Dwords of the context: 8 or 16.
    pub fn dword_count(&self) -> (r: usize)
        ensures
            r == self@.len(),
            r == 8 || r == 16,
    {
        match self {
            AnySlot::Byte32(c) => c.dword_count(),
            AnySlot::Byte64(c) => c.dword_count(),
        }
    }

    /// Returns the value of the Route String field.
    pub fn route_string(self) -> (r: u32)
        ensures
            r == bits::field32(self@[0], 0, 20),
    {
        match self {
            AnySlot::Byte32(c) => c.route_string(),
            AnySlot::Byte64(c) => c.route_string(),
        }
    }

    /// Sets the value of the Route String field.
    ///
    /// The value must fit in the 20 bits of the field.
    pub fn set_route_string(&mut self, value: u32) -> (r: &mut Self)
        requires
            value < 1048576,
        ensures
            (*r)@ == old(self)@.update(0, bits::with_field32(old(self)@[0], 0, 20, value)),
            *final(self) == *final(r),
    {
        match self {
            AnySlot::Byte32(c) => {
                c.set_route_string(value);
            },
            AnySlot::Byte64(c) => {
                c.set_route_string(value);
            },
        }
        self
    }

    /// Returns the value of the Speed field.
    pub fn speed(self) -> (r: u8)
        ensures
            r == bits::field32(self@[0], 20, 4),
    {
        match self {
            AnySlot::Byte32(c) => c.speed(),
            AnySlot::Byte64(c) => c.speed(),
        }
    }

    /// Sets the value of the Speed field.
    ///
    /// The value must fit in the 4 bits of the field.
    pub fn set_speed(&mut self, value: u8) -> (r: &mut Self)
        requires
            value < 16,
        ensures
            (*r)@ == old(self)@.update(0, bits::with_field32(old(self)@[0], 20, 4, value as u32)),
            *final(self) == *final(r),
    {
        match self {
            AnySlot::Byte32(c) => {
                c.set_speed(value);
            },
            AnySlot::Byte64(c) => {
                c.set_speed(value);
            },
        }
        self
    }

    /// Returns the Multi-TT bit.
    pub fn multi_tt(self) -> (r: bool)
        ensures
            r == bits::bit32(self@[0], 25),
    {
        match self {
            AnySlot::Byte32(c) => c.multi_tt(),
            AnySlot::Byte64(c) => c.multi_tt(),
        }
    }

    /// Sets the Multi-TT bit.
    pub fn set_multi_tt(&mut self) -> (r: &mut Self)
        ensures
            (*r)@ == old(self)@.update(0, bits::with_bit32(old(self)@[0], 25, true)),
            *final(self) == *final(r),
    {
        match self {
            AnySlot::Byte32(c) => {
                c.set_multi_tt();
            },
            AnySlot::Byte64(c) => {
                c.set_multi_tt();
            },
        }
        self
    }

    /// Clears the Multi-TT bit.
    pub fn clear_multi_tt(&mut self) -> (r: &mut Self)
        ensures
            (*r)@ == old(self)@.update(0, bits::with_bit32(old(self)@[0], 25, false)),
            *final(self) == *final(r),
    {
        match self {
            AnySlot::Byte32(c) => {
                c.clear_multi_tt();
            },
            AnySlot::Byte64(c) => {
                c.clear_multi_tt();
            },
        }
        self
    }

    /// Returns the Hub bit.
    pub fn hub(self) -> (r: bool)
        ensures
            r == bits::bit32(self@[0], 26),
    {
        match self {
            AnySlot::Byte32(c) => c.hub(),
            AnySlot::Byte64(c) => c.hub(),
        }
    }

    /// Sets the Hub bit.
    pub fn set_hub(&mut self) -> (r: &mut Self)
        ensures
            (*r)@ == old(self)@.update(0, bits::with_bit32(old(self)@[0], 26, true)),
            *final(self) == *final(r),
    {
        match self {
            AnySlot::Byte32(c) => {
                c.set_hub();
            },
            AnySlot::Byte64(c) => {
                c.set_hub();
            },
        }
        self
    }

    /// Clears the Hub bit.
    pub fn clear_hub(&mut self) -> (r: &mut Self)
        ensures
            (*r)@ == old(self)@.update(0, bits::with_bit32(old(self)@[0], 26, false)),
            *final(self) == *final(r),
    {
        match self {
            AnySlot::Byte32(c) => {
                c.clear_hub();
            },
            AnySlot::Byte64(c) => {
                c.clear_hub();
            },
        }
        self
    }

    /// Returns the value of the Context Entries field.
    pub fn context_entries(self) -> (r: u8)
        ensures
            r == bits::field32(self@[0], 27, 5),
    {
        match self {
            AnySlot::Byte32(c) => c.context_entries(),
            AnySlot::Byte64(c) => c.context_entries(),
        }
    }

    /// Sets the value of the Context Entries field.
    ///
    /// The value must fit in the 5 bits of the field.
    pub fn set_context_entries(&mut self, value: u8) -> (r: &mut Self)
        requires
            value < 32,
        ensures
            (*r)@ == old(self)@.update(0, bits::with_field32(old(self)@[0], 27, 5, value as u32)),
            *final(self) == *final(r),
    {
        match self {
            AnySlot::Byte32(c) => {
                c.set_context_entries(value);
            },
            AnySlot::Byte64(c) => {
                c.set_context_entries(value);
            },
        }
        self
    }

    /// Returns the value of the Max Exit Latency field.
    pub fn max_exit_latency(self) -> (r: u16)
        ensures
            r == bits::field32(self@[1], 0, 16),
    {
        match self {
            AnySlot::Byte32(c) => c.max_exit_latency(),
            AnySlot::Byte64(c) => c.max_exit_latency(),
        }
    }

    /// Sets the value of the Max Exit Latency field.
    pub fn set_max_exit_latency(&mut self, value: u16) -> (r: &mut Self)
        ensures
            (*r)@ == old(self)@.update(1, bits::with_field32(old(self)@[1], 0, 16, value as u32)),
            *final(self) == *final(r),
    {
        match self {
            AnySlot::Byte32(c) => {
                c.set_max_exit_latency(value);
            },
            AnySlot::Byte64(c) => {
                c.set_max_exit_latency(value);
            },
        }
        self
    }

    /// Returns the value of the Root Hub Port Number field.
    pub fn root_hub_port_number(self) -> (r: u8)
        ensures
            r == bits::field32(self@[1], 16, 8),
    {
        match self {
            AnySlot::Byte32(c) => c.root_hub_port_number(),
            AnySlot::Byte64(c) => c.root_hub_port_number(),
        }
    }

    /// Sets the value of the Root Hub Port Number field.
    pub fn set_root_hub_port_number(&mut self, value: u8) -> (r: &mut Self)
        ensures
            (*r)@ == old(self)@.update(1, bits::with_field32(old(self)@[1], 16, 8, value as u32)),
            *final(self) == *final(r),
    {
        match self {
            AnySlot::Byte32(c) => {
                c.set_root_hub_port_number(value);
            },
            AnySlot::Byte64(c) => {
                c.set_root_hub_port_number(value);
            },
        }
        self
    }

    /// Returns the value of the Number of Ports field.
    pub fn number_of_ports(self) -> (r: u8)
        ensures
            r == bits::field32(self@[1], 24, 8),
    {
        match self {
            AnySlot::Byte32(c) => c.number_of_ports(),
            AnySlot::Byte64(c) => c.number_of_ports(),
        }
    }

    /// Sets the value of the Number of Ports field.
    pub fn set_number_of_ports(&mut self, value: u8) -> (r: &mut Self)
        ensures
            (*r)@ == old(self)@.update(1, bits::with_field32(old(self)@[1], 24, 8, value as u32)),
            *final(self) == *final(r),
    {
        match self {
            AnySlot::Byte32(c) => {
                c.set_number_of_ports(value);
            },
            AnySlot::Byte64(c) => {
                c.set_number_of_ports(value);
            },
        }
        self
    }

    /// Returns the value of the Parent Hub Slot ID field.
    pub fn parent_hub_slot_id(self) -> (r: u8)
        ensures
            r == bits::field32(self@[2], 0, 8),
    {
        match self {
            AnySlot::Byte32(c) => c.parent_hub_slot_id(),
            AnySlot::Byte64(c) => c.parent_hub_slot_id(),
        }
    }

    /// Sets the value of the Parent Hub Slot ID field.
    pub fn set_parent_hub_slot_id(&mut self, value: u8) -> (r: &mut Self)
        ensures
            (*r)@ == old(self)@.update(2, bits::with_field32(old(self)@[2], 0, 8, value as u32)),
            *final(self) == *final(r),
    {
        match self {
            AnySlot::Byte32(c) => {
                c.set_parent_hub_slot_id(value);
            },
            AnySlot::Byte64(c) => {
                c.set_parent_hub_slot_id(value);
            },
        }
        self
    }

    /// Returns the value of the Parent Port Number field.
    pub fn parent_port_number(self) -> (r: u8)
        ensures
            r == bits::field32(self@[2], 8, 8),
    {
        match self {
            AnySlot::Byte32(c) => c.parent_port_number(),
            AnySlot::Byte64(c) => c.parent_port_number(),
        }
    }

    /// Sets the value of the Parent Port Number field.
    pub fn set_parent_port_number(&mut self, value: u8) -> (r: &mut Self)
        ensures
            (*r)@ == old(self)@.update(2, bits::with_field32(old(self)@[2], 8, 8, value as u32)),
            *final(self) == *final(r),
    {
        match self {
            AnySlot::Byte32(c) => {
                c.set_parent_port_number(value);
            },
            AnySlot::Byte64(c) => {
                c.set_parent_port_number(value);
            },
        }
        self
    }

    /// Returns the value of the TT Think Time field.
    pub fn tt_think_time(self) -> (r: u8)
        ensures
            r == bits::field32(self@[2], 16, 2),
    {
        match self {
            AnySlot::Byte32(c) => c.tt_think_time(),
            AnySlot::Byte64(c) => c.tt_think_time(),
        }
    }

    /// Sets the value of the TT Think Time field.
    ///
    /// The value must fit in the 2 bits of the field.
    pub fn set_tt_think_time(&mut self, value: u8) -> (r: &mut Self)
        requires
            value < 4,
        ensures
            (*r)@ == old(self)@.update(2, bits::with_field32(old(self)@[2], 16, 2, value as u32)),
            *final(self) == *final(r),
    {
        match self {
            AnySlot::Byte32(c) => {
                c.set_tt_think_time(value);
            },
            AnySlot::Byte64(c) => {
                c.set_tt_think_time(value);
            },
        }
        self
    }

    /// Returns the value of the Interrupter Target field.
    pub fn interrupter_target(self) -> (r: u16)
        ensures
            r == bits::field32(self@[2], 22, 10),
    {
        match self {
            AnySlot::Byte32(c) => c.interrupter_target(),
            AnySlot::Byte64(c) => c.interrupter_target(),
        }
    }

    /// Sets the value of the Interrupter Target field.
    ///
    /// The value must fit in the 10 bits of the field.
    pub fn set_interrupter_target(&mut self, value: u16) -> (r: &mut Self)
        requires
            value < 1024,
        ensures
            (*r)@ == old(self)@.update(2, bits::with_field32(old(self)@[2], 22, 10, value as u32)),
            *final(self) == *final(r),
    {
        match self {
            AnySlot::Byte32(c) => {
                c.set_interrupter_target(value);
            },
            AnySlot::Byte64(c) => {
                c.set_interrupter_target(value);
            },
        }
        self
    }

    /// Returns the value of the USB Device Address field.
    pub fn usb_device_address(self) -> (r: u8)
        ensures
            r == bits::field32(self@[3], 0, 8),
    {
        match self {
            AnySlot::Byte32(c) => c.usb_device_address(),
            AnySlot::Byte64(c) => c.usb_device_address(),
        }
    }

    /// Sets the value of the USB Device Address field.
    pub fn set_usb_device_address(&mut self, value: u8) -> (r: &mut Self)
        ensures
            (*r)@ == old(self)@.update(3, bits::with_field32(old(self)@[3], 0, 8, value as u32)),
            *final(self) == *final(r),
    {
        match self {
            AnySlot::Byte32(c) => {
                c.set_usb_device_address(value);
            },
            AnySlot::Byte64(c) => {
                c.set_usb_device_address(value);
            },
        }
        self
    }

    /// Returns Slot State.
    ///
    /// The field must not hold a reserved value.
    pub fn slot_state(self) -> (r: SlotState)
        requires
            SlotState::decode(bits::field32(self@[3], 27, 5) as u32) is Some,
        ensures
            SlotState::decode(bits::field32(self@[3], 27, 5) as u32) == Some(r),
    {
        match self {
            AnySlot::Byte32(c) => c.slot_state(),
            AnySlot::Byte64(c) => c.slot_state(),
        }
    }

    /// Sets Slot State.
    pub fn set_slot_state(&mut self, state: SlotState) -> (r: &mut Self)
        ensures
            (*r)@ == old(self)@.update(3, bits::with_field32(old(self)@[3], 27, 5, state.encoding())),
            *final(self) == *final(r),
    {
        match self {
            AnySlot::Byte32(c) => {
                c.set_slot_state(state);
            },
            AnySlot::Byte64(c) => {
                c.set_slot_state(state);
            },
        }
        self
    }
}

/// An Endpoint Context of either size: the 32-byte form holds 8 Dwords and the 64-byte form 16.
///
/// Its methods are those of [`Endpoint`], with the same contracts, so that code can handle a
/// context whose size is known only at run time.
#[derive(Copy, Clone, Debug, PartialEq, Eq, Hash)]
pub enum AnyEndpoint {
    /// The 32-byte form.
    Byte32(Endpoint<8>),
    /// The 64-byte form.
    Byte64(Endpoint<16>),
}

impl View for AnyEndpoint {
    type V = Seq<u32>;

    open spec fn view(&self) -> Seq<u32> {
        match self {
            AnyEndpoint::Byte32(c) => c@,
            AnyEndpoint::Byte64(c) => c@,
        }
    }
}

impl AnyEndpoint {
    /// Creates an empty context: the 64-byte form if `csz`, the Context Size bit of the
    /// Capability Parameters 1 register, is set, and the 32-byte form otherwise.
    pub fn new(csz: bool) -> (r: Self)
        ensures
            r@ == Seq::new(if csz { 16 } else { 8 }, |i: int| 0u32),
            csz ==> r is Byte64,
            !csz ==> r is Byte32,
    {
        if csz {
            AnyEndpoint::Byte64(Endpoint::new_64byte())
        } else {
            AnyEndpoint::Byte32(Endpoint::new_32byte())
        }
    }

    /// Returns the number of Dwords of the context: 8 or 16.
    pub fn dword_count(&self) -> (r: usize)
        ensures
            r == self@.len(),
            r == 8 || r == 16,
    {
        match self {
            AnyEndpoint::Byte32(c) => c.dword_count(),
            AnyEndpoint::Byte64(c) => c.dword_count(),
        }
    }

    /// Returns Endpoint State.
    ///
    /// The field must not hold a reserved value.
    pub fn endpoint_state(self) -> (r: EndpointState)
        requires
            EndpointState::decode(bits::field32(self@[0], 0, 3) as u32) is Some,
        ensures
            EndpointState::decode(bits::field32(self@[0], 0, 3) as u32) == Some(r),
    {
        match self {
            AnyEndpoint::Byte32(c) => c.endpoint_state(),
            AnyEndpoint::Byte64(c) => c.endpoint_state(),
        }
    }

    /// Sets Endpoint State.
    pub fn set_endpoint_state(&mut self, s: EndpointState) -> (r: &mut Self)
        ensures
            (*r)@ == old(self)@.update(0, bits::with_field32(old(self)@[0], 0, 3, s.encoding())),
            *final(self) == *final(r),
    {
        match self {
            AnyEndpoint::Byte32(c) => {
                c.set_endpoint_state(s);
            },
            AnyEndpoint::Byte64(c) => {
                c.set_endpoint_state(s);
            },
        }
        self
    }

    /// Returns the value of the Mult field.
    pub fn mult(self) -> (r: u8)
        ensures
            r == bits::field32(self@[0], 8, 2),
    {
        match self {
            AnyEndpoint::Byte32(c) => c.mult(),
            AnyEndpoint::Byte64(c) => c.mult(),
        }
    }

    /// Sets the value of the Mult field.
    ///
    /// The value must fit in the 2 bits of the field.
    pub fn set_mult(&mut self, value: u8) -> (r: &mut Self)
        requires
            value < 4,
        ensures
            (*r)@ == old(self)@.update(0, bits::with_field32(old(self)@[0], 8, 2, value as u32)),
            *final(self) == *final(r),
    {
        match self {
            AnyEndpoint::Byte32(c) => {
                c.set_mult(value);
            },
            AnyEndpoint::Byte64(c) => {
                c.set_mult(value);
            },
        }
        self
    }

    /// Returns the value of the Max Primary Streams field.
    pub fn max_primary_streams(self) -> (r: u8)
        ensures
            r == bits::field32(self@[0], 10, 5),
    {
        match self {
            AnyEndpoint::Byte32(c) => c.max_primary_streams(),
            AnyEndpoint::Byte64(c) => c.max_primary_streams(),
        }
    }

    /// Sets the value of the Max Primary Streams field.
    ///
    /// The value must fit in the 5 bits of the field.
    pub fn set_max_primary_streams(&mut self, value: u8) -> (r: &mut Self)
        requires
            value < 32,
        ensures
            (*r)@ == old(self)@.update(0, bits::with_field32(old(self)@[0], 10, 5, value as u32)),
            *final(self) == *final(r),
    {
        match self {
            AnyEndpoint::Byte32(c) => {
                c.set_max_primary_streams(value);
            },
            AnyEndpoint::Byte64(c) => {
                c.set_max_primary_streams(value);
            },
        }
        self
    }

    /// Returns the Linear Stream Array bit.
    pub fn linear_stream_array(self) -> (r: bool)
        ensures
            r == bits::bit32(self@[0], 15),
    {
        match self {
            AnyEndpoint::Byte32(c) => c.linear_stream_array(),
            AnyEndpoint::Byte64(c) => c.linear_stream_array(),
        }
    }

    /// Sets the Linear Stream Array bit.
    pub fn set_linear_stream_array(&mut self) -> (r: &mut Self)
        ensures
            (*r)@ == old(self)@.update(0, bits::with_bit32(old(self)@[0], 15, true)),
            *final(self) == *final(r),
    {
        match self {
            AnyEndpoint::Byte32(c) => {
                c.set_linear_stream_array();
            },
            AnyEndpoint::Byte64(c) => {
                c.set_linear_stream_array();
            },
        }
        self
    }

    /// Clears the Linear Stream Array bit.
    pub fn clear_linear_stream_array(&mut self) -> (r: &mut Self)
        ensures
            (*r)@ == old(self)@.update(0, bits::with_bit32(old(self)@[0], 15, false)),
            *final(self) == *final(r),
    {
        match self {
            AnyEndpoint::Byte32(c) => {
                c.clear_linear_stream_array();
            },
            AnyEndpoint::Byte64(c) => {
                c.clear_linear_stream_array();
            },
        }
        self
    }

    /// Returns the value of the Interval field.
    pub fn interval(self) -> (r: u8)
        ensures
            r == bits::field32(self@[0], 16, 8),
    {
        match self {
            AnyEndpoint::Byte32(c) => c.interval(),
            AnyEndpoint::Byte64(c) => c.interval(),
        }
    }

    /// Sets the value of the Interval field.
    pub fn set_interval(&mut self, value: u8) -> (r: &mut Self)
        ensures
            (*r)@ == old(self)@.update(0, bits::with_field32(old(self)@[0], 16, 8, value as u32)),
            *final(self) == *final(r),
    {
        match self {
            AnyEndpoint::Byte32(c) => {
                c.set_interval(value);
            },
            AnyEndpoint::Byte64(c) => {
                c.set_interval(value);
            },
        }
        self
    }

    /// Returns the value of the Max Endpoint Service Time Interval Payload High field.
    pub fn max_endpoint_service_time_interval_payload_high(self) -> (r: u8)
        ensures
            r == bits::field32(self@[0], 24, 8),
    {
        match self {
            AnyEndpoint::Byte32(c) => c.max_endpoint_service_time_interval_payload_high(),
            AnyEndpoint::Byte64(c) => c.max_endpoint_service_time_interval_payload_high(),
        }
    }

    /// Sets the value of the Max Endpoint Service Time Interval Payload High field.
    pub fn set_max_endpoint_service_time_interval_payload_high(&mut self, value: u8) -> (r: &mut Self)
        ensures
            (*r)@ == old(self)@.update(0, bits::with_field32(old(self)@[0], 24, 8, value as u32)),
            *final(self) == *final(r),
    {
        match self {
            AnyEndpoint::Byte32(c) => {
                c.set_max_endpoint_service_time_interval_payload_high(value);
            },
            AnyEndpoint::Byte64(c) => {
                c.set_max_endpoint_service_time_interval_payload_high(value);
            },
        }
        self
    }

    /// Returns the value of the Error Count field.
    pub fn error_count(self) -> (r: u8)
        ensures
            r == bits::field32(self@[1], 1, 2),
    {
        match self {
            AnyEndpoint::Byte32(c) => c.error_count(),
            AnyEndpoint::Byte64(c) => c.error_count(),
        }
    }

    /// Sets the value of the Error Count field.
    ///
    /// The value must fit in the 2 bits of the field.
    pub fn set_error_count(&mut self, value: u8) -> (r: &mut Self)
        requires
            value < 4,
        ensures
            (*r)@ == old(self)@.update(1, bits::with_field32(old(self)@[1], 1, 2, value as u32)),
            *final(self) == *final(r),
    {
        match self {
            AnyEndpoint::Byte32(c) => {
                c.set_error_count(value);
            },
            AnyEndpoint::Byte64(c) => {
                c.set_error_count(value);
            },
        }
        self
    }

    /// Returns Endpoint Type.
    pub fn endpoint_type(self) -> (r: EndpointType)
        ensures
            EndpointType::decode(bits::field32(self@[1], 3, 3) as u32) == Some(r),
    {
        match self {
            AnyEndpoint::Byte32(c) => c.endpoint_type(),
            AnyEndpoint::Byte64(c) => c.endpoint_type(),
        }
    }

    /// Sets Endpoint Type.
    pub fn set_endpoint_type(&mut self, t: EndpointType) -> (r: &mut Self)
        ensures
            (*r)@ == old(self)@.update(1, bits::with_field32(old(self)@[1], 3, 3, t.encoding())),
            *final(self) == *final(r),
    {
        match self {
            AnyEndpoint::Byte32(c) => {
                c.set_endpoint_type(t);
            },
            AnyEndpoint::Byte64(c) => {
                c.set_endpoint_type(t);
            },
        }
        self
    }

    /// Returns the Host Initiate Disable bit.
    pub fn host_initiate_disable(self) -> (r: bool)
        ensures
            r == bits::bit32(self@[1], 7),
    {
        match self {
            AnyEndpoint::Byte32(c) => c.host_initiate_disable(),
            AnyEndpoint::Byte64(c) => c.host_initiate_disable(),
        }
    }

    /// Sets the Host Initiate Disable bit.
    pub fn set_host_initiate_disable(&mut self) -> (r: &mut Self)
        ensures
            (*r)@ == old(self)@.update(1, bits::with_bit32(old(self)@[1], 7, true)),
            *final(self) == *final(r),
    {
        match self {
            AnyEndpoint::Byte32(c) => {
                c.set_host_initiate_disable();
            },
            AnyEndpoint::Byte64(c) => {
                c.set_host_initiate_disable();
            },
        }
        self
    }

    /// Clears the Host Initiate Disable bit.
    pub fn clear_host_initiate_disable(&mut self) -> (r: &mut Self)
        ensures
            (*r)@ == old(self)@.update(1, bits::with_bit32(old(self)@[1], 7, false)),
            *final(self) == *final(r),
    {
        match self {
            AnyEndpoint::Byte32(c) => {
                c.clear_host_initiate_disable();
            },
            AnyEndpoint::Byte64(c) => {
                c.clear_host_initiate_disable();
            },
        }
        self
    }

    /// Returns the value of the Max Burst Size field.
    pub fn max_burst_size(self) -> (r: u8)
        ensures
            r == bits::field32(self@[1], 8, 8),
    {
        match self {
            AnyEndpoint::Byte32(c) => c.max_burst_size(),
            AnyEndpoint::Byte64(c) => c.max_burst_size(),
        }
    }

    /// Sets the value of the Max Burst Size field.
    pub fn set_max_burst_size(&mut self, value: u8) -> (r: &mut Self)
        ensures
            (*r)@ == old(self)@.update(1, bits::with_field32(old(self)@[1], 8, 8, value as u32)),
            *final(self) == *final(r),
    {
        match self {
            AnyEndpoint::Byte32(c) => {
                c.set_max_burst_size(value);
            },
            AnyEndpoint::Byte64(c) => {
                c.set_max_burst_size(value);
            },
        }
        self
    }

    /// Returns the value of the Max Packet Size field.
    pub fn max_packet_size(self) -> (r: u16)
        ensures
            r == bits::field32(self@[1], 16, 16),
    {
        match self {
            AnyEndpoint::Byte32(c) => c.max_packet_size(),
            AnyEndpoint::Byte64(c) => c.max_packet_size(),
        }
    }

    /// Sets the value of the Max Packet Size field.
    pub fn set_max_packet_size(&mut self, value: u16) -> (r: &mut Self)
        ensures
            (*r)@ == old(self)@.update(1, bits::with_field32(old(self)@[1], 16, 16, value as u32)),
            *final(self) == *final(r),
    {
        match self {
            AnyEndpoint::Byte32(c) => {
                c.set_max_packet_size(value);
            },
            AnyEndpoint::Byte64(c) => {
                c.set_max_packet_size(value);
            },
        }
        self
    }

    /// Returns the Dequeue Cycle State bit.
    pub fn dequeue_cycle_state(self) -> (r: bool)
        ensures
            r == bits::bit32(self@[2], 0),
    {
        match self {
            AnyEndpoint::Byte32(c) => c.dequeue_cycle_state(),
            AnyEndpoint::Byte64(c) => c.dequeue_cycle_state(),
        }
    }

    /// Sets the Dequeue Cycle State bit.
    pub fn set_dequeue_cycle_state(&mut self) -> (r: &mut Self)
        ensures
            (*r)@ == old(self)@.update(2, bits::with_bit32(old(self)@[2], 0, true)),
            *final(self) == *final(r),
    {
        match self {
            AnyEndpoint::Byte32(c) => {
                c.set_dequeue_cycle_state();
            },
            AnyEndpoint::Byte64(c) => {
                c.set_dequeue_cycle_state();
            },
        }
        self
    }

    /// Clears the Dequeue Cycle State bit.
    pub fn clear_dequeue_cycle_state(&mut self) -> (r: &mut Self)
        ensures
            (*r)@ == old(self)@.update(2, bits::with_bit32(old(self)@[2], 0, false)),
            *final(self) == *final(r),
    {
        match self {
            AnyEndpoint::Byte32(c) => {
                c.clear_dequeue_cycle_state();
            },
            AnyEndpoint::Byte64(c) => {
                c.clear_dequeue_cycle_state();
            },
        }
        self
    }

    /// Returns the TR Dequeue Pointer.
    pub fn tr_dequeue_pointer(self) -> (r: u64)
        ensures
            r == bits::join64(self@[2], self@[3]),
    {
        match self {
            AnyEndpoint::Byte32(c) => c.tr_dequeue_pointer(),
            AnyEndpoint::Byte64(c) => c.tr_dequeue_pointer(),
        }
    }

    /// Sets the TR Dequeue Pointer.
    ///
    /// The pointer must be 64-byte aligned. The low 4 bits of the third Dword, among them the
    /// Dequeue Cycle State bit, keep their value.
    pub fn set_tr_dequeue_pointer(&mut self, a: u64) -> (r: &mut Self)
        requires
            a % 64 == 0,
        ensures
            (*r)@ == old(self)@.update(2, bits::with_high32(old(self)@[2], 4, bits::low32(a))).update(
                3,
                bits::high32(a),
            ),
            *final(self) == *final(r),
    {
        match self {
            AnyEndpoint::Byte32(c) => {
                c.set_tr_dequeue_pointer(a);
            },
            AnyEndpoint::Byte64(c) => {
                c.set_tr_dequeue_pointer(a);
            },
        }
        self
    }

    /// Returns the value of the Average TRB Length field.
    pub fn average_trb_length(self) -> (r: u16)
        ensures
            r == bits::field32(self@[4], 0, 16),
    {
        match self {
            AnyEndpoint::Byte32(c) => c.average_trb_length(),
            AnyEndpoint::Byte64(c) => c.average_trb_length(),
        }
    }

    /// Sets the value of the Average TRB Length field.
    pub fn set_average_trb_length(&mut self, value: u16) -> (r: &mut Self)
        ensures
            (*r)@ == old(self)@.update(4, bits::with_field32(old(self)@[4], 0, 16, value as u32)),
            *final(self) == *final(r),
    {
        match self {
            AnyEndpoint::Byte32(c) => {
                c.set_average_trb_length(value);
            },
            AnyEndpoint::Byte64(c) => {
                c.set_average_trb_length(value);
            },
        }
        self
    }

    /// Returns the value of the Max Endpoint Service Time Interval Payload Low field.
    pub fn max_endpoint_service_time_interval_payload_low(self) -> (r: u16)
        ensures
            r == bits::field32(self@[4], 16, 16),
    {
        match self {
            AnyEndpoint::Byte32(c) => c.max_endpoint_service_time_interval_payload_low(),
            AnyEndpoint::Byte64(c) => c.max_endpoint_service_time_interval_payload_low(),
        }
    }

    /// Sets the value of the Max Endpoint Service Time Interval Payload Low field.
    pub fn set_max_endpoint_service_time_interval_payload_low(&mut self, value: u16) -> (r: &mut Self)
        ensures
            (*r)@ == old(self)@.update(4, bits::with_field32(old(self)@[4], 16, 16, value as u32)),
            *final(self) == *final(r),
    {
        match self {
            AnyEndpoint::Byte32(c) => {
                c.set_max_endpoint_service_time_interval_payload_low(value);
            },
            AnyEndpoint::Byte64(c) => {
                c.set_max_endpoint_service_time_interval_payload_low(value);
            },
        }
        self
    }
}

} // verus!
