//! Event TRBs.
use crate::bits;
use vstd::prelude::*;

verus! {

/// The TRB Completion Codes.
///
/// The description of each error is quoted from eXtensible Host Controller Interface for Universal
/// Serial Bus (xHCI) Requirements Specification May 2019 Revision 1.2, Section 6.4.5, Table 6-90.
/// Refer to this specification for more detail.
#[derive(Copy, Clone, PartialEq, Eq, Structural, PartialOrd, Ord, Hash, Debug)]
#[non_exhaustive]
pub enum CompletionCode {
    /// Indicates that the Completion Code field has not been updated by the TRB producer.
    Invalid,
    /// Indicates successful completion of the TRB operation.
    Success,
    /// Indicates that the Host Controller is unable to keep up the reception of incoming data
    /// (overrun) or is unable to supply data fast enough during transmission (underrun).
    DataBufferError,
    /// Asserted when "babbling" is detected during the transaction generated by this TRB.
    BabbleDetectedError,
    /// Asserted in the case where the host did not receive a valid response from the device.
    UsbTransactionError,
    /// Asserted when a TRB parameter error condition is detected in a TRB.
    TrbError,
    /// Asserted when a Stall condition is detected for a TRB.
    StallError,
    /// Asserted by a Configure Endpoint Command or an Address Device Command if there are not
    /// adequate xHC resources available to successfully complete the command.
    ResourceError,
    /// Asserted by a Configure Endpoint Command if periodic endpoints are declared and the xHC is
    /// not able to allocate the required Bandwidth.
    BandwidthError,
    /// Asserted if a adding one more device would result in the host controller to exceed the
    /// maximum Number of Device Slots for this implementation.
    NoSlotsAvailableError,
    /// Asserted if a invalid Stream Context Type value is detected.
    InvalidStreamTypeError,
    /// Asserted if a command is issued to a Device Slot that is in the Disabled state.
    SlotNotEnabledError,
    /// Asserted if a doorbell is rung for an endpoint that is in the Disabled state.
    EndpointNotEnabledError,
    /// Asserted if the number of bytes received was less than the TD Transfer Size.
    ShortPacket,
    /// Asserted in a Transfer Event TRB if the Transfer Ring is empty when an enabled Isoch
    /// endpoint is scheduled to transmit data.
    RingUnderrun,
    /// Asserted in a Transfer Event TRB if the Transfer Ring is empty when an enabled Isoch
    /// endpoint is scheduled to receive data.
    RingOverrun,
    /// Asserted by a Force Event command if the target VF's Event Ring is full.
    VfEventRingFullError,
    /// Asserted by a command if a Context parameter is invalid.
    ParameterError,
    /// Asserted during an Isoch transfer if the TD exceeds the bandwidth allocated to the
    /// endpoint.
    BandwidthOverrunError,
    /// Asserted if a command is issued to transition from an illegal context state.
    ContextStateError,
    /// Asserted if the xHC was unable to complete a periodic data transfer associated within the
    /// ESIT, because it did not receive a PING_RESPONSE in time.
    NoPingResponseError,
    /// Asserted if the Event Ring is full, the xHC is unable to post an Event to the ring.
    EventRingFullError,
    /// Asserted if the xHC detects a problem with a device that does not allow it to be
    /// successfully accessed.
    IncompatibleDeviceError,
    /// Asserted if the xHC was unable to service a Isochronous endpoint within the Interval time.
    MissedServiceError,
    /// Asserted in a Command Completion Event due to a Command Stop operation.
    CommandRingStopped,
    /// Asserted in a Command Completion Event of an aborted command if the command was terminated
    /// by a Command Abort (CA) operation.
    CommandAborted,
    /// Asserted in a Transfer Event if the transfer was terminated by a Stop Endpoint Command.
    Stopped,
    /// Asserted in a Transfer Event if the transfer was terminated by a Stop Endpoint Command and
    /// the Transfer Event TRB Transfer Length field is invalid.
    StoppedLengthInvalid,
    /// Asserted in a Transfer Event if the transfer was terminated by a Stop Endpoint Command, and
    /// the transfer was stopped after Short Packet conditions were met, but before the end of the
    /// TD was reached.
    StoppedShortPacket,
    /// Asserted by the Evaluate Context Command if the proposed Max Exit Latency would not allow
    /// the periodic endpoints of the Device Slot to be scheduled.
    MaxExitLatencyTooLargeError,
    /// Asserted if the data buffer defined by an Isoch TD on an IN endpoint is less than the Max
    /// ESIT Payload in size and the device attempts to send more data than it can hold.
    IsochBufferOverrun,
    /// Asserted if the xHC internal event overrun condition.
    EventLostError,
    /// May be reported by an event when other error codes do not apply.
    UndefinedError,
    /// Asserted if an invalid Stream ID is received.
    InvalidStreamIdError,
    /// Asserted by a Configure Endpoint Command if periodic endpoints are declared and the xHC is
    /// not able to allocate the required Bandwidth due to a Secondary Bandwidth Domain.
    SecondaryBandwidthError,
    /// Asserted if an error is detected on a USB2 protocol endpoint for a split transaction.
    SplitTransactionError,
}

impl CompletionCode {
    /// The Completion Codes are numbered as in Table 6-90 of the xHCI specification: each variant
    /// is encoded as its number, each number decodes to its variant, and no other number decodes to
    /// a variant.
    pub proof fn lemma_numbers()
        ensures
            CompletionCode::Invalid.encoding() == 0,
            CompletionCode::Success.encoding() == 1,
            CompletionCode::DataBufferError.encoding() == 2,
            CompletionCode::BabbleDetectedError.encoding() == 3,
            CompletionCode::UsbTransactionError.encoding() == 4,
            CompletionCode::TrbError.encoding() == 5,
            CompletionCode::StallError.encoding() == 6,
            CompletionCode::ResourceError.encoding() == 7,
            CompletionCode::BandwidthError.encoding() == 8,
            CompletionCode::NoSlotsAvailableError.encoding() == 9,
            CompletionCode::InvalidStreamTypeError.encoding() == 10,
            CompletionCode::SlotNotEnabledError.encoding() == 11,
            CompletionCode::EndpointNotEnabledError.encoding() == 12,
            CompletionCode::ShortPacket.encoding() == 13,
            CompletionCode::RingUnderrun.encoding() == 14,
            CompletionCode::RingOverrun.encoding() == 15,
            CompletionCode::VfEventRingFullError.encoding() == 16,
            CompletionCode::ParameterError.encoding() == 17,
            CompletionCode::BandwidthOverrunError.encoding() == 18,
            CompletionCode::ContextStateError.encoding() == 19,
            CompletionCode::NoPingResponseError.encoding() == 20,
            CompletionCode::EventRingFullError.encoding() == 21,
            CompletionCode::IncompatibleDeviceError.encoding() == 22,
            CompletionCode::MissedServiceError.encoding() == 23,
            CompletionCode::CommandRingStopped.encoding() == 24,
            CompletionCode::CommandAborted.encoding() == 25,
            CompletionCode::Stopped.encoding() == 26,
            CompletionCode::StoppedLengthInvalid.encoding() == 27,
            CompletionCode::StoppedShortPacket.encoding() == 28,
            CompletionCode::MaxExitLatencyTooLargeError.encoding() == 29,
            CompletionCode::IsochBufferOverrun.encoding() == 31,
            CompletionCode::EventLostError.encoding() == 32,
            CompletionCode::UndefinedError.encoding() == 33,
            CompletionCode::InvalidStreamIdError.encoding() == 34,
            CompletionCode::SecondaryBandwidthError.encoding() == 35,
            CompletionCode::SplitTransactionError.encoding() == 36,
            CompletionCode::decode(0) == Some(CompletionCode::Invalid),
            CompletionCode::decode(1) == Some(CompletionCode::Success),
            CompletionCode::decode(2) == Some(CompletionCode::DataBufferError),
            CompletionCode::decode(3) == Some(CompletionCode::BabbleDetectedError),
            CompletionCode::decode(4) == Some(CompletionCode::UsbTransactionError),
            CompletionCode::decode(5) == Some(CompletionCode::TrbError),
            CompletionCode::decode(6) == Some(CompletionCode::StallError),
            CompletionCode::decode(7) == Some(CompletionCode::ResourceError),
            CompletionCode::decode(8) == Some(CompletionCode::BandwidthError),
            CompletionCode::decode(9) == Some(CompletionCode::NoSlotsAvailableError),
            CompletionCode::decode(10) == Some(CompletionCode::InvalidStreamTypeError),
            CompletionCode::decode(11) == Some(CompletionCode::SlotNotEnabledError),
            CompletionCode::decode(12) == Some(CompletionCode::EndpointNotEnabledError),
            CompletionCode::decode(13) == Some(CompletionCode::ShortPacket),
            CompletionCode::decode(14) == Some(CompletionCode::RingUnderrun),
            CompletionCode::decode(15) == Some(CompletionCode::RingOverrun),
            CompletionCode::decode(16) == Some(CompletionCode::VfEventRingFullError),
            CompletionCode::decode(17) == Some(CompletionCode::ParameterError),
            CompletionCode::decode(18) == Some(CompletionCode::BandwidthOverrunError),
            CompletionCode::decode(19) == Some(CompletionCode::ContextStateError),
            CompletionCode::decode(20) == Some(CompletionCode::NoPingResponseError),
            CompletionCode::decode(21) == Some(CompletionCode::EventRingFullError),
            CompletionCode::decode(22) == Some(CompletionCode::IncompatibleDeviceError),
            CompletionCode::decode(23) == Some(CompletionCode::MissedServiceError),
            CompletionCode::decode(24) == Some(CompletionCode::CommandRingStopped),
            CompletionCode::decode(25) == Some(CompletionCode::CommandAborted),
            CompletionCode::decode(26) == Some(CompletionCode::Stopped),
            CompletionCode::decode(27) == Some(CompletionCode::StoppedLengthInvalid),
            CompletionCode::decode(28) == Some(CompletionCode::StoppedShortPacket),
            CompletionCode::decode(29) == Some(CompletionCode::MaxExitLatencyTooLargeError),
            CompletionCode::decode(31) == Some(CompletionCode::IsochBufferOverrun),
            CompletionCode::decode(32) == Some(CompletionCode::EventLostError),
            CompletionCode::decode(33) == Some(CompletionCode::UndefinedError),
            CompletionCode::decode(34) == Some(CompletionCode::InvalidStreamIdError),
            CompletionCode::decode(35) == Some(CompletionCode::SecondaryBandwidthError),
            CompletionCode::decode(36) == Some(CompletionCode::SplitTransactionError),
            forall|v: u32|
                #[trigger] CompletionCode::decode(v) is Some ==> (
                    v == 0 || v == 1 || v == 2 || v == 3 || v == 4 || v == 5 || v == 6 || v == 7 ||
                    v == 8 || v == 9 || v == 10 || v == 11 || v == 12 || v == 13 || v == 14 || v ==
                    15 || v == 16 || v == 17 || v == 18 || v == 19 || v == 20 || v == 21 || v == 22
                    || v == 23 || v == 24 || v == 25 || v == 26 || v == 27 || v == 28 || v == 29 ||
                    v == 31 || v == 32 || v == 33 || v == 34 || v == 35 || v == 36
                ),
    {
    }

    /// The number that encodes this value in its field.
    pub open spec fn encoding(self) -> u32 {
        match self {
            CompletionCode::Invalid => 0,
            CompletionCode::Success => 1,
            CompletionCode::DataBufferError => 2,
            CompletionCode::BabbleDetectedError => 3,
            CompletionCode::UsbTransactionError => 4,
            CompletionCode::TrbError => 5,
            CompletionCode::StallError => 6,
            CompletionCode::ResourceError => 7,
            CompletionCode::BandwidthError => 8,
            CompletionCode::NoSlotsAvailableError => 9,
            CompletionCode::InvalidStreamTypeError => 10,
            CompletionCode::SlotNotEnabledError => 11,
            CompletionCode::EndpointNotEnabledError => 12,
            CompletionCode::ShortPacket => 13,
            CompletionCode::RingUnderrun => 14,
            CompletionCode::RingOverrun => 15,
            CompletionCode::VfEventRingFullError => 16,
            CompletionCode::ParameterError => 17,
            CompletionCode::BandwidthOverrunError => 18,
            CompletionCode::ContextStateError => 19,
            CompletionCode::NoPingResponseError => 20,
            CompletionCode::EventRingFullError => 21,
            CompletionCode::IncompatibleDeviceError => 22,
            CompletionCode::MissedServiceError => 23,
            CompletionCode::CommandRingStopped => 24,
            CompletionCode::CommandAborted => 25,
            CompletionCode::Stopped => 26,
            CompletionCode::StoppedLengthInvalid => 27,
            CompletionCode::StoppedShortPacket => 28,
            CompletionCode::MaxExitLatencyTooLargeError => 29,
            CompletionCode::IsochBufferOverrun => 31,
            CompletionCode::EventLostError => 32,
            CompletionCode::UndefinedError => 33,
            CompletionCode::InvalidStreamIdError => 34,
            CompletionCode::SecondaryBandwidthError => 35,
            CompletionCode::SplitTransactionError => 36,
        }
    }

    /// The value that the number `v` encodes, if it encodes one.
    pub open spec fn decode(v: u32) -> Option<CompletionCode> {
        if v == 0 {
            Some(CompletionCode::Invalid)
        } else if v == 1 {
            Some(CompletionCode::Success)
        } else if v == 2 {
            Some(CompletionCode::DataBufferError)
        } else if v == 3 {
            Some(CompletionCode::BabbleDetectedError)
        } else if v == 4 {
            Some(CompletionCode::UsbTransactionError)
        } else if v == 5 {
            Some(CompletionCode::TrbError)
        } else if v == 6 {
            Some(CompletionCode::StallError)
        } else if v == 7 {
            Some(CompletionCode::ResourceError)
        } else if v == 8 {
            Some(CompletionCode::BandwidthError)
        } else if v == 9 {
            Some(CompletionCode::NoSlotsAvailableError)
        } else if v == 10 {
            Some(CompletionCode::InvalidStreamTypeError)
        } else if v == 11 {
            Some(CompletionCode::SlotNotEnabledError)
        } else if v == 12 {
            Some(CompletionCode::EndpointNotEnabledError)
        } else if v == 13 {
            Some(CompletionCode::ShortPacket)
        } else if v == 14 {
            Some(CompletionCode::RingUnderrun)
        } else if v == 15 {
            Some(CompletionCode::RingOverrun)
        } else if v == 16 {
            Some(CompletionCode::VfEventRingFullError)
        } else if v == 17 {
            Some(CompletionCode::ParameterError)
        } else if v == 18 {
            Some(CompletionCode::BandwidthOverrunError)
        } else if v == 19 {
            Some(CompletionCode::ContextStateError)
        } else if v == 20 {
            Some(CompletionCode::NoPingResponseError)
        } else if v == 21 {
            Some(CompletionCode::EventRingFullError)
        } else if v == 22 {
            Some(CompletionCode::IncompatibleDeviceError)
        } else if v == 23 {
            Some(CompletionCode::MissedServiceError)
        } else if v == 24 {
            Some(CompletionCode::CommandRingStopped)
        } else if v == 25 {
            Some(CompletionCode::CommandAborted)
        } else if v == 26 {
            Some(CompletionCode::Stopped)
        } else if v == 27 {
            Some(CompletionCode::StoppedLengthInvalid)
        } else if v == 28 {
            Some(CompletionCode::StoppedShortPacket)
        } else if v == 29 {
            Some(CompletionCode::MaxExitLatencyTooLargeError)
        } else if v == 31 {
            Some(CompletionCode::IsochBufferOverrun)
        } else if v == 32 {
            Some(CompletionCode::EventLostError)
        } else if v == 33 {
            Some(CompletionCode::UndefinedError)
        } else if v == 34 {
            Some(CompletionCode::InvalidStreamIdError)
        } else if v == 35 {
            Some(CompletionCode::SecondaryBandwidthError)
        } else if v == 36 {
            Some(CompletionCode::SplitTransactionError)
        } else {
            None
        }
    }

    /// Returns the number that encodes this value.
    pub fn to_u32(self) -> (r: u32)
        ensures
            r == self.encoding(),
    {
        match self {
            CompletionCode::Invalid => 0,
            CompletionCode::Success => 1,
            CompletionCode::DataBufferError => 2,
            CompletionCode::BabbleDetectedError => 3,
            CompletionCode::UsbTransactionError => 4,
            CompletionCode::TrbError => 5,
            CompletionCode::StallError => 6,
            CompletionCode::ResourceError => 7,
            CompletionCode::BandwidthError => 8,
            CompletionCode::NoSlotsAvailableError => 9,
            CompletionCode::InvalidStreamTypeError => 10,
            CompletionCode::SlotNotEnabledError => 11,
            CompletionCode::EndpointNotEnabledError => 12,
            CompletionCode::ShortPacket => 13,
            CompletionCode::RingUnderrun => 14,
            CompletionCode::RingOverrun => 15,
            CompletionCode::VfEventRingFullError => 16,
            CompletionCode::ParameterError => 17,
            CompletionCode::BandwidthOverrunError => 18,
            CompletionCode::ContextStateError => 19,
            CompletionCode::NoPingResponseError => 20,
            CompletionCode::EventRingFullError => 21,
            CompletionCode::IncompatibleDeviceError => 22,
            CompletionCode::MissedServiceError => 23,
            CompletionCode::CommandRingStopped => 24,
            CompletionCode::CommandAborted => 25,
            CompletionCode::Stopped => 26,
            CompletionCode::StoppedLengthInvalid => 27,
            CompletionCode::StoppedShortPacket => 28,
            CompletionCode::MaxExitLatencyTooLargeError => 29,
            CompletionCode::IsochBufferOverrun => 31,
            CompletionCode::EventLostError => 32,
            CompletionCode::UndefinedError => 33,
            CompletionCode::InvalidStreamIdError => 34,
            CompletionCode::SecondaryBandwidthError => 35,
            CompletionCode::SplitTransactionError => 36,
        }
    }

    /// Returns the value that `v` encodes, or `None` if `v` is a reserved number.
    pub fn from_u32(v: u32) -> (r: Option<Self>)
        ensures
            r == Self::decode(v),
    {
        if v == 0 {
            Some(CompletionCode::Invalid)
        } else if v == 1 {
            Some(CompletionCode::Success)
        } else if v == 2 {
            Some(CompletionCode::DataBufferError)
        } else if v == 3 {
            Some(CompletionCode::BabbleDetectedError)
        } else if v == 4 {
            Some(CompletionCode::UsbTransactionError)
        } else if v == 5 {
            Some(CompletionCode::TrbError)
        } else if v == 6 {
            Some(CompletionCode::StallError)
        } else if v == 7 {
            Some(CompletionCode::ResourceError)
        } else if v == 8 {
            Some(CompletionCode::BandwidthError)
        } else if v == 9 {
            Some(CompletionCode::NoSlotsAvailableError)
        } else if v == 10 {
            Some(CompletionCode::InvalidStreamTypeError)
        } else if v == 11 {
            Some(CompletionCode::SlotNotEnabledError)
        } else if v == 12 {
            Some(CompletionCode::EndpointNotEnabledError)
        } else if v == 13 {
            Some(CompletionCode::ShortPacket)
        } else if v == 14 {
            Some(CompletionCode::RingUnderrun)
        } else if v == 15 {
            Some(CompletionCode::RingOverrun)
        } else if v == 16 {
            Some(CompletionCode::VfEventRingFullError)
        } else if v == 17 {
            Some(CompletionCode::ParameterError)
        } else if v == 18 {
            Some(CompletionCode::BandwidthOverrunError)
        } else if v == 19 {
            Some(CompletionCode::ContextStateError)
        } else if v == 20 {
            Some(CompletionCode::NoPingResponseError)
        } else if v == 21 {
            Some(CompletionCode::EventRingFullError)
        } else if v == 22 {
            Some(CompletionCode::IncompatibleDeviceError)
        } else if v == 23 {
            Some(CompletionCode::MissedServiceError)
        } else if v == 24 {
            Some(CompletionCode::CommandRingStopped)
        } else if v == 25 {
            Some(CompletionCode::CommandAborted)
        } else if v == 26 {
            Some(CompletionCode::Stopped)
        } else if v == 27 {
            Some(CompletionCode::StoppedLengthInvalid)
        } else if v == 28 {
            Some(CompletionCode::StoppedShortPacket)
        } else if v == 29 {
            Some(CompletionCode::MaxExitLatencyTooLargeError)
        } else if v == 31 {
            Some(CompletionCode::IsochBufferOverrun)
        } else if v == 32 {
            Some(CompletionCode::EventLostError)
        } else if v == 33 {
            Some(CompletionCode::UndefinedError)
        } else if v == 34 {
            Some(CompletionCode::InvalidStreamIdError)
        } else if v == 35 {
            Some(CompletionCode::SecondaryBandwidthError)
        } else if v == 36 {
            Some(CompletionCode::SplitTransactionError)
        } else {
            None
        }
    }

    /// Decoding the number that encodes a value gives that value back.
    pub proof fn lemma_decode_encoding(self)
        ensures
            Self::decode(self.encoding()) == Some(self),
    {
    }
}

/// Allowed TRB Type for Event TRBs.
#[derive(Copy, Clone, PartialEq, Eq, Structural, PartialOrd, Ord, Hash, Debug)]
pub enum AllowedType {
    /// Transfer Event TRB, 32
    TransferEvent,
    /// Command Completion Event TRB, 33
    CommandCompletion,
    /// Port Status Change Event TRB, 34
    PortStatusChange,
    /// Bandwidth Request Event TRB, 35
    BandwidthRequest,
    /// Doorbell Event TRB, 36
    Doorbell,
    /// Host Controller Event TRB, 37
    HostController,
    /// Device Notification Event TRB, 38
    DeviceNotification,
    /// MFINDEX Wrap Event TRB, 39
    MfindexWrap,
}

impl AllowedType {
    /// The TRB Types are numbered as in Table 6-91 of the xHCI specification: each variant is
    /// encoded as its number, each number decodes to its variant, and no other number decodes to a
    /// variant.
    pub proof fn lemma_numbers()
        ensures
            AllowedType::TransferEvent.encoding() == 32,
            AllowedType::CommandCompletion.encoding() == 33,
            AllowedType::PortStatusChange.encoding() == 34,
            AllowedType::BandwidthRequest.encoding() == 35,
            AllowedType::Doorbell.encoding() == 36,
            AllowedType::HostController.encoding() == 37,
            AllowedType::DeviceNotification.encoding() == 38,
            AllowedType::MfindexWrap.encoding() == 39,
            AllowedType::decode(32) == Some(AllowedType::TransferEvent),
            AllowedType::decode(33) == Some(AllowedType::CommandCompletion),
            AllowedType::decode(34) == Some(AllowedType::PortStatusChange),
            AllowedType::decode(35) == Some(AllowedType::BandwidthRequest),
            AllowedType::decode(36) == Some(AllowedType::Doorbell),
            AllowedType::decode(37) == Some(AllowedType::HostController),
            AllowedType::decode(38) == Some(AllowedType::DeviceNotification),
            AllowedType::decode(39) == Some(AllowedType::MfindexWrap),
            forall|v: u32|
                #[trigger] AllowedType::decode(v) is Some ==> (
                    v == 32 || v == 33 || v == 34 || v == 35 || v == 36 || v == 37 || v == 38 || v
                    == 39
                ),
    {
    }

    /// The number that encodes this value in its field.
    pub open spec fn encoding(self) -> u32 {
        match self {
            AllowedType::TransferEvent => 32,
            AllowedType::CommandCompletion => 33,
            AllowedType::PortStatusChange => 34,
            AllowedType::BandwidthRequest => 35,
            AllowedType::Doorbell => 36,
            AllowedType::HostController => 37,
            AllowedType::DeviceNotification => 38,
            AllowedType::MfindexWrap => 39,
        }
    }

    /// The value that the number `v` encodes, if it encodes one.
    pub open spec fn decode(v: u32) -> Option<AllowedType> {
        if v == 32 {
            Some(AllowedType::TransferEvent)
        } else if v == 33 {
            Some(AllowedType::CommandCompletion)
        } else if v == 34 {
            Some(AllowedType::PortStatusChange)
        } else if v == 35 {
            Some(AllowedType::BandwidthRequest)
        } else if v == 36 {
            Some(AllowedType::Doorbell)
        } else if v == 37 {
            Some(AllowedType::HostController)
        } else if v == 38 {
            Some(AllowedType::DeviceNotification)
        } else if v == 39 {
            Some(AllowedType::MfindexWrap)
        } else {
            None
        }
    }

    /// Returns the number that encodes this value.
    pub fn to_u32(self) -> (r: u32)
        ensures
            r == self.encoding(),
    {
        match self {
            AllowedType::TransferEvent => 32,
            AllowedType::CommandCompletion => 33,
            AllowedType::PortStatusChange => 34,
            AllowedType::BandwidthRequest => 35,
            AllowedType::Doorbell => 36,
            AllowedType::HostController => 37,
            AllowedType::DeviceNotification => 38,
            AllowedType::MfindexWrap => 39,
        }
    }

    /// Returns the value that `v` encodes, or `None` if `v` is a reserved number.
    pub fn from_u32(v: u32) -> (r: Option<Self>)
        ensures
            r == Self::decode(v),
    {
        if v == 32 {
            Some(AllowedType::TransferEvent)
        } else if v == 33 {
            Some(AllowedType::CommandCompletion)
        } else if v == 34 {
            Some(AllowedType::PortStatusChange)
        } else if v == 35 {
            Some(AllowedType::BandwidthRequest)
        } else if v == 36 {
            Some(AllowedType::Doorbell)
        } else if v == 37 {
            Some(AllowedType::HostController)
        } else if v == 38 {
            Some(AllowedType::DeviceNotification)
        } else if v == 39 {
            Some(AllowedType::MfindexWrap)
        } else {
            None
        }
    }

    /// Decoding the number that encodes a value gives that value back.
    pub proof fn lemma_decode_encoding(self)
        ensures
            Self::decode(self.encoding()) == Some(self),
    {
    }
}

/// TRBs which are allowed to be pushed to the Event Ring.
#[derive(Copy, Clone, Debug, PartialEq, Eq, Hash)]
pub enum Allowed {
    /// Transfer Event TRB.
    TransferEvent(TransferEvent),
    /// Command Completion Event TRB.
    CommandCompletion(CommandCompletion),
    /// Port Status Change Event TRB.
    PortStatusChange(PortStatusChange),
    /// Bandwidth Request Event TRB.
    BandwidthRequest(BandwidthRequest),
    /// Doorbell Event TRB.
    Doorbell(Doorbell),
    /// Host Controller Event TRB.
    HostController(HostController),
    /// Device Notification Event TRB.
    DeviceNotification(DeviceNotification),
    /// MFINDEX Wrap Event TRB.
    MfindexWrap(MfindexWrap),
}

impl Allowed {
    /// Whether `raw` is one of the Event TRBs.
    pub open spec fn accepts(raw: Seq<u32>) -> bool {
        ||| TransferEvent::valid(raw)
        ||| CommandCompletion::valid(raw)
        ||| PortStatusChange::valid(raw)
        ||| BandwidthRequest::valid(raw)
        ||| Doorbell::valid(raw)
        ||| HostController::valid(raw)
        ||| DeviceNotification::valid(raw)
        ||| MfindexWrap::valid(raw)
    }

    /// Converts four Dwords into the Event TRB that they hold.
    ///
    /// # Errors
    ///
    /// This method returns the Dwords if they hold no Event TRB: if their TRB Type is not that of
    /// an Event TRB, or if one of the RsvdZ fields of that TRB is not 0.
    pub fn try_from(raw: [u32; 4]) -> (r: Result<Self, [u32; 4]>)
        ensures
            match r {
                Ok(Allowed::TransferEvent(t)) => TransferEvent::valid(raw@) && t@ == raw@,
                Ok(Allowed::CommandCompletion(t)) => CommandCompletion::valid(raw@) && t@ == raw@,
                Ok(Allowed::PortStatusChange(t)) => PortStatusChange::valid(raw@) && t@ == raw@,
                Ok(Allowed::BandwidthRequest(t)) => BandwidthRequest::valid(raw@) && t@ == raw@,
                Ok(Allowed::Doorbell(t)) => Doorbell::valid(raw@) && t@ == raw@,
                Ok(Allowed::HostController(t)) => HostController::valid(raw@) && t@ == raw@,
                Ok(Allowed::DeviceNotification(t)) => DeviceNotification::valid(raw@) && t@ == raw@,
                Ok(Allowed::MfindexWrap(t)) => MfindexWrap::valid(raw@) && t@ == raw@,
                Err(e) => e == raw && !Self::accepts(raw@),
            },
    {
        if let Ok(t) = TransferEvent::try_from(raw) {
            return Ok(Self::TransferEvent(t));
        }
        if let Ok(t) = CommandCompletion::try_from(raw) {
            return Ok(Self::CommandCompletion(t));
        }
        if let Ok(t) = PortStatusChange::try_from(raw) {
            return Ok(Self::PortStatusChange(t));
        }
        if let Ok(t) = BandwidthRequest::try_from(raw) {
            return Ok(Self::BandwidthRequest(t));
        }
        if let Ok(t) = Doorbell::try_from(raw) {
            return Ok(Self::Doorbell(t));
        }
        if let Ok(t) = HostController::try_from(raw) {
            return Ok(Self::HostController(t));
        }
        if let Ok(t) = DeviceNotification::try_from(raw) {
            return Ok(Self::DeviceNotification(t));
        }
        if let Ok(t) = MfindexWrap::try_from(raw) {
            return Ok(Self::MfindexWrap(t));
        }
        Err(raw)
    }
}

/// A Transfer Event TRB.
#[derive(Clone, Copy, Debug, PartialEq, Eq, Hash)]
pub struct TransferEvent([u32; 4]);

impl View for TransferEvent {
    type V = Seq<u32>;

    closed spec fn view(&self) -> Seq<u32> {
        self.0@
    }
}

impl TransferEvent {
    /// Whether `raw` is a Transfer Event TRB: its TRB Type is 32 and its RsvdZ fields are 0.
    pub open spec fn valid(raw: Seq<u32>) -> bool {
        &&& bits::field32(raw[3], 10, 6) == 32
        &&& bits::field32(raw[3], 1, 1) == 0
        &&& bits::field32(raw[3], 3, 7) == 0
        &&& bits::field32(raw[3], 21, 3) == 0
    }

    /// Every Transfer Event TRB passes its own check: `valid` holds of its Dwords.
    #[verifier::type_invariant]
    spec fn is_accepted(&self) -> bool {
        Self::valid(self@)
    }

    /// Creates a new Transfer Event TRB.
    ///
    /// This method sets the value of the TRB Type field properly. All the other fields are set
    /// to 0.
    pub fn new() -> (r: Self)
        ensures
            r@ == seq![0u32, 0u32, 0u32, bits::with_field32(0, 10, 6, 32)],
            Self::valid(r@),
    {
        proof {
            bits::lemma_mask32_values();
            bits::lemma_field32_with_field32_same(0, 10, 6, 32);
            bits::lemma_field32_with_field32_other(0, 10, 6, 32, 1, 1);
            bits::lemma_field32_of_zero(1, 1);
            bits::lemma_field32_with_field32_other(0, 10, 6, 32, 3, 7);
            bits::lemma_field32_of_zero(3, 7);
            bits::lemma_field32_with_field32_other(0, 10, 6, 32, 21, 3);
            bits::lemma_field32_of_zero(21, 3);
        }
        let ty = AllowedType::TransferEvent.to_u32();
        let r = Self([0, 0, 0, bits::set_bits_u32(0, 10, 6, ty)]);
        assert(r@ =~= seq![0u32, 0u32, 0u32, bits::with_field32(0, 10, 6, 32)]);
        r
    }

    /// Converts four Dwords into a Transfer Event TRB.
    ///
    /// # Errors
    ///
    /// This method returns the Dwords if their TRB Type is not that of a Transfer Event TRB, or if
    /// one of its RsvdZ fields is not 0.
    pub fn try_from(raw: [u32; 4]) -> (r: Result<Self, [u32; 4]>)
        ensures
            r is Ok <==> Self::valid(raw@),
            r matches Ok(t) ==> t@ == raw@,
            r matches Err(b) ==> b == raw,
    {
        proof {
            bits::lemma_mask32_values();
        }
        if AllowedType::from_u32(bits::get_bits_u32(raw[3], 10, 6)) != Some(
            AllowedType::TransferEvent,
        )
            || bits::get_bits_u32(raw[3], 1, 1) != 0
            || bits::get_bits_u32(raw[3], 3, 7) != 0
            || bits::get_bits_u32(raw[3], 21, 3) != 0
        {
            return Err(raw);
        }
        Ok(Self(raw))
    }

    /// Returns the four Dwords of the TRB.
    pub fn into_raw(self) -> (r: [u32; 4])
        ensures
            r@ == self@,
            Self::valid(r@),
    {
        proof {
            use_type_invariant(&self);
        }
        self.0
    }

    /// Returns the Completion Code.
    ///
    /// # Errors
    ///
    /// This method returns the Completion Code that is either reserved or not implemented by
    /// this crate.
    pub fn completion_code(&self) -> (r: Result<CompletionCode, u8>)
        ensures
            r == (match CompletionCode::decode(bits::field32(self@[2], 24, 8)) {
                Some(c) => Ok(c),
                None => Err(bits::field32(self@[2], 24, 8) as u8),
            }),
    {
        proof {
            bits::lemma_mask32_values();
        }
        let c: u8 = bits::get_bits_u32(self.0[2], 24, 8) as u8;
        match CompletionCode::from_u32(c as u32) {
            Some(code) => Ok(code),
            None => Err(c),
        }
    }

    /// Returns the Cycle bit.
    pub fn cycle_bit(self) -> (r: bool)
        ensures
            r == bits::bit32(self@[3], 0),
    {
        bits::get_bit_u32(self.0[3], 0)
    }

    /// Sets the Cycle bit.
    pub fn set_cycle_bit(&mut self) -> (r: &mut Self)
        ensures
            (*r)@ == old(self)@.update(3, bits::with_bit32(old(self)@[3], 0, true)),
            *final(self) == *final(r),
    {
        proof {
            use_type_invariant(&*self);
            bits::lemma_mask32_values();
            bits::lemma_field32_with_bit32_other(old(self)@[3], 0, true, 10, 6);
            bits::lemma_field32_with_bit32_other(old(self)@[3], 0, true, 1, 1);
            bits::lemma_field32_with_bit32_other(old(self)@[3], 0, true, 3, 7);
            bits::lemma_field32_with_bit32_other(old(self)@[3], 0, true, 21, 3);
        }
        self.0[3] = bits::set_bit_u32(self.0[3], 0, true);
        self
    }

    /// Clears the Cycle bit.
    pub fn clear_cycle_bit(&mut self) -> (r: &mut Self)
        ensures
            (*r)@ == old(self)@.update(3, bits::with_bit32(old(self)@[3], 0, false)),
            *final(self) == *final(r),
    {
        proof {
            use_type_invariant(&*self);
            bits::lemma_mask32_values();
            bits::lemma_field32_with_bit32_other(old(self)@[3], 0, false, 10, 6);
            bits::lemma_field32_with_bit32_other(old(self)@[3], 0, false, 1, 1);
            bits::lemma_field32_with_bit32_other(old(self)@[3], 0, false, 3, 7);
            bits::lemma_field32_with_bit32_other(old(self)@[3], 0, false, 21, 3);
        }
        self.0[3] = bits::set_bit_u32(self.0[3], 0, false);
        self
    }

    /// Returns the value of the TRB Pointer field.
    pub fn trb_pointer(&self) -> (r: u64)
        ensures
            r == bits::join64(self@[0], self@[1]),
    {
        let l = self.0[0];
        let u = self.0[1];

        bits::join_halves(l, u)
    }

    /// Returns the value of the TRB Transfer Length field.
    pub fn trb_transfer_length(self) -> (r: u32)
        ensures
            r == bits::field32(self@[2], 0, 24),
    {
        bits::get_bits_u32(self.0[2], 0, 24)
    }

    /// Returns the Event Data bit.
    pub fn event_data(self) -> (r: bool)
        ensures
            r == bits::bit32(self@[3], 2),
    {
        bits::get_bit_u32(self.0[3], 2)
    }

    /// Returns the value of the Endpoint ID field.
    pub fn endpoint_id(self) -> (r: u8)
        ensures
            r == bits::field32(self@[3], 16, 5),
    {
        proof {
            bits::lemma_mask32_values();
        }
        bits::get_bits_u32(self.0[3], 16, 5) as u8
    }

    /// Returns the value of the Slot ID field.
    pub fn slot_id(self) -> (r: u8)
        ensures
            r == bits::field32(self@[3], 24, 8),
    {
        proof {
            bits::lemma_mask32_values();
        }
        bits::get_bits_u32(self.0[3], 24, 8) as u8
    }
}

impl Default for TransferEvent {
    fn default() -> (r: Self)
        ensures
            r@ == seq![0u32, 0u32, 0u32, bits::with_field32(0, 10, 6, 32)],
    {
        Self::new()
    }
}

/// A Command Completion Event TRB.
#[derive(Clone, Copy, Debug, PartialEq, Eq, Hash)]
pub struct CommandCompletion([u32; 4]);

impl View for CommandCompletion {
    type V = Seq<u32>;

    closed spec fn view(&self) -> Seq<u32> {
        self.0@
    }
}

impl CommandCompletion {
    /// Whether `raw` is a Command Completion Event TRB: its TRB Type is 33 and its RsvdZ fields are
    /// 0.
    pub open spec fn valid(raw: Seq<u32>) -> bool {
        &&& bits::field32(raw[3], 10, 6) == 33
        &&& bits::field32(raw[0], 0, 4) == 0
        &&& bits::field32(raw[3], 1, 9) == 0
    }

    /// Every Command Completion Event TRB passes its own check: `valid` holds of its Dwords.
    #[verifier::type_invariant]
    spec fn is_accepted(&self) -> bool {
        Self::valid(self@)
    }

    /// Creates a new Command Completion Event TRB.
    ///
    /// This method sets the value of the TRB Type field properly. All the other fields are set
    /// to 0.
    pub fn new() -> (r: Self)
        ensures
            r@ == seq![0u32, 0u32, 0u32, bits::with_field32(0, 10, 6, 33)],
            Self::valid(r@),
    {
        proof {
            bits::lemma_mask32_values();
            bits::lemma_field32_with_field32_same(0, 10, 6, 33);
            bits::lemma_field32_of_zero(0, 4);
            bits::lemma_field32_with_field32_other(0, 10, 6, 33, 1, 9);
            bits::lemma_field32_of_zero(1, 9);
        }
        let ty = AllowedType::CommandCompletion.to_u32();
        let r = Self([0, 0, 0, bits::set_bits_u32(0, 10, 6, ty)]);
        assert(r@ =~= seq![0u32, 0u32, 0u32, bits::with_field32(0, 10, 6, 33)]);
        r
    }

    /// Converts four Dwords into a Command Completion Event TRB.
    ///
    /// # Errors
    ///
    /// This method returns the Dwords if their TRB Type is not that of a Command Completion Event
    /// TRB, or if one of its RsvdZ fields is not 0.
    pub fn try_from(raw: [u32; 4]) -> (r: Result<Self, [u32; 4]>)
        ensures
            r is Ok <==> Self::valid(raw@),
            r matches Ok(t) ==> t@ == raw@,
            r matches Err(b) ==> b == raw,
    {
        proof {
            bits::lemma_mask32_values();
        }
        if AllowedType::from_u32(bits::get_bits_u32(raw[3], 10, 6)) != Some(
            AllowedType::CommandCompletion,
        )
            || bits::get_bits_u32(raw[0], 0, 4) != 0
            || bits::get_bits_u32(raw[3], 1, 9) != 0
        {
            return Err(raw);
        }
        Ok(Self(raw))
    }

    /// Returns the four Dwords of the TRB.
    pub fn into_raw(self) -> (r: [u32; 4])
        ensures
            r@ == self@,
            Self::valid(r@),
    {
        proof {
            use_type_invariant(&self);
        }
        self.0
    }

    /// Returns the Completion Code.
    ///
    /// # Errors
    ///
    /// This method returns the Completion Code that is either reserved or not implemented by
    /// this crate.
    pub fn completion_code(&self) -> (r: Result<CompletionCode, u8>)
        ensures
            r == (match CompletionCode::decode(bits::field32(self@[2], 24, 8)) {
                Some(c) => Ok(c),
                None => Err(bits::field32(self@[2], 24, 8) as u8),
            }),
    {
        proof {
            bits::lemma_mask32_values();
        }
        let c: u8 = bits::get_bits_u32(self.0[2], 24, 8) as u8;
        match CompletionCode::from_u32(c as u32) {
            Some(code) => Ok(code),
            None => Err(c),
        }
    }

    /// Returns the Cycle bit.
    pub fn cycle_bit(self) -> (r: bool)
        ensures
            r == bits::bit32(self@[3], 0),
    {
        bits::get_bit_u32(self.0[3], 0)
    }

    /// Sets the Cycle bit.
    pub fn set_cycle_bit(&mut self) -> (r: &mut Self)
        ensures
            (*r)@ == old(self)@.update(3, bits::with_bit32(old(self)@[3], 0, true)),
            *final(self) == *final(r),
    {
        proof {
            use_type_invariant(&*self);
            bits::lemma_mask32_values();
            bits::lemma_field32_with_bit32_other(old(self)@[3], 0, true, 10, 6);
            bits::lemma_field32_with_bit32_other(old(self)@[3], 0, true, 1, 9);
        }
        self.0[3] = bits::set_bit_u32(self.0[3], 0, true);
        self
    }

    /// Clears the Cycle bit.
    pub fn clear_cycle_bit(&mut self) -> (r: &mut Self)
        ensures
            (*r)@ == old(self)@.update(3, bits::with_bit32(old(self)@[3], 0, false)),
            *final(self) == *final(r),
    {
        proof {
            use_type_invariant(&*self);
            bits::lemma_mask32_values();
            bits::lemma_field32_with_bit32_other(old(self)@[3], 0, false, 10, 6);
            bits::lemma_field32_with_bit32_other(old(self)@[3], 0, false, 1, 9);
        }
        self.0[3] = bits::set_bit_u32(self.0[3], 0, false);
        self
    }

    /// Returns the value of the Command TRB Pointer field.
    pub fn command_trb_pointer(&self) -> (r: u64)
        ensures
            r == bits::join64(self@[0], self@[1]),
    {
        let l = self.0[0];
        let u = self.0[1];

        bits::join_halves(l, u)
    }

    /// Returns the value of the Command Completion Parameter field.
    pub fn command_completion_parameter(self) -> (r: u32)
        ensures
            r == bits::field32(self@[2], 0, 24),
    {
        bits::get_bits_u32(self.0[2], 0, 24)
    }

    /// Returns the value of the VF ID field.
    pub fn vf_id(self) -> (r: u8)
        ensures
            r == bits::field32(self@[3], 16, 8),
    {
        proof {
            bits::lemma_mask32_values();
        }
        bits::get_bits_u32(self.0[3], 16, 8) as u8
    }

    /// Returns the value of the Slot ID field.
    pub fn slot_id(self) -> (r: u8)
        ensures
            r == bits::field32(self@[3], 24, 8),
    {
        proof {
            bits::lemma_mask32_values();
        }
        bits::get_bits_u32(self.0[3], 24, 8) as u8
    }
}

impl Default for CommandCompletion {
    fn default() -> (r: Self)
        ensures
            r@ == seq![0u32, 0u32, 0u32, bits::with_field32(0, 10, 6, 33)],
    {
        Self::new()
    }
}

/// A Port Status Change Event TRB.
#[derive(Clone, Copy, Debug, PartialEq, Eq, Hash)]
pub struct PortStatusChange([u32; 4]);

impl View for PortStatusChange {
    type V = Seq<u32>;

    closed spec fn view(&self) -> Seq<u32> {
        self.0@
    }
}

impl PortStatusChange {
    /// Whether `raw` is a Port Status Change Event TRB: its TRB Type is 34 and its RsvdZ fields are
    /// 0.
    pub open spec fn valid(raw: Seq<u32>) -> bool {
        &&& bits::field32(raw[3], 10, 6) == 34
        &&& bits::field32(raw[0], 0, 24) == 0
        &&& raw[1] == 0
        &&& bits::field32(raw[2], 0, 24) == 0
        &&& bits::field32(raw[3], 1, 9) == 0
        &&& bits::field32(raw[3], 16, 16) == 0
    }

    /// Every Port Status Change Event TRB passes its own check: `valid` holds of its Dwords.
    #[verifier::type_invariant]
    spec fn is_accepted(&self) -> bool {
        Self::valid(self@)
    }

    /// Creates a new Port Status Change Event TRB.
    ///
    /// This method sets the value of the TRB Type field properly. All the other fields are set
    /// to 0.
    pub fn new() -> (r: Self)
        ensures
            r@ == seq![0u32, 0u32, 0u32, bits::with_field32(0, 10, 6, 34)],
            Self::valid(r@),
    {
        proof {
            bits::lemma_mask32_values();
            bits::lemma_field32_with_field32_same(0, 10, 6, 34);
            bits::lemma_field32_of_zero(0, 24);
            bits::lemma_field32_of_zero(0, 24);
            bits::lemma_field32_with_field32_other(0, 10, 6, 34, 1, 9);
            bits::lemma_field32_of_zero(1, 9);
            bits::lemma_field32_with_field32_other(0, 10, 6, 34, 16, 16);
            bits::lemma_field32_of_zero(16, 16);
        }
        let ty = AllowedType::PortStatusChange.to_u32();
        let r = Self([0, 0, 0, bits::set_bits_u32(0, 10, 6, ty)]);
        assert(r@ =~= seq![0u32, 0u32, 0u32, bits::with_field32(0, 10, 6, 34)]);
        r
    }

    /// Converts four Dwords into a Port Status Change Event TRB.
    ///
    /// # Errors
    ///
    /// This method returns the Dwords if their TRB Type is not that of a Port Status Change Event
    /// TRB, or if one of its RsvdZ fields is not 0.
    pub fn try_from(raw: [u32; 4]) -> (r: Result<Self, [u32; 4]>)
        ensures
            r is Ok <==> Self::valid(raw@),
            r matches Ok(t) ==> t@ == raw@,
            r matches Err(b) ==> b == raw,
    {
        proof {
            bits::lemma_mask32_values();
        }
        if AllowedType::from_u32(bits::get_bits_u32(raw[3], 10, 6)) != Some(
            AllowedType::PortStatusChange,
        )
            || bits::get_bits_u32(raw[0], 0, 24) != 0
            || raw[1] != 0
            || bits::get_bits_u32(raw[2], 0, 24) != 0
            || bits::get_bits_u32(raw[3], 1, 9) != 0
            || bits::get_bits_u32(raw[3], 16, 16) != 0
        {
            return Err(raw);
        }
        Ok(Self(raw))
    }

    /// Returns the four Dwords of the TRB.
    pub fn into_raw(self) -> (r: [u32; 4])
        ensures
            r@ == self@,
            Self::valid(r@),
    {
        proof {
            use_type_invariant(&self);
        }
        self.0
    }

    /// Returns the Completion Code.
    ///
    /// # Errors
    ///
    /// This method returns the Completion Code that is either reserved or not implemented by
    /// this crate.
    pub fn completion_code(&self) -> (r: Result<CompletionCode, u8>)
        ensures
            r == (match CompletionCode::decode(bits::field32(self@[2], 24, 8)) {
                Some(c) => Ok(c),
                None => Err(bits::field32(self@[2], 24, 8) as u8),
            }),
    {
        proof {
            bits::lemma_mask32_values();
        }
        let c: u8 = bits::get_bits_u32(self.0[2], 24, 8) as u8;
        match CompletionCode::from_u32(c as u32) {
            Some(code) => Ok(code),
            None => Err(c),
        }
    }

    /// Returns the Cycle bit.
    pub fn cycle_bit(self) -> (r: bool)
        ensures
            r == bits::bit32(self@[3], 0),
    {
        bits::get_bit_u32(self.0[3], 0)
    }

    /// Sets the Cycle bit.
    pub fn set_cycle_bit(&mut self) -> (r: &mut Self)
        ensures
            (*r)@ == old(self)@.update(3, bits::with_bit32(old(self)@[3], 0, true)),
            *final(self) == *final(r),
    {
        proof {
            use_type_invariant(&*self);
            bits::lemma_mask32_values();
            bits::lemma_field32_with_bit32_other(old(self)@[3], 0, true, 10, 6);
            bits::lemma_field32_with_bit32_other(old(self)@[3], 0, true, 1, 9);
            bits::lemma_field32_with_bit32_other(old(self)@[3], 0, true, 16, 16);
        }
        self.0[3] = bits::set_bit_u32(self.0[3], 0, true);
        self
    }

    /// Clears the Cycle bit.
    pub fn clear_cycle_bit(&mut self) -> (r: &mut Self)
        ensures
            (*r)@ == old(self)@.update(3, bits::with_bit32(old(self)@[3], 0, false)),
            *final(self) == *final(r),
    {
        proof {
            use_type_invariant(&*self);
            bits::lemma_mask32_values();
            bits::lemma_field32_with_bit32_other(old(self)@[3], 0, false, 10, 6);
            bits::lemma_field32_with_bit32_other(old(self)@[3], 0, false, 1, 9);
            bits::lemma_field32_with_bit32_other(old(self)@[3], 0, false, 16, 16);
        }
        self.0[3] = bits::set_bit_u32(self.0[3], 0, false);
        self
    }

    /// Returns the value of the Port ID field.
    pub fn port_id(self) -> (r: u8)
        ensures
            r == bits::field32(self@[0], 24, 8),
    {
        proof {
            bits::lemma_mask32_values();
        }
        bits::get_bits_u32(self.0[0], 24, 8) as u8
    }
}

impl Default for PortStatusChange {
    fn default() -> (r: Self)
        ensures
            r@ == seq![0u32, 0u32, 0u32, bits::with_field32(0, 10, 6, 34)],
    {
        Self::new()
    }
}

/// A Bandwidth Request Event TRB.
#[derive(Clone, Copy, Debug, PartialEq, Eq, Hash)]
pub struct BandwidthRequest([u32; 4]);

impl View for BandwidthRequest {
    type V = Seq<u32>;

    closed spec fn view(&self) -> Seq<u32> {
        self.0@
    }
}

impl BandwidthRequest {
    /// Whether `raw` is a Bandwidth Request Event TRB: its TRB Type is 35 and its RsvdZ fields are
    /// 0.
    pub open spec fn valid(raw: Seq<u32>) -> bool {
        &&& bits::field32(raw[3], 10, 6) == 35
        &&& raw[0] == 0
        &&& raw[1] == 0
        &&& bits::field32(raw[2], 0, 24) == 0
        &&& bits::field32(raw[3], 1, 9) == 0
        &&& bits::field32(raw[3], 16, 8) == 0
    }

    /// Every Bandwidth Request Event TRB passes its own check: `valid` holds of its Dwords.
    #[verifier::type_invariant]
    spec fn is_accepted(&self) -> bool {
        Self::valid(self@)
    }

    /// Creates a new Bandwidth Request Event TRB.
    ///
    /// This method sets the value of the TRB Type field properly. All the other fields are set
    /// to 0.
    pub fn new() -> (r: Self)
        ensures
            r@ == seq![0u32, 0u32, 0u32, bits::with_field32(0, 10, 6, 35)],
            Self::valid(r@),
    {
        proof {
            bits::lemma_mask32_values();
            bits::lemma_field32_with_field32_same(0, 10, 6, 35);
            bits::lemma_field32_of_zero(0, 24);
            bits::lemma_field32_with_field32_other(0, 10, 6, 35, 1, 9);
            bits::lemma_field32_of_zero(1, 9);
            bits::lemma_field32_with_field32_other(0, 10, 6, 35, 16, 8);
            bits::lemma_field32_of_zero(16, 8);
        }
        let ty = AllowedType::BandwidthRequest.to_u32();
        let r = Self([0, 0, 0, bits::set_bits_u32(0, 10, 6, ty)]);
        assert(r@ =~= seq![0u32, 0u32, 0u32, bits::with_field32(0, 10, 6, 35)]);
        r
    }

    /// Converts four Dwords into a Bandwidth Request Event TRB.
    ///
    /// # Errors
    ///
    /// This method returns the Dwords if their TRB Type is not that of a Bandwidth Request Event
    /// TRB, or if one of its RsvdZ fields is not 0.
    pub fn try_from(raw: [u32; 4]) -> (r: Result<Self, [u32; 4]>)
        ensures
            r is Ok <==> Self::valid(raw@),
            r matches Ok(t) ==> t@ == raw@,
            r matches Err(b) ==> b == raw,
    {
        proof {
            bits::lemma_mask32_values();
        }
        if AllowedType::from_u32(bits::get_bits_u32(raw[3], 10, 6)) != Some(
            AllowedType::BandwidthRequest,
        )
            || raw[0] != 0
            || raw[1] != 0
            || bits::get_bits_u32(raw[2], 0, 24) != 0
            || bits::get_bits_u32(raw[3], 1, 9) != 0
            || bits::get_bits_u32(raw[3], 16, 8) != 0
        {
            return Err(raw);
        }
        Ok(Self(raw))
    }

    /// Returns the four Dwords of the TRB.
    pub fn into_raw(self) -> (r: [u32; 4])
        ensures
            r@ == self@,
            Self::valid(r@),
    {
        proof {
            use_type_invariant(&self);
        }
        self.0
    }

    /// Returns the Completion Code.
    ///
    /// # Errors
    ///
    /// This method returns the Completion Code that is either reserved or not implemented by
    /// this crate.
    pub fn completion_code(&self) -> (r: Result<CompletionCode, u8>)
        ensures
            r == (match CompletionCode::decode(bits::field32(self@[2], 24, 8)) {
                Some(c) => Ok(c),
                None => Err(bits::field32(self@[2], 24, 8) as u8),
            }),
    {
        proof {
            bits::lemma_mask32_values();
        }
        let c: u8 = bits::get_bits_u32(self.0[2], 24, 8) as u8;
        match CompletionCode::from_u32(c as u32) {
            Some(code) => Ok(code),
            None => Err(c),
        }
    }

    /// Returns the Cycle bit.
    pub fn cycle_bit(self) -> (r: bool)
        ensures
            r == bits::bit32(self@[3], 0),
    {
        bits::get_bit_u32(self.0[3], 0)
    }

    /// Sets the Cycle bit.
    pub fn set_cycle_bit(&mut self) -> (r: &mut Self)
        ensures
            (*r)@ == old(self)@.update(3, bits::with_bit32(old(self)@[3], 0, true)),
            *final(self) == *final(r),
    {
        proof {
            use_type_invariant(&*self);
            bits::lemma_mask32_values();
            bits::lemma_field32_with_bit32_other(old(self)@[3], 0, true, 10, 6);
            bits::lemma_field32_with_bit32_other(old(self)@[3], 0, true, 1, 9);
            bits::lemma_field32_with_bit32_other(old(self)@[3], 0, true, 16, 8);
        }
        self.0[3] = bits::set_bit_u32(self.0[3], 0, true);
        self
    }

    /// Clears the Cycle bit.
    pub fn clear_cycle_bit(&mut self) -> (r: &mut Self)
        ensures
            (*r)@ == old(self)@.update(3, bits::with_bit32(old(self)@[3], 0, false)),
            *final(self) == *final(r),
    {
        proof {
            use_type_invariant(&*self);
            bits::lemma_mask32_values();
            bits::lemma_field32_with_bit32_other(old(self)@[3], 0, false, 10, 6);
            bits::lemma_field32_with_bit32_other(old(self)@[3], 0, false, 1, 9);
            bits::lemma_field32_with_bit32_other(old(self)@[3], 0, false, 16, 8);
        }
        self.0[3] = bits::set_bit_u32(self.0[3], 0, false);
        self
    }

    /// Returns the value of the Slot ID field.
    pub fn slot_id(self) -> (r: u8)
        ensures
            r == bits::field32(self@[3], 24, 8),
    {
        proof {
            bits::lemma_mask32_values();
        }
        bits::get_bits_u32(self.0[3], 24, 8) as u8
    }
}

impl Default for BandwidthRequest {
    fn default() -> (r: Self)
        ensures
            r@ == seq![0u32, 0u32, 0u32, bits::with_field32(0, 10, 6, 35)],
    {
        Self::new()
    }
}

/// A Doorbell Event TRB.
#[derive(Clone, Copy, Debug, PartialEq, Eq, Hash)]
pub struct Doorbell([u32; 4]);

impl View for Doorbell {
    type V = Seq<u32>;

    closed spec fn view(&self) -> Seq<u32> {
        self.0@
    }
}

impl Doorbell {
    /// Whether `raw` is a Doorbell Event TRB: its TRB Type is 36 and its RsvdZ fields are 0.
    pub open spec fn valid(raw: Seq<u32>) -> bool {
        &&& bits::field32(raw[3], 10, 6) == 36
        &&& bits::field32(raw[0], 5, 27) == 0
        &&& raw[1] == 0
        &&& bits::field32(raw[2], 0, 24) == 0
        &&& bits::field32(raw[3], 1, 9) == 0
    }

    /// Every Doorbell Event TRB passes its own check: `valid` holds of its Dwords.
    #[verifier::type_invariant]
    spec fn is_accepted(&self) -> bool {
        Self::valid(self@)
    }

    /// Creates a new Doorbell Event TRB.
    ///
    /// This method sets the value of the TRB Type field properly. All the other fields are set
    /// to 0.
    pub fn new() -> (r: Self)
        ensures
            r@ == seq![0u32, 0u32, 0u32, bits::with_field32(0, 10, 6, 36)],
            Self::valid(r@),
    {
        proof {
            bits::lemma_mask32_values();
            bits::lemma_field32_with_field32_same(0, 10, 6, 36);
            bits::lemma_field32_of_zero(5, 27);
            bits::lemma_field32_of_zero(0, 24);
            bits::lemma_field32_with_field32_other(0, 10, 6, 36, 1, 9);
            bits::lemma_field32_of_zero(1, 9);
        }
        let ty = AllowedType::Doorbell.to_u32();
        let r = Self([0, 0, 0, bits::set_bits_u32(0, 10, 6, ty)]);
        assert(r@ =~= seq![0u32, 0u32, 0u32, bits::with_field32(0, 10, 6, 36)]);
        r
    }

    /// Converts four Dwords into a Doorbell Event TRB.
    ///
    /// # Errors
    ///
    /// This method returns the Dwords if their TRB Type is not that of a Doorbell Event TRB, or if
    /// one of its RsvdZ fields is not 0.
    pub fn try_from(raw: [u32; 4]) -> (r: Result<Self, [u32; 4]>)
        ensures
            r is Ok <==> Self::valid(raw@),
            r matches Ok(t) ==> t@ == raw@,
            r matches Err(b) ==> b == raw,
    {
        proof {
            bits::lemma_mask32_values();
        }
        if AllowedType::from_u32(bits::get_bits_u32(raw[3], 10, 6)) != Some(
            AllowedType::Doorbell,
        )
            || bits::get_bits_u32(raw[0], 5, 27) != 0
            || raw[1] != 0
            || bits::get_bits_u32(raw[2], 0, 24) != 0
            || bits::get_bits_u32(raw[3], 1, 9) != 0
        {
            return Err(raw);
        }
        Ok(Self(raw))
    }

    /// Returns the four Dwords of the TRB.
    pub fn into_raw(self) -> (r: [u32; 4])
        ensures
            r@ == self@,
            Self::valid(r@),
    {
        proof {
            use_type_invariant(&self);
        }
        self.0
    }

    /// Returns the Completion Code.
    ///
    /// # Errors
    ///
    /// This method returns the Completion Code that is either reserved or not implemented by
    /// this crate.
    pub fn completion_code(&self) -> (r: Result<CompletionCode, u8>)
        ensures
            r == (match CompletionCode::decode(bits::field32(self@[2], 24, 8)) {
                Some(c) => Ok(c),
                None => Err(bits::field32(self@[2], 24, 8) as u8),
            }),
    {
        proof {
            bits::lemma_mask32_values();
        }
        let c: u8 = bits::get_bits_u32(self.0[2], 24, 8) as u8;
        match CompletionCode::from_u32(c as u32) {
            Some(code) => Ok(code),
            None => Err(c),
        }
    }

    /// Returns the Cycle bit.
    pub fn cycle_bit(self) -> (r: bool)
        ensures
            r == bits::bit32(self@[3], 0),
    {
        bits::get_bit_u32(self.0[3], 0)
    }

    /// Sets the Cycle bit.
    pub fn set_cycle_bit(&mut self) -> (r: &mut Self)
        ensures
            (*r)@ == old(self)@.update(3, bits::with_bit32(old(self)@[3], 0, true)),
            *final(self) == *final(r),
    {
        proof {
            use_type_invariant(&*self);
            bits::lemma_mask32_values();
            bits::lemma_field32_with_bit32_other(old(self)@[3], 0, true, 10, 6);
            bits::lemma_field32_with_bit32_other(old(self)@[3], 0, true, 1, 9);
        }
        self.0[3] = bits::set_bit_u32(self.0[3], 0, true);
        self
    }

    /// Clears the Cycle bit.
    pub fn clear_cycle_bit(&mut self) -> (r: &mut Self)
        ensures
            (*r)@ == old(self)@.update(3, bits::with_bit32(old(self)@[3], 0, false)),
            *final(self) == *final(r),
    {
        proof {
            use_type_invariant(&*self);
            bits::lemma_mask32_values();
            bits::lemma_field32_with_bit32_other(old(self)@[3], 0, false, 10, 6);
            bits::lemma_field32_with_bit32_other(old(self)@[3], 0, false, 1, 9);
        }
        self.0[3] = bits::set_bit_u32(self.0[3], 0, false);
        self
    }

    /// Returns the value of the DB Reason field.
    pub fn db_reason(self) -> (r: u8)
        ensures
            r == bits::field32(self@[0], 0, 5),
    {
        proof {
            bits::lemma_mask32_values();
        }
        bits::get_bits_u32(self.0[0], 0, 5) as u8
    }

    /// Returns the value of the VF ID field.
    pub fn vf_id(self) -> (r: u8)
        ensures
            r == bits::field32(self@[3], 16, 8),
    {
        proof {
            bits::lemma_mask32_values();
        }
        bits::get_bits_u32(self.0[3], 16, 8) as u8
    }

    /// Returns the value of the Slot ID field.
    pub fn slot_id(self) -> (r: u8)
        ensures
            r == bits::field32(self@[3], 24, 8),
    {
        proof {
            bits::lemma_mask32_values();
        }
        bits::get_bits_u32(self.0[3], 24, 8) as u8
    }
}

impl Default for Doorbell {
    fn default() -> (r: Self)
        ensures
            r@ == seq![0u32, 0u32, 0u32, bits::with_field32(0, 10, 6, 36)],
    {
        Self::new()
    }
}

/// A Host Controller Event TRB.
#[derive(Clone, Copy, Debug, PartialEq, Eq, Hash)]
pub struct HostController([u32; 4]);

impl View for HostController {
    type V = Seq<u32>;

    closed spec fn view(&self) -> Seq<u32> {
        self.0@
    }
}

impl HostController {
    /// Whether `raw` is a Host Controller Event TRB: its TRB Type is 37 and its RsvdZ fields are 0.
    pub open spec fn valid(raw: Seq<u32>) -> bool {
        &&& bits::field32(raw[3], 10, 6) == 37
        &&& raw[0] == 0
        &&& raw[1] == 0
        &&& bits::field32(raw[2], 0, 24) == 0
        &&& bits::field32(raw[3], 1, 9) == 0
        &&& bits::field32(raw[3], 16, 16) == 0
    }

    /// Every Host Controller Event TRB passes its own check: `valid` holds of its Dwords.
    #[verifier::type_invariant]
    spec fn is_accepted(&self) -> bool {
        Self::valid(self@)
    }

    /// Creates a new Host Controller Event TRB.
    ///
    /// This method sets the value of the TRB Type field properly. All the other fields are set
    /// to 0.
    pub fn new() -> (r: Self)
        ensures
            r@ == seq![0u32, 0u32, 0u32, bits::with_field32(0, 10, 6, 37)],
            Self::valid(r@),
    {
        proof {
            bits::lemma_mask32_values();
            bits::lemma_field32_with_field32_same(0, 10, 6, 37);
            bits::lemma_field32_of_zero(0, 24);
            bits::lemma_field32_with_field32_other(0, 10, 6, 37, 1, 9);
            bits::lemma_field32_of_zero(1, 9);
            bits::lemma_field32_with_field32_other(0, 10, 6, 37, 16, 16);
            bits::lemma_field32_of_zero(16, 16);
        }
        let ty = AllowedType::HostController.to_u32();
        let r = Self([0, 0, 0, bits::set_bits_u32(0, 10, 6, ty)]);
        assert(r@ =~= seq![0u32, 0u32, 0u32, bits::with_field32(0, 10, 6, 37)]);
        r
    }

    /// Converts four Dwords into a Host Controller Event TRB.
    ///
    /// # Errors
    ///
    /// This method returns the Dwords if their TRB Type is not that of a Host Controller Event TRB,
    /// or if one of its RsvdZ fields is not 0.
    pub fn try_from(raw: [u32; 4]) -> (r: Result<Self, [u32; 4]>)
        ensures
            r is Ok <==> Self::valid(raw@),
            r matches Ok(t) ==> t@ == raw@,
            r matches Err(b) ==> b == raw,
    {
        proof {
            bits::lemma_mask32_values();
        }
        if AllowedType::from_u32(bits::get_bits_u32(raw[3], 10, 6)) != Some(
            AllowedType::HostController,
        )
            || raw[0] != 0
            || raw[1] != 0
            || bits::get_bits_u32(raw[2], 0, 24) != 0
            || bits::get_bits_u32(raw[3], 1, 9) != 0
            || bits::get_bits_u32(raw[3], 16, 16) != 0
        {
            return Err(raw);
        }
        Ok(Self(raw))
    }

    /// Returns the four Dwords of the TRB.
    pub fn into_raw(self) -> (r: [u32; 4])
        ensures
            r@ == self@,
            Self::valid(r@),
    {
        proof {
            use_type_invariant(&self);
        }
        self.0
    }

    /// Returns the Completion Code.
    ///
    /// # Errors
    ///
    /// This method returns the Completion Code that is either reserved or not implemented by
    /// this crate.
    pub fn completion_code(&self) -> (r: Result<CompletionCode, u8>)
        ensures
            r == (match CompletionCode::decode(bits::field32(self@[2], 24, 8)) {
                Some(c) => Ok(c),
                None => Err(bits::field32(self@[2], 24, 8) as u8),
            }),
    {
        proof {
            bits::lemma_mask32_values();
        }
        let c: u8 = bits::get_bits_u32(self.0[2], 24, 8) as u8;
        match CompletionCode::from_u32(c as u32) {
            Some(code) => Ok(code),
            None => Err(c),
        }
    }

    /// Returns the Cycle bit.
    pub fn cycle_bit(self) -> (r: bool)
        ensures
            r == bits::bit32(self@[3], 0),
    {
        bits::get_bit_u32(self.0[3], 0)
    }

    /// Sets the Cycle bit.
    pub fn set_cycle_bit(&mut self) -> (r: &mut Self)
        ensures
            (*r)@ == old(self)@.update(3, bits::with_bit32(old(self)@[3], 0, true)),
            *final(self) == *final(r),
    {
        proof {
            use_type_invariant(&*self);
            bits::lemma_mask32_values();
            bits::lemma_field32_with_bit32_other(old(self)@[3], 0, true, 10, 6);
            bits::lemma_field32_with_bit32_other(old(self)@[3], 0, true, 1, 9);
            bits::lemma_field32_with_bit32_other(old(self)@[3], 0, true, 16, 16);
        }
        self.0[3] = bits::set_bit_u32(self.0[3], 0, true);
        self
    }

    /// Clears the Cycle bit.
    pub fn clear_cycle_bit(&mut self) -> (r: &mut Self)
        ensures
            (*r)@ == old(self)@.update(3, bits::with_bit32(old(self)@[3], 0, false)),
            *final(self) == *final(r),
    {
        proof {
            use_type_invariant(&*self);
            bits::lemma_mask32_values();
            bits::lemma_field32_with_bit32_other(old(self)@[3], 0, false, 10, 6);
            bits::lemma_field32_with_bit32_other(old(self)@[3], 0, false, 1, 9);
            bits::lemma_field32_with_bit32_other(old(self)@[3], 0, false, 16, 16);
        }
        self.0[3] = bits::set_bit_u32(self.0[3], 0, false);
        self
    }
}

impl Default for HostController {
    fn default() -> (r: Self)
        ensures
            r@ == seq![0u32, 0u32, 0u32, bits::with_field32(0, 10, 6, 37)],
    {
        Self::new()
    }
}

/// A Device Notification Event TRB.
#[derive(Clone, Copy, Debug, PartialEq, Eq, Hash)]
pub struct DeviceNotification([u32; 4]);

impl View for DeviceNotification {
    type V = Seq<u32>;

    closed spec fn view(&self) -> Seq<u32> {
        self.0@
    }
}

impl DeviceNotification {
    /// Whether `raw` is a Device Notification Event TRB: its TRB Type is 38 and its RsvdZ fields
    /// are 0.
    pub open spec fn valid(raw: Seq<u32>) -> bool {
        &&& bits::field32(raw[3], 10, 6) == 38
        &&& bits::field32(raw[0], 0, 4) == 0
        &&& bits::field32(raw[2], 0, 24) == 0
        &&& bits::field32(raw[3], 1, 9) == 0
        &&& bits::field32(raw[3], 16, 8) == 0
    }

    /// Every Device Notification Event TRB passes its own check: `valid` holds of its Dwords.
    #[verifier::type_invariant]
    spec fn is_accepted(&self) -> bool {
        Self::valid(self@)
    }

    /// Creates a new Device Notification Event TRB.
    ///
    /// This method sets the value of the TRB Type field properly. All the other fields are set
    /// to 0.
    pub fn new() -> (r: Self)
        ensures
            r@ == seq![0u32, 0u32, 0u32, bits::with_field32(0, 10, 6, 38)],
            Self::valid(r@),
    {
        proof {
            bits::lemma_mask32_values();
            bits::lemma_field32_with_field32_same(0, 10, 6, 38);
            bits::lemma_field32_of_zero(0, 4);
            bits::lemma_field32_of_zero(0, 24);
            bits::lemma_field32_with_field32_other(0, 10, 6, 38, 1, 9);
            bits::lemma_field32_of_zero(1, 9);
            bits::lemma_field32_with_field32_other(0, 10, 6, 38, 16, 8);
            bits::lemma_field32_of_zero(16, 8);
        }
        let ty = AllowedType::DeviceNotification.to_u32();
        let r = Self([0, 0, 0, bits::set_bits_u32(0, 10, 6, ty)]);
        assert(r@ =~= seq![0u32, 0u32, 0u32, bits::with_field32(0, 10, 6, 38)]);
        r
    }

    /// Converts four Dwords into a Device Notification Event TRB.
    ///
    /// # Errors
    ///
    /// This method returns the Dwords if their TRB Type is not that of a Device Notification Event
    /// TRB, or if one of its RsvdZ fields is not 0.
    pub fn try_from(raw: [u32; 4]) -> (r: Result<Self, [u32; 4]>)
        ensures
            r is Ok <==> Self::valid(raw@),
            r matches Ok(t) ==> t@ == raw@,
            r matches Err(b) ==> b == raw,
    {
        proof {
            bits::lemma_mask32_values();
        }
        if AllowedType::from_u32(bits::get_bits_u32(raw[3], 10, 6)) != Some(
            AllowedType::DeviceNotification,
        )
            || bits::get_bits_u32(raw[0], 0, 4) != 0
            || bits::get_bits_u32(raw[2], 0, 24) != 0
            || bits::get_bits_u32(raw[3], 1, 9) != 0
            || bits::get_bits_u32(raw[3], 16, 8) != 0
        {
            return Err(raw);
        }
        Ok(Self(raw))
    }

    /// Returns the four Dwords of the TRB.
    pub fn into_raw(self) -> (r: [u32; 4])
        ensures
            r@ == self@,
            Self::valid(r@),
    {
        proof {
            use_type_invariant(&self);
        }
        self.0
    }

    /// Returns the Completion Code.
    ///
    /// # Errors
    ///
    /// This method returns the Completion Code that is either reserved or not implemented by
    /// this crate.
    pub fn completion_code(&self) -> (r: Result<CompletionCode, u8>)
        ensures
            r == (match CompletionCode::decode(bits::field32(self@[2], 24, 8)) {
                Some(c) => Ok(c),
                None => Err(bits::field32(self@[2], 24, 8) as u8),
            }),
    {
        proof {
            bits::lemma_mask32_values();
        }
        let c: u8 = bits::get_bits_u32(self.0[2], 24, 8) as u8;
        match CompletionCode::from_u32(c as u32) {
            Some(code) => Ok(code),
            None => Err(c),
        }
    }

    /// Returns the Cycle bit.
    pub fn cycle_bit(self) -> (r: bool)
        ensures
            r == bits::bit32(self@[3], 0),
    {
        bits::get_bit_u32(self.0[3], 0)
    }

    /// Sets the Cycle bit.
    pub fn set_cycle_bit(&mut self) -> (r: &mut Self)
        ensures
            (*r)@ == old(self)@.update(3, bits::with_bit32(old(self)@[3], 0, true)),
            *final(self) == *final(r),
    {
        proof {
            use_type_invariant(&*self);
            bits::lemma_mask32_values();
            bits::lemma_field32_with_bit32_other(old(self)@[3], 0, true, 10, 6);
            bits::lemma_field32_with_bit32_other(old(self)@[3], 0, true, 1, 9);
            bits::lemma_field32_with_bit32_other(old(self)@[3], 0, true, 16, 8);
        }
        self.0[3] = bits::set_bit_u32(self.0[3], 0, true);
        self
    }

    /// Clears the Cycle bit.
    pub fn clear_cycle_bit(&mut self) -> (r: &mut Self)
        ensures
            (*r)@ == old(self)@.update(3, bits::with_bit32(old(self)@[3], 0, false)),
            *final(self) == *final(r),
    {
        proof {
            use_type_invariant(&*self);
            bits::lemma_mask32_values();
            bits::lemma_field32_with_bit32_other(old(self)@[3], 0, false, 10, 6);
            bits::lemma_field32_with_bit32_other(old(self)@[3], 0, false, 1, 9);
            bits::lemma_field32_with_bit32_other(old(self)@[3], 0, false, 16, 8);
        }
        self.0[3] = bits::set_bit_u32(self.0[3], 0, false);
        self
    }

    /// Returns the value of the Notification Type field.
    pub fn notification_type(self) -> (r: u8)
        ensures
            r == bits::field32(self@[0], 4, 4),
    {
        proof {
            bits::lemma_mask32_values();
        }
        bits::get_bits_u32(self.0[0], 4, 4) as u8
    }

    /// Returns the value of the Device Notification Data field: bits 8 to 63 of the first two
    /// Dwords, taken as one 64-bit value.
    pub fn device_notification_data(&self) -> (r: u64)
        ensures
            r == bits::join64(self@[0], self@[1]) >> 8u64,
    {
        let l = self.0[0];
        let u = self.0[1];

        bits::join_halves(l, u) >> 8
    }

    /// Returns the value of the Slot ID field.
    pub fn slot_id(self) -> (r: u8)
        ensures
            r == bits::field32(self@[3], 24, 8),
    {
        proof {
            bits::lemma_mask32_values();
        }
        bits::get_bits_u32(self.0[3], 24, 8) as u8
    }
}

impl Default for DeviceNotification {
    fn default() -> (r: Self)
        ensures
            r@ == seq![0u32, 0u32, 0u32, bits::with_field32(0, 10, 6, 38)],
    {
        Self::new()
    }
}

/// A MFINDEX Wrap Event TRB.
#[derive(Clone, Copy, Debug, PartialEq, Eq, Hash)]
pub struct MfindexWrap([u32; 4]);

impl View for MfindexWrap {
    type V = Seq<u32>;

    closed spec fn view(&self) -> Seq<u32> {
        self.0@
    }
}

impl MfindexWrap {
    /// Whether `raw` is a MFINDEX Wrap Event TRB: its TRB Type is 39 and its RsvdZ fields are 0.
    pub open spec fn valid(raw: Seq<u32>) -> bool {
        &&& bits::field32(raw[3], 10, 6) == 39
        &&& bits::field32(raw[0], 0, 4) == 0
        &&& bits::field32(raw[2], 0, 24) == 0
        &&& bits::field32(raw[3], 1, 9) == 0
        &&& bits::field32(raw[3], 16, 8) == 0
    }

    /// Every MFINDEX Wrap Event TRB passes its own check: `valid` holds of its Dwords.
    #[verifier::type_invariant]
    spec fn is_accepted(&self) -> bool {
        Self::valid(self@)
    }

    /// Creates a new MFINDEX Wrap Event TRB.
    ///
    /// This method sets the value of the TRB Type field properly. All the other fields are set
    /// to 0.
    pub fn new() -> (r: Self)
        ensures
            r@ == seq![0u32, 0u32, 0u32, bits::with_field32(0, 10, 6, 39)],
            Self::valid(r@),
    {
        proof {
            bits::lemma_mask32_values();
            bits::lemma_field32_with_field32_same(0, 10, 6, 39);
            bits::lemma_field32_of_zero(0, 4);
            bits::lemma_field32_of_zero(0, 24);
            bits::lemma_field32_with_field32_other(0, 10, 6, 39, 1, 9);
            bits::lemma_field32_of_zero(1, 9);
            bits::lemma_field32_with_field32_other(0, 10, 6, 39, 16, 8);
            bits::lemma_field32_of_zero(16, 8);
        }
        let ty = AllowedType::MfindexWrap.to_u32();
        let r = Self([0, 0, 0, bits::set_bits_u32(0, 10, 6, ty)]);
        assert(r@ =~= seq![0u32, 0u32, 0u32, bits::with_field32(0, 10, 6, 39)]);
        r
    }

    /// Converts four Dwords into a MFINDEX Wrap Event TRB.
    ///
    /// # Errors
    ///
    /// This method returns the Dwords if their TRB Type is not that of a MFINDEX Wrap Event TRB, or
    /// if one of its RsvdZ fields is not 0.
    pub fn try_from(raw: [u32; 4]) -> (r: Result<Self, [u32; 4]>)
        ensures
            r is Ok <==> Self::valid(raw@),
            r matches Ok(t) ==> t@ == raw@,
            r matches Err(b) ==> b == raw,
    {
        proof {
            bits::lemma_mask32_values();
        }
        if AllowedType::from_u32(bits::get_bits_u32(raw[3], 10, 6)) != Some(
            AllowedType::MfindexWrap,
        )
            || bits::get_bits_u32(raw[0], 0, 4) != 0
            || bits::get_bits_u32(raw[2], 0, 24) != 0
            || bits::get_bits_u32(raw[3], 1, 9) != 0
            || bits::get_bits_u32(raw[3], 16, 8) != 0
        {
            return Err(raw);
        }
        Ok(Self(raw))
    }

    /// Returns the four Dwords of the TRB.
    pub fn into_raw(self) -> (r: [u32; 4])
        ensures
            r@ == self@,
            Self::valid(r@),
    {
        proof {
            use_type_invariant(&self);
        }
        self.0
    }

    /// Returns the Completion Code.
    ///
    /// # Errors
    ///
    /// This method returns the Completion Code that is either reserved or not implemented by
    /// this crate.
    pub fn completion_code(&self) -> (r: Result<CompletionCode, u8>)
        ensures
            r == (match CompletionCode::decode(bits::field32(self@[2], 24, 8)) {
                Some(c) => Ok(c),
                None => Err(bits::field32(self@[2], 24, 8) as u8),
            }),
    {
        proof {
            bits::lemma_mask32_values();
        }
        let c: u8 = bits::get_bits_u32(self.0[2], 24, 8) as u8;
        match CompletionCode::from_u32(c as u32) {
            Some(code) => Ok(code),
            None => Err(c),
        }
    }

    /// Returns the Cycle bit.
    pub fn cycle_bit(self) -> (r: bool)
        ensures
            r == bits::bit32(self@[3], 0),
    {
        bits::get_bit_u32(self.0[3], 0)
    }

    /// Sets the Cycle bit.
    pub fn set_cycle_bit(&mut self) -> (r: &mut Self)
        ensures
            (*r)@ == old(self)@.update(3, bits::with_bit32(old(self)@[3], 0, true)),
            *final(self) == *final(r),
    {
        proof {
            use_type_invariant(&*self);
            bits::lemma_mask32_values();
            bits::lemma_field32_with_bit32_other(old(self)@[3], 0, true, 10, 6);
            bits::lemma_field32_with_bit32_other(old(self)@[3], 0, true, 1, 9);
            bits::lemma_field32_with_bit32_other(old(self)@[3], 0, true, 16, 8);
        }
        self.0[3] = bits::set_bit_u32(self.0[3], 0, true);
        self
    }

    /// Clears the Cycle bit.
    pub fn clear_cycle_bit(&mut self) -> (r: &mut Self)
        ensures
            (*r)@ == old(self)@.update(3, bits::with_bit32(old(self)@[3], 0, false)),
            *final(self) == *final(r),
    {
        proof {
            use_type_invariant(&*self);
            bits::lemma_mask32_values();
            bits::lemma_field32_with_bit32_other(old(self)@[3], 0, false, 10, 6);
            bits::lemma_field32_with_bit32_other(old(self)@[3], 0, false, 1, 9);
            bits::lemma_field32_with_bit32_other(old(self)@[3], 0, false, 16, 8);
        }
        self.0[3] = bits::set_bit_u32(self.0[3], 0, false);
        self
    }
}

impl Default for MfindexWrap {
    fn default() -> (r: Self)
        ensures
            r@ == seq![0u32, 0u32, 0u32, bits::with_field32(0, 10, 6, 39)],
    {
        Self::new()
    }
}

} // verus!
