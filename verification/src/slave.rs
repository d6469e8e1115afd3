//! Device addressing.

use vstd::prelude::*;

verus! {

/// The byte that tags a frame with the device it is meant for.
pub type SlaveId = u8;

/// Lowest identifier of a single device.
pub const MIN_DEVICE_ID: SlaveId = 1;

/// Highest identifier of a single device.
pub const MAX_DEVICE_ID: SlaveId = 247;

/// Identifier that reaches every device on the bus.
pub const BROADCAST_ID: SlaveId = 0;

/// Identifier of a device that is connected directly, without a gateway.
pub const TCP_DEVICE_ID: SlaveId = 255;

/// What a [`Slave`] stands for: the addressing mode, told apart by tag.
#[derive(Clone, Copy, Debug, PartialEq, Eq, Structural)]
pub enum SlaveAddress {
    /// Every device on the bus; none of them answers.
    Broadcast,
    /// One device, by its identifier between 1 and 247.
    Unit(SlaveId),
    /// A raw identifier from the reserved range above 247.
    Custom(SlaveId),
}

/// The device that the frames of a context are addressed to.
#[derive(Clone, Copy, Debug, PartialEq, Eq, Structural, Hash)]
pub struct Slave(pub SlaveId);

impl SlaveAddress {
    /// An address is well formed when its identifier lies in the range of its tag.
    pub open spec fn wf(self) -> bool {
        match self {
            SlaveAddress::Broadcast => true,
            SlaveAddress::Unit(id) => MIN_DEVICE_ID <= id <= MAX_DEVICE_ID,
            SlaveAddress::Custom(id) => id > MAX_DEVICE_ID,
        }
    }

    /// The identifier that goes on the wire for this address.
    pub open spec fn spec_id(self) -> SlaveId {
        match self {
            SlaveAddress::Broadcast => BROADCAST_ID,
            SlaveAddress::Unit(id) => id,
            SlaveAddress::Custom(id) => id,
        }
    }

    /// The address that an identifier stands for.
    pub open spec fn of(id: SlaveId) -> SlaveAddress {
        if id == BROADCAST_ID {
            SlaveAddress::Broadcast
        } else if id <= MAX_DEVICE_ID {
            SlaveAddress::Unit(id)
        } else {
            SlaveAddress::Custom(id)
        }
    }

    /// The identifier that goes on the wire for this address.
    #[verifier::when_used_as_spec(spec_id)]
    pub fn id(self) -> (id: SlaveId)
        ensures
            id == self.spec_id(),
    {
        match self {
            SlaveAddress::Broadcast => BROADCAST_ID,
            SlaveAddress::Unit(id) => id,
            SlaveAddress::Custom(id) => id,
        }
    }

    /// The slave that carries this address.
    pub fn slave(self) -> (slave: Slave)
        ensures
            slave == Slave(self.spec_id()),
            self.wf() ==> slave@ == self,
    {
        Slave(self.id())
    }
}

impl View for Slave {
    type V = SlaveAddress;

    open spec fn view(&self) -> SlaveAddress {
        SlaveAddress::of(self.0)
    }
}

impl Slave {
    /// The address for messages to every device at once.
    pub open spec fn spec_broadcast() -> Slave {
        Slave(BROADCAST_ID)
    }

    /// The address of a directly connected device.
    pub open spec fn spec_tcp_device() -> Slave {
        Slave(TCP_DEVICE_ID)
    }

    /// The address for messages to every device at once.
    #[verifier::when_used_as_spec(spec_broadcast)]
    pub fn broadcast() -> (slave: Slave)
        ensures
            slave == Slave::spec_broadcast(),
            slave@ == SlaveAddress::Broadcast,
    {
        Slave(BROADCAST_ID)
    }

    /// The single device with the lowest identifier.
    pub fn min_device() -> (slave: Slave)
        ensures
            slave == Slave(MIN_DEVICE_ID),
            slave@ == SlaveAddress::Unit(MIN_DEVICE_ID),
    {
        Slave(MIN_DEVICE_ID)
    }

    /// The single device with the highest identifier.
    pub fn max_device() -> (slave: Slave)
        ensures
            slave == Slave(MAX_DEVICE_ID),
            slave@ == SlaveAddress::Unit(MAX_DEVICE_ID),
    {
        Slave(MAX_DEVICE_ID)
    }

    /// The address of a directly connected device, which is the default where
    /// a caller names no device.
    #[verifier::when_used_as_spec(spec_tcp_device)]
    pub fn tcp_device() -> (slave: Slave)
        ensures
            slave == Slave::spec_tcp_device(),
            slave@ == SlaveAddress::Custom(TCP_DEVICE_ID),
    {
        Slave(TCP_DEVICE_ID)
    }

    /// Whether frames to this slave go to every device.
    pub fn is_broadcast(self) -> (b: bool)
        ensures
            b == (self@ == SlaveAddress::Broadcast),
            b == (self.0 == BROADCAST_ID),
    {
        self.0 == BROADCAST_ID
    }

    /// Whether this slave is one device with an identifier of its own.
    pub fn is_single_device(self) -> (b: bool)
        ensures
            b == (self@ is Unit),
            b == (MIN_DEVICE_ID <= self.0 <= MAX_DEVICE_ID),
    {
        MIN_DEVICE_ID <= self.0 && self.0 <= MAX_DEVICE_ID
    }

    /// Whether the identifier lies in the reserved range.
    pub fn is_reserved(self) -> (b: bool)
        ensures
            b == (self@ is Custom),
            b == (self.0 > MAX_DEVICE_ID),
    {
        self.0 > MAX_DEVICE_ID
    }

    /// The addressing mode of this slave.
    pub fn address(self) -> (address: SlaveAddress)
        ensures
            address == self@,
            address.wf(),
            address.spec_id() == self.0,
    {
        if self.0 == BROADCAST_ID {
            SlaveAddress::Broadcast
        } else if self.0 <= MAX_DEVICE_ID {
            SlaveAddress::Unit(self.0)
        } else {
            SlaveAddress::Custom(self.0)
        }
    }
}

/// Every identifier stands for exactly one well-formed address, and that
/// address goes back on the wire as the same identifier.
pub proof fn lemma_identifier_round_trip(id: SlaveId)
    ensures
        Slave(id)@.wf(),
        Slave(id)@.spec_id() == id,
{
}

/// Every well-formed address is the address of the slave that carries its
/// identifier, so two well-formed addresses with one identifier are equal.
pub proof fn lemma_address_round_trip(address: SlaveAddress)
    requires
        address.wf(),
    ensures
        Slave(address.spec_id())@ == address,
{
}

} // verus!
