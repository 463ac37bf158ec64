//! The data model of the SMBus byte-data transactions the I²C device
//! performs.
//!
//! The surrounding process owns the bus descriptor and issues the two
//! ioctls — `SET_SLAVE_ADDRESS` and the SMBus access — copying the payload
//! modelled here into the kernel's structures verbatim.  Errors carry the
//! raw `errno` value of the failed call.

use vstd::prelude::*;

verus! {

/// The ioctl request that binds the open bus descriptor to a slave address.
pub const I2C_SLAVE_IOCTL_REQUEST: u64 = 0x0703;

/// The ioctl request for an SMBus transfer.
pub const I2C_SMBUS_IOCTL_REQUEST: u64 = 0x0720;

/// The size of the kernel's SMBus data block (the largest member of its
/// union).
pub const I2C_SMBUS_DATA_BLOCK_SIZE: usize = 34;

/// The direction of an SMBus transfer.
#[derive(Clone, Copy, Debug, PartialEq, Eq, Structural)]
pub enum I2CSMBusReadWrite {
    Read,
    Write,
}

impl I2CSMBusReadWrite {
    /// The kernel's code for the direction.
    pub fn into_code(self) -> (code: u8)
        ensures
            self is Read ==> code == 1,
            self is Write ==> code == 0,
    {
        match self {
            I2CSMBusReadWrite::Read => 1,
            I2CSMBusReadWrite::Write => 0,
        }
    }
}

/// The transfer size of an SMBus transaction; only byte data is used here.
#[derive(Clone, Copy, Debug, PartialEq, Eq, Structural)]
pub enum I2CSMBusDataSize {
    ByteData,
}

impl I2CSMBusDataSize {
    /// The kernel's code for the transfer size.
    pub fn into_code(self) -> (code: u32)
        ensures
            code == 2,
    {
        match self {
            I2CSMBusDataSize::ByteData => 2,
        }
    }
}

/// The SMBus data payload: a zero-filled block of which only the first byte
/// matters for byte-data transfers.
pub struct I2CSMBusData {
    pub block: Vec<u8>,
}

impl I2CSMBusData {
    /// The block has exactly the kernel's size.
    pub open spec fn is_valid(self) -> bool {
        self.block@.len() == I2C_SMBUS_DATA_BLOCK_SIZE
    }

    /// An all-zero payload.
    pub fn new() -> (data: I2CSMBusData)
        ensures
            data.is_valid(),
            forall|i: int| 0 <= i < data.block@.len() ==> #[trigger] data.block@[i] == 0,
    {
        let mut block: Vec<u8> = Vec::new();
        let mut index: usize = 0;
        while index < I2C_SMBUS_DATA_BLOCK_SIZE
            invariant
                index <= I2C_SMBUS_DATA_BLOCK_SIZE,
                block@.len() == index,
                forall|i: int| 0 <= i < block@.len() ==> #[trigger] block@[i] == 0,
            decreases I2C_SMBUS_DATA_BLOCK_SIZE - index,
        {
            block.push(0);
            index = index + 1;
        }
        I2CSMBusData { block }
    }

    /// The payload of a byte-data write: the value sits in the first block
    /// byte and everything else is zero.
    pub fn for_write(value: u8) -> (data: I2CSMBusData)
        ensures
            data.is_valid(),
            data.block@[0] == value,
            forall|i: int| 1 <= i < data.block@.len() ==> #[trigger] data.block@[i] == 0,
    {
        let mut data = I2CSMBusData::new();
        data.block.set(0, value);
        data
    }
}

/// A failure to open the bus or bind it to the slave address.
#[derive(Clone, Debug, PartialEq, Eq)]
pub enum SetupError {
    CouldNotOpenI2CDevice { path: Vec<u8>, errno: i32 },
    CouldNotSetSlaveAddress { address: i32, errno: i32 },
}

/// A failure of an SMBus byte-data read.
#[derive(Clone, Debug, PartialEq, Eq)]
pub enum ReadError {
    CouldNotReadByteData { command: u8, errno: i32 },
}

/// A failure of an SMBus byte-data write.
#[derive(Clone, Debug, PartialEq, Eq)]
pub enum WriteError {
    CouldNotWriteByteData { command: u8, value: u8, errno: i32 },
}

} // verus!
