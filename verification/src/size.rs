use vstd::prelude::*;
use crate::errors::Error;

verus! {

/// Block size parameters.
#[derive(Clone, Copy, PartialEq, Eq, Debug, Structural)]
pub struct Size {
    /// Maximum number of bytes in a block.
    pub max_bytes: u64,
    /// Maximum amount of gas which can be spent on a block.
    pub max_gas: i64,
    /// Kept for wire compatibility; carries no meaning any more.
    pub time_iota_ms: i64,
}

/// Block size parameters as they cross the wire boundary.
#[derive(Clone, Copy, PartialEq, Eq, Debug, Structural)]
pub struct RawSize {
    pub max_bytes: i64,
    pub max_gas: i64,
}

impl Size {
    /// The fixed value the retired `time_iota_ms` parameter reads as.
    pub fn default_time_iota_ms() -> (r: i64)
        ensures
            r == 1000,
    {
        1000
    }

    /// Reads size parameters off their wire form. A negative byte bound
    /// does not fit the domain type and is rejected.
    pub fn try_from_raw(value: RawSize) -> (r: Result<Size, Error>)
        ensures
            value.max_bytes >= 0 ==> r == Ok::<Size, Error>(
                Size {
                    max_bytes: value.max_bytes as u64,
                    max_gas: value.max_gas,
                    time_iota_ms: 1000,
                },
            ),
            value.max_bytes < 0 ==> r == Err::<Size, Error>(Error::IntegerOverflow),
    {
        if value.max_bytes < 0 {
            return Err(Error::IntegerOverflow);
        }
        Ok(
            Size {
                max_bytes: value.max_bytes as u64,
                max_gas: value.max_gas,
                time_iota_ms: Size::default_time_iota_ms(),
            },
        )
    }

    /// The wire form of these parameters; the byte bound is clamped into
    /// the signed wire range, and the retired parameter is not carried.
    pub fn into_raw(self) -> (r: RawSize)
        ensures
            r.max_gas == self.max_gas,
            self.max_bytes <= i64::MAX as u64 ==> r.max_bytes == self.max_bytes as i64,
            self.max_bytes > i64::MAX as u64 ==> r.max_bytes == i64::MAX,
    {
        let max_bytes: i64 = if self.max_bytes > i64::MAX as u64 {
            i64::MAX
        } else {
            self.max_bytes as i64
        };
        RawSize { max_bytes, max_gas: self.max_gas }
    }
}

} // verus!
