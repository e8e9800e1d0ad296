use arrayvec::ArrayVec;
use vstd::prelude::*;

verus! {

/// What a vector of at most 16 bytes holds, the first byte first.
pub uninterp spec fn ports_of(v: ArrayVec<u8, 16>) -> Seq<u8>;

/// `ArrayVec::new`: a vector that holds nothing.
#[verifier::external_body]
fn no_ports() -> (v: ArrayVec<u8, 16>)
    ensures
        ports_of(v) == Seq::<u8>::empty(),
{
    ArrayVec::new()
}

/// The bytes that were written to a device's ports, at most one for each of
/// its 16 ports.
pub struct Device {
    data: ArrayVec<u8, 16>,
}

impl Device {
    /// The bytes that the device holds.
    pub closed spec fn data(&self) -> Seq<u8> {
        ports_of(self.data)
    }

    /// A device that holds nothing.
    pub fn new() -> (d: Self)
        ensures
            d.data() == Seq::<u8>::empty(),
    {
        Device { data: no_ports() }
    }
}

} // verus!
