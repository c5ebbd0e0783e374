//! A storage device named by its path.

use vstd::prelude::*;

verus! {

/// A device, by the path of its node (`/dev/sda`). Reading it is left to the
/// caller, who hands the buffers it returns to the decoders of this crate.
pub struct Device {
    path: String,
}

impl View for Device {
    type V = Seq<char>;

    /// The path of the device node.
    closed spec fn view(&self) -> Seq<char> {
        self.path@
    }
}

impl Device {
    /// A device at path `fp`.
    pub fn new(fp: &str) -> (d: Device)
        ensures
            d@ == fp@,
    {
        Device { path: fp.to_owned() }
    }

    /// The path of the device node.
    pub fn path(&self) -> (r: &str)
        ensures
            r@ == self@,
    {
        self.path.as_str()
    }
}

} // verus!
