use vstd::prelude::*;

verus! {

/// The hardware family a cartridge asks for.
#[derive(Clone, Copy, PartialEq, Eq, Structural, Debug)]
pub enum HardwareMode {
    DMG,
    GBC,
}

} // verus!
