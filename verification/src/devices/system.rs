use crate::devices::screen::{Rgb, Screen};
use crate::system::Diagnostic;
use crate::uxn::{Machine, UXN};
use vstd::prelude::*;

verus! {

// the colors that this device sets are kept by the screen device, which
// is the one that reads them
pub struct SystemDevice {}

impl SystemDevice {
    /// The system device.
    pub fn new() -> Self {
        SystemDevice {  }
    }
}

/// A 4-bit channel value as 8 bits: the nibble in both halves.
pub open spec fn expand(nibble: u8) -> u8 {
    nibble | (nibble << 4)
}

/// The channel value that the high nibble of a palette byte stands for.
pub open spec fn high(mem_color: u8) -> u8 {
    expand((mem_color >> 4) & 0x0f)
}

/// The channel value that the low nibble of a palette byte stands for.
pub open spec fn low(mem_color: u8) -> u8 {
    expand(mem_color & 0x0f)
}

impl Machine {
    /// What a write to a port of the system device does, once the byte is
    /// in the device page: ports 8 to 0xd each set one channel of two
    /// colours, from the two nibbles of the byte; ports 0, 1 and 0xf only
    /// hold their byte; a write to any other port is noted.
    #[verifier::opaque]
    pub open spec fn deo_system(self, port: int) -> Machine {
        let rel = port % 16;
        let c = self.screen;
        let v = self.dev[port];
        if rel == 0x8 {
            Machine {
                screen: Screen {
                    color0: Rgb { r: high(v), ..c.color0 },
                    color1: Rgb { r: low(v), ..c.color1 },
                    ..c
                },
                ..self
            }
        } else if rel == 0x9 {
            Machine {
                screen: Screen {
                    color2: Rgb { r: high(v), ..c.color2 },
                    color3: Rgb { r: low(v), ..c.color3 },
                    ..c
                },
                ..self
            }
        } else if rel == 0xa {
            Machine {
                screen: Screen {
                    color0: Rgb { g: high(v), ..c.color0 },
                    color1: Rgb { g: low(v), ..c.color1 },
                    ..c
                },
                ..self
            }
        } else if rel == 0xb {
            Machine {
                screen: Screen {
                    color2: Rgb { g: high(v), ..c.color2 },
                    color3: Rgb { g: low(v), ..c.color3 },
                    ..c
                },
                ..self
            }
        } else if rel == 0xc {
            Machine {
                screen: Screen {
                    color0: Rgb { b: high(v), ..c.color0 },
                    color1: Rgb { b: low(v), ..c.color1 },
                    ..c
                },
                ..self
            }
        } else if rel == 0xd {
            Machine {
                screen: Screen {
                    color2: Rgb { b: high(v), ..c.color2 },
                    color3: Rgb { b: low(v), ..c.color3 },
                    ..c
                },
                ..self
            }
        } else if rel == 0x0 || rel == 0x1 || rel == 0xf {
            self
        } else {
            self.note(Diagnostic::UnmappedDevicePort(port as usize))
        }
    }
}

/// The system device's write handler; `val` is the byte that was written.
pub fn system(uxn: &mut UXN, port: usize, val: u8)
    requires
        old(uxn).wf(),
        port < 0x10,
    ensures
        final(uxn).wf(),
        final(uxn)@ == old(uxn)@.deo_system(port as int),
{
    reveal(Machine::deo_system);
    let rel = port % 16;

    match rel {
        // the system vector, and the halt flag: the device page holds them
        0x0 | 0x1 | 0xf => {},
        // Set the red spectrum color for color0 and color1
        0x8 => {
            let (c0_red, c1_red) = palette(uxn.dev_get(port));

            let c0 = uxn.screen.color0;
            uxn.screen.color0 = Rgb { r: c0_red, g: c0.g, b: c0.b };

            let c1 = uxn.screen.color1;
            uxn.screen.color1 = Rgb { r: c1_red, g: c1.g, b: c1.b };
        },
        // Set the red spectrum color for color2 and color3
        0x9 => {
            let (c2_red, c3_red) = palette(uxn.dev_get(port));

            let c2 = uxn.screen.color2;
            uxn.screen.color2 = Rgb { r: c2_red, g: c2.g, b: c2.b };

            let c3 = uxn.screen.color3;
            uxn.screen.color3 = Rgb { r: c3_red, g: c3.g, b: c3.b };
        },
        // Set the green spectrum color for color0 and color1
        0xa => {
            let (c0_green, c1_green) = palette(uxn.dev_get(port));

            let c0 = uxn.screen.color0;
            uxn.screen.color0 = Rgb { r: c0.r, g: c0_green, b: c0.b };

            let c1 = uxn.screen.color1;
            uxn.screen.color1 = Rgb { r: c1.r, g: c1_green, b: c1.b };
        },
        // Set the green spectrum color for color2 and color3
        0xb => {
            let (c2_green, c3_green) = palette(uxn.dev_get(port));

            let c2 = uxn.screen.color2;
            uxn.screen.color2 = Rgb { r: c2.r, g: c2_green, b: c2.b };

            let c3 = uxn.screen.color3;
            uxn.screen.color3 = Rgb { r: c3.r, g: c3_green, b: c3.b };
        },
        // Set the blue spectrum color for color0 and color1
        0xc => {
            let (c0_blue, c1_blue) = palette(uxn.dev_get(port));

            let c0 = uxn.screen.color0;
            uxn.screen.color0 = Rgb { r: c0.r, g: c0.g, b: c0_blue };

            let c1 = uxn.screen.color1;
            uxn.screen.color1 = Rgb { r: c1.r, g: c1.g, b: c1_blue };
        },
        // Set the blue spectrum color for color2 and color3
        0xd => {
            let (c2_blue, c3_blue) = palette(uxn.dev_get(port));

            let c2 = uxn.screen.color2;
            uxn.screen.color2 = Rgb { r: c2.r, g: c2.g, b: c2_blue };

            let c3 = uxn.screen.color3;
            uxn.screen.color3 = Rgb { r: c3.r, g: c3.g, b: c3_blue };
        },
        _ => {
            uxn.note(Diagnostic::UnmappedDevicePort(port));
        },
    }
}

/// The two channel values that one palette byte carries: that of its high
/// nibble first.
pub fn palette(mem_color: u8) -> (c: (u8, u8))
    ensures
        c.0 == high(mem_color),
        c.1 == low(mem_color),
{
    let c1: u8 = (mem_color >> 4) & 0x0F;
    let c2: u8 = mem_color & 0x0F;
    (c1 | (c1 << 4), c2 | (c2 << 4))
}

} // verus!
