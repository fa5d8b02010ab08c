use vstd::prelude::*;

verus! {

/// The 64 colours the PPU can output, as packed 24-bit RGB.
pub open spec fn palette_colors() -> Seq<u32> {
    seq![
        0x545454u32, 0x001e74u32, 0x081090u32, 0x300088u32, 0x440064u32, 0x5c0030u32, 0x540400u32, 0x3c1800u32,
        0x202a00u32, 0x083a00u32, 0x004000u32, 0x003c00u32, 0x00323cu32, 0x000000u32, 0x000000u32, 0x000000u32,
        0x989698u32, 0x084cc4u32, 0x3032ecu32, 0x5c1ee4u32, 0x8814b0u32, 0xa01464u32, 0x982220u32, 0x783c00u32,
        0x545a00u32, 0x287200u32, 0x087c00u32, 0x007628u32, 0x006678u32, 0x000000u32, 0x000000u32, 0x000000u32,
        0xeceeecu32, 0x4c9aecu32, 0x787cecu32, 0xb062ecu32, 0xe454ecu32, 0xec58b4u32, 0xec6a64u32, 0xd48820u32,
        0xa0aa00u32, 0x74c400u32, 0x4cd020u32, 0x38cc6cu32, 0x38b4ccu32, 0x3c3c3cu32, 0x000000u32, 0x000000u32,
        0xeceeecu32, 0xa8ccecu32, 0xbcbcecu32, 0xd4b2ecu32, 0xecaeecu32, 0xecaed4u32, 0xecb4b0u32, 0xe4c490u32,
        0xccd278u32, 0xb4de78u32, 0xa8e290u32, 0x98e2b4u32, 0xa0d6e4u32, 0xa0a2a0u32, 0x000000u32, 0x000000u32
    ]
}

/// The packed RGB value of palette colour `index` (only its low six bits count).
pub fn palette_color(index: u8) -> (r: u32)
    ensures
        r == palette_colors()[(index % 64) as int],
{
    let table: [u32; 64] = [
        0x545454u32, 0x001e74u32, 0x081090u32, 0x300088u32, 0x440064u32, 0x5c0030u32, 0x540400u32, 0x3c1800u32,
        0x202a00u32, 0x083a00u32, 0x004000u32, 0x003c00u32, 0x00323cu32, 0x000000u32, 0x000000u32, 0x000000u32,
        0x989698u32, 0x084cc4u32, 0x3032ecu32, 0x5c1ee4u32, 0x8814b0u32, 0xa01464u32, 0x982220u32, 0x783c00u32,
        0x545a00u32, 0x287200u32, 0x087c00u32, 0x007628u32, 0x006678u32, 0x000000u32, 0x000000u32, 0x000000u32,
        0xeceeecu32, 0x4c9aecu32, 0x787cecu32, 0xb062ecu32, 0xe454ecu32, 0xec58b4u32, 0xec6a64u32, 0xd48820u32,
        0xa0aa00u32, 0x74c400u32, 0x4cd020u32, 0x38cc6cu32, 0x38b4ccu32, 0x3c3c3cu32, 0x000000u32, 0x000000u32,
        0xeceeecu32, 0xa8ccecu32, 0xbcbcecu32, 0xd4b2ecu32, 0xecaeecu32, 0xecaed4u32, 0xecb4b0u32, 0xe4c490u32,
        0xccd278u32, 0xb4de78u32, 0xa8e290u32, 0x98e2b4u32, 0xa0d6e4u32, 0xa0a2a0u32, 0x000000u32, 0x000000u32
    ];
    assert(table@ =~= palette_colors());
    table[(index % 64) as usize]
}

} // verus!
