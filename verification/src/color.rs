use vstd::prelude::*;
use vstd::std_specs::convert::FromSpecImpl;
use crate::scalar::{Scalar, ONE_BITS, ZERO_BITS};

verus! {

/// The normalized intensity of each 8-bit channel value: entry `c` is the
/// single-precision product of `c` and the single-precision value nearest to
/// 1/255, as a bit pattern.
pub const UNIT_INTENSITY: [u32; 256] = [
    0x00000000, 0x3b808081, 0x3c008081, 0x3c40c0c2, 0x3c808081, 0x3ca0a0a1, 0x3cc0c0c2, 0x3ce0e0e2,
    0x3d008081, 0x3d109091, 0x3d20a0a1, 0x3d30b0b1, 0x3d40c0c2, 0x3d50d0d2, 0x3d60e0e2, 0x3d70f0f2,
    0x3d808081, 0x3d888889, 0x3d909091, 0x3d989899, 0x3da0a0a1, 0x3da8a8a9, 0x3db0b0b1, 0x3db8b8b9,
    0x3dc0c0c2, 0x3dc8c8ca, 0x3dd0d0d2, 0x3dd8d8da, 0x3de0e0e2, 0x3de8e8ea, 0x3df0f0f2, 0x3df8f8fa,
    0x3e008081, 0x3e048485, 0x3e088889, 0x3e0c8c8d, 0x3e109091, 0x3e149495, 0x3e189899, 0x3e1c9c9d,
    0x3e20a0a1, 0x3e24a4a5, 0x3e28a8a9, 0x3e2cacad, 0x3e30b0b1, 0x3e34b4b5, 0x3e38b8b9, 0x3e3cbcbd,
    0x3e40c0c2, 0x3e44c4c6, 0x3e48c8ca, 0x3e4cccce, 0x3e50d0d2, 0x3e54d4d6, 0x3e58d8da, 0x3e5cdcde,
    0x3e60e0e2, 0x3e64e4e6, 0x3e68e8ea, 0x3e6cecee, 0x3e70f0f2, 0x3e74f4f6, 0x3e78f8fa, 0x3e7cfcfe,
    0x3e808081, 0x3e828283, 0x3e848485, 0x3e868687, 0x3e888889, 0x3e8a8a8b, 0x3e8c8c8d, 0x3e8e8e8f,
    0x3e909091, 0x3e929293, 0x3e949495, 0x3e969697, 0x3e989899, 0x3e9a9a9b, 0x3e9c9c9d, 0x3e9e9e9f,
    0x3ea0a0a1, 0x3ea2a2a3, 0x3ea4a4a5, 0x3ea6a6a7, 0x3ea8a8a9, 0x3eaaaaab, 0x3eacacad, 0x3eaeaeaf,
    0x3eb0b0b1, 0x3eb2b2b3, 0x3eb4b4b5, 0x3eb6b6b7, 0x3eb8b8b9, 0x3ebababb, 0x3ebcbcbd, 0x3ebebebf,
    0x3ec0c0c2, 0x3ec2c2c4, 0x3ec4c4c6, 0x3ec6c6c8, 0x3ec8c8ca, 0x3ecacacc, 0x3eccccce, 0x3ececed0,
    0x3ed0d0d2, 0x3ed2d2d4, 0x3ed4d4d6, 0x3ed6d6d8, 0x3ed8d8da, 0x3edadadc, 0x3edcdcde, 0x3ededee0,
    0x3ee0e0e2, 0x3ee2e2e4, 0x3ee4e4e6, 0x3ee6e6e8, 0x3ee8e8ea, 0x3eeaeaec, 0x3eececee, 0x3eeeeef0,
    0x3ef0f0f2, 0x3ef2f2f4, 0x3ef4f4f6, 0x3ef6f6f8, 0x3ef8f8fa, 0x3efafafc, 0x3efcfcfe, 0x3efeff00,
    0x3f008081, 0x3f018182, 0x3f028283, 0x3f038384, 0x3f048485, 0x3f058586, 0x3f068687, 0x3f078788,
    0x3f088889, 0x3f09898a, 0x3f0a8a8b, 0x3f0b8b8c, 0x3f0c8c8d, 0x3f0d8d8e, 0x3f0e8e8f, 0x3f0f8f90,
    0x3f109091, 0x3f119192, 0x3f129293, 0x3f139394, 0x3f149495, 0x3f159596, 0x3f169697, 0x3f179798,
    0x3f189899, 0x3f19999a, 0x3f1a9a9b, 0x3f1b9b9c, 0x3f1c9c9d, 0x3f1d9d9e, 0x3f1e9e9f, 0x3f1f9fa0,
    0x3f20a0a1, 0x3f21a1a2, 0x3f22a2a3, 0x3f23a3a4, 0x3f24a4a5, 0x3f25a5a6, 0x3f26a6a7, 0x3f27a7a8,
    0x3f28a8a9, 0x3f29a9aa, 0x3f2aaaab, 0x3f2babac, 0x3f2cacad, 0x3f2dadae, 0x3f2eaeaf, 0x3f2fafb0,
    0x3f30b0b1, 0x3f31b1b2, 0x3f32b2b3, 0x3f33b3b4, 0x3f34b4b5, 0x3f35b5b6, 0x3f36b6b7, 0x3f37b7b8,
    0x3f38b8b9, 0x3f39b9ba, 0x3f3ababb, 0x3f3bbbbc, 0x3f3cbcbd, 0x3f3dbdbe, 0x3f3ebebf, 0x3f3fbfc0,
    0x3f40c0c2, 0x3f41c1c3, 0x3f42c2c4, 0x3f43c3c5, 0x3f44c4c6, 0x3f45c5c7, 0x3f46c6c8, 0x3f47c7c9,
    0x3f48c8ca, 0x3f49c9cb, 0x3f4acacc, 0x3f4bcbcd, 0x3f4cccce, 0x3f4dcdcf, 0x3f4eced0, 0x3f4fcfd1,
    0x3f50d0d2, 0x3f51d1d3, 0x3f52d2d4, 0x3f53d3d5, 0x3f54d4d6, 0x3f55d5d7, 0x3f56d6d8, 0x3f57d7d9,
    0x3f58d8da, 0x3f59d9db, 0x3f5adadc, 0x3f5bdbdd, 0x3f5cdcde, 0x3f5ddddf, 0x3f5edee0, 0x3f5fdfe1,
    0x3f60e0e2, 0x3f61e1e3, 0x3f62e2e4, 0x3f63e3e5, 0x3f64e4e6, 0x3f65e5e7, 0x3f66e6e8, 0x3f67e7e9,
    0x3f68e8ea, 0x3f69e9eb, 0x3f6aeaec, 0x3f6bebed, 0x3f6cecee, 0x3f6dedef, 0x3f6eeef0, 0x3f6feff1,
    0x3f70f0f2, 0x3f71f1f3, 0x3f72f2f4, 0x3f73f3f5, 0x3f74f4f6, 0x3f75f5f7, 0x3f76f6f8, 0x3f77f7f9,
    0x3f78f8fa, 0x3f79f9fb, 0x3f7afafc, 0x3f7bfbfd, 0x3f7cfcfe, 0x3f7dfdff, 0x3f7eff00, 0x3f800000,
];

/// The bit pattern of one quarter.
pub const QUARTER_BITS: u32 = 0x3e80_0000;

/// The bit pattern of one half.
pub const HALF_BITS: u32 = 0x3f00_0000;

/// The bit pattern of three quarters.
pub const THREE_QUARTERS_BITS: u32 = 0x3f40_0000;

/// An RGBA colour with normalized components. Components are stored as given:
/// nothing is clamped.
#[derive(Copy, Clone, Debug, PartialEq, Eq, Structural)]
pub struct Color {
    pub r: Scalar,
    pub g: Scalar,
    pub b: Scalar,
    pub a: Scalar,
}

impl Color {
    /// The colour whose components have the given bit patterns.
    pub open spec fn of_bits(r: u32, g: u32, b: u32, a: u32) -> Color {
        Color { r: Scalar { bits: r }, g: Scalar { bits: g }, b: Scalar { bits: b }, a: Scalar { bits: a } }
    }

    /// The normalized intensity of the 8-bit channel value `c`.
    pub open spec fn unit(c: u8) -> Scalar {
        Scalar { bits: UNIT_INTENSITY[c as int] }
    }

    #[inline]
    pub fn from_rgba(r: Scalar, g: Scalar, b: Scalar, a: Scalar) -> (c: Self)
        ensures
            c == (Color { r, g, b, a }),
    {
        Self { r, g, b, a }
    }

    /// Builds a colour from 8-bit channels, each scaled to its normalized
    /// intensity.
    pub fn from_rgba_u8(r: u8, g: u8, b: u8, a: u8) -> (c: Self)
        ensures
            c == (Color { r: Self::unit(r), g: Self::unit(g), b: Self::unit(b), a: Self::unit(a) }),
    {
        Self {
            r: Scalar::from_bits(UNIT_INTENSITY[r as usize]),
            g: Scalar::from_bits(UNIT_INTENSITY[g as usize]),
            b: Scalar::from_bits(UNIT_INTENSITY[b as usize]),
            a: Scalar::from_bits(UNIT_INTENSITY[a as usize]),
        }
    }

    /// The components in the order red, green, blue, alpha.
    pub fn to_array(self) -> (out: [Scalar; 4])
        ensures
            out@ == seq![self.r, self.g, self.b, self.a],
    {
        [self.r, self.g, self.b, self.a]
    }

    /// This colour with its red component replaced.
    pub fn with_r(self, r: Scalar) -> (c: Self)
        ensures
            c == (Color { r, ..self }),
    {
        Self { r, ..self }
    }

    /// This colour with its green component replaced.
    pub fn with_g(self, g: Scalar) -> (c: Self)
        ensures
            c == (Color { g, ..self }),
    {
        Self { g, ..self }
    }

    /// This colour with its blue component replaced.
    pub fn with_b(self, b: Scalar) -> (c: Self)
        ensures
            c == (Color { b, ..self }),
    {
        Self { b, ..self }
    }

    /// This colour with its alpha component replaced.
    pub fn with_a(self, a: Scalar) -> (c: Self)
        ensures
            c == (Color { a, ..self }),
    {
        Self { a, ..self }
    }

    /// Fully transparent black.
    pub fn transparent() -> (c: Self)
        ensures
            c == Self::of_bits(ZERO_BITS, ZERO_BITS, ZERO_BITS, ZERO_BITS),
    {
        Self::from_bits(ZERO_BITS, ZERO_BITS, ZERO_BITS, ZERO_BITS)
    }

    /// Opaque black.
    pub fn black() -> (c: Self)
        ensures
            c == Self::of_bits(ZERO_BITS, ZERO_BITS, ZERO_BITS, ONE_BITS),
    {
        Self::from_bits(ZERO_BITS, ZERO_BITS, ZERO_BITS, ONE_BITS)
    }

    /// Opaque gray at a quarter intensity.
    pub fn dark_gray() -> (c: Self)
        ensures
            c == Self::of_bits(QUARTER_BITS, QUARTER_BITS, QUARTER_BITS, ONE_BITS),
    {
        Self::from_bits(QUARTER_BITS, QUARTER_BITS, QUARTER_BITS, ONE_BITS)
    }

    /// Opaque gray at half intensity.
    pub fn gray() -> (c: Self)
        ensures
            c == Self::of_bits(HALF_BITS, HALF_BITS, HALF_BITS, ONE_BITS),
    {
        Self::from_bits(HALF_BITS, HALF_BITS, HALF_BITS, ONE_BITS)
    }

    /// Opaque gray at three quarters intensity.
    pub fn light_gray() -> (c: Self)
        ensures
            c == Self::of_bits(THREE_QUARTERS_BITS, THREE_QUARTERS_BITS, THREE_QUARTERS_BITS, ONE_BITS),
    {
        Self::from_bits(THREE_QUARTERS_BITS, THREE_QUARTERS_BITS, THREE_QUARTERS_BITS, ONE_BITS)
    }

    /// Opaque white.
    pub fn white() -> (c: Self)
        ensures
            c == Self::of_bits(ONE_BITS, ONE_BITS, ONE_BITS, ONE_BITS),
    {
        Self::from_bits(ONE_BITS, ONE_BITS, ONE_BITS, ONE_BITS)
    }

    /// Opaque red.
    pub fn red() -> (c: Self)
        ensures
            c == Self::of_bits(ONE_BITS, ZERO_BITS, ZERO_BITS, ONE_BITS),
    {
        Self::from_bits(ONE_BITS, ZERO_BITS, ZERO_BITS, ONE_BITS)
    }

    /// Opaque green.
    pub fn green() -> (c: Self)
        ensures
            c == Self::of_bits(ZERO_BITS, ONE_BITS, ZERO_BITS, ONE_BITS),
    {
        Self::from_bits(ZERO_BITS, ONE_BITS, ZERO_BITS, ONE_BITS)
    }

    /// Opaque blue.
    pub fn blue() -> (c: Self)
        ensures
            c == Self::of_bits(ZERO_BITS, ZERO_BITS, ONE_BITS, ONE_BITS),
    {
        Self::from_bits(ZERO_BITS, ZERO_BITS, ONE_BITS, ONE_BITS)
    }

    /// Opaque yellow.
    pub fn yellow() -> (c: Self)
        ensures
            c == Self::of_bits(ONE_BITS, ONE_BITS, ZERO_BITS, ONE_BITS),
    {
        Self::from_bits(ONE_BITS, ONE_BITS, ZERO_BITS, ONE_BITS)
    }

    /// Opaque cyan.
    pub fn cyan() -> (c: Self)
        ensures
            c == Self::of_bits(ZERO_BITS, ONE_BITS, ONE_BITS, ONE_BITS),
    {
        Self::from_bits(ZERO_BITS, ONE_BITS, ONE_BITS, ONE_BITS)
    }

    /// Opaque magenta.
    pub fn magenta() -> (c: Self)
        ensures
            c == Self::of_bits(ONE_BITS, ZERO_BITS, ONE_BITS, ONE_BITS),
    {
        Self::from_bits(ONE_BITS, ZERO_BITS, ONE_BITS, ONE_BITS)
    }

    /// The colour whose components have the given bit patterns.
    #[inline]
    pub fn from_bits(r: u32, g: u32, b: u32, a: u32) -> (c: Self)
        ensures
            c == Self::of_bits(r, g, b, a),
    {
        Self {
            r: Scalar::from_bits(r),
            g: Scalar::from_bits(g),
            b: Scalar::from_bits(b),
            a: Scalar::from_bits(a),
        }
    }
}

impl Default for Color {
    /// The default colour is transparent.
    #[inline]
    fn default() -> (c: Self)
        ensures
            c == Color::of_bits(ZERO_BITS, ZERO_BITS, ZERO_BITS, ZERO_BITS),
    {
        Self::transparent()
    }
}

impl From<(Scalar, Scalar, Scalar, Scalar)> for Color {
    #[inline]
    fn from(rgba: (Scalar, Scalar, Scalar, Scalar)) -> (c: Self) {
        Self::from_rgba(rgba.0, rgba.1, rgba.2, rgba.3)
    }
}

impl FromSpecImpl<(Scalar, Scalar, Scalar, Scalar)> for Color {
    open spec fn obeys_from_spec() -> bool {
        true
    }

    open spec fn from_spec(rgba: (Scalar, Scalar, Scalar, Scalar)) -> Self {
        Color { r: rgba.0, g: rgba.1, b: rgba.2, a: rgba.3 }
    }
}

impl From<[Scalar; 4]> for Color {
    #[inline]
    fn from(rgba: [Scalar; 4]) -> (c: Self) {
        Self::from_rgba(rgba[0], rgba[1], rgba[2], rgba[3])
    }
}

impl FromSpecImpl<[Scalar; 4]> for Color {
    open spec fn obeys_from_spec() -> bool {
        true
    }

    open spec fn from_spec(rgba: [Scalar; 4]) -> Self {
        Color { r: rgba[0], g: rgba[1], b: rgba[2], a: rgba[3] }
    }
}

/// Full and zero intensity of an 8-bit channel are exactly one and zero.
pub proof fn lemma_unit_endpoints()
    ensures
        Color::unit(255) == (Scalar { bits: ONE_BITS }),
        Color::unit(0) == (Scalar { bits: ZERO_BITS }),
{
}

} // verus!
