//! Character property table for sentence boundaries (UAX #29).

use vstd::prelude::*;

verus! {

/// Sentence break category of a code point.
#[allow(non_camel_case_types)]
#[derive(Clone, Copy, PartialEq, Eq, Debug, Structural)]
pub enum SentenceCat {
    SC_Any,
    SC_CR,
    SC_LF,
    SC_Sep,
    SC_Extend,
    SC_Format,
    SC_Sp,
    SC_Lower,
    SC_Upper,
    SC_OLetter,
    SC_Numeric,
    SC_ATerm,
    SC_SContinue,
    SC_STerm,
    SC_Close,
}

pub open spec fn spec_sb_extend_0(u: u32) -> bool {
    (0x300 <= u && u <= 0xB57) && ((0x300 <= u && u <= 0x36F)
        || (0x483 <= u && u <= 0x489)
        || (0x591 <= u && u <= 0x5BD)
        || u == 0x5BF
        || (0x5C1 <= u && u <= 0x5C2)
        || (0x5C4 <= u && u <= 0x5C5)
        || u == 0x5C7
        || (0x610 <= u && u <= 0x61A)
        || (0x64B <= u && u <= 0x65F)
        || u == 0x670
        || (0x6D6 <= u && u <= 0x6DC)
        || (0x6DF <= u && u <= 0x6E4)
        || (0x6E7 <= u && u <= 0x6E8)
        || (0x6EA <= u && u <= 0x6ED)
        || u == 0x711
        || (0x730 <= u && u <= 0x74A)
        || (0x7A6 <= u && u <= 0x7B0)
        || (0x7EB <= u && u <= 0x7F3)
        || u == 0x7FD
        || (0x816 <= u && u <= 0x819)
        || (0x81B <= u && u <= 0x823)
        || (0x825 <= u && u <= 0x827)
        || (0x829 <= u && u <= 0x82D)
        || (0x859 <= u && u <= 0x85B)
        || (0x898 <= u && u <= 0x89F)
        || (0x8CA <= u && u <= 0x8E1)
        || (0x8E3 <= u && u <= 0x903)
        || (0x93A <= u && u <= 0x93C)
        || (0x93E <= u && u <= 0x94F)
        || (0x951 <= u && u <= 0x957)
        || (0x962 <= u && u <= 0x963)
        || (0x981 <= u && u <= 0x983)
        || u == 0x9BC
        || (0x9BE <= u && u <= 0x9C4)
        || (0x9C7 <= u && u <= 0x9C8)
        || (0x9CB <= u && u <= 0x9CD)
        || u == 0x9D7
        || (0x9E2 <= u && u <= 0x9E3)
        || u == 0x9FE
        || (0xA01 <= u && u <= 0xA03)
        || u == 0xA3C
        || (0xA3E <= u && u <= 0xA42)
        || (0xA47 <= u && u <= 0xA48)
        || (0xA4B <= u && u <= 0xA4D)
        || u == 0xA51
        || (0xA70 <= u && u <= 0xA71)
        || u == 0xA75
        || (0xA81 <= u && u <= 0xA83)
        || u == 0xABC
        || (0xABE <= u && u <= 0xAC5)
        || (0xAC7 <= u && u <= 0xAC9)
        || (0xACB <= u && u <= 0xACD)
        || (0xAE2 <= u && u <= 0xAE3)
        || (0xAFA <= u && u <= 0xAFF)
        || (0xB01 <= u && u <= 0xB03)
        || u == 0xB3C
        || (0xB3E <= u && u <= 0xB44)
        || (0xB47 <= u && u <= 0xB48)
        || (0xB4B <= u && u <= 0xB4D)
        || (0xB55 <= u && u <= 0xB57))
}
fn sb_extend_0(u: u32) -> (r: bool)
    ensures
        r == spec_sb_extend_0(u),
{
    (0x300 <= u && u <= 0xB57) && ((0x300 <= u && u <= 0x36F)
        || (0x483 <= u && u <= 0x489)
        || (0x591 <= u && u <= 0x5BD)
        || u == 0x5BF
        || (0x5C1 <= u && u <= 0x5C2)
        || (0x5C4 <= u && u <= 0x5C5)
        || u == 0x5C7
        || (0x610 <= u && u <= 0x61A)
        || (0x64B <= u && u <= 0x65F)
        || u == 0x670
        || (0x6D6 <= u && u <= 0x6DC)
        || (0x6DF <= u && u <= 0x6E4)
        || (0x6E7 <= u && u <= 0x6E8)
        || (0x6EA <= u && u <= 0x6ED)
        || u == 0x711
        || (0x730 <= u && u <= 0x74A)
        || (0x7A6 <= u && u <= 0x7B0)
        || (0x7EB <= u && u <= 0x7F3)
        || u == 0x7FD
        || (0x816 <= u && u <= 0x819)
        || (0x81B <= u && u <= 0x823)
        || (0x825 <= u && u <= 0x827)
        || (0x829 <= u && u <= 0x82D)
        || (0x859 <= u && u <= 0x85B)
        || (0x898 <= u && u <= 0x89F)
        || (0x8CA <= u && u <= 0x8E1)
        || (0x8E3 <= u && u <= 0x903)
        || (0x93A <= u && u <= 0x93C)
        || (0x93E <= u && u <= 0x94F)
        || (0x951 <= u && u <= 0x957)
        || (0x962 <= u && u <= 0x963)
        || (0x981 <= u && u <= 0x983)
        || u == 0x9BC
        || (0x9BE <= u && u <= 0x9C4)
        || (0x9C7 <= u && u <= 0x9C8)
        || (0x9CB <= u && u <= 0x9CD)
        || u == 0x9D7
        || (0x9E2 <= u && u <= 0x9E3)
        || u == 0x9FE
        || (0xA01 <= u && u <= 0xA03)
        || u == 0xA3C
        || (0xA3E <= u && u <= 0xA42)
        || (0xA47 <= u && u <= 0xA48)
        || (0xA4B <= u && u <= 0xA4D)
        || u == 0xA51
        || (0xA70 <= u && u <= 0xA71)
        || u == 0xA75
        || (0xA81 <= u && u <= 0xA83)
        || u == 0xABC
        || (0xABE <= u && u <= 0xAC5)
        || (0xAC7 <= u && u <= 0xAC9)
        || (0xACB <= u && u <= 0xACD)
        || (0xAE2 <= u && u <= 0xAE3)
        || (0xAFA <= u && u <= 0xAFF)
        || (0xB01 <= u && u <= 0xB03)
        || u == 0xB3C
        || (0xB3E <= u && u <= 0xB44)
        || (0xB47 <= u && u <= 0xB48)
        || (0xB4B <= u && u <= 0xB4D)
        || (0xB55 <= u && u <= 0xB57))
}
pub open spec fn spec_sb_extend_1(u: u32) -> bool {
    (0xB62 <= u && u <= 0x1715) && ((0xB62 <= u && u <= 0xB63)
        || u == 0xB82
        || (0xBBE <= u && u <= 0xBC2)
        || (0xBC6 <= u && u <= 0xBC8)
        || (0xBCA <= u && u <= 0xBCD)
        || u == 0xBD7
        || (0xC00 <= u && u <= 0xC04)
        || u == 0xC3C
        || (0xC3E <= u && u <= 0xC44)
        || (0xC46 <= u && u <= 0xC48)
        || (0xC4A <= u && u <= 0xC4D)
        || (0xC55 <= u && u <= 0xC56)
        || (0xC62 <= u && u <= 0xC63)
        || (0xC81 <= u && u <= 0xC83)
        || u == 0xCBC
        || (0xCBE <= u && u <= 0xCC4)
        || (0xCC6 <= u && u <= 0xCC8)
        || (0xCCA <= u && u <= 0xCCD)
        || (0xCD5 <= u && u <= 0xCD6)
        || (0xCE2 <= u && u <= 0xCE3)
        || (0xD00 <= u && u <= 0xD03)
        || (0xD3B <= u && u <= 0xD3C)
        || (0xD3E <= u && u <= 0xD44)
        || (0xD46 <= u && u <= 0xD48)
        || (0xD4A <= u && u <= 0xD4D)
        || u == 0xD57
        || (0xD62 <= u && u <= 0xD63)
        || (0xD81 <= u && u <= 0xD83)
        || u == 0xDCA
        || (0xDCF <= u && u <= 0xDD4)
        || u == 0xDD6
        || (0xDD8 <= u && u <= 0xDDF)
        || (0xDF2 <= u && u <= 0xDF3)
        || u == 0xE31
        || (0xE34 <= u && u <= 0xE3A)
        || (0xE47 <= u && u <= 0xE4E)
        || u == 0xEB1
        || (0xEB4 <= u && u <= 0xEBC)
        || (0xEC8 <= u && u <= 0xECD)
        || (0xF18 <= u && u <= 0xF19)
        || u == 0xF35
        || u == 0xF37
        || u == 0xF39
        || (0xF3E <= u && u <= 0xF3F)
        || (0xF71 <= u && u <= 0xF84)
        || (0xF86 <= u && u <= 0xF87)
        || (0xF8D <= u && u <= 0xF97)
        || (0xF99 <= u && u <= 0xFBC)
        || u == 0xFC6
        || (0x102B <= u && u <= 0x103E)
        || (0x1056 <= u && u <= 0x1059)
        || (0x105E <= u && u <= 0x1060)
        || (0x1062 <= u && u <= 0x1064)
        || (0x1067 <= u && u <= 0x106D)
        || (0x1071 <= u && u <= 0x1074)
        || (0x1082 <= u && u <= 0x108D)
        || u == 0x108F
        || (0x109A <= u && u <= 0x109D)
        || (0x135D <= u && u <= 0x135F)
        || (0x1712 <= u && u <= 0x1715))
}
fn sb_extend_1(u: u32) -> (r: bool)
    ensures
        r == spec_sb_extend_1(u),
{
    (0xB62 <= u && u <= 0x1715) && ((0xB62 <= u && u <= 0xB63)
        || u == 0xB82
        || (0xBBE <= u && u <= 0xBC2)
        || (0xBC6 <= u && u <= 0xBC8)
        || (0xBCA <= u && u <= 0xBCD)
        || u == 0xBD7
        || (0xC00 <= u && u <= 0xC04)
        || u == 0xC3C
        || (0xC3E <= u && u <= 0xC44)
        || (0xC46 <= u && u <= 0xC48)
        || (0xC4A <= u && u <= 0xC4D)
        || (0xC55 <= u && u <= 0xC56)
        || (0xC62 <= u && u <= 0xC63)
        || (0xC81 <= u && u <= 0xC83)
        || u == 0xCBC
        || (0xCBE <= u && u <= 0xCC4)
        || (0xCC6 <= u && u <= 0xCC8)
        || (0xCCA <= u && u <= 0xCCD)
        || (0xCD5 <= u && u <= 0xCD6)
        || (0xCE2 <= u && u <= 0xCE3)
        || (0xD00 <= u && u <= 0xD03)
        || (0xD3B <= u && u <= 0xD3C)
        || (0xD3E <= u && u <= 0xD44)
        || (0xD46 <= u && u <= 0xD48)
        || (0xD4A <= u && u <= 0xD4D)
        || u == 0xD57
        || (0xD62 <= u && u <= 0xD63)
        || (0xD81 <= u && u <= 0xD83)
        || u == 0xDCA
        || (0xDCF <= u && u <= 0xDD4)
        || u == 0xDD6
        || (0xDD8 <= u && u <= 0xDDF)
        || (0xDF2 <= u && u <= 0xDF3)
        || u == 0xE31
        || (0xE34 <= u && u <= 0xE3A)
        || (0xE47 <= u && u <= 0xE4E)
        || u == 0xEB1
        || (0xEB4 <= u && u <= 0xEBC)
        || (0xEC8 <= u && u <= 0xECD)
        || (0xF18 <= u && u <= 0xF19)
        || u == 0xF35
        || u == 0xF37
        || u == 0xF39
        || (0xF3E <= u && u <= 0xF3F)
        || (0xF71 <= u && u <= 0xF84)
        || (0xF86 <= u && u <= 0xF87)
        || (0xF8D <= u && u <= 0xF97)
        || (0xF99 <= u && u <= 0xFBC)
        || u == 0xFC6
        || (0x102B <= u && u <= 0x103E)
        || (0x1056 <= u && u <= 0x1059)
        || (0x105E <= u && u <= 0x1060)
        || (0x1062 <= u && u <= 0x1064)
        || (0x1067 <= u && u <= 0x106D)
        || (0x1071 <= u && u <= 0x1074)
        || (0x1082 <= u && u <= 0x108D)
        || u == 0x108F
        || (0x109A <= u && u <= 0x109D)
        || (0x135D <= u && u <= 0x135F)
        || (0x1712 <= u && u <= 0x1715))
}
pub open spec fn spec_sb_extend_2(u: u32) -> bool {
    (0x1732 <= u && u <= 0xAAB4) && ((0x1732 <= u && u <= 0x1734)
        || (0x1752 <= u && u <= 0x1753)
        || (0x1772 <= u && u <= 0x1773)
        || (0x17B4 <= u && u <= 0x17D3)
        || u == 0x17DD
        || (0x180B <= u && u <= 0x180D)
        || u == 0x180F
        || (0x1885 <= u && u <= 0x1886)
        || u == 0x18A9
        || (0x1920 <= u && u <= 0x192B)
        || (0x1930 <= u && u <= 0x193B)
        || (0x1A17 <= u && u <= 0x1A1B)
        || (0x1A55 <= u && u <= 0x1A5E)
        || (0x1A60 <= u && u <= 0x1A7C)
        || u == 0x1A7F
        || (0x1AB0 <= u && u <= 0x1ACE)
        || (0x1B00 <= u && u <= 0x1B04)
        || (0x1B34 <= u && u <= 0x1B44)
        || (0x1B6B <= u && u <= 0x1B73)
        || (0x1B80 <= u && u <= 0x1B82)
        || (0x1BA1 <= u && u <= 0x1BAD)
        || (0x1BE6 <= u && u <= 0x1BF3)
        || (0x1C24 <= u && u <= 0x1C37)
        || (0x1CD0 <= u && u <= 0x1CD2)
        || (0x1CD4 <= u && u <= 0x1CE8)
        || u == 0x1CED
        || u == 0x1CF4
        || (0x1CF7 <= u && u <= 0x1CF9)
        || (0x1DC0 <= u && u <= 0x1DFF)
        || (0x200C <= u && u <= 0x200D)
        || (0x20D0 <= u && u <= 0x20F0)
        || (0x2CEF <= u && u <= 0x2CF1)
        || u == 0x2D7F
        || (0x2DE0 <= u && u <= 0x2DFF)
        || (0x302A <= u && u <= 0x302F)
        || (0x3099 <= u && u <= 0x309A)
        || (0xA66F <= u && u <= 0xA672)
        || (0xA674 <= u && u <= 0xA67D)
        || (0xA69E <= u && u <= 0xA69F)
        || (0xA6F0 <= u && u <= 0xA6F1)
        || u == 0xA802
        || u == 0xA806
        || u == 0xA80B
        || (0xA823 <= u && u <= 0xA827)
        || u == 0xA82C
        || (0xA880 <= u && u <= 0xA881)
        || (0xA8B4 <= u && u <= 0xA8C5)
        || (0xA8E0 <= u && u <= 0xA8F1)
        || u == 0xA8FF
        || (0xA926 <= u && u <= 0xA92D)
        || (0xA947 <= u && u <= 0xA953)
        || (0xA980 <= u && u <= 0xA983)
        || (0xA9B3 <= u && u <= 0xA9C0)
        || u == 0xA9E5
        || (0xAA29 <= u && u <= 0xAA36)
        || u == 0xAA43
        || (0xAA4C <= u && u <= 0xAA4D)
        || (0xAA7B <= u && u <= 0xAA7D)
        || u == 0xAAB0
        || (0xAAB2 <= u && u <= 0xAAB4))
}
fn sb_extend_2(u: u32) -> (r: bool)
    ensures
        r == spec_sb_extend_2(u),
{
    (0x1732 <= u && u <= 0xAAB4) && ((0x1732 <= u && u <= 0x1734)
        || (0x1752 <= u && u <= 0x1753)
        || (0x1772 <= u && u <= 0x1773)
        || (0x17B4 <= u && u <= 0x17D3)
        || u == 0x17DD
        || (0x180B <= u && u <= 0x180D)
        || u == 0x180F
        || (0x1885 <= u && u <= 0x1886)
        || u == 0x18A9
        || (0x1920 <= u && u <= 0x192B)
        || (0x1930 <= u && u <= 0x193B)
        || (0x1A17 <= u && u <= 0x1A1B)
        || (0x1A55 <= u && u <= 0x1A5E)
        || (0x1A60 <= u && u <= 0x1A7C)
        || u == 0x1A7F
        || (0x1AB0 <= u && u <= 0x1ACE)
        || (0x1B00 <= u && u <= 0x1B04)
        || (0x1B34 <= u && u <= 0x1B44)
        || (0x1B6B <= u && u <= 0x1B73)
        || (0x1B80 <= u && u <= 0x1B82)
        || (0x1BA1 <= u && u <= 0x1BAD)
        || (0x1BE6 <= u && u <= 0x1BF3)
        || (0x1C24 <= u && u <= 0x1C37)
        || (0x1CD0 <= u && u <= 0x1CD2)
        || (0x1CD4 <= u && u <= 0x1CE8)
        || u == 0x1CED
        || u == 0x1CF4
        || (0x1CF7 <= u && u <= 0x1CF9)
        || (0x1DC0 <= u && u <= 0x1DFF)
        || (0x200C <= u && u <= 0x200D)
        || (0x20D0 <= u && u <= 0x20F0)
        || (0x2CEF <= u && u <= 0x2CF1)
        || u == 0x2D7F
        || (0x2DE0 <= u && u <= 0x2DFF)
        || (0x302A <= u && u <= 0x302F)
        || (0x3099 <= u && u <= 0x309A)
        || (0xA66F <= u && u <= 0xA672)
        || (0xA674 <= u && u <= 0xA67D)
        || (0xA69E <= u && u <= 0xA69F)
        || (0xA6F0 <= u && u <= 0xA6F1)
        || u == 0xA802
        || u == 0xA806
        || u == 0xA80B
        || (0xA823 <= u && u <= 0xA827)
        || u == 0xA82C
        || (0xA880 <= u && u <= 0xA881)
        || (0xA8B4 <= u && u <= 0xA8C5)
        || (0xA8E0 <= u && u <= 0xA8F1)
        || u == 0xA8FF
        || (0xA926 <= u && u <= 0xA92D)
        || (0xA947 <= u && u <= 0xA953)
        || (0xA980 <= u && u <= 0xA983)
        || (0xA9B3 <= u && u <= 0xA9C0)
        || u == 0xA9E5
        || (0xAA29 <= u && u <= 0xAA36)
        || u == 0xAA43
        || (0xAA4C <= u && u <= 0xAA4D)
        || (0xAA7B <= u && u <= 0xAA7D)
        || u == 0xAAB0
        || (0xAAB2 <= u && u <= 0xAAB4))
}
pub open spec fn spec_sb_extend_3(u: u32) -> bool {
    (0xAAB7 <= u && u <= 0x1172B) && ((0xAAB7 <= u && u <= 0xAAB8)
        || (0xAABE <= u && u <= 0xAABF)
        || u == 0xAAC1
        || (0xAAEB <= u && u <= 0xAAEF)
        || (0xAAF5 <= u && u <= 0xAAF6)
        || (0xABE3 <= u && u <= 0xABEA)
        || (0xABEC <= u && u <= 0xABED)
        || u == 0xFB1E
        || (0xFE00 <= u && u <= 0xFE0F)
        || (0xFE20 <= u && u <= 0xFE2F)
        || (0xFF9E <= u && u <= 0xFF9F)
        || u == 0x101FD
        || u == 0x102E0
        || (0x10376 <= u && u <= 0x1037A)
        || (0x10A01 <= u && u <= 0x10A03)
        || (0x10A05 <= u && u <= 0x10A06)
        || (0x10A0C <= u && u <= 0x10A0F)
        || (0x10A38 <= u && u <= 0x10A3A)
        || u == 0x10A3F
        || (0x10AE5 <= u && u <= 0x10AE6)
        || (0x10D24 <= u && u <= 0x10D27)
        || (0x10EAB <= u && u <= 0x10EAC)
        || (0x10F46 <= u && u <= 0x10F50)
        || (0x10F82 <= u && u <= 0x10F85)
        || (0x11000 <= u && u <= 0x11002)
        || (0x11038 <= u && u <= 0x11046)
        || u == 0x11070
        || (0x11073 <= u && u <= 0x11074)
        || (0x1107F <= u && u <= 0x11082)
        || (0x110B0 <= u && u <= 0x110BA)
        || u == 0x110C2
        || (0x11100 <= u && u <= 0x11102)
        || (0x11127 <= u && u <= 0x11134)
        || (0x11145 <= u && u <= 0x11146)
        || u == 0x11173
        || (0x11180 <= u && u <= 0x11182)
        || (0x111B3 <= u && u <= 0x111C0)
        || (0x111C9 <= u && u <= 0x111CC)
        || (0x111CE <= u && u <= 0x111CF)
        || (0x1122C <= u && u <= 0x11237)
        || u == 0x1123E
        || (0x112DF <= u && u <= 0x112EA)
        || (0x11300 <= u && u <= 0x11303)
        || (0x1133B <= u && u <= 0x1133C)
        || (0x1133E <= u && u <= 0x11344)
        || (0x11347 <= u && u <= 0x11348)
        || (0x1134B <= u && u <= 0x1134D)
        || u == 0x11357
        || (0x11362 <= u && u <= 0x11363)
        || (0x11366 <= u && u <= 0x1136C)
        || (0x11370 <= u && u <= 0x11374)
        || (0x11435 <= u && u <= 0x11446)
        || u == 0x1145E
        || (0x114B0 <= u && u <= 0x114C3)
        || (0x115AF <= u && u <= 0x115B5)
        || (0x115B8 <= u && u <= 0x115C0)
        || (0x115DC <= u && u <= 0x115DD)
        || (0x11630 <= u && u <= 0x11640)
        || (0x116AB <= u && u <= 0x116B7)
        || (0x1171D <= u && u <= 0x1172B))
}
fn sb_extend_3(u: u32) -> (r: bool)
    ensures
        r == spec_sb_extend_3(u),
{
    (0xAAB7 <= u && u <= 0x1172B) && ((0xAAB7 <= u && u <= 0xAAB8)
        || (0xAABE <= u && u <= 0xAABF)
        || u == 0xAAC1
        || (0xAAEB <= u && u <= 0xAAEF)
        || (0xAAF5 <= u && u <= 0xAAF6)
        || (0xABE3 <= u && u <= 0xABEA)
        || (0xABEC <= u && u <= 0xABED)
        || u == 0xFB1E
        || (0xFE00 <= u && u <= 0xFE0F)
        || (0xFE20 <= u && u <= 0xFE2F)
        || (0xFF9E <= u && u <= 0xFF9F)
        || u == 0x101FD
        || u == 0x102E0
        || (0x10376 <= u && u <= 0x1037A)
        || (0x10A01 <= u && u <= 0x10A03)
        || (0x10A05 <= u && u <= 0x10A06)
        || (0x10A0C <= u && u <= 0x10A0F)
        || (0x10A38 <= u && u <= 0x10A3A)
        || u == 0x10A3F
        || (0x10AE5 <= u && u <= 0x10AE6)
        || (0x10D24 <= u && u <= 0x10D27)
        || (0x10EAB <= u && u <= 0x10EAC)
        || (0x10F46 <= u && u <= 0x10F50)
        || (0x10F82 <= u && u <= 0x10F85)
        || (0x11000 <= u && u <= 0x11002)
        || (0x11038 <= u && u <= 0x11046)
        || u == 0x11070
        || (0x11073 <= u && u <= 0x11074)
        || (0x1107F <= u && u <= 0x11082)
        || (0x110B0 <= u && u <= 0x110BA)
        || u == 0x110C2
        || (0x11100 <= u && u <= 0x11102)
        || (0x11127 <= u && u <= 0x11134)
        || (0x11145 <= u && u <= 0x11146)
        || u == 0x11173
        || (0x11180 <= u && u <= 0x11182)
        || (0x111B3 <= u && u <= 0x111C0)
        || (0x111C9 <= u && u <= 0x111CC)
        || (0x111CE <= u && u <= 0x111CF)
        || (0x1122C <= u && u <= 0x11237)
        || u == 0x1123E
        || (0x112DF <= u && u <= 0x112EA)
        || (0x11300 <= u && u <= 0x11303)
        || (0x1133B <= u && u <= 0x1133C)
        || (0x1133E <= u && u <= 0x11344)
        || (0x11347 <= u && u <= 0x11348)
        || (0x1134B <= u && u <= 0x1134D)
        || u == 0x11357
        || (0x11362 <= u && u <= 0x11363)
        || (0x11366 <= u && u <= 0x1136C)
        || (0x11370 <= u && u <= 0x11374)
        || (0x11435 <= u && u <= 0x11446)
        || u == 0x1145E
        || (0x114B0 <= u && u <= 0x114C3)
        || (0x115AF <= u && u <= 0x115B5)
        || (0x115B8 <= u && u <= 0x115C0)
        || (0x115DC <= u && u <= 0x115DD)
        || (0x11630 <= u && u <= 0x11640)
        || (0x116AB <= u && u <= 0x116B7)
        || (0x1171D <= u && u <= 0x1172B))
}
pub open spec fn spec_sb_extend_4(u: u32) -> bool {
    (0x1182C <= u && u <= 0x1E94A) && ((0x1182C <= u && u <= 0x1183A)
        || (0x11930 <= u && u <= 0x11935)
        || (0x11937 <= u && u <= 0x11938)
        || (0x1193B <= u && u <= 0x1193E)
        || u == 0x11940
        || (0x11942 <= u && u <= 0x11943)
        || (0x119D1 <= u && u <= 0x119D7)
        || (0x119DA <= u && u <= 0x119E0)
        || u == 0x119E4
        || (0x11A01 <= u && u <= 0x11A0A)
        || (0x11A33 <= u && u <= 0x11A39)
        || (0x11A3B <= u && u <= 0x11A3E)
        || u == 0x11A47
        || (0x11A51 <= u && u <= 0x11A5B)
        || (0x11A8A <= u && u <= 0x11A99)
        || (0x11C2F <= u && u <= 0x11C36)
        || (0x11C38 <= u && u <= 0x11C3F)
        || (0x11C92 <= u && u <= 0x11CA7)
        || (0x11CA9 <= u && u <= 0x11CB6)
        || (0x11D31 <= u && u <= 0x11D36)
        || u == 0x11D3A
        || (0x11D3C <= u && u <= 0x11D3D)
        || (0x11D3F <= u && u <= 0x11D45)
        || u == 0x11D47
        || (0x11D8A <= u && u <= 0x11D8E)
        || (0x11D90 <= u && u <= 0x11D91)
        || (0x11D93 <= u && u <= 0x11D97)
        || (0x11EF3 <= u && u <= 0x11EF6)
        || (0x16AF0 <= u && u <= 0x16AF4)
        || (0x16B30 <= u && u <= 0x16B36)
        || u == 0x16F4F
        || (0x16F51 <= u && u <= 0x16F87)
        || (0x16F8F <= u && u <= 0x16F92)
        || u == 0x16FE4
        || (0x16FF0 <= u && u <= 0x16FF1)
        || (0x1BC9D <= u && u <= 0x1BC9E)
        || (0x1CF00 <= u && u <= 0x1CF2D)
        || (0x1CF30 <= u && u <= 0x1CF46)
        || (0x1D165 <= u && u <= 0x1D169)
        || (0x1D16D <= u && u <= 0x1D172)
        || (0x1D17B <= u && u <= 0x1D182)
        || (0x1D185 <= u && u <= 0x1D18B)
        || (0x1D1AA <= u && u <= 0x1D1AD)
        || (0x1D242 <= u && u <= 0x1D244)
        || (0x1DA00 <= u && u <= 0x1DA36)
        || (0x1DA3B <= u && u <= 0x1DA6C)
        || u == 0x1DA75
        || u == 0x1DA84
        || (0x1DA9B <= u && u <= 0x1DA9F)
        || (0x1DAA1 <= u && u <= 0x1DAAF)
        || (0x1E000 <= u && u <= 0x1E006)
        || (0x1E008 <= u && u <= 0x1E018)
        || (0x1E01B <= u && u <= 0x1E021)
        || (0x1E023 <= u && u <= 0x1E024)
        || (0x1E026 <= u && u <= 0x1E02A)
        || (0x1E130 <= u && u <= 0x1E136)
        || u == 0x1E2AE
        || (0x1E2EC <= u && u <= 0x1E2EF)
        || (0x1E8D0 <= u && u <= 0x1E8D6)
        || (0x1E944 <= u && u <= 0x1E94A))
}
fn sb_extend_4(u: u32) -> (r: bool)
    ensures
        r == spec_sb_extend_4(u),
{
    (0x1182C <= u && u <= 0x1E94A) && ((0x1182C <= u && u <= 0x1183A)
        || (0x11930 <= u && u <= 0x11935)
        || (0x11937 <= u && u <= 0x11938)
        || (0x1193B <= u && u <= 0x1193E)
        || u == 0x11940
        || (0x11942 <= u && u <= 0x11943)
        || (0x119D1 <= u && u <= 0x119D7)
        || (0x119DA <= u && u <= 0x119E0)
        || u == 0x119E4
        || (0x11A01 <= u && u <= 0x11A0A)
        || (0x11A33 <= u && u <= 0x11A39)
        || (0x11A3B <= u && u <= 0x11A3E)
        || u == 0x11A47
        || (0x11A51 <= u && u <= 0x11A5B)
        || (0x11A8A <= u && u <= 0x11A99)
        || (0x11C2F <= u && u <= 0x11C36)
        || (0x11C38 <= u && u <= 0x11C3F)
        || (0x11C92 <= u && u <= 0x11CA7)
        || (0x11CA9 <= u && u <= 0x11CB6)
        || (0x11D31 <= u && u <= 0x11D36)
        || u == 0x11D3A
        || (0x11D3C <= u && u <= 0x11D3D)
        || (0x11D3F <= u && u <= 0x11D45)
        || u == 0x11D47
        || (0x11D8A <= u && u <= 0x11D8E)
        || (0x11D90 <= u && u <= 0x11D91)
        || (0x11D93 <= u && u <= 0x11D97)
        || (0x11EF3 <= u && u <= 0x11EF6)
        || (0x16AF0 <= u && u <= 0x16AF4)
        || (0x16B30 <= u && u <= 0x16B36)
        || u == 0x16F4F
        || (0x16F51 <= u && u <= 0x16F87)
        || (0x16F8F <= u && u <= 0x16F92)
        || u == 0x16FE4
        || (0x16FF0 <= u && u <= 0x16FF1)
        || (0x1BC9D <= u && u <= 0x1BC9E)
        || (0x1CF00 <= u && u <= 0x1CF2D)
        || (0x1CF30 <= u && u <= 0x1CF46)
        || (0x1D165 <= u && u <= 0x1D169)
        || (0x1D16D <= u && u <= 0x1D172)
        || (0x1D17B <= u && u <= 0x1D182)
        || (0x1D185 <= u && u <= 0x1D18B)
        || (0x1D1AA <= u && u <= 0x1D1AD)
        || (0x1D242 <= u && u <= 0x1D244)
        || (0x1DA00 <= u && u <= 0x1DA36)
        || (0x1DA3B <= u && u <= 0x1DA6C)
        || u == 0x1DA75
        || u == 0x1DA84
        || (0x1DA9B <= u && u <= 0x1DA9F)
        || (0x1DAA1 <= u && u <= 0x1DAAF)
        || (0x1E000 <= u && u <= 0x1E006)
        || (0x1E008 <= u && u <= 0x1E018)
        || (0x1E01B <= u && u <= 0x1E021)
        || (0x1E023 <= u && u <= 0x1E024)
        || (0x1E026 <= u && u <= 0x1E02A)
        || (0x1E130 <= u && u <= 0x1E136)
        || u == 0x1E2AE
        || (0x1E2EC <= u && u <= 0x1E2EF)
        || (0x1E8D0 <= u && u <= 0x1E8D6)
        || (0x1E944 <= u && u <= 0x1E94A))
}
pub open spec fn spec_sb_extend_5(u: u32) -> bool {
    (0xE0100 <= u && u <= 0xE01EF) && ((0xE0100 <= u && u <= 0xE01EF))
}
fn sb_extend_5(u: u32) -> (r: bool)
    ensures
        r == spec_sb_extend_5(u),
{
    (0xE0100 <= u && u <= 0xE01EF) && ((0xE0100 <= u && u <= 0xE01EF))
}
pub open spec fn spec_sb_extend(u: u32) -> bool {
    spec_sb_extend_0(u) || spec_sb_extend_1(u) || spec_sb_extend_2(u) || spec_sb_extend_3(u) || spec_sb_extend_4(u) || spec_sb_extend_5(u)
}
fn sb_extend(u: u32) -> (r: bool)
    ensures
        r == spec_sb_extend(u),
{
    sb_extend_0(u) || sb_extend_1(u) || sb_extend_2(u) || sb_extend_3(u) || sb_extend_4(u) || sb_extend_5(u)
}
pub open spec fn spec_sb_format_0(u: u32) -> bool {
    (0xAD <= u && u <= 0xE007F) && (u == 0xAD
        || (0x600 <= u && u <= 0x605)
        || u == 0x61C
        || u == 0x6DD
        || u == 0x70F
        || (0x890 <= u && u <= 0x891)
        || u == 0x8E2
        || u == 0x180E
        || u == 0x200B
        || (0x200E <= u && u <= 0x200F)
        || (0x202A <= u && u <= 0x202E)
        || (0x2060 <= u && u <= 0x2064)
        || (0x2066 <= u && u <= 0x206F)
        || u == 0xFEFF
        || (0xFFF9 <= u && u <= 0xFFFB)
        || u == 0x110BD
        || u == 0x110CD
        || (0x13430 <= u && u <= 0x13438)
        || (0x1BCA0 <= u && u <= 0x1BCA3)
        || (0x1D173 <= u && u <= 0x1D17A)
        || u == 0xE0001
        || (0xE0020 <= u && u <= 0xE007F))
}
fn sb_format_0(u: u32) -> (r: bool)
    ensures
        r == spec_sb_format_0(u),
{
    (0xAD <= u && u <= 0xE007F) && (u == 0xAD
        || (0x600 <= u && u <= 0x605)
        || u == 0x61C
        || u == 0x6DD
        || u == 0x70F
        || (0x890 <= u && u <= 0x891)
        || u == 0x8E2
        || u == 0x180E
        || u == 0x200B
        || (0x200E <= u && u <= 0x200F)
        || (0x202A <= u && u <= 0x202E)
        || (0x2060 <= u && u <= 0x2064)
        || (0x2066 <= u && u <= 0x206F)
        || u == 0xFEFF
        || (0xFFF9 <= u && u <= 0xFFFB)
        || u == 0x110BD
        || u == 0x110CD
        || (0x13430 <= u && u <= 0x13438)
        || (0x1BCA0 <= u && u <= 0x1BCA3)
        || (0x1D173 <= u && u <= 0x1D17A)
        || u == 0xE0001
        || (0xE0020 <= u && u <= 0xE007F))
}
pub open spec fn spec_sb_format(u: u32) -> bool {
    spec_sb_format_0(u)
}
fn sb_format(u: u32) -> (r: bool)
    ensures
        r == spec_sb_format(u),
{
    sb_format_0(u)
}
pub open spec fn spec_sb_sp_0(u: u32) -> bool {
    (0x9 <= u && u <= 0x3000) && (u == 0x9
        || (0xB <= u && u <= 0xC)
        || u == 0x20
        || u == 0xA0
        || u == 0x1680
        || (0x2000 <= u && u <= 0x200A)
        || u == 0x202F
        || u == 0x205F
        || u == 0x3000)
}
fn sb_sp_0(u: u32) -> (r: bool)
    ensures
        r == spec_sb_sp_0(u),
{
    (0x9 <= u && u <= 0x3000) && (u == 0x9
        || (0xB <= u && u <= 0xC)
        || u == 0x20
        || u == 0xA0
        || u == 0x1680
        || (0x2000 <= u && u <= 0x200A)
        || u == 0x202F
        || u == 0x205F
        || u == 0x3000)
}
pub open spec fn spec_sb_sp(u: u32) -> bool {
    spec_sb_sp_0(u)
}
fn sb_sp(u: u32) -> (r: bool)
    ensures
        r == spec_sb_sp(u),
{
    sb_sp_0(u)
}
pub open spec fn spec_sb_lower_0(u: u32) -> bool {
    (0x61 <= u && u <= 0x16D) && ((0x61 <= u && u <= 0x7A)
        || u == 0xAA
        || u == 0xB5
        || u == 0xBA
        || (0xDF <= u && u <= 0xF6)
        || (0xF8 <= u && u <= 0xFF)
        || u == 0x101
        || u == 0x103
        || u == 0x105
        || u == 0x107
        || u == 0x109
        || u == 0x10B
        || u == 0x10D
        || u == 0x10F
        || u == 0x111
        || u == 0x113
        || u == 0x115
        || u == 0x117
        || u == 0x119
        || u == 0x11B
        || u == 0x11D
        || u == 0x11F
        || u == 0x121
        || u == 0x123
        || u == 0x125
        || u == 0x127
        || u == 0x129
        || u == 0x12B
        || u == 0x12D
        || u == 0x12F
        || u == 0x131
        || u == 0x133
        || u == 0x135
        || (0x137 <= u && u <= 0x138)
        || u == 0x13A
        || u == 0x13C
        || u == 0x13E
        || u == 0x140
        || u == 0x142
        || u == 0x144
        || u == 0x146
        || (0x148 <= u && u <= 0x149)
        || u == 0x14B
        || u == 0x14D
        || u == 0x14F
        || u == 0x151
        || u == 0x153
        || u == 0x155
        || u == 0x157
        || u == 0x159
        || u == 0x15B
        || u == 0x15D
        || u == 0x15F
        || u == 0x161
        || u == 0x163
        || u == 0x165
        || u == 0x167
        || u == 0x169
        || u == 0x16B
        || u == 0x16D)
}
fn sb_lower_0(u: u32) -> (r: bool)
    ensures
        r == spec_sb_lower_0(u),
{
    (0x61 <= u && u <= 0x16D) && ((0x61 <= u && u <= 0x7A)
        || u == 0xAA
        || u == 0xB5
        || u == 0xBA
        || (0xDF <= u && u <= 0xF6)
        || (0xF8 <= u && u <= 0xFF)
        || u == 0x101
        || u == 0x103
        || u == 0x105
        || u == 0x107
        || u == 0x109
        || u == 0x10B
        || u == 0x10D
        || u == 0x10F
        || u == 0x111
        || u == 0x113
        || u == 0x115
        || u == 0x117
        || u == 0x119
        || u == 0x11B
        || u == 0x11D
        || u == 0x11F
        || u == 0x121
        || u == 0x123
        || u == 0x125
        || u == 0x127
        || u == 0x129
        || u == 0x12B
        || u == 0x12D
        || u == 0x12F
        || u == 0x131
        || u == 0x133
        || u == 0x135
        || (0x137 <= u && u <= 0x138)
        || u == 0x13A
        || u == 0x13C
        || u == 0x13E
        || u == 0x140
        || u == 0x142
        || u == 0x144
        || u == 0x146
        || (0x148 <= u && u <= 0x149)
        || u == 0x14B
        || u == 0x14D
        || u == 0x14F
        || u == 0x151
        || u == 0x153
        || u == 0x155
        || u == 0x157
        || u == 0x159
        || u == 0x15B
        || u == 0x15D
        || u == 0x15F
        || u == 0x161
        || u == 0x163
        || u == 0x165
        || u == 0x167
        || u == 0x169
        || u == 0x16B
        || u == 0x16D)
}
pub open spec fn spec_sb_lower_1(u: u32) -> bool {
    (0x16F <= u && u <= 0x20D) && (u == 0x16F
        || u == 0x171
        || u == 0x173
        || u == 0x175
        || u == 0x177
        || u == 0x17A
        || u == 0x17C
        || (0x17E <= u && u <= 0x180)
        || u == 0x183
        || u == 0x185
        || u == 0x188
        || (0x18C <= u && u <= 0x18D)
        || u == 0x192
        || u == 0x195
        || (0x199 <= u && u <= 0x19B)
        || u == 0x19E
        || u == 0x1A1
        || u == 0x1A3
        || u == 0x1A5
        || u == 0x1A8
        || (0x1AA <= u && u <= 0x1AB)
        || u == 0x1AD
        || u == 0x1B0
        || u == 0x1B4
        || u == 0x1B6
        || (0x1B9 <= u && u <= 0x1BA)
        || (0x1BD <= u && u <= 0x1BF)
        || u == 0x1C6
        || u == 0x1C9
        || u == 0x1CC
        || u == 0x1CE
        || u == 0x1D0
        || u == 0x1D2
        || u == 0x1D4
        || u == 0x1D6
        || u == 0x1D8
        || u == 0x1DA
        || (0x1DC <= u && u <= 0x1DD)
        || u == 0x1DF
        || u == 0x1E1
        || u == 0x1E3
        || u == 0x1E5
        || u == 0x1E7
        || u == 0x1E9
        || u == 0x1EB
        || u == 0x1ED
        || (0x1EF <= u && u <= 0x1F0)
        || u == 0x1F3
        || u == 0x1F5
        || u == 0x1F9
        || u == 0x1FB
        || u == 0x1FD
        || u == 0x1FF
        || u == 0x201
        || u == 0x203
        || u == 0x205
        || u == 0x207
        || u == 0x209
        || u == 0x20B
        || u == 0x20D)
}
fn sb_lower_1(u: u32) -> (r: bool)
    ensures
        r == spec_sb_lower_1(u),
{
    (0x16F <= u && u <= 0x20D) && (u == 0x16F
        || u == 0x171
        || u == 0x173
        || u == 0x175
        || u == 0x177
        || u == 0x17A
        || u == 0x17C
        || (0x17E <= u && u <= 0x180)
        || u == 0x183
        || u == 0x185
        || u == 0x188
        || (0x18C <= u && u <= 0x18D)
        || u == 0x192
        || u == 0x195
        || (0x199 <= u && u <= 0x19B)
        || u == 0x19E
        || u == 0x1A1
        || u == 0x1A3
        || u == 0x1A5
        || u == 0x1A8
        || (0x1AA <= u && u <= 0x1AB)
        || u == 0x1AD
        || u == 0x1B0
        || u == 0x1B4
        || u == 0x1B6
        || (0x1B9 <= u && u <= 0x1BA)
        || (0x1BD <= u && u <= 0x1BF)
        || u == 0x1C6
        || u == 0x1C9
        || u == 0x1CC
        || u == 0x1CE
        || u == 0x1D0
        || u == 0x1D2
        || u == 0x1D4
        || u == 0x1D6
        || u == 0x1D8
        || u == 0x1DA
        || (0x1DC <= u && u <= 0x1DD)
        || u == 0x1DF
        || u == 0x1E1
        || u == 0x1E3
        || u == 0x1E5
        || u == 0x1E7
        || u == 0x1E9
        || u == 0x1EB
        || u == 0x1ED
        || (0x1EF <= u && u <= 0x1F0)
        || u == 0x1F3
        || u == 0x1F5
        || u == 0x1F9
        || u == 0x1FB
        || u == 0x1FD
        || u == 0x1FF
        || u == 0x201
        || u == 0x203
        || u == 0x205
        || u == 0x207
        || u == 0x209
        || u == 0x20B
        || u == 0x20D)
}
pub open spec fn spec_sb_lower_2(u: u32) -> bool {
    (0x20F <= u && u <= 0x46B) && (u == 0x20F
        || u == 0x211
        || u == 0x213
        || u == 0x215
        || u == 0x217
        || u == 0x219
        || u == 0x21B
        || u == 0x21D
        || u == 0x21F
        || u == 0x221
        || u == 0x223
        || u == 0x225
        || u == 0x227
        || u == 0x229
        || u == 0x22B
        || u == 0x22D
        || u == 0x22F
        || u == 0x231
        || (0x233 <= u && u <= 0x239)
        || u == 0x23C
        || (0x23F <= u && u <= 0x240)
        || u == 0x242
        || u == 0x247
        || u == 0x249
        || u == 0x24B
        || u == 0x24D
        || (0x24F <= u && u <= 0x293)
        || (0x295 <= u && u <= 0x2B8)
        || (0x2C0 <= u && u <= 0x2C1)
        || (0x2E0 <= u && u <= 0x2E4)
        || u == 0x371
        || u == 0x373
        || u == 0x377
        || (0x37A <= u && u <= 0x37D)
        || u == 0x390
        || (0x3AC <= u && u <= 0x3CE)
        || (0x3D0 <= u && u <= 0x3D1)
        || (0x3D5 <= u && u <= 0x3D7)
        || u == 0x3D9
        || u == 0x3DB
        || u == 0x3DD
        || u == 0x3DF
        || u == 0x3E1
        || u == 0x3E3
        || u == 0x3E5
        || u == 0x3E7
        || u == 0x3E9
        || u == 0x3EB
        || u == 0x3ED
        || (0x3EF <= u && u <= 0x3F3)
        || u == 0x3F5
        || u == 0x3F8
        || (0x3FB <= u && u <= 0x3FC)
        || (0x430 <= u && u <= 0x45F)
        || u == 0x461
        || u == 0x463
        || u == 0x465
        || u == 0x467
        || u == 0x469
        || u == 0x46B)
}
fn sb_lower_2(u: u32) -> (r: bool)
    ensures
        r == spec_sb_lower_2(u),
{
    (0x20F <= u && u <= 0x46B) && (u == 0x20F
        || u == 0x211
        || u == 0x213
        || u == 0x215
        || u == 0x217
        || u == 0x219
        || u == 0x21B
        || u == 0x21D
        || u == 0x21F
        || u == 0x221
        || u == 0x223
        || u == 0x225
        || u == 0x227
        || u == 0x229
        || u == 0x22B
        || u == 0x22D
        || u == 0x22F
        || u == 0x231
        || (0x233 <= u && u <= 0x239)
        || u == 0x23C
        || (0x23F <= u && u <= 0x240)
        || u == 0x242
        || u == 0x247
        || u == 0x249
        || u == 0x24B
        || u == 0x24D
        || (0x24F <= u && u <= 0x293)
        || (0x295 <= u && u <= 0x2B8)
        || (0x2C0 <= u && u <= 0x2C1)
        || (0x2E0 <= u && u <= 0x2E4)
        || u == 0x371
        || u == 0x373
        || u == 0x377
        || (0x37A <= u && u <= 0x37D)
        || u == 0x390
        || (0x3AC <= u && u <= 0x3CE)
        || (0x3D0 <= u && u <= 0x3D1)
        || (0x3D5 <= u && u <= 0x3D7)
        || u == 0x3D9
        || u == 0x3DB
        || u == 0x3DD
        || u == 0x3DF
        || u == 0x3E1
        || u == 0x3E3
        || u == 0x3E5
        || u == 0x3E7
        || u == 0x3E9
        || u == 0x3EB
        || u == 0x3ED
        || (0x3EF <= u && u <= 0x3F3)
        || u == 0x3F5
        || u == 0x3F8
        || (0x3FB <= u && u <= 0x3FC)
        || (0x430 <= u && u <= 0x45F)
        || u == 0x461
        || u == 0x463
        || u == 0x465
        || u == 0x467
        || u == 0x469
        || u == 0x46B)
}
pub open spec fn spec_sb_lower_3(u: u32) -> bool {
    (0x46D <= u && u <= 0x4ED) && (u == 0x46D
        || u == 0x46F
        || u == 0x471
        || u == 0x473
        || u == 0x475
        || u == 0x477
        || u == 0x479
        || u == 0x47B
        || u == 0x47D
        || u == 0x47F
        || u == 0x481
        || u == 0x48B
        || u == 0x48D
        || u == 0x48F
        || u == 0x491
        || u == 0x493
        || u == 0x495
        || u == 0x497
        || u == 0x499
        || u == 0x49B
        || u == 0x49D
        || u == 0x49F
        || u == 0x4A1
        || u == 0x4A3
        || u == 0x4A5
        || u == 0x4A7
        || u == 0x4A9
        || u == 0x4AB
        || u == 0x4AD
        || u == 0x4AF
        || u == 0x4B1
        || u == 0x4B3
        || u == 0x4B5
        || u == 0x4B7
        || u == 0x4B9
        || u == 0x4BB
        || u == 0x4BD
        || u == 0x4BF
        || u == 0x4C2
        || u == 0x4C4
        || u == 0x4C6
        || u == 0x4C8
        || u == 0x4CA
        || u == 0x4CC
        || (0x4CE <= u && u <= 0x4CF)
        || u == 0x4D1
        || u == 0x4D3
        || u == 0x4D5
        || u == 0x4D7
        || u == 0x4D9
        || u == 0x4DB
        || u == 0x4DD
        || u == 0x4DF
        || u == 0x4E1
        || u == 0x4E3
        || u == 0x4E5
        || u == 0x4E7
        || u == 0x4E9
        || u == 0x4EB
        || u == 0x4ED)
}
fn sb_lower_3(u: u32) -> (r: bool)
    ensures
        r == spec_sb_lower_3(u),
{
    (0x46D <= u && u <= 0x4ED) && (u == 0x46D
        || u == 0x46F
        || u == 0x471
        || u == 0x473
        || u == 0x475
        || u == 0x477
        || u == 0x479
        || u == 0x47B
        || u == 0x47D
        || u == 0x47F
        || u == 0x481
        || u == 0x48B
        || u == 0x48D
        || u == 0x48F
        || u == 0x491
        || u == 0x493
        || u == 0x495
        || u == 0x497
        || u == 0x499
        || u == 0x49B
        || u == 0x49D
        || u == 0x49F
        || u == 0x4A1
        || u == 0x4A3
        || u == 0x4A5
        || u == 0x4A7
        || u == 0x4A9
        || u == 0x4AB
        || u == 0x4AD
        || u == 0x4AF
        || u == 0x4B1
        || u == 0x4B3
        || u == 0x4B5
        || u == 0x4B7
        || u == 0x4B9
        || u == 0x4BB
        || u == 0x4BD
        || u == 0x4BF
        || u == 0x4C2
        || u == 0x4C4
        || u == 0x4C6
        || u == 0x4C8
        || u == 0x4CA
        || u == 0x4CC
        || (0x4CE <= u && u <= 0x4CF)
        || u == 0x4D1
        || u == 0x4D3
        || u == 0x4D5
        || u == 0x4D7
        || u == 0x4D9
        || u == 0x4DB
        || u == 0x4DD
        || u == 0x4DF
        || u == 0x4E1
        || u == 0x4E3
        || u == 0x4E5
        || u == 0x4E7
        || u == 0x4E9
        || u == 0x4EB
        || u == 0x4ED)
}
pub open spec fn spec_sb_lower_4(u: u32) -> bool {
    (0x4EF <= u && u <= 0x1E27) && (u == 0x4EF
        || u == 0x4F1
        || u == 0x4F3
        || u == 0x4F5
        || u == 0x4F7
        || u == 0x4F9
        || u == 0x4FB
        || u == 0x4FD
        || u == 0x4FF
        || u == 0x501
        || u == 0x503
        || u == 0x505
        || u == 0x507
        || u == 0x509
        || u == 0x50B
        || u == 0x50D
        || u == 0x50F
        || u == 0x511
        || u == 0x513
        || u == 0x515
        || u == 0x517
        || u == 0x519
        || u == 0x51B
        || u == 0x51D
        || u == 0x51F
        || u == 0x521
        || u == 0x523
        || u == 0x525
        || u == 0x527
        || u == 0x529
        || u == 0x52B
        || u == 0x52D
        || u == 0x52F
        || (0x560 <= u && u <= 0x588)
        || (0x10D0 <= u && u <= 0x10FA)
        || (0x10FD <= u && u <= 0x10FF)
        || (0x13F8 <= u && u <= 0x13FD)
        || (0x1C80 <= u && u <= 0x1C88)
        || (0x1D00 <= u && u <= 0x1D77)
        || (0x1D79 <= u && u <= 0x1D9A)
        || u == 0x1E01
        || u == 0x1E03
        || u == 0x1E05
        || u == 0x1E07
        || u == 0x1E09
        || u == 0x1E0B
        || u == 0x1E0D
        || u == 0x1E0F
        || u == 0x1E11
        || u == 0x1E13
        || u == 0x1E15
        || u == 0x1E17
        || u == 0x1E19
        || u == 0x1E1B
        || u == 0x1E1D
        || u == 0x1E1F
        || u == 0x1E21
        || u == 0x1E23
        || u == 0x1E25
        || u == 0x1E27)
}
fn sb_lower_4(u: u32) -> (r: bool)
    ensures
        r == spec_sb_lower_4(u),
{
    (0x4EF <= u && u <= 0x1E27) && (u == 0x4EF
        || u == 0x4F1
        || u == 0x4F3
        || u == 0x4F5
        || u == 0x4F7
        || u == 0x4F9
        || u == 0x4FB
        || u == 0x4FD
        || u == 0x4FF
        || u == 0x501
        || u == 0x503
        || u == 0x505
        || u == 0x507
        || u == 0x509
        || u == 0x50B
        || u == 0x50D
        || u == 0x50F
        || u == 0x511
        || u == 0x513
        || u == 0x515
        || u == 0x517
        || u == 0x519
        || u == 0x51B
        || u == 0x51D
        || u == 0x51F
        || u == 0x521
        || u == 0x523
        || u == 0x525
        || u == 0x527
        || u == 0x529
        || u == 0x52B
        || u == 0x52D
        || u == 0x52F
        || (0x560 <= u && u <= 0x588)
        || (0x10D0 <= u && u <= 0x10FA)
        || (0x10FD <= u && u <= 0x10FF)
        || (0x13F8 <= u && u <= 0x13FD)
        || (0x1C80 <= u && u <= 0x1C88)
        || (0x1D00 <= u && u <= 0x1D77)
        || (0x1D79 <= u && u <= 0x1D9A)
        || u == 0x1E01
        || u == 0x1E03
        || u == 0x1E05
        || u == 0x1E07
        || u == 0x1E09
        || u == 0x1E0B
        || u == 0x1E0D
        || u == 0x1E0F
        || u == 0x1E11
        || u == 0x1E13
        || u == 0x1E15
        || u == 0x1E17
        || u == 0x1E19
        || u == 0x1E1B
        || u == 0x1E1D
        || u == 0x1E1F
        || u == 0x1E21
        || u == 0x1E23
        || u == 0x1E25
        || u == 0x1E27)
}
pub open spec fn spec_sb_lower_5(u: u32) -> bool {
    (0x1E29 <= u && u <= 0x1EA7) && (u == 0x1E29
        || u == 0x1E2B
        || u == 0x1E2D
        || u == 0x1E2F
        || u == 0x1E31
        || u == 0x1E33
        || u == 0x1E35
        || u == 0x1E37
        || u == 0x1E39
        || u == 0x1E3B
        || u == 0x1E3D
        || u == 0x1E3F
        || u == 0x1E41
        || u == 0x1E43
        || u == 0x1E45
        || u == 0x1E47
        || u == 0x1E49
        || u == 0x1E4B
        || u == 0x1E4D
        || u == 0x1E4F
        || u == 0x1E51
        || u == 0x1E53
        || u == 0x1E55
        || u == 0x1E57
        || u == 0x1E59
        || u == 0x1E5B
        || u == 0x1E5D
        || u == 0x1E5F
        || u == 0x1E61
        || u == 0x1E63
        || u == 0x1E65
        || u == 0x1E67
        || u == 0x1E69
        || u == 0x1E6B
        || u == 0x1E6D
        || u == 0x1E6F
        || u == 0x1E71
        || u == 0x1E73
        || u == 0x1E75
        || u == 0x1E77
        || u == 0x1E79
        || u == 0x1E7B
        || u == 0x1E7D
        || u == 0x1E7F
        || u == 0x1E81
        || u == 0x1E83
        || u == 0x1E85
        || u == 0x1E87
        || u == 0x1E89
        || u == 0x1E8B
        || u == 0x1E8D
        || u == 0x1E8F
        || u == 0x1E91
        || u == 0x1E93
        || (0x1E95 <= u && u <= 0x1E9D)
        || u == 0x1E9F
        || u == 0x1EA1
        || u == 0x1EA3
        || u == 0x1EA5
        || u == 0x1EA7)
}
fn sb_lower_5(u: u32) -> (r: bool)
    ensures
        r == spec_sb_lower_5(u),
{
    (0x1E29 <= u && u <= 0x1EA7) && (u == 0x1E29
        || u == 0x1E2B
        || u == 0x1E2D
        || u == 0x1E2F
        || u == 0x1E31
        || u == 0x1E33
        || u == 0x1E35
        || u == 0x1E37
        || u == 0x1E39
        || u == 0x1E3B
        || u == 0x1E3D
        || u == 0x1E3F
        || u == 0x1E41
        || u == 0x1E43
        || u == 0x1E45
        || u == 0x1E47
        || u == 0x1E49
        || u == 0x1E4B
        || u == 0x1E4D
        || u == 0x1E4F
        || u == 0x1E51
        || u == 0x1E53
        || u == 0x1E55
        || u == 0x1E57
        || u == 0x1E59
        || u == 0x1E5B
        || u == 0x1E5D
        || u == 0x1E5F
        || u == 0x1E61
        || u == 0x1E63
        || u == 0x1E65
        || u == 0x1E67
        || u == 0x1E69
        || u == 0x1E6B
        || u == 0x1E6D
        || u == 0x1E6F
        || u == 0x1E71
        || u == 0x1E73
        || u == 0x1E75
        || u == 0x1E77
        || u == 0x1E79
        || u == 0x1E7B
        || u == 0x1E7D
        || u == 0x1E7F
        || u == 0x1E81
        || u == 0x1E83
        || u == 0x1E85
        || u == 0x1E87
        || u == 0x1E89
        || u == 0x1E8B
        || u == 0x1E8D
        || u == 0x1E8F
        || u == 0x1E91
        || u == 0x1E93
        || (0x1E95 <= u && u <= 0x1E9D)
        || u == 0x1E9F
        || u == 0x1EA1
        || u == 0x1EA3
        || u == 0x1EA5
        || u == 0x1EA7)
}
pub open spec fn spec_sb_lower_6(u: u32) -> bool {
    (0x1EA9 <= u && u <= 0x1FD3) && (u == 0x1EA9
        || u == 0x1EAB
        || u == 0x1EAD
        || u == 0x1EAF
        || u == 0x1EB1
        || u == 0x1EB3
        || u == 0x1EB5
        || u == 0x1EB7
        || u == 0x1EB9
        || u == 0x1EBB
        || u == 0x1EBD
        || u == 0x1EBF
        || u == 0x1EC1
        || u == 0x1EC3
        || u == 0x1EC5
        || u == 0x1EC7
        || u == 0x1EC9
        || u == 0x1ECB
        || u == 0x1ECD
        || u == 0x1ECF
        || u == 0x1ED1
        || u == 0x1ED3
        || u == 0x1ED5
        || u == 0x1ED7
        || u == 0x1ED9
        || u == 0x1EDB
        || u == 0x1EDD
        || u == 0x1EDF
        || u == 0x1EE1
        || u == 0x1EE3
        || u == 0x1EE5
        || u == 0x1EE7
        || u == 0x1EE9
        || u == 0x1EEB
        || u == 0x1EED
        || u == 0x1EEF
        || u == 0x1EF1
        || u == 0x1EF3
        || u == 0x1EF5
        || u == 0x1EF7
        || u == 0x1EF9
        || u == 0x1EFB
        || u == 0x1EFD
        || (0x1EFF <= u && u <= 0x1F07)
        || (0x1F10 <= u && u <= 0x1F15)
        || (0x1F20 <= u && u <= 0x1F27)
        || (0x1F30 <= u && u <= 0x1F37)
        || (0x1F40 <= u && u <= 0x1F45)
        || (0x1F50 <= u && u <= 0x1F57)
        || (0x1F60 <= u && u <= 0x1F67)
        || (0x1F70 <= u && u <= 0x1F7D)
        || (0x1F80 <= u && u <= 0x1F87)
        || (0x1F90 <= u && u <= 0x1F97)
        || (0x1FA0 <= u && u <= 0x1FA7)
        || (0x1FB0 <= u && u <= 0x1FB4)
        || (0x1FB6 <= u && u <= 0x1FB7)
        || u == 0x1FBE
        || (0x1FC2 <= u && u <= 0x1FC4)
        || (0x1FC6 <= u && u <= 0x1FC7)
        || (0x1FD0 <= u && u <= 0x1FD3))
}
fn sb_lower_6(u: u32) -> (r: bool)
    ensures
        r == spec_sb_lower_6(u),
{
    (0x1EA9 <= u && u <= 0x1FD3) && (u == 0x1EA9
        || u == 0x1EAB
        || u == 0x1EAD
        || u == 0x1EAF
        || u == 0x1EB1
        || u == 0x1EB3
        || u == 0x1EB5
        || u == 0x1EB7
        || u == 0x1EB9
        || u == 0x1EBB
        || u == 0x1EBD
        || u == 0x1EBF
        || u == 0x1EC1
        || u == 0x1EC3
        || u == 0x1EC5
        || u == 0x1EC7
        || u == 0x1EC9
        || u == 0x1ECB
        || u == 0x1ECD
        || u == 0x1ECF
        || u == 0x1ED1
        || u == 0x1ED3
        || u == 0x1ED5
        || u == 0x1ED7
        || u == 0x1ED9
        || u == 0x1EDB
        || u == 0x1EDD
        || u == 0x1EDF
        || u == 0x1EE1
        || u == 0x1EE3
        || u == 0x1EE5
        || u == 0x1EE7
        || u == 0x1EE9
        || u == 0x1EEB
        || u == 0x1EED
        || u == 0x1EEF
        || u == 0x1EF1
        || u == 0x1EF3
        || u == 0x1EF5
        || u == 0x1EF7
        || u == 0x1EF9
        || u == 0x1EFB
        || u == 0x1EFD
        || (0x1EFF <= u && u <= 0x1F07)
        || (0x1F10 <= u && u <= 0x1F15)
        || (0x1F20 <= u && u <= 0x1F27)
        || (0x1F30 <= u && u <= 0x1F37)
        || (0x1F40 <= u && u <= 0x1F45)
        || (0x1F50 <= u && u <= 0x1F57)
        || (0x1F60 <= u && u <= 0x1F67)
        || (0x1F70 <= u && u <= 0x1F7D)
        || (0x1F80 <= u && u <= 0x1F87)
        || (0x1F90 <= u && u <= 0x1F97)
        || (0x1FA0 <= u && u <= 0x1FA7)
        || (0x1FB0 <= u && u <= 0x1FB4)
        || (0x1FB6 <= u && u <= 0x1FB7)
        || u == 0x1FBE
        || (0x1FC2 <= u && u <= 0x1FC4)
        || (0x1FC6 <= u && u <= 0x1FC7)
        || (0x1FD0 <= u && u <= 0x1FD3))
}
pub open spec fn spec_sb_lower_7(u: u32) -> bool {
    (0x1FD6 <= u && u <= 0x2CBF) && ((0x1FD6 <= u && u <= 0x1FD7)
        || (0x1FE0 <= u && u <= 0x1FE7)
        || (0x1FF2 <= u && u <= 0x1FF4)
        || (0x1FF6 <= u && u <= 0x1FF7)
        || u == 0x2071
        || u == 0x207F
        || (0x2090 <= u && u <= 0x209C)
        || u == 0x210A
        || (0x210E <= u && u <= 0x210F)
        || u == 0x2113
        || u == 0x212F
        || u == 0x2134
        || u == 0x2139
        || (0x213C <= u && u <= 0x213D)
        || (0x2146 <= u && u <= 0x2149)
        || u == 0x214E
        || (0x2170 <= u && u <= 0x217F)
        || u == 0x2184
        || (0x24D0 <= u && u <= 0x24E9)
        || (0x2C30 <= u && u <= 0x2C5F)
        || u == 0x2C61
        || (0x2C65 <= u && u <= 0x2C66)
        || u == 0x2C68
        || u == 0x2C6A
        || u == 0x2C6C
        || u == 0x2C71
        || (0x2C73 <= u && u <= 0x2C74)
        || (0x2C76 <= u && u <= 0x2C7D)
        || u == 0x2C81
        || u == 0x2C83
        || u == 0x2C85
        || u == 0x2C87
        || u == 0x2C89
        || u == 0x2C8B
        || u == 0x2C8D
        || u == 0x2C8F
        || u == 0x2C91
        || u == 0x2C93
        || u == 0x2C95
        || u == 0x2C97
        || u == 0x2C99
        || u == 0x2C9B
        || u == 0x2C9D
        || u == 0x2C9F
        || u == 0x2CA1
        || u == 0x2CA3
        || u == 0x2CA5
        || u == 0x2CA7
        || u == 0x2CA9
        || u == 0x2CAB
        || u == 0x2CAD
        || u == 0x2CAF
        || u == 0x2CB1
        || u == 0x2CB3
        || u == 0x2CB5
        || u == 0x2CB7
        || u == 0x2CB9
        || u == 0x2CBB
        || u == 0x2CBD
        || u == 0x2CBF)
}
fn sb_lower_7(u: u32) -> (r: bool)
    ensures
        r == spec_sb_lower_7(u),
{
    (0x1FD6 <= u && u <= 0x2CBF) && ((0x1FD6 <= u && u <= 0x1FD7)
        || (0x1FE0 <= u && u <= 0x1FE7)
        || (0x1FF2 <= u && u <= 0x1FF4)
        || (0x1FF6 <= u && u <= 0x1FF7)
        || u == 0x2071
        || u == 0x207F
        || (0x2090 <= u && u <= 0x209C)
        || u == 0x210A
        || (0x210E <= u && u <= 0x210F)
        || u == 0x2113
        || u == 0x212F
        || u == 0x2134
        || u == 0x2139
        || (0x213C <= u && u <= 0x213D)
        || (0x2146 <= u && u <= 0x2149)
        || u == 0x214E
        || (0x2170 <= u && u <= 0x217F)
        || u == 0x2184
        || (0x24D0 <= u && u <= 0x24E9)
        || (0x2C30 <= u && u <= 0x2C5F)
        || u == 0x2C61
        || (0x2C65 <= u && u <= 0x2C66)
        || u == 0x2C68
        || u == 0x2C6A
        || u == 0x2C6C
        || u == 0x2C71
        || (0x2C73 <= u && u <= 0x2C74)
        || (0x2C76 <= u && u <= 0x2C7D)
        || u == 0x2C81
        || u == 0x2C83
        || u == 0x2C85
        || u == 0x2C87
        || u == 0x2C89
        || u == 0x2C8B
        || u == 0x2C8D
        || u == 0x2C8F
        || u == 0x2C91
        || u == 0x2C93
        || u == 0x2C95
        || u == 0x2C97
        || u == 0x2C99
        || u == 0x2C9B
        || u == 0x2C9D
        || u == 0x2C9F
        || u == 0x2CA1
        || u == 0x2CA3
        || u == 0x2CA5
        || u == 0x2CA7
        || u == 0x2CA9
        || u == 0x2CAB
        || u == 0x2CAD
        || u == 0x2CAF
        || u == 0x2CB1
        || u == 0x2CB3
        || u == 0x2CB5
        || u == 0x2CB7
        || u == 0x2CB9
        || u == 0x2CBB
        || u == 0x2CBD
        || u == 0x2CBF)
}
pub open spec fn spec_sb_lower_8(u: u32) -> bool {
    (0x2CC1 <= u && u <= 0xA699) && (u == 0x2CC1
        || u == 0x2CC3
        || u == 0x2CC5
        || u == 0x2CC7
        || u == 0x2CC9
        || u == 0x2CCB
        || u == 0x2CCD
        || u == 0x2CCF
        || u == 0x2CD1
        || u == 0x2CD3
        || u == 0x2CD5
        || u == 0x2CD7
        || u == 0x2CD9
        || u == 0x2CDB
        || u == 0x2CDD
        || u == 0x2CDF
        || u == 0x2CE1
        || (0x2CE3 <= u && u <= 0x2CE4)
        || u == 0x2CEC
        || u == 0x2CEE
        || u == 0x2CF3
        || (0x2D00 <= u && u <= 0x2D25)
        || u == 0x2D27
        || u == 0x2D2D
        || u == 0xA641
        || u == 0xA643
        || u == 0xA645
        || u == 0xA647
        || u == 0xA649
        || u == 0xA64B
        || u == 0xA64D
        || u == 0xA64F
        || u == 0xA651
        || u == 0xA653
        || u == 0xA655
        || u == 0xA657
        || u == 0xA659
        || u == 0xA65B
        || u == 0xA65D
        || u == 0xA65F
        || u == 0xA661
        || u == 0xA663
        || u == 0xA665
        || u == 0xA667
        || u == 0xA669
        || u == 0xA66B
        || u == 0xA66D
        || u == 0xA681
        || u == 0xA683
        || u == 0xA685
        || u == 0xA687
        || u == 0xA689
        || u == 0xA68B
        || u == 0xA68D
        || u == 0xA68F
        || u == 0xA691
        || u == 0xA693
        || u == 0xA695
        || u == 0xA697
        || u == 0xA699)
}
fn sb_lower_8(u: u32) -> (r: bool)
    ensures
        r == spec_sb_lower_8(u),
{
    (0x2CC1 <= u && u <= 0xA699) && (u == 0x2CC1
        || u == 0x2CC3
        || u == 0x2CC5
        || u == 0x2CC7
        || u == 0x2CC9
        || u == 0x2CCB
        || u == 0x2CCD
        || u == 0x2CCF
        || u == 0x2CD1
        || u == 0x2CD3
        || u == 0x2CD5
        || u == 0x2CD7
        || u == 0x2CD9
        || u == 0x2CDB
        || u == 0x2CDD
        || u == 0x2CDF
        || u == 0x2CE1
        || (0x2CE3 <= u && u <= 0x2CE4)
        || u == 0x2CEC
        || u == 0x2CEE
        || u == 0x2CF3
        || (0x2D00 <= u && u <= 0x2D25)
        || u == 0x2D27
        || u == 0x2D2D
        || u == 0xA641
        || u == 0xA643
        || u == 0xA645
        || u == 0xA647
        || u == 0xA649
        || u == 0xA64B
        || u == 0xA64D
        || u == 0xA64F
        || u == 0xA651
        || u == 0xA653
        || u == 0xA655
        || u == 0xA657
        || u == 0xA659
        || u == 0xA65B
        || u == 0xA65D
        || u == 0xA65F
        || u == 0xA661
        || u == 0xA663
        || u == 0xA665
        || u == 0xA667
        || u == 0xA669
        || u == 0xA66B
        || u == 0xA66D
        || u == 0xA681
        || u == 0xA683
        || u == 0xA685
        || u == 0xA687
        || u == 0xA689
        || u == 0xA68B
        || u == 0xA68D
        || u == 0xA68F
        || u == 0xA691
        || u == 0xA693
        || u == 0xA695
        || u == 0xA697
        || u == 0xA699)
}
pub open spec fn spec_sb_lower_9(u: u32) -> bool {
    (0xA69B <= u && u <= 0xA7A9) && ((0xA69B <= u && u <= 0xA69D)
        || u == 0xA723
        || u == 0xA725
        || u == 0xA727
        || u == 0xA729
        || u == 0xA72B
        || u == 0xA72D
        || (0xA72F <= u && u <= 0xA731)
        || u == 0xA733
        || u == 0xA735
        || u == 0xA737
        || u == 0xA739
        || u == 0xA73B
        || u == 0xA73D
        || u == 0xA73F
        || u == 0xA741
        || u == 0xA743
        || u == 0xA745
        || u == 0xA747
        || u == 0xA749
        || u == 0xA74B
        || u == 0xA74D
        || u == 0xA74F
        || u == 0xA751
        || u == 0xA753
        || u == 0xA755
        || u == 0xA757
        || u == 0xA759
        || u == 0xA75B
        || u == 0xA75D
        || u == 0xA75F
        || u == 0xA761
        || u == 0xA763
        || u == 0xA765
        || u == 0xA767
        || u == 0xA769
        || u == 0xA76B
        || u == 0xA76D
        || (0xA76F <= u && u <= 0xA778)
        || u == 0xA77A
        || u == 0xA77C
        || u == 0xA77F
        || u == 0xA781
        || u == 0xA783
        || u == 0xA785
        || u == 0xA787
        || u == 0xA78C
        || u == 0xA78E
        || u == 0xA791
        || (0xA793 <= u && u <= 0xA795)
        || u == 0xA797
        || u == 0xA799
        || u == 0xA79B
        || u == 0xA79D
        || u == 0xA79F
        || u == 0xA7A1
        || u == 0xA7A3
        || u == 0xA7A5
        || u == 0xA7A7
        || u == 0xA7A9)
}
fn sb_lower_9(u: u32) -> (r: bool)
    ensures
        r == spec_sb_lower_9(u),
{
    (0xA69B <= u && u <= 0xA7A9) && ((0xA69B <= u && u <= 0xA69D)
        || u == 0xA723
        || u == 0xA725
        || u == 0xA727
        || u == 0xA729
        || u == 0xA72B
        || u == 0xA72D
        || (0xA72F <= u && u <= 0xA731)
        || u == 0xA733
        || u == 0xA735
        || u == 0xA737
        || u == 0xA739
        || u == 0xA73B
        || u == 0xA73D
        || u == 0xA73F
        || u == 0xA741
        || u == 0xA743
        || u == 0xA745
        || u == 0xA747
        || u == 0xA749
        || u == 0xA74B
        || u == 0xA74D
        || u == 0xA74F
        || u == 0xA751
        || u == 0xA753
        || u == 0xA755
        || u == 0xA757
        || u == 0xA759
        || u == 0xA75B
        || u == 0xA75D
        || u == 0xA75F
        || u == 0xA761
        || u == 0xA763
        || u == 0xA765
        || u == 0xA767
        || u == 0xA769
        || u == 0xA76B
        || u == 0xA76D
        || (0xA76F <= u && u <= 0xA778)
        || u == 0xA77A
        || u == 0xA77C
        || u == 0xA77F
        || u == 0xA781
        || u == 0xA783
        || u == 0xA785
        || u == 0xA787
        || u == 0xA78C
        || u == 0xA78E
        || u == 0xA791
        || (0xA793 <= u && u <= 0xA795)
        || u == 0xA797
        || u == 0xA799
        || u == 0xA79B
        || u == 0xA79D
        || u == 0xA79F
        || u == 0xA7A1
        || u == 0xA7A3
        || u == 0xA7A5
        || u == 0xA7A7
        || u == 0xA7A9)
}
pub open spec fn spec_sb_lower_10(u: u32) -> bool {
    (0xA7AF <= u && u <= 0x1D7C9) && (u == 0xA7AF
        || u == 0xA7B5
        || u == 0xA7B7
        || u == 0xA7B9
        || u == 0xA7BB
        || u == 0xA7BD
        || u == 0xA7BF
        || u == 0xA7C1
        || u == 0xA7C3
        || u == 0xA7C8
        || u == 0xA7CA
        || u == 0xA7D1
        || u == 0xA7D3
        || u == 0xA7D5
        || u == 0xA7D7
        || u == 0xA7D9
        || u == 0xA7F6
        || (0xA7F8 <= u && u <= 0xA7FA)
        || (0xAB30 <= u && u <= 0xAB5A)
        || (0xAB5C <= u && u <= 0xAB68)
        || (0xAB70 <= u && u <= 0xABBF)
        || (0xFB00 <= u && u <= 0xFB06)
        || (0xFB13 <= u && u <= 0xFB17)
        || (0xFF41 <= u && u <= 0xFF5A)
        || (0x10428 <= u && u <= 0x1044F)
        || (0x104D8 <= u && u <= 0x104FB)
        || (0x10597 <= u && u <= 0x105A1)
        || (0x105A3 <= u && u <= 0x105B1)
        || (0x105B3 <= u && u <= 0x105B9)
        || (0x105BB <= u && u <= 0x105BC)
        || (0x10CC0 <= u && u <= 0x10CF2)
        || (0x118C0 <= u && u <= 0x118DF)
        || (0x16E60 <= u && u <= 0x16E7F)
        || (0x1D41A <= u && u <= 0x1D433)
        || (0x1D44E <= u && u <= 0x1D454)
        || (0x1D456 <= u && u <= 0x1D467)
        || (0x1D482 <= u && u <= 0x1D49B)
        || (0x1D4B6 <= u && u <= 0x1D4B9)
        || u == 0x1D4BB
        || (0x1D4BD <= u && u <= 0x1D4C3)
        || (0x1D4C5 <= u && u <= 0x1D4CF)
        || (0x1D4EA <= u && u <= 0x1D503)
        || (0x1D51E <= u && u <= 0x1D537)
        || (0x1D552 <= u && u <= 0x1D56B)
        || (0x1D586 <= u && u <= 0x1D59F)
        || (0x1D5BA <= u && u <= 0x1D5D3)
        || (0x1D5EE <= u && u <= 0x1D607)
        || (0x1D622 <= u && u <= 0x1D63B)
        || (0x1D656 <= u && u <= 0x1D66F)
        || (0x1D68A <= u && u <= 0x1D6A5)
        || (0x1D6C2 <= u && u <= 0x1D6DA)
        || (0x1D6DC <= u && u <= 0x1D6E1)
        || (0x1D6FC <= u && u <= 0x1D714)
        || (0x1D716 <= u && u <= 0x1D71B)
        || (0x1D736 <= u && u <= 0x1D74E)
        || (0x1D750 <= u && u <= 0x1D755)
        || (0x1D770 <= u && u <= 0x1D788)
        || (0x1D78A <= u && u <= 0x1D78F)
        || (0x1D7AA <= u && u <= 0x1D7C2)
        || (0x1D7C4 <= u && u <= 0x1D7C9))
}
fn sb_lower_10(u: u32) -> (r: bool)
    ensures
        r == spec_sb_lower_10(u),
{
    (0xA7AF <= u && u <= 0x1D7C9) && (u == 0xA7AF
        || u == 0xA7B5
        || u == 0xA7B7
        || u == 0xA7B9
        || u == 0xA7BB
        || u == 0xA7BD
        || u == 0xA7BF
        || u == 0xA7C1
        || u == 0xA7C3
        || u == 0xA7C8
        || u == 0xA7CA
        || u == 0xA7D1
        || u == 0xA7D3
        || u == 0xA7D5
        || u == 0xA7D7
        || u == 0xA7D9
        || u == 0xA7F6
        || (0xA7F8 <= u && u <= 0xA7FA)
        || (0xAB30 <= u && u <= 0xAB5A)
        || (0xAB5C <= u && u <= 0xAB68)
        || (0xAB70 <= u && u <= 0xABBF)
        || (0xFB00 <= u && u <= 0xFB06)
        || (0xFB13 <= u && u <= 0xFB17)
        || (0xFF41 <= u && u <= 0xFF5A)
        || (0x10428 <= u && u <= 0x1044F)
        || (0x104D8 <= u && u <= 0x104FB)
        || (0x10597 <= u && u <= 0x105A1)
        || (0x105A3 <= u && u <= 0x105B1)
        || (0x105B3 <= u && u <= 0x105B9)
        || (0x105BB <= u && u <= 0x105BC)
        || (0x10CC0 <= u && u <= 0x10CF2)
        || (0x118C0 <= u && u <= 0x118DF)
        || (0x16E60 <= u && u <= 0x16E7F)
        || (0x1D41A <= u && u <= 0x1D433)
        || (0x1D44E <= u && u <= 0x1D454)
        || (0x1D456 <= u && u <= 0x1D467)
        || (0x1D482 <= u && u <= 0x1D49B)
        || (0x1D4B6 <= u && u <= 0x1D4B9)
        || u == 0x1D4BB
        || (0x1D4BD <= u && u <= 0x1D4C3)
        || (0x1D4C5 <= u && u <= 0x1D4CF)
        || (0x1D4EA <= u && u <= 0x1D503)
        || (0x1D51E <= u && u <= 0x1D537)
        || (0x1D552 <= u && u <= 0x1D56B)
        || (0x1D586 <= u && u <= 0x1D59F)
        || (0x1D5BA <= u && u <= 0x1D5D3)
        || (0x1D5EE <= u && u <= 0x1D607)
        || (0x1D622 <= u && u <= 0x1D63B)
        || (0x1D656 <= u && u <= 0x1D66F)
        || (0x1D68A <= u && u <= 0x1D6A5)
        || (0x1D6C2 <= u && u <= 0x1D6DA)
        || (0x1D6DC <= u && u <= 0x1D6E1)
        || (0x1D6FC <= u && u <= 0x1D714)
        || (0x1D716 <= u && u <= 0x1D71B)
        || (0x1D736 <= u && u <= 0x1D74E)
        || (0x1D750 <= u && u <= 0x1D755)
        || (0x1D770 <= u && u <= 0x1D788)
        || (0x1D78A <= u && u <= 0x1D78F)
        || (0x1D7AA <= u && u <= 0x1D7C2)
        || (0x1D7C4 <= u && u <= 0x1D7C9))
}
pub open spec fn spec_sb_lower_11(u: u32) -> bool {
    (0x1D7CB <= u && u <= 0x1E943) && (u == 0x1D7CB
        || (0x1DF00 <= u && u <= 0x1DF09)
        || (0x1DF0B <= u && u <= 0x1DF1E)
        || (0x1E922 <= u && u <= 0x1E943))
}
fn sb_lower_11(u: u32) -> (r: bool)
    ensures
        r == spec_sb_lower_11(u),
{
    (0x1D7CB <= u && u <= 0x1E943) && (u == 0x1D7CB
        || (0x1DF00 <= u && u <= 0x1DF09)
        || (0x1DF0B <= u && u <= 0x1DF1E)
        || (0x1E922 <= u && u <= 0x1E943))
}
pub open spec fn spec_sb_lower(u: u32) -> bool {
    spec_sb_lower_0(u) || spec_sb_lower_1(u) || spec_sb_lower_2(u) || spec_sb_lower_3(u) || spec_sb_lower_4(u) || spec_sb_lower_5(u) || spec_sb_lower_6(u) || spec_sb_lower_7(u) || spec_sb_lower_8(u) || spec_sb_lower_9(u) || spec_sb_lower_10(u) || spec_sb_lower_11(u)
}
fn sb_lower(u: u32) -> (r: bool)
    ensures
        r == spec_sb_lower(u),
{
    sb_lower_0(u) || sb_lower_1(u) || sb_lower_2(u) || sb_lower_3(u) || sb_lower_4(u) || sb_lower_5(u) || sb_lower_6(u) || sb_lower_7(u) || sb_lower_8(u) || sb_lower_9(u) || sb_lower_10(u) || sb_lower_11(u)
}
pub open spec fn spec_sb_upper_0(u: u32) -> bool {
    (0x41 <= u && u <= 0x172) && ((0x41 <= u && u <= 0x5A)
        || (0xC0 <= u && u <= 0xD6)
        || (0xD8 <= u && u <= 0xDE)
        || u == 0x100
        || u == 0x102
        || u == 0x104
        || u == 0x106
        || u == 0x108
        || u == 0x10A
        || u == 0x10C
        || u == 0x10E
        || u == 0x110
        || u == 0x112
        || u == 0x114
        || u == 0x116
        || u == 0x118
        || u == 0x11A
        || u == 0x11C
        || u == 0x11E
        || u == 0x120
        || u == 0x122
        || u == 0x124
        || u == 0x126
        || u == 0x128
        || u == 0x12A
        || u == 0x12C
        || u == 0x12E
        || u == 0x130
        || u == 0x132
        || u == 0x134
        || u == 0x136
        || u == 0x139
        || u == 0x13B
        || u == 0x13D
        || u == 0x13F
        || u == 0x141
        || u == 0x143
        || u == 0x145
        || u == 0x147
        || u == 0x14A
        || u == 0x14C
        || u == 0x14E
        || u == 0x150
        || u == 0x152
        || u == 0x154
        || u == 0x156
        || u == 0x158
        || u == 0x15A
        || u == 0x15C
        || u == 0x15E
        || u == 0x160
        || u == 0x162
        || u == 0x164
        || u == 0x166
        || u == 0x168
        || u == 0x16A
        || u == 0x16C
        || u == 0x16E
        || u == 0x170
        || u == 0x172)
}
fn sb_upper_0(u: u32) -> (r: bool)
    ensures
        r == spec_sb_upper_0(u),
{
    (0x41 <= u && u <= 0x172) && ((0x41 <= u && u <= 0x5A)
        || (0xC0 <= u && u <= 0xD6)
        || (0xD8 <= u && u <= 0xDE)
        || u == 0x100
        || u == 0x102
        || u == 0x104
        || u == 0x106
        || u == 0x108
        || u == 0x10A
        || u == 0x10C
        || u == 0x10E
        || u == 0x110
        || u == 0x112
        || u == 0x114
        || u == 0x116
        || u == 0x118
        || u == 0x11A
        || u == 0x11C
        || u == 0x11E
        || u == 0x120
        || u == 0x122
        || u == 0x124
        || u == 0x126
        || u == 0x128
        || u == 0x12A
        || u == 0x12C
        || u == 0x12E
        || u == 0x130
        || u == 0x132
        || u == 0x134
        || u == 0x136
        || u == 0x139
        || u == 0x13B
        || u == 0x13D
        || u == 0x13F
        || u == 0x141
        || u == 0x143
        || u == 0x145
        || u == 0x147
        || u == 0x14A
        || u == 0x14C
        || u == 0x14E
        || u == 0x150
        || u == 0x152
        || u == 0x154
        || u == 0x156
        || u == 0x158
        || u == 0x15A
        || u == 0x15C
        || u == 0x15E
        || u == 0x160
        || u == 0x162
        || u == 0x164
        || u == 0x166
        || u == 0x168
        || u == 0x16A
        || u == 0x16C
        || u == 0x16E
        || u == 0x170
        || u == 0x172)
}
pub open spec fn spec_sb_upper_1(u: u32) -> bool {
    (0x174 <= u && u <= 0x212) && (u == 0x174
        || u == 0x176
        || (0x178 <= u && u <= 0x179)
        || u == 0x17B
        || u == 0x17D
        || (0x181 <= u && u <= 0x182)
        || u == 0x184
        || (0x186 <= u && u <= 0x187)
        || (0x189 <= u && u <= 0x18B)
        || (0x18E <= u && u <= 0x191)
        || (0x193 <= u && u <= 0x194)
        || (0x196 <= u && u <= 0x198)
        || (0x19C <= u && u <= 0x19D)
        || (0x19F <= u && u <= 0x1A0)
        || u == 0x1A2
        || u == 0x1A4
        || (0x1A6 <= u && u <= 0x1A7)
        || u == 0x1A9
        || u == 0x1AC
        || (0x1AE <= u && u <= 0x1AF)
        || (0x1B1 <= u && u <= 0x1B3)
        || u == 0x1B5
        || (0x1B7 <= u && u <= 0x1B8)
        || u == 0x1BC
        || (0x1C4 <= u && u <= 0x1C5)
        || (0x1C7 <= u && u <= 0x1C8)
        || (0x1CA <= u && u <= 0x1CB)
        || u == 0x1CD
        || u == 0x1CF
        || u == 0x1D1
        || u == 0x1D3
        || u == 0x1D5
        || u == 0x1D7
        || u == 0x1D9
        || u == 0x1DB
        || u == 0x1DE
        || u == 0x1E0
        || u == 0x1E2
        || u == 0x1E4
        || u == 0x1E6
        || u == 0x1E8
        || u == 0x1EA
        || u == 0x1EC
        || u == 0x1EE
        || (0x1F1 <= u && u <= 0x1F2)
        || u == 0x1F4
        || (0x1F6 <= u && u <= 0x1F8)
        || u == 0x1FA
        || u == 0x1FC
        || u == 0x1FE
        || u == 0x200
        || u == 0x202
        || u == 0x204
        || u == 0x206
        || u == 0x208
        || u == 0x20A
        || u == 0x20C
        || u == 0x20E
        || u == 0x210
        || u == 0x212)
}
fn sb_upper_1(u: u32) -> (r: bool)
    ensures
        r == spec_sb_upper_1(u),
{
    (0x174 <= u && u <= 0x212) && (u == 0x174
        || u == 0x176
        || (0x178 <= u && u <= 0x179)
        || u == 0x17B
        || u == 0x17D
        || (0x181 <= u && u <= 0x182)
        || u == 0x184
        || (0x186 <= u && u <= 0x187)
        || (0x189 <= u && u <= 0x18B)
        || (0x18E <= u && u <= 0x191)
        || (0x193 <= u && u <= 0x194)
        || (0x196 <= u && u <= 0x198)
        || (0x19C <= u && u <= 0x19D)
        || (0x19F <= u && u <= 0x1A0)
        || u == 0x1A2
        || u == 0x1A4
        || (0x1A6 <= u && u <= 0x1A7)
        || u == 0x1A9
        || u == 0x1AC
        || (0x1AE <= u && u <= 0x1AF)
        || (0x1B1 <= u && u <= 0x1B3)
        || u == 0x1B5
        || (0x1B7 <= u && u <= 0x1B8)
        || u == 0x1BC
        || (0x1C4 <= u && u <= 0x1C5)
        || (0x1C7 <= u && u <= 0x1C8)
        || (0x1CA <= u && u <= 0x1CB)
        || u == 0x1CD
        || u == 0x1CF
        || u == 0x1D1
        || u == 0x1D3
        || u == 0x1D5
        || u == 0x1D7
        || u == 0x1D9
        || u == 0x1DB
        || u == 0x1DE
        || u == 0x1E0
        || u == 0x1E2
        || u == 0x1E4
        || u == 0x1E6
        || u == 0x1E8
        || u == 0x1EA
        || u == 0x1EC
        || u == 0x1EE
        || (0x1F1 <= u && u <= 0x1F2)
        || u == 0x1F4
        || (0x1F6 <= u && u <= 0x1F8)
        || u == 0x1FA
        || u == 0x1FC
        || u == 0x1FE
        || u == 0x200
        || u == 0x202
        || u == 0x204
        || u == 0x206
        || u == 0x208
        || u == 0x20A
        || u == 0x20C
        || u == 0x20E
        || u == 0x210
        || u == 0x212)
}
pub open spec fn spec_sb_upper_2(u: u32) -> bool {
    (0x214 <= u && u <= 0x46E) && (u == 0x214
        || u == 0x216
        || u == 0x218
        || u == 0x21A
        || u == 0x21C
        || u == 0x21E
        || u == 0x220
        || u == 0x222
        || u == 0x224
        || u == 0x226
        || u == 0x228
        || u == 0x22A
        || u == 0x22C
        || u == 0x22E
        || u == 0x230
        || u == 0x232
        || (0x23A <= u && u <= 0x23B)
        || (0x23D <= u && u <= 0x23E)
        || u == 0x241
        || (0x243 <= u && u <= 0x246)
        || u == 0x248
        || u == 0x24A
        || u == 0x24C
        || u == 0x24E
        || u == 0x370
        || u == 0x372
        || u == 0x376
        || u == 0x37F
        || u == 0x386
        || (0x388 <= u && u <= 0x38A)
        || u == 0x38C
        || (0x38E <= u && u <= 0x38F)
        || (0x391 <= u && u <= 0x3A1)
        || (0x3A3 <= u && u <= 0x3AB)
        || u == 0x3CF
        || (0x3D2 <= u && u <= 0x3D4)
        || u == 0x3D8
        || u == 0x3DA
        || u == 0x3DC
        || u == 0x3DE
        || u == 0x3E0
        || u == 0x3E2
        || u == 0x3E4
        || u == 0x3E6
        || u == 0x3E8
        || u == 0x3EA
        || u == 0x3EC
        || u == 0x3EE
        || u == 0x3F4
        || u == 0x3F7
        || (0x3F9 <= u && u <= 0x3FA)
        || (0x3FD <= u && u <= 0x42F)
        || u == 0x460
        || u == 0x462
        || u == 0x464
        || u == 0x466
        || u == 0x468
        || u == 0x46A
        || u == 0x46C
        || u == 0x46E)
}
fn sb_upper_2(u: u32) -> (r: bool)
    ensures
        r == spec_sb_upper_2(u),
{
    (0x214 <= u && u <= 0x46E) && (u == 0x214
        || u == 0x216
        || u == 0x218
        || u == 0x21A
        || u == 0x21C
        || u == 0x21E
        || u == 0x220
        || u == 0x222
        || u == 0x224
        || u == 0x226
        || u == 0x228
        || u == 0x22A
        || u == 0x22C
        || u == 0x22E
        || u == 0x230
        || u == 0x232
        || (0x23A <= u && u <= 0x23B)
        || (0x23D <= u && u <= 0x23E)
        || u == 0x241
        || (0x243 <= u && u <= 0x246)
        || u == 0x248
        || u == 0x24A
        || u == 0x24C
        || u == 0x24E
        || u == 0x370
        || u == 0x372
        || u == 0x376
        || u == 0x37F
        || u == 0x386
        || (0x388 <= u && u <= 0x38A)
        || u == 0x38C
        || (0x38E <= u && u <= 0x38F)
        || (0x391 <= u && u <= 0x3A1)
        || (0x3A3 <= u && u <= 0x3AB)
        || u == 0x3CF
        || (0x3D2 <= u && u <= 0x3D4)
        || u == 0x3D8
        || u == 0x3DA
        || u == 0x3DC
        || u == 0x3DE
        || u == 0x3E0
        || u == 0x3E2
        || u == 0x3E4
        || u == 0x3E6
        || u == 0x3E8
        || u == 0x3EA
        || u == 0x3EC
        || u == 0x3EE
        || u == 0x3F4
        || u == 0x3F7
        || (0x3F9 <= u && u <= 0x3FA)
        || (0x3FD <= u && u <= 0x42F)
        || u == 0x460
        || u == 0x462
        || u == 0x464
        || u == 0x466
        || u == 0x468
        || u == 0x46A
        || u == 0x46C
        || u == 0x46E)
}
pub open spec fn spec_sb_upper_3(u: u32) -> bool {
    (0x470 <= u && u <= 0x4F0) && (u == 0x470
        || u == 0x472
        || u == 0x474
        || u == 0x476
        || u == 0x478
        || u == 0x47A
        || u == 0x47C
        || u == 0x47E
        || u == 0x480
        || u == 0x48A
        || u == 0x48C
        || u == 0x48E
        || u == 0x490
        || u == 0x492
        || u == 0x494
        || u == 0x496
        || u == 0x498
        || u == 0x49A
        || u == 0x49C
        || u == 0x49E
        || u == 0x4A0
        || u == 0x4A2
        || u == 0x4A4
        || u == 0x4A6
        || u == 0x4A8
        || u == 0x4AA
        || u == 0x4AC
        || u == 0x4AE
        || u == 0x4B0
        || u == 0x4B2
        || u == 0x4B4
        || u == 0x4B6
        || u == 0x4B8
        || u == 0x4BA
        || u == 0x4BC
        || u == 0x4BE
        || (0x4C0 <= u && u <= 0x4C1)
        || u == 0x4C3
        || u == 0x4C5
        || u == 0x4C7
        || u == 0x4C9
        || u == 0x4CB
        || u == 0x4CD
        || u == 0x4D0
        || u == 0x4D2
        || u == 0x4D4
        || u == 0x4D6
        || u == 0x4D8
        || u == 0x4DA
        || u == 0x4DC
        || u == 0x4DE
        || u == 0x4E0
        || u == 0x4E2
        || u == 0x4E4
        || u == 0x4E6
        || u == 0x4E8
        || u == 0x4EA
        || u == 0x4EC
        || u == 0x4EE
        || u == 0x4F0)
}
fn sb_upper_3(u: u32) -> (r: bool)
    ensures
        r == spec_sb_upper_3(u),
{
    (0x470 <= u && u <= 0x4F0) && (u == 0x470
        || u == 0x472
        || u == 0x474
        || u == 0x476
        || u == 0x478
        || u == 0x47A
        || u == 0x47C
        || u == 0x47E
        || u == 0x480
        || u == 0x48A
        || u == 0x48C
        || u == 0x48E
        || u == 0x490
        || u == 0x492
        || u == 0x494
        || u == 0x496
        || u == 0x498
        || u == 0x49A
        || u == 0x49C
        || u == 0x49E
        || u == 0x4A0
        || u == 0x4A2
        || u == 0x4A4
        || u == 0x4A6
        || u == 0x4A8
        || u == 0x4AA
        || u == 0x4AC
        || u == 0x4AE
        || u == 0x4B0
        || u == 0x4B2
        || u == 0x4B4
        || u == 0x4B6
        || u == 0x4B8
        || u == 0x4BA
        || u == 0x4BC
        || u == 0x4BE
        || (0x4C0 <= u && u <= 0x4C1)
        || u == 0x4C3
        || u == 0x4C5
        || u == 0x4C7
        || u == 0x4C9
        || u == 0x4CB
        || u == 0x4CD
        || u == 0x4D0
        || u == 0x4D2
        || u == 0x4D4
        || u == 0x4D6
        || u == 0x4D8
        || u == 0x4DA
        || u == 0x4DC
        || u == 0x4DE
        || u == 0x4E0
        || u == 0x4E2
        || u == 0x4E4
        || u == 0x4E6
        || u == 0x4E8
        || u == 0x4EA
        || u == 0x4EC
        || u == 0x4EE
        || u == 0x4F0)
}
pub open spec fn spec_sb_upper_4(u: u32) -> bool {
    (0x4F2 <= u && u <= 0x1E2A) && (u == 0x4F2
        || u == 0x4F4
        || u == 0x4F6
        || u == 0x4F8
        || u == 0x4FA
        || u == 0x4FC
        || u == 0x4FE
        || u == 0x500
        || u == 0x502
        || u == 0x504
        || u == 0x506
        || u == 0x508
        || u == 0x50A
        || u == 0x50C
        || u == 0x50E
        || u == 0x510
        || u == 0x512
        || u == 0x514
        || u == 0x516
        || u == 0x518
        || u == 0x51A
        || u == 0x51C
        || u == 0x51E
        || u == 0x520
        || u == 0x522
        || u == 0x524
        || u == 0x526
        || u == 0x528
        || u == 0x52A
        || u == 0x52C
        || u == 0x52E
        || (0x531 <= u && u <= 0x556)
        || (0x10A0 <= u && u <= 0x10C5)
        || u == 0x10C7
        || u == 0x10CD
        || (0x13A0 <= u && u <= 0x13F5)
        || (0x1C90 <= u && u <= 0x1CBA)
        || (0x1CBD <= u && u <= 0x1CBF)
        || u == 0x1E00
        || u == 0x1E02
        || u == 0x1E04
        || u == 0x1E06
        || u == 0x1E08
        || u == 0x1E0A
        || u == 0x1E0C
        || u == 0x1E0E
        || u == 0x1E10
        || u == 0x1E12
        || u == 0x1E14
        || u == 0x1E16
        || u == 0x1E18
        || u == 0x1E1A
        || u == 0x1E1C
        || u == 0x1E1E
        || u == 0x1E20
        || u == 0x1E22
        || u == 0x1E24
        || u == 0x1E26
        || u == 0x1E28
        || u == 0x1E2A)
}
fn sb_upper_4(u: u32) -> (r: bool)
    ensures
        r == spec_sb_upper_4(u),
{
    (0x4F2 <= u && u <= 0x1E2A) && (u == 0x4F2
        || u == 0x4F4
        || u == 0x4F6
        || u == 0x4F8
        || u == 0x4FA
        || u == 0x4FC
        || u == 0x4FE
        || u == 0x500
        || u == 0x502
        || u == 0x504
        || u == 0x506
        || u == 0x508
        || u == 0x50A
        || u == 0x50C
        || u == 0x50E
        || u == 0x510
        || u == 0x512
        || u == 0x514
        || u == 0x516
        || u == 0x518
        || u == 0x51A
        || u == 0x51C
        || u == 0x51E
        || u == 0x520
        || u == 0x522
        || u == 0x524
        || u == 0x526
        || u == 0x528
        || u == 0x52A
        || u == 0x52C
        || u == 0x52E
        || (0x531 <= u && u <= 0x556)
        || (0x10A0 <= u && u <= 0x10C5)
        || u == 0x10C7
        || u == 0x10CD
        || (0x13A0 <= u && u <= 0x13F5)
        || (0x1C90 <= u && u <= 0x1CBA)
        || (0x1CBD <= u && u <= 0x1CBF)
        || u == 0x1E00
        || u == 0x1E02
        || u == 0x1E04
        || u == 0x1E06
        || u == 0x1E08
        || u == 0x1E0A
        || u == 0x1E0C
        || u == 0x1E0E
        || u == 0x1E10
        || u == 0x1E12
        || u == 0x1E14
        || u == 0x1E16
        || u == 0x1E18
        || u == 0x1E1A
        || u == 0x1E1C
        || u == 0x1E1E
        || u == 0x1E20
        || u == 0x1E22
        || u == 0x1E24
        || u == 0x1E26
        || u == 0x1E28
        || u == 0x1E2A)
}
pub open spec fn spec_sb_upper_5(u: u32) -> bool {
    (0x1E2C <= u && u <= 0x1EAA) && (u == 0x1E2C
        || u == 0x1E2E
        || u == 0x1E30
        || u == 0x1E32
        || u == 0x1E34
        || u == 0x1E36
        || u == 0x1E38
        || u == 0x1E3A
        || u == 0x1E3C
        || u == 0x1E3E
        || u == 0x1E40
        || u == 0x1E42
        || u == 0x1E44
        || u == 0x1E46
        || u == 0x1E48
        || u == 0x1E4A
        || u == 0x1E4C
        || u == 0x1E4E
        || u == 0x1E50
        || u == 0x1E52
        || u == 0x1E54
        || u == 0x1E56
        || u == 0x1E58
        || u == 0x1E5A
        || u == 0x1E5C
        || u == 0x1E5E
        || u == 0x1E60
        || u == 0x1E62
        || u == 0x1E64
        || u == 0x1E66
        || u == 0x1E68
        || u == 0x1E6A
        || u == 0x1E6C
        || u == 0x1E6E
        || u == 0x1E70
        || u == 0x1E72
        || u == 0x1E74
        || u == 0x1E76
        || u == 0x1E78
        || u == 0x1E7A
        || u == 0x1E7C
        || u == 0x1E7E
        || u == 0x1E80
        || u == 0x1E82
        || u == 0x1E84
        || u == 0x1E86
        || u == 0x1E88
        || u == 0x1E8A
        || u == 0x1E8C
        || u == 0x1E8E
        || u == 0x1E90
        || u == 0x1E92
        || u == 0x1E94
        || u == 0x1E9E
        || u == 0x1EA0
        || u == 0x1EA2
        || u == 0x1EA4
        || u == 0x1EA6
        || u == 0x1EA8
        || u == 0x1EAA)
}
fn sb_upper_5(u: u32) -> (r: bool)
    ensures
        r == spec_sb_upper_5(u),
{
    (0x1E2C <= u && u <= 0x1EAA) && (u == 0x1E2C
        || u == 0x1E2E
        || u == 0x1E30
        || u == 0x1E32
        || u == 0x1E34
        || u == 0x1E36
        || u == 0x1E38
        || u == 0x1E3A
        || u == 0x1E3C
        || u == 0x1E3E
        || u == 0x1E40
        || u == 0x1E42
        || u == 0x1E44
        || u == 0x1E46
        || u == 0x1E48
        || u == 0x1E4A
        || u == 0x1E4C
        || u == 0x1E4E
        || u == 0x1E50
        || u == 0x1E52
        || u == 0x1E54
        || u == 0x1E56
        || u == 0x1E58
        || u == 0x1E5A
        || u == 0x1E5C
        || u == 0x1E5E
        || u == 0x1E60
        || u == 0x1E62
        || u == 0x1E64
        || u == 0x1E66
        || u == 0x1E68
        || u == 0x1E6A
        || u == 0x1E6C
        || u == 0x1E6E
        || u == 0x1E70
        || u == 0x1E72
        || u == 0x1E74
        || u == 0x1E76
        || u == 0x1E78
        || u == 0x1E7A
        || u == 0x1E7C
        || u == 0x1E7E
        || u == 0x1E80
        || u == 0x1E82
        || u == 0x1E84
        || u == 0x1E86
        || u == 0x1E88
        || u == 0x1E8A
        || u == 0x1E8C
        || u == 0x1E8E
        || u == 0x1E90
        || u == 0x1E92
        || u == 0x1E94
        || u == 0x1E9E
        || u == 0x1EA0
        || u == 0x1EA2
        || u == 0x1EA4
        || u == 0x1EA6
        || u == 0x1EA8
        || u == 0x1EAA)
}
pub open spec fn spec_sb_upper_6(u: u32) -> bool {
    (0x1EAC <= u && u <= 0x1FFC) && (u == 0x1EAC
        || u == 0x1EAE
        || u == 0x1EB0
        || u == 0x1EB2
        || u == 0x1EB4
        || u == 0x1EB6
        || u == 0x1EB8
        || u == 0x1EBA
        || u == 0x1EBC
        || u == 0x1EBE
        || u == 0x1EC0
        || u == 0x1EC2
        || u == 0x1EC4
        || u == 0x1EC6
        || u == 0x1EC8
        || u == 0x1ECA
        || u == 0x1ECC
        || u == 0x1ECE
        || u == 0x1ED0
        || u == 0x1ED2
        || u == 0x1ED4
        || u == 0x1ED6
        || u == 0x1ED8
        || u == 0x1EDA
        || u == 0x1EDC
        || u == 0x1EDE
        || u == 0x1EE0
        || u == 0x1EE2
        || u == 0x1EE4
        || u == 0x1EE6
        || u == 0x1EE8
        || u == 0x1EEA
        || u == 0x1EEC
        || u == 0x1EEE
        || u == 0x1EF0
        || u == 0x1EF2
        || u == 0x1EF4
        || u == 0x1EF6
        || u == 0x1EF8
        || u == 0x1EFA
        || u == 0x1EFC
        || u == 0x1EFE
        || (0x1F08 <= u && u <= 0x1F0F)
        || (0x1F18 <= u && u <= 0x1F1D)
        || (0x1F28 <= u && u <= 0x1F2F)
        || (0x1F38 <= u && u <= 0x1F3F)
        || (0x1F48 <= u && u <= 0x1F4D)
        || u == 0x1F59
        || u == 0x1F5B
        || u == 0x1F5D
        || u == 0x1F5F
        || (0x1F68 <= u && u <= 0x1F6F)
        || (0x1F88 <= u && u <= 0x1F8F)
        || (0x1F98 <= u && u <= 0x1F9F)
        || (0x1FA8 <= u && u <= 0x1FAF)
        || (0x1FB8 <= u && u <= 0x1FBC)
        || (0x1FC8 <= u && u <= 0x1FCC)
        || (0x1FD8 <= u && u <= 0x1FDB)
        || (0x1FE8 <= u && u <= 0x1FEC)
        || (0x1FF8 <= u && u <= 0x1FFC))
}
fn sb_upper_6(u: u32) -> (r: bool)
    ensures
        r == spec_sb_upper_6(u),
{
    (0x1EAC <= u && u <= 0x1FFC) && (u == 0x1EAC
        || u == 0x1EAE
        || u == 0x1EB0
        || u == 0x1EB2
        || u == 0x1EB4
        || u == 0x1EB6
        || u == 0x1EB8
        || u == 0x1EBA
        || u == 0x1EBC
        || u == 0x1EBE
        || u == 0x1EC0
        || u == 0x1EC2
        || u == 0x1EC4
        || u == 0x1EC6
        || u == 0x1EC8
        || u == 0x1ECA
        || u == 0x1ECC
        || u == 0x1ECE
        || u == 0x1ED0
        || u == 0x1ED2
        || u == 0x1ED4
        || u == 0x1ED6
        || u == 0x1ED8
        || u == 0x1EDA
        || u == 0x1EDC
        || u == 0x1EDE
        || u == 0x1EE0
        || u == 0x1EE2
        || u == 0x1EE4
        || u == 0x1EE6
        || u == 0x1EE8
        || u == 0x1EEA
        || u == 0x1EEC
        || u == 0x1EEE
        || u == 0x1EF0
        || u == 0x1EF2
        || u == 0x1EF4
        || u == 0x1EF6
        || u == 0x1EF8
        || u == 0x1EFA
        || u == 0x1EFC
        || u == 0x1EFE
        || (0x1F08 <= u && u <= 0x1F0F)
        || (0x1F18 <= u && u <= 0x1F1D)
        || (0x1F28 <= u && u <= 0x1F2F)
        || (0x1F38 <= u && u <= 0x1F3F)
        || (0x1F48 <= u && u <= 0x1F4D)
        || u == 0x1F59
        || u == 0x1F5B
        || u == 0x1F5D
        || u == 0x1F5F
        || (0x1F68 <= u && u <= 0x1F6F)
        || (0x1F88 <= u && u <= 0x1F8F)
        || (0x1F98 <= u && u <= 0x1F9F)
        || (0x1FA8 <= u && u <= 0x1FAF)
        || (0x1FB8 <= u && u <= 0x1FBC)
        || (0x1FC8 <= u && u <= 0x1FCC)
        || (0x1FD8 <= u && u <= 0x1FDB)
        || (0x1FE8 <= u && u <= 0x1FEC)
        || (0x1FF8 <= u && u <= 0x1FFC))
}
pub open spec fn spec_sb_upper_7(u: u32) -> bool {
    (0x2102 <= u && u <= 0x2CC4) && (u == 0x2102
        || u == 0x2107
        || (0x210B <= u && u <= 0x210D)
        || (0x2110 <= u && u <= 0x2112)
        || u == 0x2115
        || (0x2119 <= u && u <= 0x211D)
        || u == 0x2124
        || u == 0x2126
        || u == 0x2128
        || (0x212A <= u && u <= 0x212D)
        || (0x2130 <= u && u <= 0x2133)
        || (0x213E <= u && u <= 0x213F)
        || u == 0x2145
        || (0x2160 <= u && u <= 0x216F)
        || u == 0x2183
        || (0x24B6 <= u && u <= 0x24CF)
        || (0x2C00 <= u && u <= 0x2C2F)
        || u == 0x2C60
        || (0x2C62 <= u && u <= 0x2C64)
        || u == 0x2C67
        || u == 0x2C69
        || u == 0x2C6B
        || (0x2C6D <= u && u <= 0x2C70)
        || u == 0x2C72
        || u == 0x2C75
        || (0x2C7E <= u && u <= 0x2C80)
        || u == 0x2C82
        || u == 0x2C84
        || u == 0x2C86
        || u == 0x2C88
        || u == 0x2C8A
        || u == 0x2C8C
        || u == 0x2C8E
        || u == 0x2C90
        || u == 0x2C92
        || u == 0x2C94
        || u == 0x2C96
        || u == 0x2C98
        || u == 0x2C9A
        || u == 0x2C9C
        || u == 0x2C9E
        || u == 0x2CA0
        || u == 0x2CA2
        || u == 0x2CA4
        || u == 0x2CA6
        || u == 0x2CA8
        || u == 0x2CAA
        || u == 0x2CAC
        || u == 0x2CAE
        || u == 0x2CB0
        || u == 0x2CB2
        || u == 0x2CB4
        || u == 0x2CB6
        || u == 0x2CB8
        || u == 0x2CBA
        || u == 0x2CBC
        || u == 0x2CBE
        || u == 0x2CC0
        || u == 0x2CC2
        || u == 0x2CC4)
}
fn sb_upper_7(u: u32) -> (r: bool)
    ensures
        r == spec_sb_upper_7(u),
{
    (0x2102 <= u && u <= 0x2CC4) && (u == 0x2102
        || u == 0x2107
        || (0x210B <= u && u <= 0x210D)
        || (0x2110 <= u && u <= 0x2112)
        || u == 0x2115
        || (0x2119 <= u && u <= 0x211D)
        || u == 0x2124
        || u == 0x2126
        || u == 0x2128
        || (0x212A <= u && u <= 0x212D)
        || (0x2130 <= u && u <= 0x2133)
        || (0x213E <= u && u <= 0x213F)
        || u == 0x2145
        || (0x2160 <= u && u <= 0x216F)
        || u == 0x2183
        || (0x24B6 <= u && u <= 0x24CF)
        || (0x2C00 <= u && u <= 0x2C2F)
        || u == 0x2C60
        || (0x2C62 <= u && u <= 0x2C64)
        || u == 0x2C67
        || u == 0x2C69
        || u == 0x2C6B
        || (0x2C6D <= u && u <= 0x2C70)
        || u == 0x2C72
        || u == 0x2C75
        || (0x2C7E <= u && u <= 0x2C80)
        || u == 0x2C82
        || u == 0x2C84
        || u == 0x2C86
        || u == 0x2C88
        || u == 0x2C8A
        || u == 0x2C8C
        || u == 0x2C8E
        || u == 0x2C90
        || u == 0x2C92
        || u == 0x2C94
        || u == 0x2C96
        || u == 0x2C98
        || u == 0x2C9A
        || u == 0x2C9C
        || u == 0x2C9E
        || u == 0x2CA0
        || u == 0x2CA2
        || u == 0x2CA4
        || u == 0x2CA6
        || u == 0x2CA8
        || u == 0x2CAA
        || u == 0x2CAC
        || u == 0x2CAE
        || u == 0x2CB0
        || u == 0x2CB2
        || u == 0x2CB4
        || u == 0x2CB6
        || u == 0x2CB8
        || u == 0x2CBA
        || u == 0x2CBC
        || u == 0x2CBE
        || u == 0x2CC0
        || u == 0x2CC2
        || u == 0x2CC4)
}
pub open spec fn spec_sb_upper_8(u: u32) -> bool {
    (0x2CC6 <= u && u <= 0xA72A) && (u == 0x2CC6
        || u == 0x2CC8
        || u == 0x2CCA
        || u == 0x2CCC
        || u == 0x2CCE
        || u == 0x2CD0
        || u == 0x2CD2
        || u == 0x2CD4
        || u == 0x2CD6
        || u == 0x2CD8
        || u == 0x2CDA
        || u == 0x2CDC
        || u == 0x2CDE
        || u == 0x2CE0
        || u == 0x2CE2
        || u == 0x2CEB
        || u == 0x2CED
        || u == 0x2CF2
        || u == 0xA640
        || u == 0xA642
        || u == 0xA644
        || u == 0xA646
        || u == 0xA648
        || u == 0xA64A
        || u == 0xA64C
        || u == 0xA64E
        || u == 0xA650
        || u == 0xA652
        || u == 0xA654
        || u == 0xA656
        || u == 0xA658
        || u == 0xA65A
        || u == 0xA65C
        || u == 0xA65E
        || u == 0xA660
        || u == 0xA662
        || u == 0xA664
        || u == 0xA666
        || u == 0xA668
        || u == 0xA66A
        || u == 0xA66C
        || u == 0xA680
        || u == 0xA682
        || u == 0xA684
        || u == 0xA686
        || u == 0xA688
        || u == 0xA68A
        || u == 0xA68C
        || u == 0xA68E
        || u == 0xA690
        || u == 0xA692
        || u == 0xA694
        || u == 0xA696
        || u == 0xA698
        || u == 0xA69A
        || u == 0xA722
        || u == 0xA724
        || u == 0xA726
        || u == 0xA728
        || u == 0xA72A)
}
fn sb_upper_8(u: u32) -> (r: bool)
    ensures
        r == spec_sb_upper_8(u),
{
    (0x2CC6 <= u && u <= 0xA72A) && (u == 0x2CC6
        || u == 0x2CC8
        || u == 0x2CCA
        || u == 0x2CCC
        || u == 0x2CCE
        || u == 0x2CD0
        || u == 0x2CD2
        || u == 0x2CD4
        || u == 0x2CD6
        || u == 0x2CD8
        || u == 0x2CDA
        || u == 0x2CDC
        || u == 0x2CDE
        || u == 0x2CE0
        || u == 0x2CE2
        || u == 0x2CEB
        || u == 0x2CED
        || u == 0x2CF2
        || u == 0xA640
        || u == 0xA642
        || u == 0xA644
        || u == 0xA646
        || u == 0xA648
        || u == 0xA64A
        || u == 0xA64C
        || u == 0xA64E
        || u == 0xA650
        || u == 0xA652
        || u == 0xA654
        || u == 0xA656
        || u == 0xA658
        || u == 0xA65A
        || u == 0xA65C
        || u == 0xA65E
        || u == 0xA660
        || u == 0xA662
        || u == 0xA664
        || u == 0xA666
        || u == 0xA668
        || u == 0xA66A
        || u == 0xA66C
        || u == 0xA680
        || u == 0xA682
        || u == 0xA684
        || u == 0xA686
        || u == 0xA688
        || u == 0xA68A
        || u == 0xA68C
        || u == 0xA68E
        || u == 0xA690
        || u == 0xA692
        || u == 0xA694
        || u == 0xA696
        || u == 0xA698
        || u == 0xA69A
        || u == 0xA722
        || u == 0xA724
        || u == 0xA726
        || u == 0xA728
        || u == 0xA72A)
}
pub open spec fn spec_sb_upper_9(u: u32) -> bool {
    (0xA72C <= u && u <= 0xA7BC) && (u == 0xA72C
        || u == 0xA72E
        || u == 0xA732
        || u == 0xA734
        || u == 0xA736
        || u == 0xA738
        || u == 0xA73A
        || u == 0xA73C
        || u == 0xA73E
        || u == 0xA740
        || u == 0xA742
        || u == 0xA744
        || u == 0xA746
        || u == 0xA748
        || u == 0xA74A
        || u == 0xA74C
        || u == 0xA74E
        || u == 0xA750
        || u == 0xA752
        || u == 0xA754
        || u == 0xA756
        || u == 0xA758
        || u == 0xA75A
        || u == 0xA75C
        || u == 0xA75E
        || u == 0xA760
        || u == 0xA762
        || u == 0xA764
        || u == 0xA766
        || u == 0xA768
        || u == 0xA76A
        || u == 0xA76C
        || u == 0xA76E
        || u == 0xA779
        || u == 0xA77B
        || (0xA77D <= u && u <= 0xA77E)
        || u == 0xA780
        || u == 0xA782
        || u == 0xA784
        || u == 0xA786
        || u == 0xA78B
        || u == 0xA78D
        || u == 0xA790
        || u == 0xA792
        || u == 0xA796
        || u == 0xA798
        || u == 0xA79A
        || u == 0xA79C
        || u == 0xA79E
        || u == 0xA7A0
        || u == 0xA7A2
        || u == 0xA7A4
        || u == 0xA7A6
        || u == 0xA7A8
        || (0xA7AA <= u && u <= 0xA7AE)
        || (0xA7B0 <= u && u <= 0xA7B4)
        || u == 0xA7B6
        || u == 0xA7B8
        || u == 0xA7BA
        || u == 0xA7BC)
}
fn sb_upper_9(u: u32) -> (r: bool)
    ensures
        r == spec_sb_upper_9(u),
{
    (0xA72C <= u && u <= 0xA7BC) && (u == 0xA72C
        || u == 0xA72E
        || u == 0xA732
        || u == 0xA734
        || u == 0xA736
        || u == 0xA738
        || u == 0xA73A
        || u == 0xA73C
        || u == 0xA73E
        || u == 0xA740
        || u == 0xA742
        || u == 0xA744
        || u == 0xA746
        || u == 0xA748
        || u == 0xA74A
        || u == 0xA74C
        || u == 0xA74E
        || u == 0xA750
        || u == 0xA752
        || u == 0xA754
        || u == 0xA756
        || u == 0xA758
        || u == 0xA75A
        || u == 0xA75C
        || u == 0xA75E
        || u == 0xA760
        || u == 0xA762
        || u == 0xA764
        || u == 0xA766
        || u == 0xA768
        || u == 0xA76A
        || u == 0xA76C
        || u == 0xA76E
        || u == 0xA779
        || u == 0xA77B
        || (0xA77D <= u && u <= 0xA77E)
        || u == 0xA780
        || u == 0xA782
        || u == 0xA784
        || u == 0xA786
        || u == 0xA78B
        || u == 0xA78D
        || u == 0xA790
        || u == 0xA792
        || u == 0xA796
        || u == 0xA798
        || u == 0xA79A
        || u == 0xA79C
        || u == 0xA79E
        || u == 0xA7A0
        || u == 0xA7A2
        || u == 0xA7A4
        || u == 0xA7A6
        || u == 0xA7A8
        || (0xA7AA <= u && u <= 0xA7AE)
        || (0xA7B0 <= u && u <= 0xA7B4)
        || u == 0xA7B6
        || u == 0xA7B8
        || u == 0xA7BA
        || u == 0xA7BC)
}
pub open spec fn spec_sb_upper_10(u: u32) -> bool {
    (0xA7BE <= u && u <= 0x1E921) && (u == 0xA7BE
        || u == 0xA7C0
        || u == 0xA7C2
        || (0xA7C4 <= u && u <= 0xA7C7)
        || u == 0xA7C9
        || u == 0xA7D0
        || u == 0xA7D6
        || u == 0xA7D8
        || u == 0xA7F5
        || (0xFF21 <= u && u <= 0xFF3A)
        || (0x10400 <= u && u <= 0x10427)
        || (0x104B0 <= u && u <= 0x104D3)
        || (0x10570 <= u && u <= 0x1057A)
        || (0x1057C <= u && u <= 0x1058A)
        || (0x1058C <= u && u <= 0x10592)
        || (0x10594 <= u && u <= 0x10595)
        || (0x10C80 <= u && u <= 0x10CB2)
        || (0x118A0 <= u && u <= 0x118BF)
        || (0x16E40 <= u && u <= 0x16E5F)
        || (0x1D400 <= u && u <= 0x1D419)
        || (0x1D434 <= u && u <= 0x1D44D)
        || (0x1D468 <= u && u <= 0x1D481)
        || u == 0x1D49C
        || (0x1D49E <= u && u <= 0x1D49F)
        || u == 0x1D4A2
        || (0x1D4A5 <= u && u <= 0x1D4A6)
        || (0x1D4A9 <= u && u <= 0x1D4AC)
        || (0x1D4AE <= u && u <= 0x1D4B5)
        || (0x1D4D0 <= u && u <= 0x1D4E9)
        || (0x1D504 <= u && u <= 0x1D505)
        || (0x1D507 <= u && u <= 0x1D50A)
        || (0x1D50D <= u && u <= 0x1D514)
        || (0x1D516 <= u && u <= 0x1D51C)
        || (0x1D538 <= u && u <= 0x1D539)
        || (0x1D53B <= u && u <= 0x1D53E)
        || (0x1D540 <= u && u <= 0x1D544)
        || u == 0x1D546
        || (0x1D54A <= u && u <= 0x1D550)
        || (0x1D56C <= u && u <= 0x1D585)
        || (0x1D5A0 <= u && u <= 0x1D5B9)
        || (0x1D5D4 <= u && u <= 0x1D5ED)
        || (0x1D608 <= u && u <= 0x1D621)
        || (0x1D63C <= u && u <= 0x1D655)
        || (0x1D670 <= u && u <= 0x1D689)
        || (0x1D6A8 <= u && u <= 0x1D6C0)
        || (0x1D6E2 <= u && u <= 0x1D6FA)
        || (0x1D71C <= u && u <= 0x1D734)
        || (0x1D756 <= u && u <= 0x1D76E)
        || (0x1D790 <= u && u <= 0x1D7A8)
        || u == 0x1D7CA
        || (0x1E900 <= u && u <= 0x1E921))
}
fn sb_upper_10(u: u32) -> (r: bool)
    ensures
        r == spec_sb_upper_10(u),
{
    (0xA7BE <= u && u <= 0x1E921) && (u == 0xA7BE
        || u == 0xA7C0
        || u == 0xA7C2
        || (0xA7C4 <= u && u <= 0xA7C7)
        || u == 0xA7C9
        || u == 0xA7D0
        || u == 0xA7D6
        || u == 0xA7D8
        || u == 0xA7F5
        || (0xFF21 <= u && u <= 0xFF3A)
        || (0x10400 <= u && u <= 0x10427)
        || (0x104B0 <= u && u <= 0x104D3)
        || (0x10570 <= u && u <= 0x1057A)
        || (0x1057C <= u && u <= 0x1058A)
        || (0x1058C <= u && u <= 0x10592)
        || (0x10594 <= u && u <= 0x10595)
        || (0x10C80 <= u && u <= 0x10CB2)
        || (0x118A0 <= u && u <= 0x118BF)
        || (0x16E40 <= u && u <= 0x16E5F)
        || (0x1D400 <= u && u <= 0x1D419)
        || (0x1D434 <= u && u <= 0x1D44D)
        || (0x1D468 <= u && u <= 0x1D481)
        || u == 0x1D49C
        || (0x1D49E <= u && u <= 0x1D49F)
        || u == 0x1D4A2
        || (0x1D4A5 <= u && u <= 0x1D4A6)
        || (0x1D4A9 <= u && u <= 0x1D4AC)
        || (0x1D4AE <= u && u <= 0x1D4B5)
        || (0x1D4D0 <= u && u <= 0x1D4E9)
        || (0x1D504 <= u && u <= 0x1D505)
        || (0x1D507 <= u && u <= 0x1D50A)
        || (0x1D50D <= u && u <= 0x1D514)
        || (0x1D516 <= u && u <= 0x1D51C)
        || (0x1D538 <= u && u <= 0x1D539)
        || (0x1D53B <= u && u <= 0x1D53E)
        || (0x1D540 <= u && u <= 0x1D544)
        || u == 0x1D546
        || (0x1D54A <= u && u <= 0x1D550)
        || (0x1D56C <= u && u <= 0x1D585)
        || (0x1D5A0 <= u && u <= 0x1D5B9)
        || (0x1D5D4 <= u && u <= 0x1D5ED)
        || (0x1D608 <= u && u <= 0x1D621)
        || (0x1D63C <= u && u <= 0x1D655)
        || (0x1D670 <= u && u <= 0x1D689)
        || (0x1D6A8 <= u && u <= 0x1D6C0)
        || (0x1D6E2 <= u && u <= 0x1D6FA)
        || (0x1D71C <= u && u <= 0x1D734)
        || (0x1D756 <= u && u <= 0x1D76E)
        || (0x1D790 <= u && u <= 0x1D7A8)
        || u == 0x1D7CA
        || (0x1E900 <= u && u <= 0x1E921))
}
pub open spec fn spec_sb_upper(u: u32) -> bool {
    spec_sb_upper_0(u) || spec_sb_upper_1(u) || spec_sb_upper_2(u) || spec_sb_upper_3(u) || spec_sb_upper_4(u) || spec_sb_upper_5(u) || spec_sb_upper_6(u) || spec_sb_upper_7(u) || spec_sb_upper_8(u) || spec_sb_upper_9(u) || spec_sb_upper_10(u)
}
fn sb_upper(u: u32) -> (r: bool)
    ensures
        r == spec_sb_upper(u),
{
    sb_upper_0(u) || sb_upper_1(u) || sb_upper_2(u) || sb_upper_3(u) || sb_upper_4(u) || sb_upper_5(u) || sb_upper_6(u) || sb_upper_7(u) || sb_upper_8(u) || sb_upper_9(u) || sb_upper_10(u)
}
pub open spec fn spec_sb_oletter_0(u: u32) -> bool {
    (0x1BB <= u && u <= 0xA5C) && (u == 0x1BB
        || (0x1C0 <= u && u <= 0x1C3)
        || u == 0x294
        || (0x2B9 <= u && u <= 0x2BF)
        || (0x2C6 <= u && u <= 0x2D1)
        || u == 0x2EC
        || u == 0x2EE
        || u == 0x374
        || u == 0x559
        || (0x5D0 <= u && u <= 0x5EA)
        || (0x5EF <= u && u <= 0x5F3)
        || (0x620 <= u && u <= 0x64A)
        || (0x66E <= u && u <= 0x66F)
        || (0x671 <= u && u <= 0x6D3)
        || u == 0x6D5
        || (0x6E5 <= u && u <= 0x6E6)
        || (0x6EE <= u && u <= 0x6EF)
        || (0x6FA <= u && u <= 0x6FC)
        || u == 0x6FF
        || u == 0x710
        || (0x712 <= u && u <= 0x72F)
        || (0x74D <= u && u <= 0x7A5)
        || u == 0x7B1
        || (0x7CA <= u && u <= 0x7EA)
        || (0x7F4 <= u && u <= 0x7F5)
        || u == 0x7FA
        || (0x800 <= u && u <= 0x815)
        || u == 0x81A
        || u == 0x824
        || u == 0x828
        || (0x840 <= u && u <= 0x858)
        || (0x860 <= u && u <= 0x86A)
        || (0x870 <= u && u <= 0x887)
        || (0x889 <= u && u <= 0x88E)
        || (0x8A0 <= u && u <= 0x8C9)
        || (0x904 <= u && u <= 0x939)
        || u == 0x93D
        || u == 0x950
        || (0x958 <= u && u <= 0x961)
        || (0x971 <= u && u <= 0x980)
        || (0x985 <= u && u <= 0x98C)
        || (0x98F <= u && u <= 0x990)
        || (0x993 <= u && u <= 0x9A8)
        || (0x9AA <= u && u <= 0x9B0)
        || u == 0x9B2
        || (0x9B6 <= u && u <= 0x9B9)
        || u == 0x9BD
        || u == 0x9CE
        || (0x9DC <= u && u <= 0x9DD)
        || (0x9DF <= u && u <= 0x9E1)
        || (0x9F0 <= u && u <= 0x9F1)
        || u == 0x9FC
        || (0xA05 <= u && u <= 0xA0A)
        || (0xA0F <= u && u <= 0xA10)
        || (0xA13 <= u && u <= 0xA28)
        || (0xA2A <= u && u <= 0xA30)
        || (0xA32 <= u && u <= 0xA33)
        || (0xA35 <= u && u <= 0xA36)
        || (0xA38 <= u && u <= 0xA39)
        || (0xA59 <= u && u <= 0xA5C))
}
fn sb_oletter_0(u: u32) -> (r: bool)
    ensures
        r == spec_sb_oletter_0(u),
{
    (0x1BB <= u && u <= 0xA5C) && (u == 0x1BB
        || (0x1C0 <= u && u <= 0x1C3)
        || u == 0x294
        || (0x2B9 <= u && u <= 0x2BF)
        || (0x2C6 <= u && u <= 0x2D1)
        || u == 0x2EC
        || u == 0x2EE
        || u == 0x374
        || u == 0x559
        || (0x5D0 <= u && u <= 0x5EA)
        || (0x5EF <= u && u <= 0x5F3)
        || (0x620 <= u && u <= 0x64A)
        || (0x66E <= u && u <= 0x66F)
        || (0x671 <= u && u <= 0x6D3)
        || u == 0x6D5
        || (0x6E5 <= u && u <= 0x6E6)
        || (0x6EE <= u && u <= 0x6EF)
        || (0x6FA <= u && u <= 0x6FC)
        || u == 0x6FF
        || u == 0x710
        || (0x712 <= u && u <= 0x72F)
        || (0x74D <= u && u <= 0x7A5)
        || u == 0x7B1
        || (0x7CA <= u && u <= 0x7EA)
        || (0x7F4 <= u && u <= 0x7F5)
        || u == 0x7FA
        || (0x800 <= u && u <= 0x815)
        || u == 0x81A
        || u == 0x824
        || u == 0x828
        || (0x840 <= u && u <= 0x858)
        || (0x860 <= u && u <= 0x86A)
        || (0x870 <= u && u <= 0x887)
        || (0x889 <= u && u <= 0x88E)
        || (0x8A0 <= u && u <= 0x8C9)
        || (0x904 <= u && u <= 0x939)
        || u == 0x93D
        || u == 0x950
        || (0x958 <= u && u <= 0x961)
        || (0x971 <= u && u <= 0x980)
        || (0x985 <= u && u <= 0x98C)
        || (0x98F <= u && u <= 0x990)
        || (0x993 <= u && u <= 0x9A8)
        || (0x9AA <= u && u <= 0x9B0)
        || u == 0x9B2
        || (0x9B6 <= u && u <= 0x9B9)
        || u == 0x9BD
        || u == 0x9CE
        || (0x9DC <= u && u <= 0x9DD)
        || (0x9DF <= u && u <= 0x9E1)
        || (0x9F0 <= u && u <= 0x9F1)
        || u == 0x9FC
        || (0xA05 <= u && u <= 0xA0A)
        || (0xA0F <= u && u <= 0xA10)
        || (0xA13 <= u && u <= 0xA28)
        || (0xA2A <= u && u <= 0xA30)
        || (0xA32 <= u && u <= 0xA33)
        || (0xA35 <= u && u <= 0xA36)
        || (0xA38 <= u && u <= 0xA39)
        || (0xA59 <= u && u <= 0xA5C))
}
pub open spec fn spec_sb_oletter_1(u: u32) -> bool {
    (0xA5E <= u && u <= 0xD96) && (u == 0xA5E
        || (0xA72 <= u && u <= 0xA74)
        || (0xA85 <= u && u <= 0xA8D)
        || (0xA8F <= u && u <= 0xA91)
        || (0xA93 <= u && u <= 0xAA8)
        || (0xAAA <= u && u <= 0xAB0)
        || (0xAB2 <= u && u <= 0xAB3)
        || (0xAB5 <= u && u <= 0xAB9)
        || u == 0xABD
        || u == 0xAD0
        || (0xAE0 <= u && u <= 0xAE1)
        || u == 0xAF9
        || (0xB05 <= u && u <= 0xB0C)
        || (0xB0F <= u && u <= 0xB10)
        || (0xB13 <= u && u <= 0xB28)
        || (0xB2A <= u && u <= 0xB30)
        || (0xB32 <= u && u <= 0xB33)
        || (0xB35 <= u && u <= 0xB39)
        || u == 0xB3D
        || (0xB5C <= u && u <= 0xB5D)
        || (0xB5F <= u && u <= 0xB61)
        || u == 0xB71
        || u == 0xB83
        || (0xB85 <= u && u <= 0xB8A)
        || (0xB8E <= u && u <= 0xB90)
        || (0xB92 <= u && u <= 0xB95)
        || (0xB99 <= u && u <= 0xB9A)
        || u == 0xB9C
        || (0xB9E <= u && u <= 0xB9F)
        || (0xBA3 <= u && u <= 0xBA4)
        || (0xBA8 <= u && u <= 0xBAA)
        || (0xBAE <= u && u <= 0xBB9)
        || u == 0xBD0
        || (0xC05 <= u && u <= 0xC0C)
        || (0xC0E <= u && u <= 0xC10)
        || (0xC12 <= u && u <= 0xC28)
        || (0xC2A <= u && u <= 0xC39)
        || u == 0xC3D
        || (0xC58 <= u && u <= 0xC5A)
        || u == 0xC5D
        || (0xC60 <= u && u <= 0xC61)
        || u == 0xC80
        || (0xC85 <= u && u <= 0xC8C)
        || (0xC8E <= u && u <= 0xC90)
        || (0xC92 <= u && u <= 0xCA8)
        || (0xCAA <= u && u <= 0xCB3)
        || (0xCB5 <= u && u <= 0xCB9)
        || u == 0xCBD
        || (0xCDD <= u && u <= 0xCDE)
        || (0xCE0 <= u && u <= 0xCE1)
        || (0xCF1 <= u && u <= 0xCF2)
        || (0xD04 <= u && u <= 0xD0C)
        || (0xD0E <= u && u <= 0xD10)
        || (0xD12 <= u && u <= 0xD3A)
        || u == 0xD3D
        || u == 0xD4E
        || (0xD54 <= u && u <= 0xD56)
        || (0xD5F <= u && u <= 0xD61)
        || (0xD7A <= u && u <= 0xD7F)
        || (0xD85 <= u && u <= 0xD96))
}
fn sb_oletter_1(u: u32) -> (r: bool)
    ensures
        r == spec_sb_oletter_1(u),
{
    (0xA5E <= u && u <= 0xD96) && (u == 0xA5E
        || (0xA72 <= u && u <= 0xA74)
        || (0xA85 <= u && u <= 0xA8D)
        || (0xA8F <= u && u <= 0xA91)
        || (0xA93 <= u && u <= 0xAA8)
        || (0xAAA <= u && u <= 0xAB0)
        || (0xAB2 <= u && u <= 0xAB3)
        || (0xAB5 <= u && u <= 0xAB9)
        || u == 0xABD
        || u == 0xAD0
        || (0xAE0 <= u && u <= 0xAE1)
        || u == 0xAF9
        || (0xB05 <= u && u <= 0xB0C)
        || (0xB0F <= u && u <= 0xB10)
        || (0xB13 <= u && u <= 0xB28)
        || (0xB2A <= u && u <= 0xB30)
        || (0xB32 <= u && u <= 0xB33)
        || (0xB35 <= u && u <= 0xB39)
        || u == 0xB3D
        || (0xB5C <= u && u <= 0xB5D)
        || (0xB5F <= u && u <= 0xB61)
        || u == 0xB71
        || u == 0xB83
        || (0xB85 <= u && u <= 0xB8A)
        || (0xB8E <= u && u <= 0xB90)
        || (0xB92 <= u && u <= 0xB95)
        || (0xB99 <= u && u <= 0xB9A)
        || u == 0xB9C
        || (0xB9E <= u && u <= 0xB9F)
        || (0xBA3 <= u && u <= 0xBA4)
        || (0xBA8 <= u && u <= 0xBAA)
        || (0xBAE <= u && u <= 0xBB9)
        || u == 0xBD0
        || (0xC05 <= u && u <= 0xC0C)
        || (0xC0E <= u && u <= 0xC10)
        || (0xC12 <= u && u <= 0xC28)
        || (0xC2A <= u && u <= 0xC39)
        || u == 0xC3D
        || (0xC58 <= u && u <= 0xC5A)
        || u == 0xC5D
        || (0xC60 <= u && u <= 0xC61)
        || u == 0xC80
        || (0xC85 <= u && u <= 0xC8C)
        || (0xC8E <= u && u <= 0xC90)
        || (0xC92 <= u && u <= 0xCA8)
        || (0xCAA <= u && u <= 0xCB3)
        || (0xCB5 <= u && u <= 0xCB9)
        || u == 0xCBD
        || (0xCDD <= u && u <= 0xCDE)
        || (0xCE0 <= u && u <= 0xCE1)
        || (0xCF1 <= u && u <= 0xCF2)
        || (0xD04 <= u && u <= 0xD0C)
        || (0xD0E <= u && u <= 0xD10)
        || (0xD12 <= u && u <= 0xD3A)
        || u == 0xD3D
        || u == 0xD4E
        || (0xD54 <= u && u <= 0xD56)
        || (0xD5F <= u && u <= 0xD61)
        || (0xD7A <= u && u <= 0xD7F)
        || (0xD85 <= u && u <= 0xD96))
}
pub open spec fn spec_sb_oletter_2(u: u32) -> bool {
    (0xD9A <= u && u <= 0x17B3) && ((0xD9A <= u && u <= 0xDB1)
        || (0xDB3 <= u && u <= 0xDBB)
        || u == 0xDBD
        || (0xDC0 <= u && u <= 0xDC6)
        || (0xE01 <= u && u <= 0xE30)
        || (0xE32 <= u && u <= 0xE33)
        || (0xE40 <= u && u <= 0xE46)
        || (0xE81 <= u && u <= 0xE82)
        || u == 0xE84
        || (0xE86 <= u && u <= 0xE8A)
        || (0xE8C <= u && u <= 0xEA3)
        || u == 0xEA5
        || (0xEA7 <= u && u <= 0xEB0)
        || (0xEB2 <= u && u <= 0xEB3)
        || u == 0xEBD
        || (0xEC0 <= u && u <= 0xEC4)
        || u == 0xEC6
        || (0xEDC <= u && u <= 0xEDF)
        || u == 0xF00
        || (0xF40 <= u && u <= 0xF47)
        || (0xF49 <= u && u <= 0xF6C)
        || (0xF88 <= u && u <= 0xF8C)
        || (0x1000 <= u && u <= 0x102A)
        || u == 0x103F
        || (0x1050 <= u && u <= 0x1055)
        || (0x105A <= u && u <= 0x105D)
        || u == 0x1061
        || (0x1065 <= u && u <= 0x1066)
        || (0x106E <= u && u <= 0x1070)
        || (0x1075 <= u && u <= 0x1081)
        || u == 0x108E
        || u == 0x10FC
        || (0x1100 <= u && u <= 0x1248)
        || (0x124A <= u && u <= 0x124D)
        || (0x1250 <= u && u <= 0x1256)
        || u == 0x1258
        || (0x125A <= u && u <= 0x125D)
        || (0x1260 <= u && u <= 0x1288)
        || (0x128A <= u && u <= 0x128D)
        || (0x1290 <= u && u <= 0x12B0)
        || (0x12B2 <= u && u <= 0x12B5)
        || (0x12B8 <= u && u <= 0x12BE)
        || u == 0x12C0
        || (0x12C2 <= u && u <= 0x12C5)
        || (0x12C8 <= u && u <= 0x12D6)
        || (0x12D8 <= u && u <= 0x1310)
        || (0x1312 <= u && u <= 0x1315)
        || (0x1318 <= u && u <= 0x135A)
        || (0x1380 <= u && u <= 0x138F)
        || (0x1401 <= u && u <= 0x166C)
        || (0x166F <= u && u <= 0x167F)
        || (0x1681 <= u && u <= 0x169A)
        || (0x16A0 <= u && u <= 0x16EA)
        || (0x16EE <= u && u <= 0x16F8)
        || (0x1700 <= u && u <= 0x1711)
        || (0x171F <= u && u <= 0x1731)
        || (0x1740 <= u && u <= 0x1751)
        || (0x1760 <= u && u <= 0x176C)
        || (0x176E <= u && u <= 0x1770)
        || (0x1780 <= u && u <= 0x17B3))
}
fn sb_oletter_2(u: u32) -> (r: bool)
    ensures
        r == spec_sb_oletter_2(u),
{
    (0xD9A <= u && u <= 0x17B3) && ((0xD9A <= u && u <= 0xDB1)
        || (0xDB3 <= u && u <= 0xDBB)
        || u == 0xDBD
        || (0xDC0 <= u && u <= 0xDC6)
        || (0xE01 <= u && u <= 0xE30)
        || (0xE32 <= u && u <= 0xE33)
        || (0xE40 <= u && u <= 0xE46)
        || (0xE81 <= u && u <= 0xE82)
        || u == 0xE84
        || (0xE86 <= u && u <= 0xE8A)
        || (0xE8C <= u && u <= 0xEA3)
        || u == 0xEA5
        || (0xEA7 <= u && u <= 0xEB0)
        || (0xEB2 <= u && u <= 0xEB3)
        || u == 0xEBD
        || (0xEC0 <= u && u <= 0xEC4)
        || u == 0xEC6
        || (0xEDC <= u && u <= 0xEDF)
        || u == 0xF00
        || (0xF40 <= u && u <= 0xF47)
        || (0xF49 <= u && u <= 0xF6C)
        || (0xF88 <= u && u <= 0xF8C)
        || (0x1000 <= u && u <= 0x102A)
        || u == 0x103F
        || (0x1050 <= u && u <= 0x1055)
        || (0x105A <= u && u <= 0x105D)
        || u == 0x1061
        || (0x1065 <= u && u <= 0x1066)
        || (0x106E <= u && u <= 0x1070)
        || (0x1075 <= u && u <= 0x1081)
        || u == 0x108E
        || u == 0x10FC
        || (0x1100 <= u && u <= 0x1248)
        || (0x124A <= u && u <= 0x124D)
        || (0x1250 <= u && u <= 0x1256)
        || u == 0x1258
        || (0x125A <= u && u <= 0x125D)
        || (0x1260 <= u && u <= 0x1288)
        || (0x128A <= u && u <= 0x128D)
        || (0x1290 <= u && u <= 0x12B0)
        || (0x12B2 <= u && u <= 0x12B5)
        || (0x12B8 <= u && u <= 0x12BE)
        || u == 0x12C0
        || (0x12C2 <= u && u <= 0x12C5)
        || (0x12C8 <= u && u <= 0x12D6)
        || (0x12D8 <= u && u <= 0x1310)
        || (0x1312 <= u && u <= 0x1315)
        || (0x1318 <= u && u <= 0x135A)
        || (0x1380 <= u && u <= 0x138F)
        || (0x1401 <= u && u <= 0x166C)
        || (0x166F <= u && u <= 0x167F)
        || (0x1681 <= u && u <= 0x169A)
        || (0x16A0 <= u && u <= 0x16EA)
        || (0x16EE <= u && u <= 0x16F8)
        || (0x1700 <= u && u <= 0x1711)
        || (0x171F <= u && u <= 0x1731)
        || (0x1740 <= u && u <= 0x1751)
        || (0x1760 <= u && u <= 0x176C)
        || (0x176E <= u && u <= 0x1770)
        || (0x1780 <= u && u <= 0x17B3))
}
pub open spec fn spec_sb_oletter_3(u: u32) -> bool {
    (0x17D7 <= u && u <= 0xA60C) && (u == 0x17D7
        || u == 0x17DC
        || (0x1820 <= u && u <= 0x1878)
        || (0x1880 <= u && u <= 0x1884)
        || (0x1887 <= u && u <= 0x18A8)
        || u == 0x18AA
        || (0x18B0 <= u && u <= 0x18F5)
        || (0x1900 <= u && u <= 0x191E)
        || (0x1950 <= u && u <= 0x196D)
        || (0x1970 <= u && u <= 0x1974)
        || (0x1980 <= u && u <= 0x19AB)
        || (0x19B0 <= u && u <= 0x19C9)
        || (0x1A00 <= u && u <= 0x1A16)
        || (0x1A20 <= u && u <= 0x1A54)
        || u == 0x1AA7
        || (0x1B05 <= u && u <= 0x1B33)
        || (0x1B45 <= u && u <= 0x1B4C)
        || (0x1B83 <= u && u <= 0x1BA0)
        || (0x1BAE <= u && u <= 0x1BAF)
        || (0x1BBA <= u && u <= 0x1BE5)
        || (0x1C00 <= u && u <= 0x1C23)
        || (0x1C4D <= u && u <= 0x1C4F)
        || (0x1C5A <= u && u <= 0x1C7D)
        || (0x1CE9 <= u && u <= 0x1CEC)
        || (0x1CEE <= u && u <= 0x1CF3)
        || (0x1CF5 <= u && u <= 0x1CF6)
        || u == 0x1CFA
        || u == 0x1D78
        || (0x1D9B <= u && u <= 0x1DBF)
        || (0x2135 <= u && u <= 0x2138)
        || (0x2180 <= u && u <= 0x2182)
        || (0x2185 <= u && u <= 0x2188)
        || (0x2D30 <= u && u <= 0x2D67)
        || u == 0x2D6F
        || (0x2D80 <= u && u <= 0x2D96)
        || (0x2DA0 <= u && u <= 0x2DA6)
        || (0x2DA8 <= u && u <= 0x2DAE)
        || (0x2DB0 <= u && u <= 0x2DB6)
        || (0x2DB8 <= u && u <= 0x2DBE)
        || (0x2DC0 <= u && u <= 0x2DC6)
        || (0x2DC8 <= u && u <= 0x2DCE)
        || (0x2DD0 <= u && u <= 0x2DD6)
        || (0x2DD8 <= u && u <= 0x2DDE)
        || u == 0x2E2F
        || (0x3005 <= u && u <= 0x3007)
        || (0x3021 <= u && u <= 0x3029)
        || (0x3031 <= u && u <= 0x3035)
        || (0x3038 <= u && u <= 0x303C)
        || (0x3041 <= u && u <= 0x3096)
        || (0x309D <= u && u <= 0x309F)
        || (0x30A1 <= u && u <= 0x30FA)
        || (0x30FC <= u && u <= 0x30FF)
        || (0x3105 <= u && u <= 0x312F)
        || (0x3131 <= u && u <= 0x318E)
        || (0x31A0 <= u && u <= 0x31BF)
        || (0x31F0 <= u && u <= 0x31FF)
        || (0x3400 <= u && u <= 0x4DBF)
        || (0x4E00 <= u && u <= 0xA48C)
        || (0xA4D0 <= u && u <= 0xA4FD)
        || (0xA500 <= u && u <= 0xA60C))
}
fn sb_oletter_3(u: u32) -> (r: bool)
    ensures
        r == spec_sb_oletter_3(u),
{
    (0x17D7 <= u && u <= 0xA60C) && (u == 0x17D7
        || u == 0x17DC
        || (0x1820 <= u && u <= 0x1878)
        || (0x1880 <= u && u <= 0x1884)
        || (0x1887 <= u && u <= 0x18A8)
        || u == 0x18AA
        || (0x18B0 <= u && u <= 0x18F5)
        || (0x1900 <= u && u <= 0x191E)
        || (0x1950 <= u && u <= 0x196D)
        || (0x1970 <= u && u <= 0x1974)
        || (0x1980 <= u && u <= 0x19AB)
        || (0x19B0 <= u && u <= 0x19C9)
        || (0x1A00 <= u && u <= 0x1A16)
        || (0x1A20 <= u && u <= 0x1A54)
        || u == 0x1AA7
        || (0x1B05 <= u && u <= 0x1B33)
        || (0x1B45 <= u && u <= 0x1B4C)
        || (0x1B83 <= u && u <= 0x1BA0)
        || (0x1BAE <= u && u <= 0x1BAF)
        || (0x1BBA <= u && u <= 0x1BE5)
        || (0x1C00 <= u && u <= 0x1C23)
        || (0x1C4D <= u && u <= 0x1C4F)
        || (0x1C5A <= u && u <= 0x1C7D)
        || (0x1CE9 <= u && u <= 0x1CEC)
        || (0x1CEE <= u && u <= 0x1CF3)
        || (0x1CF5 <= u && u <= 0x1CF6)
        || u == 0x1CFA
        || u == 0x1D78
        || (0x1D9B <= u && u <= 0x1DBF)
        || (0x2135 <= u && u <= 0x2138)
        || (0x2180 <= u && u <= 0x2182)
        || (0x2185 <= u && u <= 0x2188)
        || (0x2D30 <= u && u <= 0x2D67)
        || u == 0x2D6F
        || (0x2D80 <= u && u <= 0x2D96)
        || (0x2DA0 <= u && u <= 0x2DA6)
        || (0x2DA8 <= u && u <= 0x2DAE)
        || (0x2DB0 <= u && u <= 0x2DB6)
        || (0x2DB8 <= u && u <= 0x2DBE)
        || (0x2DC0 <= u && u <= 0x2DC6)
        || (0x2DC8 <= u && u <= 0x2DCE)
        || (0x2DD0 <= u && u <= 0x2DD6)
        || (0x2DD8 <= u && u <= 0x2DDE)
        || u == 0x2E2F
        || (0x3005 <= u && u <= 0x3007)
        || (0x3021 <= u && u <= 0x3029)
        || (0x3031 <= u && u <= 0x3035)
        || (0x3038 <= u && u <= 0x303C)
        || (0x3041 <= u && u <= 0x3096)
        || (0x309D <= u && u <= 0x309F)
        || (0x30A1 <= u && u <= 0x30FA)
        || (0x30FC <= u && u <= 0x30FF)
        || (0x3105 <= u && u <= 0x312F)
        || (0x3131 <= u && u <= 0x318E)
        || (0x31A0 <= u && u <= 0x31BF)
        || (0x31F0 <= u && u <= 0x31FF)
        || (0x3400 <= u && u <= 0x4DBF)
        || (0x4E00 <= u && u <= 0xA48C)
        || (0xA4D0 <= u && u <= 0xA4FD)
        || (0xA500 <= u && u <= 0xA60C))
}
pub open spec fn spec_sb_oletter_4(u: u32) -> bool {
    (0xA610 <= u && u <= 0xFB44) && ((0xA610 <= u && u <= 0xA61F)
        || (0xA62A <= u && u <= 0xA62B)
        || u == 0xA66E
        || u == 0xA67F
        || (0xA6A0 <= u && u <= 0xA6EF)
        || (0xA717 <= u && u <= 0xA71F)
        || u == 0xA788
        || u == 0xA78F
        || (0xA7F2 <= u && u <= 0xA7F4)
        || u == 0xA7F7
        || (0xA7FB <= u && u <= 0xA801)
        || (0xA803 <= u && u <= 0xA805)
        || (0xA807 <= u && u <= 0xA80A)
        || (0xA80C <= u && u <= 0xA822)
        || (0xA840 <= u && u <= 0xA873)
        || (0xA882 <= u && u <= 0xA8B3)
        || (0xA8F2 <= u && u <= 0xA8F7)
        || u == 0xA8FB
        || (0xA8FD <= u && u <= 0xA8FE)
        || (0xA90A <= u && u <= 0xA925)
        || (0xA930 <= u && u <= 0xA946)
        || (0xA960 <= u && u <= 0xA97C)
        || (0xA984 <= u && u <= 0xA9B2)
        || u == 0xA9CF
        || (0xA9E0 <= u && u <= 0xA9E4)
        || (0xA9E6 <= u && u <= 0xA9EF)
        || (0xA9FA <= u && u <= 0xA9FE)
        || (0xAA00 <= u && u <= 0xAA28)
        || (0xAA40 <= u && u <= 0xAA42)
        || (0xAA44 <= u && u <= 0xAA4B)
        || (0xAA60 <= u && u <= 0xAA76)
        || u == 0xAA7A
        || (0xAA7E <= u && u <= 0xAAAF)
        || u == 0xAAB1
        || (0xAAB5 <= u && u <= 0xAAB6)
        || (0xAAB9 <= u && u <= 0xAABD)
        || u == 0xAAC0
        || u == 0xAAC2
        || (0xAADB <= u && u <= 0xAADD)
        || (0xAAE0 <= u && u <= 0xAAEA)
        || (0xAAF2 <= u && u <= 0xAAF4)
        || (0xAB01 <= u && u <= 0xAB06)
        || (0xAB09 <= u && u <= 0xAB0E)
        || (0xAB11 <= u && u <= 0xAB16)
        || (0xAB20 <= u && u <= 0xAB26)
        || (0xAB28 <= u && u <= 0xAB2E)
        || u == 0xAB69
        || (0xABC0 <= u && u <= 0xABE2)
        || (0xAC00 <= u && u <= 0xD7A3)
        || (0xD7B0 <= u && u <= 0xD7C6)
        || (0xD7CB <= u && u <= 0xD7FB)
        || (0xF900 <= u && u <= 0xFA6D)
        || (0xFA70 <= u && u <= 0xFAD9)
        || u == 0xFB1D
        || (0xFB1F <= u && u <= 0xFB28)
        || (0xFB2A <= u && u <= 0xFB36)
        || (0xFB38 <= u && u <= 0xFB3C)
        || u == 0xFB3E
        || (0xFB40 <= u && u <= 0xFB41)
        || (0xFB43 <= u && u <= 0xFB44))
}
fn sb_oletter_4(u: u32) -> (r: bool)
    ensures
        r == spec_sb_oletter_4(u),
{
    (0xA610 <= u && u <= 0xFB44) && ((0xA610 <= u && u <= 0xA61F)
        || (0xA62A <= u && u <= 0xA62B)
        || u == 0xA66E
        || u == 0xA67F
        || (0xA6A0 <= u && u <= 0xA6EF)
        || (0xA717 <= u && u <= 0xA71F)
        || u == 0xA788
        || u == 0xA78F
        || (0xA7F2 <= u && u <= 0xA7F4)
        || u == 0xA7F7
        || (0xA7FB <= u && u <= 0xA801)
        || (0xA803 <= u && u <= 0xA805)
        || (0xA807 <= u && u <= 0xA80A)
        || (0xA80C <= u && u <= 0xA822)
        || (0xA840 <= u && u <= 0xA873)
        || (0xA882 <= u && u <= 0xA8B3)
        || (0xA8F2 <= u && u <= 0xA8F7)
        || u == 0xA8FB
        || (0xA8FD <= u && u <= 0xA8FE)
        || (0xA90A <= u && u <= 0xA925)
        || (0xA930 <= u && u <= 0xA946)
        || (0xA960 <= u && u <= 0xA97C)
        || (0xA984 <= u && u <= 0xA9B2)
        || u == 0xA9CF
        || (0xA9E0 <= u && u <= 0xA9E4)
        || (0xA9E6 <= u && u <= 0xA9EF)
        || (0xA9FA <= u && u <= 0xA9FE)
        || (0xAA00 <= u && u <= 0xAA28)
        || (0xAA40 <= u && u <= 0xAA42)
        || (0xAA44 <= u && u <= 0xAA4B)
        || (0xAA60 <= u && u <= 0xAA76)
        || u == 0xAA7A
        || (0xAA7E <= u && u <= 0xAAAF)
        || u == 0xAAB1
        || (0xAAB5 <= u && u <= 0xAAB6)
        || (0xAAB9 <= u && u <= 0xAABD)
        || u == 0xAAC0
        || u == 0xAAC2
        || (0xAADB <= u && u <= 0xAADD)
        || (0xAAE0 <= u && u <= 0xAAEA)
        || (0xAAF2 <= u && u <= 0xAAF4)
        || (0xAB01 <= u && u <= 0xAB06)
        || (0xAB09 <= u && u <= 0xAB0E)
        || (0xAB11 <= u && u <= 0xAB16)
        || (0xAB20 <= u && u <= 0xAB26)
        || (0xAB28 <= u && u <= 0xAB2E)
        || u == 0xAB69
        || (0xABC0 <= u && u <= 0xABE2)
        || (0xAC00 <= u && u <= 0xD7A3)
        || (0xD7B0 <= u && u <= 0xD7C6)
        || (0xD7CB <= u && u <= 0xD7FB)
        || (0xF900 <= u && u <= 0xFA6D)
        || (0xFA70 <= u && u <= 0xFAD9)
        || u == 0xFB1D
        || (0xFB1F <= u && u <= 0xFB28)
        || (0xFB2A <= u && u <= 0xFB36)
        || (0xFB38 <= u && u <= 0xFB3C)
        || u == 0xFB3E
        || (0xFB40 <= u && u <= 0xFB41)
        || (0xFB43 <= u && u <= 0xFB44))
}
pub open spec fn spec_sb_oletter_5(u: u32) -> bool {
    (0xFB46 <= u && u <= 0x10AC7) && ((0xFB46 <= u && u <= 0xFBB1)
        || (0xFBD3 <= u && u <= 0xFD3D)
        || (0xFD50 <= u && u <= 0xFD8F)
        || (0xFD92 <= u && u <= 0xFDC7)
        || (0xFDF0 <= u && u <= 0xFDFB)
        || (0xFE70 <= u && u <= 0xFE74)
        || (0xFE76 <= u && u <= 0xFEFC)
        || (0xFF66 <= u && u <= 0xFF9D)
        || (0xFFA0 <= u && u <= 0xFFBE)
        || (0xFFC2 <= u && u <= 0xFFC7)
        || (0xFFCA <= u && u <= 0xFFCF)
        || (0xFFD2 <= u && u <= 0xFFD7)
        || (0xFFDA <= u && u <= 0xFFDC)
        || (0x10000 <= u && u <= 0x1000B)
        || (0x1000D <= u && u <= 0x10026)
        || (0x10028 <= u && u <= 0x1003A)
        || (0x1003C <= u && u <= 0x1003D)
        || (0x1003F <= u && u <= 0x1004D)
        || (0x10050 <= u && u <= 0x1005D)
        || (0x10080 <= u && u <= 0x100FA)
        || (0x10140 <= u && u <= 0x10174)
        || (0x10280 <= u && u <= 0x1029C)
        || (0x102A0 <= u && u <= 0x102D0)
        || (0x10300 <= u && u <= 0x1031F)
        || (0x1032D <= u && u <= 0x1034A)
        || (0x10350 <= u && u <= 0x10375)
        || (0x10380 <= u && u <= 0x1039D)
        || (0x103A0 <= u && u <= 0x103C3)
        || (0x103C8 <= u && u <= 0x103CF)
        || (0x103D1 <= u && u <= 0x103D5)
        || (0x10450 <= u && u <= 0x1049D)
        || (0x10500 <= u && u <= 0x10527)
        || (0x10530 <= u && u <= 0x10563)
        || (0x10600 <= u && u <= 0x10736)
        || (0x10740 <= u && u <= 0x10755)
        || (0x10760 <= u && u <= 0x10767)
        || (0x10780 <= u && u <= 0x10785)
        || (0x10787 <= u && u <= 0x107B0)
        || (0x107B2 <= u && u <= 0x107BA)
        || (0x10800 <= u && u <= 0x10805)
        || u == 0x10808
        || (0x1080A <= u && u <= 0x10835)
        || (0x10837 <= u && u <= 0x10838)
        || u == 0x1083C
        || (0x1083F <= u && u <= 0x10855)
        || (0x10860 <= u && u <= 0x10876)
        || (0x10880 <= u && u <= 0x1089E)
        || (0x108E0 <= u && u <= 0x108F2)
        || (0x108F4 <= u && u <= 0x108F5)
        || (0x10900 <= u && u <= 0x10915)
        || (0x10920 <= u && u <= 0x10939)
        || (0x10980 <= u && u <= 0x109B7)
        || (0x109BE <= u && u <= 0x109BF)
        || u == 0x10A00
        || (0x10A10 <= u && u <= 0x10A13)
        || (0x10A15 <= u && u <= 0x10A17)
        || (0x10A19 <= u && u <= 0x10A35)
        || (0x10A60 <= u && u <= 0x10A7C)
        || (0x10A80 <= u && u <= 0x10A9C)
        || (0x10AC0 <= u && u <= 0x10AC7))
}
fn sb_oletter_5(u: u32) -> (r: bool)
    ensures
        r == spec_sb_oletter_5(u),
{
    (0xFB46 <= u && u <= 0x10AC7) && ((0xFB46 <= u && u <= 0xFBB1)
        || (0xFBD3 <= u && u <= 0xFD3D)
        || (0xFD50 <= u && u <= 0xFD8F)
        || (0xFD92 <= u && u <= 0xFDC7)
        || (0xFDF0 <= u && u <= 0xFDFB)
        || (0xFE70 <= u && u <= 0xFE74)
        || (0xFE76 <= u && u <= 0xFEFC)
        || (0xFF66 <= u && u <= 0xFF9D)
        || (0xFFA0 <= u && u <= 0xFFBE)
        || (0xFFC2 <= u && u <= 0xFFC7)
        || (0xFFCA <= u && u <= 0xFFCF)
        || (0xFFD2 <= u && u <= 0xFFD7)
        || (0xFFDA <= u && u <= 0xFFDC)
        || (0x10000 <= u && u <= 0x1000B)
        || (0x1000D <= u && u <= 0x10026)
        || (0x10028 <= u && u <= 0x1003A)
        || (0x1003C <= u && u <= 0x1003D)
        || (0x1003F <= u && u <= 0x1004D)
        || (0x10050 <= u && u <= 0x1005D)
        || (0x10080 <= u && u <= 0x100FA)
        || (0x10140 <= u && u <= 0x10174)
        || (0x10280 <= u && u <= 0x1029C)
        || (0x102A0 <= u && u <= 0x102D0)
        || (0x10300 <= u && u <= 0x1031F)
        || (0x1032D <= u && u <= 0x1034A)
        || (0x10350 <= u && u <= 0x10375)
        || (0x10380 <= u && u <= 0x1039D)
        || (0x103A0 <= u && u <= 0x103C3)
        || (0x103C8 <= u && u <= 0x103CF)
        || (0x103D1 <= u && u <= 0x103D5)
        || (0x10450 <= u && u <= 0x1049D)
        || (0x10500 <= u && u <= 0x10527)
        || (0x10530 <= u && u <= 0x10563)
        || (0x10600 <= u && u <= 0x10736)
        || (0x10740 <= u && u <= 0x10755)
        || (0x10760 <= u && u <= 0x10767)
        || (0x10780 <= u && u <= 0x10785)
        || (0x10787 <= u && u <= 0x107B0)
        || (0x107B2 <= u && u <= 0x107BA)
        || (0x10800 <= u && u <= 0x10805)
        || u == 0x10808
        || (0x1080A <= u && u <= 0x10835)
        || (0x10837 <= u && u <= 0x10838)
        || u == 0x1083C
        || (0x1083F <= u && u <= 0x10855)
        || (0x10860 <= u && u <= 0x10876)
        || (0x10880 <= u && u <= 0x1089E)
        || (0x108E0 <= u && u <= 0x108F2)
        || (0x108F4 <= u && u <= 0x108F5)
        || (0x10900 <= u && u <= 0x10915)
        || (0x10920 <= u && u <= 0x10939)
        || (0x10980 <= u && u <= 0x109B7)
        || (0x109BE <= u && u <= 0x109BF)
        || u == 0x10A00
        || (0x10A10 <= u && u <= 0x10A13)
        || (0x10A15 <= u && u <= 0x10A17)
        || (0x10A19 <= u && u <= 0x10A35)
        || (0x10A60 <= u && u <= 0x10A7C)
        || (0x10A80 <= u && u <= 0x10A9C)
        || (0x10AC0 <= u && u <= 0x10AC7))
}
pub open spec fn spec_sb_oletter_6(u: u32) -> bool {
    (0x10AC9 <= u && u <= 0x11746) && ((0x10AC9 <= u && u <= 0x10AE4)
        || (0x10B00 <= u && u <= 0x10B35)
        || (0x10B40 <= u && u <= 0x10B55)
        || (0x10B60 <= u && u <= 0x10B72)
        || (0x10B80 <= u && u <= 0x10B91)
        || (0x10C00 <= u && u <= 0x10C48)
        || (0x10D00 <= u && u <= 0x10D23)
        || (0x10E80 <= u && u <= 0x10EA9)
        || (0x10EB0 <= u && u <= 0x10EB1)
        || (0x10F00 <= u && u <= 0x10F1C)
        || u == 0x10F27
        || (0x10F30 <= u && u <= 0x10F45)
        || (0x10F70 <= u && u <= 0x10F81)
        || (0x10FB0 <= u && u <= 0x10FC4)
        || (0x10FE0 <= u && u <= 0x10FF6)
        || (0x11003 <= u && u <= 0x11037)
        || (0x11071 <= u && u <= 0x11072)
        || u == 0x11075
        || (0x11083 <= u && u <= 0x110AF)
        || (0x110D0 <= u && u <= 0x110E8)
        || (0x11103 <= u && u <= 0x11126)
        || u == 0x11144
        || u == 0x11147
        || (0x11150 <= u && u <= 0x11172)
        || u == 0x11176
        || (0x11183 <= u && u <= 0x111B2)
        || (0x111C1 <= u && u <= 0x111C4)
        || u == 0x111DA
        || u == 0x111DC
        || (0x11200 <= u && u <= 0x11211)
        || (0x11213 <= u && u <= 0x1122B)
        || (0x11280 <= u && u <= 0x11286)
        || u == 0x11288
        || (0x1128A <= u && u <= 0x1128D)
        || (0x1128F <= u && u <= 0x1129D)
        || (0x1129F <= u && u <= 0x112A8)
        || (0x112B0 <= u && u <= 0x112DE)
        || (0x11305 <= u && u <= 0x1130C)
        || (0x1130F <= u && u <= 0x11310)
        || (0x11313 <= u && u <= 0x11328)
        || (0x1132A <= u && u <= 0x11330)
        || (0x11332 <= u && u <= 0x11333)
        || (0x11335 <= u && u <= 0x11339)
        || u == 0x1133D
        || u == 0x11350
        || (0x1135D <= u && u <= 0x11361)
        || (0x11400 <= u && u <= 0x11434)
        || (0x11447 <= u && u <= 0x1144A)
        || (0x1145F <= u && u <= 0x11461)
        || (0x11480 <= u && u <= 0x114AF)
        || (0x114C4 <= u && u <= 0x114C5)
        || u == 0x114C7
        || (0x11580 <= u && u <= 0x115AE)
        || (0x115D8 <= u && u <= 0x115DB)
        || (0x11600 <= u && u <= 0x1162F)
        || u == 0x11644
        || (0x11680 <= u && u <= 0x116AA)
        || u == 0x116B8
        || (0x11700 <= u && u <= 0x1171A)
        || (0x11740 <= u && u <= 0x11746))
}
fn sb_oletter_6(u: u32) -> (r: bool)
    ensures
        r == spec_sb_oletter_6(u),
{
    (0x10AC9 <= u && u <= 0x11746) && ((0x10AC9 <= u && u <= 0x10AE4)
        || (0x10B00 <= u && u <= 0x10B35)
        || (0x10B40 <= u && u <= 0x10B55)
        || (0x10B60 <= u && u <= 0x10B72)
        || (0x10B80 <= u && u <= 0x10B91)
        || (0x10C00 <= u && u <= 0x10C48)
        || (0x10D00 <= u && u <= 0x10D23)
        || (0x10E80 <= u && u <= 0x10EA9)
        || (0x10EB0 <= u && u <= 0x10EB1)
        || (0x10F00 <= u && u <= 0x10F1C)
        || u == 0x10F27
        || (0x10F30 <= u && u <= 0x10F45)
        || (0x10F70 <= u && u <= 0x10F81)
        || (0x10FB0 <= u && u <= 0x10FC4)
        || (0x10FE0 <= u && u <= 0x10FF6)
        || (0x11003 <= u && u <= 0x11037)
        || (0x11071 <= u && u <= 0x11072)
        || u == 0x11075
        || (0x11083 <= u && u <= 0x110AF)
        || (0x110D0 <= u && u <= 0x110E8)
        || (0x11103 <= u && u <= 0x11126)
        || u == 0x11144
        || u == 0x11147
        || (0x11150 <= u && u <= 0x11172)
        || u == 0x11176
        || (0x11183 <= u && u <= 0x111B2)
        || (0x111C1 <= u && u <= 0x111C4)
        || u == 0x111DA
        || u == 0x111DC
        || (0x11200 <= u && u <= 0x11211)
        || (0x11213 <= u && u <= 0x1122B)
        || (0x11280 <= u && u <= 0x11286)
        || u == 0x11288
        || (0x1128A <= u && u <= 0x1128D)
        || (0x1128F <= u && u <= 0x1129D)
        || (0x1129F <= u && u <= 0x112A8)
        || (0x112B0 <= u && u <= 0x112DE)
        || (0x11305 <= u && u <= 0x1130C)
        || (0x1130F <= u && u <= 0x11310)
        || (0x11313 <= u && u <= 0x11328)
        || (0x1132A <= u && u <= 0x11330)
        || (0x11332 <= u && u <= 0x11333)
        || (0x11335 <= u && u <= 0x11339)
        || u == 0x1133D
        || u == 0x11350
        || (0x1135D <= u && u <= 0x11361)
        || (0x11400 <= u && u <= 0x11434)
        || (0x11447 <= u && u <= 0x1144A)
        || (0x1145F <= u && u <= 0x11461)
        || (0x11480 <= u && u <= 0x114AF)
        || (0x114C4 <= u && u <= 0x114C5)
        || u == 0x114C7
        || (0x11580 <= u && u <= 0x115AE)
        || (0x115D8 <= u && u <= 0x115DB)
        || (0x11600 <= u && u <= 0x1162F)
        || u == 0x11644
        || (0x11680 <= u && u <= 0x116AA)
        || u == 0x116B8
        || (0x11700 <= u && u <= 0x1171A)
        || (0x11740 <= u && u <= 0x11746))
}
pub open spec fn spec_sb_oletter_7(u: u32) -> bool {
    (0x11800 <= u && u <= 0x1B152) && ((0x11800 <= u && u <= 0x1182B)
        || (0x118FF <= u && u <= 0x11906)
        || u == 0x11909
        || (0x1190C <= u && u <= 0x11913)
        || (0x11915 <= u && u <= 0x11916)
        || (0x11918 <= u && u <= 0x1192F)
        || u == 0x1193F
        || u == 0x11941
        || (0x119A0 <= u && u <= 0x119A7)
        || (0x119AA <= u && u <= 0x119D0)
        || u == 0x119E1
        || u == 0x119E3
        || u == 0x11A00
        || (0x11A0B <= u && u <= 0x11A32)
        || u == 0x11A3A
        || u == 0x11A50
        || (0x11A5C <= u && u <= 0x11A89)
        || u == 0x11A9D
        || (0x11AB0 <= u && u <= 0x11AF8)
        || (0x11C00 <= u && u <= 0x11C08)
        || (0x11C0A <= u && u <= 0x11C2E)
        || u == 0x11C40
        || (0x11C72 <= u && u <= 0x11C8F)
        || (0x11D00 <= u && u <= 0x11D06)
        || (0x11D08 <= u && u <= 0x11D09)
        || (0x11D0B <= u && u <= 0x11D30)
        || u == 0x11D46
        || (0x11D60 <= u && u <= 0x11D65)
        || (0x11D67 <= u && u <= 0x11D68)
        || (0x11D6A <= u && u <= 0x11D89)
        || u == 0x11D98
        || (0x11EE0 <= u && u <= 0x11EF2)
        || u == 0x11FB0
        || (0x12000 <= u && u <= 0x12399)
        || (0x12400 <= u && u <= 0x1246E)
        || (0x12480 <= u && u <= 0x12543)
        || (0x12F90 <= u && u <= 0x12FF0)
        || (0x13000 <= u && u <= 0x1342E)
        || (0x14400 <= u && u <= 0x14646)
        || (0x16800 <= u && u <= 0x16A38)
        || (0x16A40 <= u && u <= 0x16A5E)
        || (0x16A70 <= u && u <= 0x16ABE)
        || (0x16AD0 <= u && u <= 0x16AED)
        || (0x16B00 <= u && u <= 0x16B2F)
        || (0x16B40 <= u && u <= 0x16B43)
        || (0x16B63 <= u && u <= 0x16B77)
        || (0x16B7D <= u && u <= 0x16B8F)
        || (0x16F00 <= u && u <= 0x16F4A)
        || u == 0x16F50
        || (0x16F93 <= u && u <= 0x16F9F)
        || (0x16FE0 <= u && u <= 0x16FE1)
        || u == 0x16FE3
        || (0x17000 <= u && u <= 0x187F7)
        || (0x18800 <= u && u <= 0x18CD5)
        || (0x18D00 <= u && u <= 0x18D08)
        || (0x1AFF0 <= u && u <= 0x1AFF3)
        || (0x1AFF5 <= u && u <= 0x1AFFB)
        || (0x1AFFD <= u && u <= 0x1AFFE)
        || (0x1B000 <= u && u <= 0x1B122)
        || (0x1B150 <= u && u <= 0x1B152))
}
fn sb_oletter_7(u: u32) -> (r: bool)
    ensures
        r == spec_sb_oletter_7(u),
{
    (0x11800 <= u && u <= 0x1B152) && ((0x11800 <= u && u <= 0x1182B)
        || (0x118FF <= u && u <= 0x11906)
        || u == 0x11909
        || (0x1190C <= u && u <= 0x11913)
        || (0x11915 <= u && u <= 0x11916)
        || (0x11918 <= u && u <= 0x1192F)
        || u == 0x1193F
        || u == 0x11941
        || (0x119A0 <= u && u <= 0x119A7)
        || (0x119AA <= u && u <= 0x119D0)
        || u == 0x119E1
        || u == 0x119E3
        || u == 0x11A00
        || (0x11A0B <= u && u <= 0x11A32)
        || u == 0x11A3A
        || u == 0x11A50
        || (0x11A5C <= u && u <= 0x11A89)
        || u == 0x11A9D
        || (0x11AB0 <= u && u <= 0x11AF8)
        || (0x11C00 <= u && u <= 0x11C08)
        || (0x11C0A <= u && u <= 0x11C2E)
        || u == 0x11C40
        || (0x11C72 <= u && u <= 0x11C8F)
        || (0x11D00 <= u && u <= 0x11D06)
        || (0x11D08 <= u && u <= 0x11D09)
        || (0x11D0B <= u && u <= 0x11D30)
        || u == 0x11D46
        || (0x11D60 <= u && u <= 0x11D65)
        || (0x11D67 <= u && u <= 0x11D68)
        || (0x11D6A <= u && u <= 0x11D89)
        || u == 0x11D98
        || (0x11EE0 <= u && u <= 0x11EF2)
        || u == 0x11FB0
        || (0x12000 <= u && u <= 0x12399)
        || (0x12400 <= u && u <= 0x1246E)
        || (0x12480 <= u && u <= 0x12543)
        || (0x12F90 <= u && u <= 0x12FF0)
        || (0x13000 <= u && u <= 0x1342E)
        || (0x14400 <= u && u <= 0x14646)
        || (0x16800 <= u && u <= 0x16A38)
        || (0x16A40 <= u && u <= 0x16A5E)
        || (0x16A70 <= u && u <= 0x16ABE)
        || (0x16AD0 <= u && u <= 0x16AED)
        || (0x16B00 <= u && u <= 0x16B2F)
        || (0x16B40 <= u && u <= 0x16B43)
        || (0x16B63 <= u && u <= 0x16B77)
        || (0x16B7D <= u && u <= 0x16B8F)
        || (0x16F00 <= u && u <= 0x16F4A)
        || u == 0x16F50
        || (0x16F93 <= u && u <= 0x16F9F)
        || (0x16FE0 <= u && u <= 0x16FE1)
        || u == 0x16FE3
        || (0x17000 <= u && u <= 0x187F7)
        || (0x18800 <= u && u <= 0x18CD5)
        || (0x18D00 <= u && u <= 0x18D08)
        || (0x1AFF0 <= u && u <= 0x1AFF3)
        || (0x1AFF5 <= u && u <= 0x1AFFB)
        || (0x1AFFD <= u && u <= 0x1AFFE)
        || (0x1B000 <= u && u <= 0x1B122)
        || (0x1B150 <= u && u <= 0x1B152))
}
pub open spec fn spec_sb_oletter_8(u: u32) -> bool {
    (0x1B164 <= u && u <= 0x3134A) && ((0x1B164 <= u && u <= 0x1B167)
        || (0x1B170 <= u && u <= 0x1B2FB)
        || (0x1BC00 <= u && u <= 0x1BC6A)
        || (0x1BC70 <= u && u <= 0x1BC7C)
        || (0x1BC80 <= u && u <= 0x1BC88)
        || (0x1BC90 <= u && u <= 0x1BC99)
        || u == 0x1DF0A
        || (0x1E100 <= u && u <= 0x1E12C)
        || (0x1E137 <= u && u <= 0x1E13D)
        || u == 0x1E14E
        || (0x1E290 <= u && u <= 0x1E2AD)
        || (0x1E2C0 <= u && u <= 0x1E2EB)
        || (0x1E7E0 <= u && u <= 0x1E7E6)
        || (0x1E7E8 <= u && u <= 0x1E7EB)
        || (0x1E7ED <= u && u <= 0x1E7EE)
        || (0x1E7F0 <= u && u <= 0x1E7FE)
        || (0x1E800 <= u && u <= 0x1E8C4)
        || u == 0x1E94B
        || (0x1EE00 <= u && u <= 0x1EE03)
        || (0x1EE05 <= u && u <= 0x1EE1F)
        || (0x1EE21 <= u && u <= 0x1EE22)
        || u == 0x1EE24
        || u == 0x1EE27
        || (0x1EE29 <= u && u <= 0x1EE32)
        || (0x1EE34 <= u && u <= 0x1EE37)
        || u == 0x1EE39
        || u == 0x1EE3B
        || u == 0x1EE42
        || u == 0x1EE47
        || u == 0x1EE49
        || u == 0x1EE4B
        || (0x1EE4D <= u && u <= 0x1EE4F)
        || (0x1EE51 <= u && u <= 0x1EE52)
        || u == 0x1EE54
        || u == 0x1EE57
        || u == 0x1EE59
        || u == 0x1EE5B
        || u == 0x1EE5D
        || u == 0x1EE5F
        || (0x1EE61 <= u && u <= 0x1EE62)
        || u == 0x1EE64
        || (0x1EE67 <= u && u <= 0x1EE6A)
        || (0x1EE6C <= u && u <= 0x1EE72)
        || (0x1EE74 <= u && u <= 0x1EE77)
        || (0x1EE79 <= u && u <= 0x1EE7C)
        || u == 0x1EE7E
        || (0x1EE80 <= u && u <= 0x1EE89)
        || (0x1EE8B <= u && u <= 0x1EE9B)
        || (0x1EEA1 <= u && u <= 0x1EEA3)
        || (0x1EEA5 <= u && u <= 0x1EEA9)
        || (0x1EEAB <= u && u <= 0x1EEBB)
        || (0x20000 <= u && u <= 0x2A6DF)
        || (0x2A700 <= u && u <= 0x2B738)
        || (0x2B740 <= u && u <= 0x2B81D)
        || (0x2B820 <= u && u <= 0x2CEA1)
        || (0x2CEB0 <= u && u <= 0x2EBE0)
        || (0x2F800 <= u && u <= 0x2FA1D)
        || (0x30000 <= u && u <= 0x3134A))
}
fn sb_oletter_8(u: u32) -> (r: bool)
    ensures
        r == spec_sb_oletter_8(u),
{
    (0x1B164 <= u && u <= 0x3134A) && ((0x1B164 <= u && u <= 0x1B167)
        || (0x1B170 <= u && u <= 0x1B2FB)
        || (0x1BC00 <= u && u <= 0x1BC6A)
        || (0x1BC70 <= u && u <= 0x1BC7C)
        || (0x1BC80 <= u && u <= 0x1BC88)
        || (0x1BC90 <= u && u <= 0x1BC99)
        || u == 0x1DF0A
        || (0x1E100 <= u && u <= 0x1E12C)
        || (0x1E137 <= u && u <= 0x1E13D)
        || u == 0x1E14E
        || (0x1E290 <= u && u <= 0x1E2AD)
        || (0x1E2C0 <= u && u <= 0x1E2EB)
        || (0x1E7E0 <= u && u <= 0x1E7E6)
        || (0x1E7E8 <= u && u <= 0x1E7EB)
        || (0x1E7ED <= u && u <= 0x1E7EE)
        || (0x1E7F0 <= u && u <= 0x1E7FE)
        || (0x1E800 <= u && u <= 0x1E8C4)
        || u == 0x1E94B
        || (0x1EE00 <= u && u <= 0x1EE03)
        || (0x1EE05 <= u && u <= 0x1EE1F)
        || (0x1EE21 <= u && u <= 0x1EE22)
        || u == 0x1EE24
        || u == 0x1EE27
        || (0x1EE29 <= u && u <= 0x1EE32)
        || (0x1EE34 <= u && u <= 0x1EE37)
        || u == 0x1EE39
        || u == 0x1EE3B
        || u == 0x1EE42
        || u == 0x1EE47
        || u == 0x1EE49
        || u == 0x1EE4B
        || (0x1EE4D <= u && u <= 0x1EE4F)
        || (0x1EE51 <= u && u <= 0x1EE52)
        || u == 0x1EE54
        || u == 0x1EE57
        || u == 0x1EE59
        || u == 0x1EE5B
        || u == 0x1EE5D
        || u == 0x1EE5F
        || (0x1EE61 <= u && u <= 0x1EE62)
        || u == 0x1EE64
        || (0x1EE67 <= u && u <= 0x1EE6A)
        || (0x1EE6C <= u && u <= 0x1EE72)
        || (0x1EE74 <= u && u <= 0x1EE77)
        || (0x1EE79 <= u && u <= 0x1EE7C)
        || u == 0x1EE7E
        || (0x1EE80 <= u && u <= 0x1EE89)
        || (0x1EE8B <= u && u <= 0x1EE9B)
        || (0x1EEA1 <= u && u <= 0x1EEA3)
        || (0x1EEA5 <= u && u <= 0x1EEA9)
        || (0x1EEAB <= u && u <= 0x1EEBB)
        || (0x20000 <= u && u <= 0x2A6DF)
        || (0x2A700 <= u && u <= 0x2B738)
        || (0x2B740 <= u && u <= 0x2B81D)
        || (0x2B820 <= u && u <= 0x2CEA1)
        || (0x2CEB0 <= u && u <= 0x2EBE0)
        || (0x2F800 <= u && u <= 0x2FA1D)
        || (0x30000 <= u && u <= 0x3134A))
}
pub open spec fn spec_sb_oletter(u: u32) -> bool {
    spec_sb_oletter_0(u) || spec_sb_oletter_1(u) || spec_sb_oletter_2(u) || spec_sb_oletter_3(u) || spec_sb_oletter_4(u) || spec_sb_oletter_5(u) || spec_sb_oletter_6(u) || spec_sb_oletter_7(u) || spec_sb_oletter_8(u)
}
fn sb_oletter(u: u32) -> (r: bool)
    ensures
        r == spec_sb_oletter(u),
{
    sb_oletter_0(u) || sb_oletter_1(u) || sb_oletter_2(u) || sb_oletter_3(u) || sb_oletter_4(u) || sb_oletter_5(u) || sb_oletter_6(u) || sb_oletter_7(u) || sb_oletter_8(u)
}
pub open spec fn spec_sb_numeric_0(u: u32) -> bool {
    (0x30 <= u && u <= 0x1E149) && ((0x30 <= u && u <= 0x39)
        || (0x660 <= u && u <= 0x669)
        || (0x66B <= u && u <= 0x66C)
        || (0x6F0 <= u && u <= 0x6F9)
        || (0x7C0 <= u && u <= 0x7C9)
        || (0x966 <= u && u <= 0x96F)
        || (0x9E6 <= u && u <= 0x9EF)
        || (0xA66 <= u && u <= 0xA6F)
        || (0xAE6 <= u && u <= 0xAEF)
        || (0xB66 <= u && u <= 0xB6F)
        || (0xBE6 <= u && u <= 0xBEF)
        || (0xC66 <= u && u <= 0xC6F)
        || (0xCE6 <= u && u <= 0xCEF)
        || (0xD66 <= u && u <= 0xD6F)
        || (0xDE6 <= u && u <= 0xDEF)
        || (0xE50 <= u && u <= 0xE59)
        || (0xED0 <= u && u <= 0xED9)
        || (0xF20 <= u && u <= 0xF29)
        || (0x1040 <= u && u <= 0x1049)
        || (0x1090 <= u && u <= 0x1099)
        || (0x17E0 <= u && u <= 0x17E9)
        || (0x1810 <= u && u <= 0x1819)
        || (0x1946 <= u && u <= 0x194F)
        || (0x19D0 <= u && u <= 0x19D9)
        || (0x1A80 <= u && u <= 0x1A89)
        || (0x1A90 <= u && u <= 0x1A99)
        || (0x1B50 <= u && u <= 0x1B59)
        || (0x1BB0 <= u && u <= 0x1BB9)
        || (0x1C40 <= u && u <= 0x1C49)
        || (0x1C50 <= u && u <= 0x1C59)
        || (0xA620 <= u && u <= 0xA629)
        || (0xA8D0 <= u && u <= 0xA8D9)
        || (0xA900 <= u && u <= 0xA909)
        || (0xA9D0 <= u && u <= 0xA9D9)
        || (0xA9F0 <= u && u <= 0xA9F9)
        || (0xAA50 <= u && u <= 0xAA59)
        || (0xABF0 <= u && u <= 0xABF9)
        || (0xFF10 <= u && u <= 0xFF19)
        || (0x104A0 <= u && u <= 0x104A9)
        || (0x10D30 <= u && u <= 0x10D39)
        || (0x11066 <= u && u <= 0x1106F)
        || (0x110F0 <= u && u <= 0x110F9)
        || (0x11136 <= u && u <= 0x1113F)
        || (0x111D0 <= u && u <= 0x111D9)
        || (0x112F0 <= u && u <= 0x112F9)
        || (0x11450 <= u && u <= 0x11459)
        || (0x114D0 <= u && u <= 0x114D9)
        || (0x11650 <= u && u <= 0x11659)
        || (0x116C0 <= u && u <= 0x116C9)
        || (0x11730 <= u && u <= 0x11739)
        || (0x118E0 <= u && u <= 0x118E9)
        || (0x11950 <= u && u <= 0x11959)
        || (0x11C50 <= u && u <= 0x11C59)
        || (0x11D50 <= u && u <= 0x11D59)
        || (0x11DA0 <= u && u <= 0x11DA9)
        || (0x16A60 <= u && u <= 0x16A69)
        || (0x16AC0 <= u && u <= 0x16AC9)
        || (0x16B50 <= u && u <= 0x16B59)
        || (0x1D7CE <= u && u <= 0x1D7FF)
        || (0x1E140 <= u && u <= 0x1E149))
}
fn sb_numeric_0(u: u32) -> (r: bool)
    ensures
        r == spec_sb_numeric_0(u),
{
    (0x30 <= u && u <= 0x1E149) && ((0x30 <= u && u <= 0x39)
        || (0x660 <= u && u <= 0x669)
        || (0x66B <= u && u <= 0x66C)
        || (0x6F0 <= u && u <= 0x6F9)
        || (0x7C0 <= u && u <= 0x7C9)
        || (0x966 <= u && u <= 0x96F)
        || (0x9E6 <= u && u <= 0x9EF)
        || (0xA66 <= u && u <= 0xA6F)
        || (0xAE6 <= u && u <= 0xAEF)
        || (0xB66 <= u && u <= 0xB6F)
        || (0xBE6 <= u && u <= 0xBEF)
        || (0xC66 <= u && u <= 0xC6F)
        || (0xCE6 <= u && u <= 0xCEF)
        || (0xD66 <= u && u <= 0xD6F)
        || (0xDE6 <= u && u <= 0xDEF)
        || (0xE50 <= u && u <= 0xE59)
        || (0xED0 <= u && u <= 0xED9)
        || (0xF20 <= u && u <= 0xF29)
        || (0x1040 <= u && u <= 0x1049)
        || (0x1090 <= u && u <= 0x1099)
        || (0x17E0 <= u && u <= 0x17E9)
        || (0x1810 <= u && u <= 0x1819)
        || (0x1946 <= u && u <= 0x194F)
        || (0x19D0 <= u && u <= 0x19D9)
        || (0x1A80 <= u && u <= 0x1A89)
        || (0x1A90 <= u && u <= 0x1A99)
        || (0x1B50 <= u && u <= 0x1B59)
        || (0x1BB0 <= u && u <= 0x1BB9)
        || (0x1C40 <= u && u <= 0x1C49)
        || (0x1C50 <= u && u <= 0x1C59)
        || (0xA620 <= u && u <= 0xA629)
        || (0xA8D0 <= u && u <= 0xA8D9)
        || (0xA900 <= u && u <= 0xA909)
        || (0xA9D0 <= u && u <= 0xA9D9)
        || (0xA9F0 <= u && u <= 0xA9F9)
        || (0xAA50 <= u && u <= 0xAA59)
        || (0xABF0 <= u && u <= 0xABF9)
        || (0xFF10 <= u && u <= 0xFF19)
        || (0x104A0 <= u && u <= 0x104A9)
        || (0x10D30 <= u && u <= 0x10D39)
        || (0x11066 <= u && u <= 0x1106F)
        || (0x110F0 <= u && u <= 0x110F9)
        || (0x11136 <= u && u <= 0x1113F)
        || (0x111D0 <= u && u <= 0x111D9)
        || (0x112F0 <= u && u <= 0x112F9)
        || (0x11450 <= u && u <= 0x11459)
        || (0x114D0 <= u && u <= 0x114D9)
        || (0x11650 <= u && u <= 0x11659)
        || (0x116C0 <= u && u <= 0x116C9)
        || (0x11730 <= u && u <= 0x11739)
        || (0x118E0 <= u && u <= 0x118E9)
        || (0x11950 <= u && u <= 0x11959)
        || (0x11C50 <= u && u <= 0x11C59)
        || (0x11D50 <= u && u <= 0x11D59)
        || (0x11DA0 <= u && u <= 0x11DA9)
        || (0x16A60 <= u && u <= 0x16A69)
        || (0x16AC0 <= u && u <= 0x16AC9)
        || (0x16B50 <= u && u <= 0x16B59)
        || (0x1D7CE <= u && u <= 0x1D7FF)
        || (0x1E140 <= u && u <= 0x1E149))
}
pub open spec fn spec_sb_numeric_1(u: u32) -> bool {
    (0x1E2F0 <= u && u <= 0x1FBF9) && ((0x1E2F0 <= u && u <= 0x1E2F9)
        || (0x1E950 <= u && u <= 0x1E959)
        || (0x1FBF0 <= u && u <= 0x1FBF9))
}
fn sb_numeric_1(u: u32) -> (r: bool)
    ensures
        r == spec_sb_numeric_1(u),
{
    (0x1E2F0 <= u && u <= 0x1FBF9) && ((0x1E2F0 <= u && u <= 0x1E2F9)
        || (0x1E950 <= u && u <= 0x1E959)
        || (0x1FBF0 <= u && u <= 0x1FBF9))
}
pub open spec fn spec_sb_numeric(u: u32) -> bool {
    spec_sb_numeric_0(u) || spec_sb_numeric_1(u)
}
fn sb_numeric(u: u32) -> (r: bool)
    ensures
        r == spec_sb_numeric(u),
{
    sb_numeric_0(u) || sb_numeric_1(u)
}
pub open spec fn spec_sb_scontinue_0(u: u32) -> bool {
    (0x2C <= u && u <= 0xFF64) && ((0x2C <= u && u <= 0x2D)
        || u == 0x3A
        || u == 0x55D
        || (0x60C <= u && u <= 0x60D)
        || u == 0x7F8
        || u == 0x1802
        || u == 0x1808
        || (0x2013 <= u && u <= 0x2014)
        || u == 0x3001
        || (0xFE10 <= u && u <= 0xFE11)
        || u == 0xFE13
        || (0xFE31 <= u && u <= 0xFE32)
        || (0xFE50 <= u && u <= 0xFE51)
        || u == 0xFE55
        || u == 0xFE58
        || u == 0xFE63
        || (0xFF0C <= u && u <= 0xFF0D)
        || u == 0xFF1A
        || u == 0xFF64)
}
fn sb_scontinue_0(u: u32) -> (r: bool)
    ensures
        r == spec_sb_scontinue_0(u),
{
    (0x2C <= u && u <= 0xFF64) && ((0x2C <= u && u <= 0x2D)
        || u == 0x3A
        || u == 0x55D
        || (0x60C <= u && u <= 0x60D)
        || u == 0x7F8
        || u == 0x1802
        || u == 0x1808
        || (0x2013 <= u && u <= 0x2014)
        || u == 0x3001
        || (0xFE10 <= u && u <= 0xFE11)
        || u == 0xFE13
        || (0xFE31 <= u && u <= 0xFE32)
        || (0xFE50 <= u && u <= 0xFE51)
        || u == 0xFE55
        || u == 0xFE58
        || u == 0xFE63
        || (0xFF0C <= u && u <= 0xFF0D)
        || u == 0xFF1A
        || u == 0xFF64)
}
pub open spec fn spec_sb_scontinue(u: u32) -> bool {
    spec_sb_scontinue_0(u)
}
fn sb_scontinue(u: u32) -> (r: bool)
    ensures
        r == spec_sb_scontinue(u),
{
    sb_scontinue_0(u)
}
pub open spec fn spec_sb_sterm_0(u: u32) -> bool {
    (0x21 <= u && u <= 0x1DA88) && (u == 0x21
        || u == 0x3F
        || u == 0x589
        || u == 0x61F
        || u == 0x6D4
        || (0x700 <= u && u <= 0x702)
        || u == 0x7F9
        || (0x964 <= u && u <= 0x965)
        || (0x104A <= u && u <= 0x104B)
        || u == 0x1362
        || (0x1367 <= u && u <= 0x1368)
        || u == 0x166E
        || (0x1735 <= u && u <= 0x1736)
        || u == 0x1803
        || u == 0x1809
        || (0x1944 <= u && u <= 0x1945)
        || (0x1AA8 <= u && u <= 0x1AAB)
        || (0x1B5A <= u && u <= 0x1B5B)
        || (0x1B5E <= u && u <= 0x1B5F)
        || (0x1C3B <= u && u <= 0x1C3C)
        || (0x1C7E <= u && u <= 0x1C7F)
        || (0x203C <= u && u <= 0x203D)
        || (0x2047 <= u && u <= 0x2049)
        || u == 0x2E2E
        || u == 0x2E3C
        || u == 0x3002
        || u == 0xA4FF
        || (0xA60E <= u && u <= 0xA60F)
        || u == 0xA6F3
        || u == 0xA6F7
        || (0xA876 <= u && u <= 0xA877)
        || (0xA8CE <= u && u <= 0xA8CF)
        || u == 0xA92F
        || (0xA9C8 <= u && u <= 0xA9C9)
        || (0xAA5D <= u && u <= 0xAA5F)
        || (0xAAF0 <= u && u <= 0xAAF1)
        || u == 0xABEB
        || (0xFE56 <= u && u <= 0xFE57)
        || u == 0xFF01
        || u == 0xFF1F
        || u == 0xFF61
        || (0x11047 <= u && u <= 0x11048)
        || (0x110BE <= u && u <= 0x110C1)
        || (0x11141 <= u && u <= 0x11143)
        || (0x111C5 <= u && u <= 0x111C6)
        || u == 0x111CD
        || (0x11238 <= u && u <= 0x11239)
        || (0x1123B <= u && u <= 0x1123C)
        || u == 0x112A9
        || (0x115C2 <= u && u <= 0x115C3)
        || (0x115C9 <= u && u <= 0x115D7)
        || (0x11641 <= u && u <= 0x11642)
        || (0x1173C <= u && u <= 0x1173E)
        || (0x11C41 <= u && u <= 0x11C42)
        || (0x16A6E <= u && u <= 0x16A6F)
        || u == 0x16AF5
        || (0x16B37 <= u && u <= 0x16B38)
        || u == 0x16B44
        || u == 0x1BC9F
        || u == 0x1DA88)
}
fn sb_sterm_0(u: u32) -> (r: bool)
    ensures
        r == spec_sb_sterm_0(u),
{
    (0x21 <= u && u <= 0x1DA88) && (u == 0x21
        || u == 0x3F
        || u == 0x589
        || u == 0x61F
        || u == 0x6D4
        || (0x700 <= u && u <= 0x702)
        || u == 0x7F9
        || (0x964 <= u && u <= 0x965)
        || (0x104A <= u && u <= 0x104B)
        || u == 0x1362
        || (0x1367 <= u && u <= 0x1368)
        || u == 0x166E
        || (0x1735 <= u && u <= 0x1736)
        || u == 0x1803
        || u == 0x1809
        || (0x1944 <= u && u <= 0x1945)
        || (0x1AA8 <= u && u <= 0x1AAB)
        || (0x1B5A <= u && u <= 0x1B5B)
        || (0x1B5E <= u && u <= 0x1B5F)
        || (0x1C3B <= u && u <= 0x1C3C)
        || (0x1C7E <= u && u <= 0x1C7F)
        || (0x203C <= u && u <= 0x203D)
        || (0x2047 <= u && u <= 0x2049)
        || u == 0x2E2E
        || u == 0x2E3C
        || u == 0x3002
        || u == 0xA4FF
        || (0xA60E <= u && u <= 0xA60F)
        || u == 0xA6F3
        || u == 0xA6F7
        || (0xA876 <= u && u <= 0xA877)
        || (0xA8CE <= u && u <= 0xA8CF)
        || u == 0xA92F
        || (0xA9C8 <= u && u <= 0xA9C9)
        || (0xAA5D <= u && u <= 0xAA5F)
        || (0xAAF0 <= u && u <= 0xAAF1)
        || u == 0xABEB
        || (0xFE56 <= u && u <= 0xFE57)
        || u == 0xFF01
        || u == 0xFF1F
        || u == 0xFF61
        || (0x11047 <= u && u <= 0x11048)
        || (0x110BE <= u && u <= 0x110C1)
        || (0x11141 <= u && u <= 0x11143)
        || (0x111C5 <= u && u <= 0x111C6)
        || u == 0x111CD
        || (0x11238 <= u && u <= 0x11239)
        || (0x1123B <= u && u <= 0x1123C)
        || u == 0x112A9
        || (0x115C2 <= u && u <= 0x115C3)
        || (0x115C9 <= u && u <= 0x115D7)
        || (0x11641 <= u && u <= 0x11642)
        || (0x1173C <= u && u <= 0x1173E)
        || (0x11C41 <= u && u <= 0x11C42)
        || (0x16A6E <= u && u <= 0x16A6F)
        || u == 0x16AF5
        || (0x16B37 <= u && u <= 0x16B38)
        || u == 0x16B44
        || u == 0x1BC9F
        || u == 0x1DA88)
}
pub open spec fn spec_sb_sterm(u: u32) -> bool {
    spec_sb_sterm_0(u)
}
fn sb_sterm(u: u32) -> (r: bool)
    ensures
        r == spec_sb_sterm(u),
{
    sb_sterm_0(u)
}
pub open spec fn spec_sb_close_0(u: u32) -> bool {
    (0x22 <= u && u <= 0xFF63) && (u == 0x22
        || (0x27 <= u && u <= 0x29)
        || u == 0x5B
        || u == 0x5D
        || u == 0x7B
        || u == 0x7D
        || u == 0xAB
        || u == 0xBB
        || (0xF3A <= u && u <= 0xF3D)
        || (0x169B <= u && u <= 0x169C)
        || (0x2018 <= u && u <= 0x201F)
        || (0x2039 <= u && u <= 0x203A)
        || (0x2045 <= u && u <= 0x2046)
        || (0x207D <= u && u <= 0x207E)
        || (0x208D <= u && u <= 0x208E)
        || (0x2308 <= u && u <= 0x230B)
        || (0x2329 <= u && u <= 0x232A)
        || (0x2768 <= u && u <= 0x2775)
        || (0x27C5 <= u && u <= 0x27C6)
        || (0x27E6 <= u && u <= 0x27EF)
        || (0x2983 <= u && u <= 0x2998)
        || (0x29D8 <= u && u <= 0x29DB)
        || (0x29FC <= u && u <= 0x29FD)
        || (0x2E02 <= u && u <= 0x2E05)
        || (0x2E09 <= u && u <= 0x2E0A)
        || (0x2E0C <= u && u <= 0x2E0D)
        || (0x2E1C <= u && u <= 0x2E1D)
        || (0x2E20 <= u && u <= 0x2E29)
        || u == 0x2E42
        || (0x2E55 <= u && u <= 0x2E5C)
        || (0x3008 <= u && u <= 0x3011)
        || (0x3014 <= u && u <= 0x301B)
        || (0x301D <= u && u <= 0x301F)
        || (0xFD3E <= u && u <= 0xFD3F)
        || (0xFE17 <= u && u <= 0xFE18)
        || (0xFE35 <= u && u <= 0xFE44)
        || (0xFE47 <= u && u <= 0xFE48)
        || (0xFE59 <= u && u <= 0xFE5E)
        || u == 0xFF02
        || (0xFF07 <= u && u <= 0xFF09)
        || u == 0xFF3B
        || u == 0xFF3D
        || u == 0xFF5B
        || u == 0xFF5D
        || (0xFF5F <= u && u <= 0xFF60)
        || (0xFF62 <= u && u <= 0xFF63))
}
fn sb_close_0(u: u32) -> (r: bool)
    ensures
        r == spec_sb_close_0(u),
{
    (0x22 <= u && u <= 0xFF63) && (u == 0x22
        || (0x27 <= u && u <= 0x29)
        || u == 0x5B
        || u == 0x5D
        || u == 0x7B
        || u == 0x7D
        || u == 0xAB
        || u == 0xBB
        || (0xF3A <= u && u <= 0xF3D)
        || (0x169B <= u && u <= 0x169C)
        || (0x2018 <= u && u <= 0x201F)
        || (0x2039 <= u && u <= 0x203A)
        || (0x2045 <= u && u <= 0x2046)
        || (0x207D <= u && u <= 0x207E)
        || (0x208D <= u && u <= 0x208E)
        || (0x2308 <= u && u <= 0x230B)
        || (0x2329 <= u && u <= 0x232A)
        || (0x2768 <= u && u <= 0x2775)
        || (0x27C5 <= u && u <= 0x27C6)
        || (0x27E6 <= u && u <= 0x27EF)
        || (0x2983 <= u && u <= 0x2998)
        || (0x29D8 <= u && u <= 0x29DB)
        || (0x29FC <= u && u <= 0x29FD)
        || (0x2E02 <= u && u <= 0x2E05)
        || (0x2E09 <= u && u <= 0x2E0A)
        || (0x2E0C <= u && u <= 0x2E0D)
        || (0x2E1C <= u && u <= 0x2E1D)
        || (0x2E20 <= u && u <= 0x2E29)
        || u == 0x2E42
        || (0x2E55 <= u && u <= 0x2E5C)
        || (0x3008 <= u && u <= 0x3011)
        || (0x3014 <= u && u <= 0x301B)
        || (0x301D <= u && u <= 0x301F)
        || (0xFD3E <= u && u <= 0xFD3F)
        || (0xFE17 <= u && u <= 0xFE18)
        || (0xFE35 <= u && u <= 0xFE44)
        || (0xFE47 <= u && u <= 0xFE48)
        || (0xFE59 <= u && u <= 0xFE5E)
        || u == 0xFF02
        || (0xFF07 <= u && u <= 0xFF09)
        || u == 0xFF3B
        || u == 0xFF3D
        || u == 0xFF5B
        || u == 0xFF5D
        || (0xFF5F <= u && u <= 0xFF60)
        || (0xFF62 <= u && u <= 0xFF63))
}
pub open spec fn spec_sb_close(u: u32) -> bool {
    spec_sb_close_0(u)
}
fn sb_close(u: u32) -> (r: bool)
    ensures
        r == spec_sb_close(u),
{
    sb_close_0(u)
}
/// Sentence break category of a character, as a specification.
pub open spec fn spec_sentence_category(c: char) -> SentenceCat {
    let u = c as u32;
    if u == 0x0D {
        SentenceCat::SC_CR
    } else if u == 0x0A {
        SentenceCat::SC_LF
    } else if u == 0x85 || u == 0x2028 || u == 0x2029 {
        SentenceCat::SC_Sep
    } else if u == 0x2E || u == 0x2024 || u == 0xFE52 || u == 0xFF0E {
        SentenceCat::SC_ATerm
    } else if spec_sb_extend(u) {
        SentenceCat::SC_Extend
    } else if spec_sb_format(u) {
        SentenceCat::SC_Format
    } else if spec_sb_sp(u) {
        SentenceCat::SC_Sp
    } else if spec_sb_lower(u) {
        SentenceCat::SC_Lower
    } else if spec_sb_upper(u) {
        SentenceCat::SC_Upper
    } else if spec_sb_oletter(u) {
        SentenceCat::SC_OLetter
    } else if spec_sb_numeric(u) {
        SentenceCat::SC_Numeric
    } else if spec_sb_scontinue(u) {
        SentenceCat::SC_SContinue
    } else if spec_sb_sterm(u) {
        SentenceCat::SC_STerm
    } else if spec_sb_close(u) {
        SentenceCat::SC_Close
    } else {
        SentenceCat::SC_Any
    }
}

/// Sentence break category of a character.
pub fn sentence_category(c: char) -> (r: SentenceCat)
    ensures
        r == spec_sentence_category(c),
{
    let u: u32 = c as u32;
    if u == 0x0D {
        SentenceCat::SC_CR
    } else if u == 0x0A {
        SentenceCat::SC_LF
    } else if u == 0x85 || u == 0x2028 || u == 0x2029 {
        SentenceCat::SC_Sep
    } else if u == 0x2E || u == 0x2024 || u == 0xFE52 || u == 0xFF0E {
        SentenceCat::SC_ATerm
    } else if sb_extend(u) {
        SentenceCat::SC_Extend
    } else if sb_format(u) {
        SentenceCat::SC_Format
    } else if sb_sp(u) {
        SentenceCat::SC_Sp
    } else if sb_lower(u) {
        SentenceCat::SC_Lower
    } else if sb_upper(u) {
        SentenceCat::SC_Upper
    } else if sb_oletter(u) {
        SentenceCat::SC_OLetter
    } else if sb_numeric(u) {
        SentenceCat::SC_Numeric
    } else if sb_scontinue(u) {
        SentenceCat::SC_SContinue
    } else if sb_sterm(u) {
        SentenceCat::SC_STerm
    } else if sb_close(u) {
        SentenceCat::SC_Close
    } else {
        SentenceCat::SC_Any
    }
}

} // verus!
