//! Character property table for grapheme-cluster boundaries (UAX #29).

use vstd::prelude::*;

verus! {

/// Grapheme-cluster break category of a code point.
#[allow(non_camel_case_types)]
#[derive(Clone, Copy, PartialEq, Eq, Debug, Structural)]
pub enum GraphemeCat {
    GC_Any,
    GC_Control,
    GC_Extend,
    GC_ZWJ,
    GC_Regional_Indicator,
    GC_Prepend,
    GC_SpacingMark,
    GC_L,
    GC_V,
    GC_T,
    GC_LV,
    GC_LVT,
    GC_E_Base,
    GC_E_Modifier,
    GC_E_Base_GAZ,
    GC_Glue_After_Zwj,
}

pub open spec fn spec_gr_control_0(u: u32) -> bool {
    (0x0 <= u && u <= 0xE007F) && ((0x0 <= u && u <= 0x1F)
        || (0x7F <= u && u <= 0x9F)
        || u == 0xAD
        || u == 0x61C
        || (0x890 <= u && u <= 0x891)
        || u == 0x180E
        || u == 0x200B
        || (0x200E <= u && u <= 0x200F)
        || (0x2028 <= u && u <= 0x202E)
        || (0x2060 <= u && u <= 0x2064)
        || (0x2066 <= u && u <= 0x206F)
        || u == 0xFEFF
        || (0xFFF9 <= u && u <= 0xFFFB)
        || u == 0x110CD
        || (0x13430 <= u && u <= 0x13438)
        || (0x1BCA0 <= u && u <= 0x1BCA3)
        || (0x1D173 <= u && u <= 0x1D17A)
        || u == 0xE0001
        || (0xE0020 <= u && u <= 0xE007F))
}
fn gr_control_0(u: u32) -> (r: bool)
    ensures
        r == spec_gr_control_0(u),
{
    (0x0 <= u && u <= 0xE007F) && ((0x0 <= u && u <= 0x1F)
        || (0x7F <= u && u <= 0x9F)
        || u == 0xAD
        || u == 0x61C
        || (0x890 <= u && u <= 0x891)
        || u == 0x180E
        || u == 0x200B
        || (0x200E <= u && u <= 0x200F)
        || (0x2028 <= u && u <= 0x202E)
        || (0x2060 <= u && u <= 0x2064)
        || (0x2066 <= u && u <= 0x206F)
        || u == 0xFEFF
        || (0xFFF9 <= u && u <= 0xFFFB)
        || u == 0x110CD
        || (0x13430 <= u && u <= 0x13438)
        || (0x1BCA0 <= u && u <= 0x1BCA3)
        || (0x1D173 <= u && u <= 0x1D17A)
        || u == 0xE0001
        || (0xE0020 <= u && u <= 0xE007F))
}
pub open spec fn spec_gr_control(u: u32) -> bool {
    spec_gr_control_0(u)
}
fn gr_control(u: u32) -> (r: bool)
    ensures
        r == spec_gr_control(u),
{
    gr_control_0(u)
}
pub open spec fn spec_gr_extend_0(u: u32) -> bool {
    (0x300 <= u && u <= 0xB44) && ((0x300 <= u && u <= 0x36F)
        || (0x483 <= u && u <= 0x489)
        || (0x591 <= u && u <= 0x5BD)
        || u == 0x5BF
        || (0x5C1 <= u && u <= 0x5C2)
        || (0x5C4 <= u && u <= 0x5C5)
        || u == 0x5C7
        || (0x610 <= u && u <= 0x61A)
        || (0x64B <= u && u <= 0x65F)
        || u == 0x670
        || (0x6D6 <= u && u <= 0x6DC)
        || (0x6DF <= u && u <= 0x6E4)
        || (0x6E7 <= u && u <= 0x6E8)
        || (0x6EA <= u && u <= 0x6ED)
        || u == 0x711
        || (0x730 <= u && u <= 0x74A)
        || (0x7A6 <= u && u <= 0x7B0)
        || (0x7EB <= u && u <= 0x7F3)
        || u == 0x7FD
        || (0x816 <= u && u <= 0x819)
        || (0x81B <= u && u <= 0x823)
        || (0x825 <= u && u <= 0x827)
        || (0x829 <= u && u <= 0x82D)
        || (0x859 <= u && u <= 0x85B)
        || (0x898 <= u && u <= 0x89F)
        || (0x8CA <= u && u <= 0x8E1)
        || (0x8E3 <= u && u <= 0x902)
        || u == 0x93A
        || u == 0x93C
        || (0x941 <= u && u <= 0x948)
        || u == 0x94D
        || (0x951 <= u && u <= 0x957)
        || (0x962 <= u && u <= 0x963)
        || u == 0x981
        || u == 0x9BC
        || u == 0x9BE
        || (0x9C1 <= u && u <= 0x9C4)
        || u == 0x9CD
        || u == 0x9D7
        || (0x9E2 <= u && u <= 0x9E3)
        || u == 0x9FE
        || (0xA01 <= u && u <= 0xA02)
        || u == 0xA3C
        || (0xA41 <= u && u <= 0xA42)
        || (0xA47 <= u && u <= 0xA48)
        || (0xA4B <= u && u <= 0xA4D)
        || u == 0xA51
        || (0xA70 <= u && u <= 0xA71)
        || u == 0xA75
        || (0xA81 <= u && u <= 0xA82)
        || u == 0xABC
        || (0xAC1 <= u && u <= 0xAC5)
        || (0xAC7 <= u && u <= 0xAC8)
        || u == 0xACD
        || (0xAE2 <= u && u <= 0xAE3)
        || (0xAFA <= u && u <= 0xAFF)
        || u == 0xB01
        || u == 0xB3C
        || (0xB3E <= u && u <= 0xB3F)
        || (0xB41 <= u && u <= 0xB44))
}
fn gr_extend_0(u: u32) -> (r: bool)
    ensures
        r == spec_gr_extend_0(u),
{
    (0x300 <= u && u <= 0xB44) && ((0x300 <= u && u <= 0x36F)
        || (0x483 <= u && u <= 0x489)
        || (0x591 <= u && u <= 0x5BD)
        || u == 0x5BF
        || (0x5C1 <= u && u <= 0x5C2)
        || (0x5C4 <= u && u <= 0x5C5)
        || u == 0x5C7
        || (0x610 <= u && u <= 0x61A)
        || (0x64B <= u && u <= 0x65F)
        || u == 0x670
        || (0x6D6 <= u && u <= 0x6DC)
        || (0x6DF <= u && u <= 0x6E4)
        || (0x6E7 <= u && u <= 0x6E8)
        || (0x6EA <= u && u <= 0x6ED)
        || u == 0x711
        || (0x730 <= u && u <= 0x74A)
        || (0x7A6 <= u && u <= 0x7B0)
        || (0x7EB <= u && u <= 0x7F3)
        || u == 0x7FD
        || (0x816 <= u && u <= 0x819)
        || (0x81B <= u && u <= 0x823)
        || (0x825 <= u && u <= 0x827)
        || (0x829 <= u && u <= 0x82D)
        || (0x859 <= u && u <= 0x85B)
        || (0x898 <= u && u <= 0x89F)
        || (0x8CA <= u && u <= 0x8E1)
        || (0x8E3 <= u && u <= 0x902)
        || u == 0x93A
        || u == 0x93C
        || (0x941 <= u && u <= 0x948)
        || u == 0x94D
        || (0x951 <= u && u <= 0x957)
        || (0x962 <= u && u <= 0x963)
        || u == 0x981
        || u == 0x9BC
        || u == 0x9BE
        || (0x9C1 <= u && u <= 0x9C4)
        || u == 0x9CD
        || u == 0x9D7
        || (0x9E2 <= u && u <= 0x9E3)
        || u == 0x9FE
        || (0xA01 <= u && u <= 0xA02)
        || u == 0xA3C
        || (0xA41 <= u && u <= 0xA42)
        || (0xA47 <= u && u <= 0xA48)
        || (0xA4B <= u && u <= 0xA4D)
        || u == 0xA51
        || (0xA70 <= u && u <= 0xA71)
        || u == 0xA75
        || (0xA81 <= u && u <= 0xA82)
        || u == 0xABC
        || (0xAC1 <= u && u <= 0xAC5)
        || (0xAC7 <= u && u <= 0xAC8)
        || u == 0xACD
        || (0xAE2 <= u && u <= 0xAE3)
        || (0xAFA <= u && u <= 0xAFF)
        || u == 0xB01
        || u == 0xB3C
        || (0xB3E <= u && u <= 0xB3F)
        || (0xB41 <= u && u <= 0xB44))
}
pub open spec fn spec_gr_extend_1(u: u32) -> bool {
    (0xB4D <= u && u <= 0x1074) && (u == 0xB4D
        || (0xB55 <= u && u <= 0xB57)
        || (0xB62 <= u && u <= 0xB63)
        || u == 0xB82
        || u == 0xBBE
        || u == 0xBC0
        || u == 0xBCD
        || u == 0xBD7
        || u == 0xC00
        || u == 0xC04
        || u == 0xC3C
        || (0xC3E <= u && u <= 0xC40)
        || (0xC46 <= u && u <= 0xC48)
        || (0xC4A <= u && u <= 0xC4D)
        || (0xC55 <= u && u <= 0xC56)
        || (0xC62 <= u && u <= 0xC63)
        || u == 0xC81
        || u == 0xCBC
        || u == 0xCBF
        || u == 0xCC2
        || u == 0xCC6
        || (0xCCC <= u && u <= 0xCCD)
        || (0xCD5 <= u && u <= 0xCD6)
        || (0xCE2 <= u && u <= 0xCE3)
        || (0xD00 <= u && u <= 0xD01)
        || (0xD3B <= u && u <= 0xD3C)
        || u == 0xD3E
        || (0xD41 <= u && u <= 0xD44)
        || u == 0xD4D
        || u == 0xD57
        || (0xD62 <= u && u <= 0xD63)
        || u == 0xD81
        || u == 0xDCA
        || u == 0xDCF
        || (0xDD2 <= u && u <= 0xDD4)
        || u == 0xDD6
        || u == 0xDDF
        || u == 0xE31
        || (0xE34 <= u && u <= 0xE3A)
        || (0xE47 <= u && u <= 0xE4E)
        || u == 0xEB1
        || (0xEB4 <= u && u <= 0xEBC)
        || (0xEC8 <= u && u <= 0xECD)
        || (0xF18 <= u && u <= 0xF19)
        || u == 0xF35
        || u == 0xF37
        || u == 0xF39
        || (0xF71 <= u && u <= 0xF7E)
        || (0xF80 <= u && u <= 0xF84)
        || (0xF86 <= u && u <= 0xF87)
        || (0xF8D <= u && u <= 0xF97)
        || (0xF99 <= u && u <= 0xFBC)
        || u == 0xFC6
        || (0x102D <= u && u <= 0x1030)
        || (0x1032 <= u && u <= 0x1037)
        || (0x1039 <= u && u <= 0x103A)
        || (0x103D <= u && u <= 0x103E)
        || (0x1058 <= u && u <= 0x1059)
        || (0x105E <= u && u <= 0x1060)
        || (0x1071 <= u && u <= 0x1074))
}
fn gr_extend_1(u: u32) -> (r: bool)
    ensures
        r == spec_gr_extend_1(u),
{
    (0xB4D <= u && u <= 0x1074) && (u == 0xB4D
        || (0xB55 <= u && u <= 0xB57)
        || (0xB62 <= u && u <= 0xB63)
        || u == 0xB82
        || u == 0xBBE
        || u == 0xBC0
        || u == 0xBCD
        || u == 0xBD7
        || u == 0xC00
        || u == 0xC04
        || u == 0xC3C
        || (0xC3E <= u && u <= 0xC40)
        || (0xC46 <= u && u <= 0xC48)
        || (0xC4A <= u && u <= 0xC4D)
        || (0xC55 <= u && u <= 0xC56)
        || (0xC62 <= u && u <= 0xC63)
        || u == 0xC81
        || u == 0xCBC
        || u == 0xCBF
        || u == 0xCC2
        || u == 0xCC6
        || (0xCCC <= u && u <= 0xCCD)
        || (0xCD5 <= u && u <= 0xCD6)
        || (0xCE2 <= u && u <= 0xCE3)
        || (0xD00 <= u && u <= 0xD01)
        || (0xD3B <= u && u <= 0xD3C)
        || u == 0xD3E
        || (0xD41 <= u && u <= 0xD44)
        || u == 0xD4D
        || u == 0xD57
        || (0xD62 <= u && u <= 0xD63)
        || u == 0xD81
        || u == 0xDCA
        || u == 0xDCF
        || (0xDD2 <= u && u <= 0xDD4)
        || u == 0xDD6
        || u == 0xDDF
        || u == 0xE31
        || (0xE34 <= u && u <= 0xE3A)
        || (0xE47 <= u && u <= 0xE4E)
        || u == 0xEB1
        || (0xEB4 <= u && u <= 0xEBC)
        || (0xEC8 <= u && u <= 0xECD)
        || (0xF18 <= u && u <= 0xF19)
        || u == 0xF35
        || u == 0xF37
        || u == 0xF39
        || (0xF71 <= u && u <= 0xF7E)
        || (0xF80 <= u && u <= 0xF84)
        || (0xF86 <= u && u <= 0xF87)
        || (0xF8D <= u && u <= 0xF97)
        || (0xF99 <= u && u <= 0xFBC)
        || u == 0xFC6
        || (0x102D <= u && u <= 0x1030)
        || (0x1032 <= u && u <= 0x1037)
        || (0x1039 <= u && u <= 0x103A)
        || (0x103D <= u && u <= 0x103E)
        || (0x1058 <= u && u <= 0x1059)
        || (0x105E <= u && u <= 0x1060)
        || (0x1071 <= u && u <= 0x1074))
}
pub open spec fn spec_gr_extend_2(u: u32) -> bool {
    (0x1082 <= u && u <= 0x2DFF) && (u == 0x1082
        || (0x1085 <= u && u <= 0x1086)
        || u == 0x108D
        || u == 0x109D
        || (0x135D <= u && u <= 0x135F)
        || (0x1712 <= u && u <= 0x1714)
        || (0x1732 <= u && u <= 0x1733)
        || (0x1752 <= u && u <= 0x1753)
        || (0x1772 <= u && u <= 0x1773)
        || (0x17B4 <= u && u <= 0x17B5)
        || (0x17B7 <= u && u <= 0x17BD)
        || u == 0x17C6
        || (0x17C9 <= u && u <= 0x17D3)
        || u == 0x17DD
        || (0x180B <= u && u <= 0x180D)
        || u == 0x180F
        || (0x1885 <= u && u <= 0x1886)
        || u == 0x18A9
        || (0x1920 <= u && u <= 0x1922)
        || (0x1927 <= u && u <= 0x1928)
        || u == 0x1932
        || (0x1939 <= u && u <= 0x193B)
        || (0x1A17 <= u && u <= 0x1A18)
        || u == 0x1A1B
        || u == 0x1A56
        || (0x1A58 <= u && u <= 0x1A5E)
        || u == 0x1A60
        || u == 0x1A62
        || (0x1A65 <= u && u <= 0x1A6C)
        || (0x1A73 <= u && u <= 0x1A7C)
        || u == 0x1A7F
        || (0x1AB0 <= u && u <= 0x1ACE)
        || (0x1B00 <= u && u <= 0x1B03)
        || u == 0x1B34
        || (0x1B36 <= u && u <= 0x1B3A)
        || u == 0x1B3C
        || u == 0x1B42
        || (0x1B6B <= u && u <= 0x1B73)
        || (0x1B80 <= u && u <= 0x1B81)
        || (0x1BA2 <= u && u <= 0x1BA5)
        || (0x1BA8 <= u && u <= 0x1BA9)
        || (0x1BAB <= u && u <= 0x1BAD)
        || u == 0x1BE6
        || (0x1BE8 <= u && u <= 0x1BE9)
        || u == 0x1BED
        || (0x1BEF <= u && u <= 0x1BF1)
        || (0x1C2C <= u && u <= 0x1C33)
        || (0x1C36 <= u && u <= 0x1C37)
        || (0x1CD0 <= u && u <= 0x1CD2)
        || (0x1CD4 <= u && u <= 0x1CE0)
        || (0x1CE2 <= u && u <= 0x1CE8)
        || u == 0x1CED
        || u == 0x1CF4
        || (0x1CF8 <= u && u <= 0x1CF9)
        || (0x1DC0 <= u && u <= 0x1DFF)
        || u == 0x200C
        || (0x20D0 <= u && u <= 0x20F0)
        || (0x2CEF <= u && u <= 0x2CF1)
        || u == 0x2D7F
        || (0x2DE0 <= u && u <= 0x2DFF))
}
fn gr_extend_2(u: u32) -> (r: bool)
    ensures
        r == spec_gr_extend_2(u),
{
    (0x1082 <= u && u <= 0x2DFF) && (u == 0x1082
        || (0x1085 <= u && u <= 0x1086)
        || u == 0x108D
        || u == 0x109D
        || (0x135D <= u && u <= 0x135F)
        || (0x1712 <= u && u <= 0x1714)
        || (0x1732 <= u && u <= 0x1733)
        || (0x1752 <= u && u <= 0x1753)
        || (0x1772 <= u && u <= 0x1773)
        || (0x17B4 <= u && u <= 0x17B5)
        || (0x17B7 <= u && u <= 0x17BD)
        || u == 0x17C6
        || (0x17C9 <= u && u <= 0x17D3)
        || u == 0x17DD
        || (0x180B <= u && u <= 0x180D)
        || u == 0x180F
        || (0x1885 <= u && u <= 0x1886)
        || u == 0x18A9
        || (0x1920 <= u && u <= 0x1922)
        || (0x1927 <= u && u <= 0x1928)
        || u == 0x1932
        || (0x1939 <= u && u <= 0x193B)
        || (0x1A17 <= u && u <= 0x1A18)
        || u == 0x1A1B
        || u == 0x1A56
        || (0x1A58 <= u && u <= 0x1A5E)
        || u == 0x1A60
        || u == 0x1A62
        || (0x1A65 <= u && u <= 0x1A6C)
        || (0x1A73 <= u && u <= 0x1A7C)
        || u == 0x1A7F
        || (0x1AB0 <= u && u <= 0x1ACE)
        || (0x1B00 <= u && u <= 0x1B03)
        || u == 0x1B34
        || (0x1B36 <= u && u <= 0x1B3A)
        || u == 0x1B3C
        || u == 0x1B42
        || (0x1B6B <= u && u <= 0x1B73)
        || (0x1B80 <= u && u <= 0x1B81)
        || (0x1BA2 <= u && u <= 0x1BA5)
        || (0x1BA8 <= u && u <= 0x1BA9)
        || (0x1BAB <= u && u <= 0x1BAD)
        || u == 0x1BE6
        || (0x1BE8 <= u && u <= 0x1BE9)
        || u == 0x1BED
        || (0x1BEF <= u && u <= 0x1BF1)
        || (0x1C2C <= u && u <= 0x1C33)
        || (0x1C36 <= u && u <= 0x1C37)
        || (0x1CD0 <= u && u <= 0x1CD2)
        || (0x1CD4 <= u && u <= 0x1CE0)
        || (0x1CE2 <= u && u <= 0x1CE8)
        || u == 0x1CED
        || u == 0x1CF4
        || (0x1CF8 <= u && u <= 0x1CF9)
        || (0x1DC0 <= u && u <= 0x1DFF)
        || u == 0x200C
        || (0x20D0 <= u && u <= 0x20F0)
        || (0x2CEF <= u && u <= 0x2CF1)
        || u == 0x2D7F
        || (0x2DE0 <= u && u <= 0x2DFF))
}
pub open spec fn spec_gr_extend_3(u: u32) -> bool {
    (0x302A <= u && u <= 0x110B6) && ((0x302A <= u && u <= 0x302F)
        || (0x3099 <= u && u <= 0x309A)
        || (0xA66F <= u && u <= 0xA672)
        || (0xA674 <= u && u <= 0xA67D)
        || (0xA69E <= u && u <= 0xA69F)
        || (0xA6F0 <= u && u <= 0xA6F1)
        || u == 0xA802
        || u == 0xA806
        || u == 0xA80B
        || (0xA825 <= u && u <= 0xA826)
        || u == 0xA82C
        || (0xA8C4 <= u && u <= 0xA8C5)
        || (0xA8E0 <= u && u <= 0xA8F1)
        || u == 0xA8FF
        || (0xA926 <= u && u <= 0xA92D)
        || (0xA947 <= u && u <= 0xA951)
        || (0xA980 <= u && u <= 0xA982)
        || u == 0xA9B3
        || (0xA9B6 <= u && u <= 0xA9B9)
        || (0xA9BC <= u && u <= 0xA9BD)
        || u == 0xA9E5
        || (0xAA29 <= u && u <= 0xAA2E)
        || (0xAA31 <= u && u <= 0xAA32)
        || (0xAA35 <= u && u <= 0xAA36)
        || u == 0xAA43
        || u == 0xAA4C
        || u == 0xAA7C
        || u == 0xAAB0
        || (0xAAB2 <= u && u <= 0xAAB4)
        || (0xAAB7 <= u && u <= 0xAAB8)
        || (0xAABE <= u && u <= 0xAABF)
        || u == 0xAAC1
        || (0xAAEC <= u && u <= 0xAAED)
        || u == 0xAAF6
        || u == 0xABE5
        || u == 0xABE8
        || u == 0xABED
        || u == 0xFB1E
        || (0xFE00 <= u && u <= 0xFE0F)
        || (0xFE20 <= u && u <= 0xFE2F)
        || (0xFF9E <= u && u <= 0xFF9F)
        || u == 0x101FD
        || u == 0x102E0
        || (0x10376 <= u && u <= 0x1037A)
        || (0x10A01 <= u && u <= 0x10A03)
        || (0x10A05 <= u && u <= 0x10A06)
        || (0x10A0C <= u && u <= 0x10A0F)
        || (0x10A38 <= u && u <= 0x10A3A)
        || u == 0x10A3F
        || (0x10AE5 <= u && u <= 0x10AE6)
        || (0x10D24 <= u && u <= 0x10D27)
        || (0x10EAB <= u && u <= 0x10EAC)
        || (0x10F46 <= u && u <= 0x10F50)
        || (0x10F82 <= u && u <= 0x10F85)
        || u == 0x11001
        || (0x11038 <= u && u <= 0x11046)
        || u == 0x11070
        || (0x11073 <= u && u <= 0x11074)
        || (0x1107F <= u && u <= 0x11081)
        || (0x110B3 <= u && u <= 0x110B6))
}
fn gr_extend_3(u: u32) -> (r: bool)
    ensures
        r == spec_gr_extend_3(u),
{
    (0x302A <= u && u <= 0x110B6) && ((0x302A <= u && u <= 0x302F)
        || (0x3099 <= u && u <= 0x309A)
        || (0xA66F <= u && u <= 0xA672)
        || (0xA674 <= u && u <= 0xA67D)
        || (0xA69E <= u && u <= 0xA69F)
        || (0xA6F0 <= u && u <= 0xA6F1)
        || u == 0xA802
        || u == 0xA806
        || u == 0xA80B
        || (0xA825 <= u && u <= 0xA826)
        || u == 0xA82C
        || (0xA8C4 <= u && u <= 0xA8C5)
        || (0xA8E0 <= u && u <= 0xA8F1)
        || u == 0xA8FF
        || (0xA926 <= u && u <= 0xA92D)
        || (0xA947 <= u && u <= 0xA951)
        || (0xA980 <= u && u <= 0xA982)
        || u == 0xA9B3
        || (0xA9B6 <= u && u <= 0xA9B9)
        || (0xA9BC <= u && u <= 0xA9BD)
        || u == 0xA9E5
        || (0xAA29 <= u && u <= 0xAA2E)
        || (0xAA31 <= u && u <= 0xAA32)
        || (0xAA35 <= u && u <= 0xAA36)
        || u == 0xAA43
        || u == 0xAA4C
        || u == 0xAA7C
        || u == 0xAAB0
        || (0xAAB2 <= u && u <= 0xAAB4)
        || (0xAAB7 <= u && u <= 0xAAB8)
        || (0xAABE <= u && u <= 0xAABF)
        || u == 0xAAC1
        || (0xAAEC <= u && u <= 0xAAED)
        || u == 0xAAF6
        || u == 0xABE5
        || u == 0xABE8
        || u == 0xABED
        || u == 0xFB1E
        || (0xFE00 <= u && u <= 0xFE0F)
        || (0xFE20 <= u && u <= 0xFE2F)
        || (0xFF9E <= u && u <= 0xFF9F)
        || u == 0x101FD
        || u == 0x102E0
        || (0x10376 <= u && u <= 0x1037A)
        || (0x10A01 <= u && u <= 0x10A03)
        || (0x10A05 <= u && u <= 0x10A06)
        || (0x10A0C <= u && u <= 0x10A0F)
        || (0x10A38 <= u && u <= 0x10A3A)
        || u == 0x10A3F
        || (0x10AE5 <= u && u <= 0x10AE6)
        || (0x10D24 <= u && u <= 0x10D27)
        || (0x10EAB <= u && u <= 0x10EAC)
        || (0x10F46 <= u && u <= 0x10F50)
        || (0x10F82 <= u && u <= 0x10F85)
        || u == 0x11001
        || (0x11038 <= u && u <= 0x11046)
        || u == 0x11070
        || (0x11073 <= u && u <= 0x11074)
        || (0x1107F <= u && u <= 0x11081)
        || (0x110B3 <= u && u <= 0x110B6))
}
pub open spec fn spec_gr_extend_4(u: u32) -> bool {
    (0x110B9 <= u && u <= 0x11C36) && ((0x110B9 <= u && u <= 0x110BA)
        || u == 0x110C2
        || (0x11100 <= u && u <= 0x11102)
        || (0x11127 <= u && u <= 0x1112B)
        || (0x1112D <= u && u <= 0x11134)
        || u == 0x11173
        || (0x11180 <= u && u <= 0x11181)
        || (0x111B6 <= u && u <= 0x111BE)
        || (0x111C9 <= u && u <= 0x111CC)
        || u == 0x111CF
        || (0x1122F <= u && u <= 0x11231)
        || u == 0x11234
        || (0x11236 <= u && u <= 0x11237)
        || u == 0x1123E
        || u == 0x112DF
        || (0x112E3 <= u && u <= 0x112EA)
        || (0x11300 <= u && u <= 0x11301)
        || (0x1133B <= u && u <= 0x1133C)
        || u == 0x11340
        || (0x11366 <= u && u <= 0x1136C)
        || (0x11370 <= u && u <= 0x11374)
        || (0x11438 <= u && u <= 0x1143F)
        || (0x11442 <= u && u <= 0x11444)
        || u == 0x11446
        || u == 0x1145E
        || (0x114B3 <= u && u <= 0x114B8)
        || u == 0x114BA
        || (0x114BF <= u && u <= 0x114C0)
        || (0x114C2 <= u && u <= 0x114C3)
        || (0x115B2 <= u && u <= 0x115B5)
        || (0x115BC <= u && u <= 0x115BD)
        || (0x115BF <= u && u <= 0x115C0)
        || (0x115DC <= u && u <= 0x115DD)
        || (0x11633 <= u && u <= 0x1163A)
        || u == 0x1163D
        || (0x1163F <= u && u <= 0x11640)
        || u == 0x116AB
        || u == 0x116AD
        || (0x116B0 <= u && u <= 0x116B5)
        || u == 0x116B7
        || (0x1171D <= u && u <= 0x1171F)
        || (0x11722 <= u && u <= 0x11725)
        || (0x11727 <= u && u <= 0x1172B)
        || (0x1182F <= u && u <= 0x11837)
        || (0x11839 <= u && u <= 0x1183A)
        || (0x1193B <= u && u <= 0x1193C)
        || u == 0x1193E
        || u == 0x11943
        || (0x119D4 <= u && u <= 0x119D7)
        || (0x119DA <= u && u <= 0x119DB)
        || u == 0x119E0
        || (0x11A01 <= u && u <= 0x11A0A)
        || (0x11A33 <= u && u <= 0x11A38)
        || (0x11A3B <= u && u <= 0x11A3E)
        || u == 0x11A47
        || (0x11A51 <= u && u <= 0x11A56)
        || (0x11A59 <= u && u <= 0x11A5B)
        || (0x11A8A <= u && u <= 0x11A96)
        || (0x11A98 <= u && u <= 0x11A99)
        || (0x11C30 <= u && u <= 0x11C36))
}
fn gr_extend_4(u: u32) -> (r: bool)
    ensures
        r == spec_gr_extend_4(u),
{
    (0x110B9 <= u && u <= 0x11C36) && ((0x110B9 <= u && u <= 0x110BA)
        || u == 0x110C2
        || (0x11100 <= u && u <= 0x11102)
        || (0x11127 <= u && u <= 0x1112B)
        || (0x1112D <= u && u <= 0x11134)
        || u == 0x11173
        || (0x11180 <= u && u <= 0x11181)
        || (0x111B6 <= u && u <= 0x111BE)
        || (0x111C9 <= u && u <= 0x111CC)
        || u == 0x111CF
        || (0x1122F <= u && u <= 0x11231)
        || u == 0x11234
        || (0x11236 <= u && u <= 0x11237)
        || u == 0x1123E
        || u == 0x112DF
        || (0x112E3 <= u && u <= 0x112EA)
        || (0x11300 <= u && u <= 0x11301)
        || (0x1133B <= u && u <= 0x1133C)
        || u == 0x11340
        || (0x11366 <= u && u <= 0x1136C)
        || (0x11370 <= u && u <= 0x11374)
        || (0x11438 <= u && u <= 0x1143F)
        || (0x11442 <= u && u <= 0x11444)
        || u == 0x11446
        || u == 0x1145E
        || (0x114B3 <= u && u <= 0x114B8)
        || u == 0x114BA
        || (0x114BF <= u && u <= 0x114C0)
        || (0x114C2 <= u && u <= 0x114C3)
        || (0x115B2 <= u && u <= 0x115B5)
        || (0x115BC <= u && u <= 0x115BD)
        || (0x115BF <= u && u <= 0x115C0)
        || (0x115DC <= u && u <= 0x115DD)
        || (0x11633 <= u && u <= 0x1163A)
        || u == 0x1163D
        || (0x1163F <= u && u <= 0x11640)
        || u == 0x116AB
        || u == 0x116AD
        || (0x116B0 <= u && u <= 0x116B5)
        || u == 0x116B7
        || (0x1171D <= u && u <= 0x1171F)
        || (0x11722 <= u && u <= 0x11725)
        || (0x11727 <= u && u <= 0x1172B)
        || (0x1182F <= u && u <= 0x11837)
        || (0x11839 <= u && u <= 0x1183A)
        || (0x1193B <= u && u <= 0x1193C)
        || u == 0x1193E
        || u == 0x11943
        || (0x119D4 <= u && u <= 0x119D7)
        || (0x119DA <= u && u <= 0x119DB)
        || u == 0x119E0
        || (0x11A01 <= u && u <= 0x11A0A)
        || (0x11A33 <= u && u <= 0x11A38)
        || (0x11A3B <= u && u <= 0x11A3E)
        || u == 0x11A47
        || (0x11A51 <= u && u <= 0x11A56)
        || (0x11A59 <= u && u <= 0x11A5B)
        || (0x11A8A <= u && u <= 0x11A96)
        || (0x11A98 <= u && u <= 0x11A99)
        || (0x11C30 <= u && u <= 0x11C36))
}
pub open spec fn spec_gr_extend_5(u: u32) -> bool {
    (0x11C38 <= u && u <= 0xE01EF) && ((0x11C38 <= u && u <= 0x11C3D)
        || u == 0x11C3F
        || (0x11C92 <= u && u <= 0x11CA7)
        || (0x11CAA <= u && u <= 0x11CB0)
        || (0x11CB2 <= u && u <= 0x11CB3)
        || (0x11CB5 <= u && u <= 0x11CB6)
        || (0x11D31 <= u && u <= 0x11D36)
        || u == 0x11D3A
        || (0x11D3C <= u && u <= 0x11D3D)
        || (0x11D3F <= u && u <= 0x11D45)
        || u == 0x11D47
        || (0x11D90 <= u && u <= 0x11D91)
        || u == 0x11D95
        || u == 0x11D97
        || (0x11EF3 <= u && u <= 0x11EF4)
        || (0x16AF0 <= u && u <= 0x16AF4)
        || (0x16B30 <= u && u <= 0x16B36)
        || u == 0x16F4F
        || (0x16F8F <= u && u <= 0x16F92)
        || u == 0x16FE4
        || (0x1BC9D <= u && u <= 0x1BC9E)
        || (0x1CF00 <= u && u <= 0x1CF2D)
        || (0x1CF30 <= u && u <= 0x1CF46)
        || u == 0x1D165
        || (0x1D167 <= u && u <= 0x1D169)
        || (0x1D16E <= u && u <= 0x1D172)
        || (0x1D17B <= u && u <= 0x1D182)
        || (0x1D185 <= u && u <= 0x1D18B)
        || (0x1D1AA <= u && u <= 0x1D1AD)
        || (0x1D242 <= u && u <= 0x1D244)
        || (0x1DA00 <= u && u <= 0x1DA36)
        || (0x1DA3B <= u && u <= 0x1DA6C)
        || u == 0x1DA75
        || u == 0x1DA84
        || (0x1DA9B <= u && u <= 0x1DA9F)
        || (0x1DAA1 <= u && u <= 0x1DAAF)
        || (0x1E000 <= u && u <= 0x1E006)
        || (0x1E008 <= u && u <= 0x1E018)
        || (0x1E01B <= u && u <= 0x1E021)
        || (0x1E023 <= u && u <= 0x1E024)
        || (0x1E026 <= u && u <= 0x1E02A)
        || (0x1E130 <= u && u <= 0x1E136)
        || u == 0x1E2AE
        || (0x1E2EC <= u && u <= 0x1E2EF)
        || (0x1E8D0 <= u && u <= 0x1E8D6)
        || (0x1E944 <= u && u <= 0x1E94A)
        || (0xE0100 <= u && u <= 0xE01EF))
}
fn gr_extend_5(u: u32) -> (r: bool)
    ensures
        r == spec_gr_extend_5(u),
{
    (0x11C38 <= u && u <= 0xE01EF) && ((0x11C38 <= u && u <= 0x11C3D)
        || u == 0x11C3F
        || (0x11C92 <= u && u <= 0x11CA7)
        || (0x11CAA <= u && u <= 0x11CB0)
        || (0x11CB2 <= u && u <= 0x11CB3)
        || (0x11CB5 <= u && u <= 0x11CB6)
        || (0x11D31 <= u && u <= 0x11D36)
        || u == 0x11D3A
        || (0x11D3C <= u && u <= 0x11D3D)
        || (0x11D3F <= u && u <= 0x11D45)
        || u == 0x11D47
        || (0x11D90 <= u && u <= 0x11D91)
        || u == 0x11D95
        || u == 0x11D97
        || (0x11EF3 <= u && u <= 0x11EF4)
        || (0x16AF0 <= u && u <= 0x16AF4)
        || (0x16B30 <= u && u <= 0x16B36)
        || u == 0x16F4F
        || (0x16F8F <= u && u <= 0x16F92)
        || u == 0x16FE4
        || (0x1BC9D <= u && u <= 0x1BC9E)
        || (0x1CF00 <= u && u <= 0x1CF2D)
        || (0x1CF30 <= u && u <= 0x1CF46)
        || u == 0x1D165
        || (0x1D167 <= u && u <= 0x1D169)
        || (0x1D16E <= u && u <= 0x1D172)
        || (0x1D17B <= u && u <= 0x1D182)
        || (0x1D185 <= u && u <= 0x1D18B)
        || (0x1D1AA <= u && u <= 0x1D1AD)
        || (0x1D242 <= u && u <= 0x1D244)
        || (0x1DA00 <= u && u <= 0x1DA36)
        || (0x1DA3B <= u && u <= 0x1DA6C)
        || u == 0x1DA75
        || u == 0x1DA84
        || (0x1DA9B <= u && u <= 0x1DA9F)
        || (0x1DAA1 <= u && u <= 0x1DAAF)
        || (0x1E000 <= u && u <= 0x1E006)
        || (0x1E008 <= u && u <= 0x1E018)
        || (0x1E01B <= u && u <= 0x1E021)
        || (0x1E023 <= u && u <= 0x1E024)
        || (0x1E026 <= u && u <= 0x1E02A)
        || (0x1E130 <= u && u <= 0x1E136)
        || u == 0x1E2AE
        || (0x1E2EC <= u && u <= 0x1E2EF)
        || (0x1E8D0 <= u && u <= 0x1E8D6)
        || (0x1E944 <= u && u <= 0x1E94A)
        || (0xE0100 <= u && u <= 0xE01EF))
}
pub open spec fn spec_gr_extend(u: u32) -> bool {
    spec_gr_extend_0(u) || spec_gr_extend_1(u) || spec_gr_extend_2(u) || spec_gr_extend_3(u) || spec_gr_extend_4(u) || spec_gr_extend_5(u)
}
fn gr_extend(u: u32) -> (r: bool)
    ensures
        r == spec_gr_extend(u),
{
    gr_extend_0(u) || gr_extend_1(u) || gr_extend_2(u) || gr_extend_3(u) || gr_extend_4(u) || gr_extend_5(u)
}
pub open spec fn spec_gr_prepend_0(u: u32) -> bool {
    (0x600 <= u && u <= 0x111C3) && ((0x600 <= u && u <= 0x605)
        || u == 0x6DD
        || u == 0x70F
        || u == 0x8E2
        || u == 0xD4E
        || u == 0x110BD
        || (0x111C2 <= u && u <= 0x111C3))
}
fn gr_prepend_0(u: u32) -> (r: bool)
    ensures
        r == spec_gr_prepend_0(u),
{
    (0x600 <= u && u <= 0x111C3) && ((0x600 <= u && u <= 0x605)
        || u == 0x6DD
        || u == 0x70F
        || u == 0x8E2
        || u == 0xD4E
        || u == 0x110BD
        || (0x111C2 <= u && u <= 0x111C3))
}
pub open spec fn spec_gr_prepend(u: u32) -> bool {
    spec_gr_prepend_0(u)
}
fn gr_prepend(u: u32) -> (r: bool)
    ensures
        r == spec_gr_prepend(u),
{
    gr_prepend_0(u)
}
pub open spec fn spec_gr_spacingmark_0(u: u32) -> bool {
    (0x903 <= u && u <= 0x1A72) && (u == 0x903
        || u == 0x93B
        || (0x93E <= u && u <= 0x940)
        || (0x949 <= u && u <= 0x94C)
        || (0x94E <= u && u <= 0x94F)
        || (0x982 <= u && u <= 0x983)
        || (0x9BF <= u && u <= 0x9C0)
        || (0x9C7 <= u && u <= 0x9C8)
        || (0x9CB <= u && u <= 0x9CC)
        || u == 0xA03
        || (0xA3E <= u && u <= 0xA40)
        || u == 0xA83
        || (0xABE <= u && u <= 0xAC0)
        || u == 0xAC9
        || (0xACB <= u && u <= 0xACC)
        || (0xB02 <= u && u <= 0xB03)
        || u == 0xB40
        || (0xB47 <= u && u <= 0xB48)
        || (0xB4B <= u && u <= 0xB4C)
        || u == 0xBBF
        || (0xBC1 <= u && u <= 0xBC2)
        || (0xBC6 <= u && u <= 0xBC8)
        || (0xBCA <= u && u <= 0xBCC)
        || (0xC01 <= u && u <= 0xC03)
        || (0xC41 <= u && u <= 0xC44)
        || (0xC82 <= u && u <= 0xC83)
        || u == 0xCBE
        || (0xCC0 <= u && u <= 0xCC1)
        || (0xCC3 <= u && u <= 0xCC4)
        || (0xCC7 <= u && u <= 0xCC8)
        || (0xCCA <= u && u <= 0xCCB)
        || (0xD02 <= u && u <= 0xD03)
        || (0xD3F <= u && u <= 0xD40)
        || (0xD46 <= u && u <= 0xD48)
        || (0xD4A <= u && u <= 0xD4C)
        || (0xD82 <= u && u <= 0xD83)
        || (0xDD0 <= u && u <= 0xDD1)
        || (0xDD8 <= u && u <= 0xDDE)
        || (0xDF2 <= u && u <= 0xDF3)
        || u == 0xE33
        || u == 0xEB3
        || (0xF3E <= u && u <= 0xF3F)
        || u == 0xF7F
        || u == 0x1031
        || (0x103B <= u && u <= 0x103C)
        || (0x1056 <= u && u <= 0x1057)
        || u == 0x1084
        || u == 0x1715
        || u == 0x1734
        || u == 0x17B6
        || (0x17BE <= u && u <= 0x17C5)
        || (0x17C7 <= u && u <= 0x17C8)
        || (0x1923 <= u && u <= 0x1926)
        || (0x1929 <= u && u <= 0x192B)
        || (0x1930 <= u && u <= 0x1931)
        || (0x1933 <= u && u <= 0x1938)
        || (0x1A19 <= u && u <= 0x1A1A)
        || u == 0x1A55
        || u == 0x1A57
        || (0x1A6D <= u && u <= 0x1A72))
}
fn gr_spacingmark_0(u: u32) -> (r: bool)
    ensures
        r == spec_gr_spacingmark_0(u),
{
    (0x903 <= u && u <= 0x1A72) && (u == 0x903
        || u == 0x93B
        || (0x93E <= u && u <= 0x940)
        || (0x949 <= u && u <= 0x94C)
        || (0x94E <= u && u <= 0x94F)
        || (0x982 <= u && u <= 0x983)
        || (0x9BF <= u && u <= 0x9C0)
        || (0x9C7 <= u && u <= 0x9C8)
        || (0x9CB <= u && u <= 0x9CC)
        || u == 0xA03
        || (0xA3E <= u && u <= 0xA40)
        || u == 0xA83
        || (0xABE <= u && u <= 0xAC0)
        || u == 0xAC9
        || (0xACB <= u && u <= 0xACC)
        || (0xB02 <= u && u <= 0xB03)
        || u == 0xB40
        || (0xB47 <= u && u <= 0xB48)
        || (0xB4B <= u && u <= 0xB4C)
        || u == 0xBBF
        || (0xBC1 <= u && u <= 0xBC2)
        || (0xBC6 <= u && u <= 0xBC8)
        || (0xBCA <= u && u <= 0xBCC)
        || (0xC01 <= u && u <= 0xC03)
        || (0xC41 <= u && u <= 0xC44)
        || (0xC82 <= u && u <= 0xC83)
        || u == 0xCBE
        || (0xCC0 <= u && u <= 0xCC1)
        || (0xCC3 <= u && u <= 0xCC4)
        || (0xCC7 <= u && u <= 0xCC8)
        || (0xCCA <= u && u <= 0xCCB)
        || (0xD02 <= u && u <= 0xD03)
        || (0xD3F <= u && u <= 0xD40)
        || (0xD46 <= u && u <= 0xD48)
        || (0xD4A <= u && u <= 0xD4C)
        || (0xD82 <= u && u <= 0xD83)
        || (0xDD0 <= u && u <= 0xDD1)
        || (0xDD8 <= u && u <= 0xDDE)
        || (0xDF2 <= u && u <= 0xDF3)
        || u == 0xE33
        || u == 0xEB3
        || (0xF3E <= u && u <= 0xF3F)
        || u == 0xF7F
        || u == 0x1031
        || (0x103B <= u && u <= 0x103C)
        || (0x1056 <= u && u <= 0x1057)
        || u == 0x1084
        || u == 0x1715
        || u == 0x1734
        || u == 0x17B6
        || (0x17BE <= u && u <= 0x17C5)
        || (0x17C7 <= u && u <= 0x17C8)
        || (0x1923 <= u && u <= 0x1926)
        || (0x1929 <= u && u <= 0x192B)
        || (0x1930 <= u && u <= 0x1931)
        || (0x1933 <= u && u <= 0x1938)
        || (0x1A19 <= u && u <= 0x1A1A)
        || u == 0x1A55
        || u == 0x1A57
        || (0x1A6D <= u && u <= 0x1A72))
}
pub open spec fn spec_gr_spacingmark_1(u: u32) -> bool {
    (0x1B04 <= u && u <= 0x11441) && (u == 0x1B04
        || u == 0x1B35
        || u == 0x1B3B
        || (0x1B3D <= u && u <= 0x1B41)
        || (0x1B43 <= u && u <= 0x1B44)
        || u == 0x1B82
        || u == 0x1BA1
        || (0x1BA6 <= u && u <= 0x1BA7)
        || u == 0x1BAA
        || u == 0x1BE7
        || (0x1BEA <= u && u <= 0x1BEC)
        || u == 0x1BEE
        || (0x1BF2 <= u && u <= 0x1BF3)
        || (0x1C24 <= u && u <= 0x1C2B)
        || (0x1C34 <= u && u <= 0x1C35)
        || u == 0x1CE1
        || u == 0x1CF7
        || (0xA823 <= u && u <= 0xA824)
        || u == 0xA827
        || (0xA880 <= u && u <= 0xA881)
        || (0xA8B4 <= u && u <= 0xA8C3)
        || (0xA952 <= u && u <= 0xA953)
        || u == 0xA983
        || (0xA9B4 <= u && u <= 0xA9B5)
        || (0xA9BA <= u && u <= 0xA9BB)
        || (0xA9BE <= u && u <= 0xA9C0)
        || (0xAA2F <= u && u <= 0xAA30)
        || (0xAA33 <= u && u <= 0xAA34)
        || u == 0xAA4D
        || u == 0xAAEB
        || (0xAAEE <= u && u <= 0xAAEF)
        || u == 0xAAF5
        || (0xABE3 <= u && u <= 0xABE4)
        || (0xABE6 <= u && u <= 0xABE7)
        || (0xABE9 <= u && u <= 0xABEA)
        || u == 0xABEC
        || u == 0x11000
        || u == 0x11002
        || u == 0x11082
        || (0x110B0 <= u && u <= 0x110B2)
        || (0x110B7 <= u && u <= 0x110B8)
        || u == 0x1112C
        || (0x11145 <= u && u <= 0x11146)
        || u == 0x11182
        || (0x111B3 <= u && u <= 0x111B5)
        || (0x111BF <= u && u <= 0x111C0)
        || u == 0x111CE
        || (0x1122C <= u && u <= 0x1122E)
        || (0x11232 <= u && u <= 0x11233)
        || u == 0x11235
        || (0x112E0 <= u && u <= 0x112E2)
        || (0x11302 <= u && u <= 0x11303)
        || (0x1133E <= u && u <= 0x1133F)
        || (0x11341 <= u && u <= 0x11344)
        || (0x11347 <= u && u <= 0x11348)
        || (0x1134B <= u && u <= 0x1134D)
        || u == 0x11357
        || (0x11362 <= u && u <= 0x11363)
        || (0x11435 <= u && u <= 0x11437)
        || (0x11440 <= u && u <= 0x11441))
}
fn gr_spacingmark_1(u: u32) -> (r: bool)
    ensures
        r == spec_gr_spacingmark_1(u),
{
    (0x1B04 <= u && u <= 0x11441) && (u == 0x1B04
        || u == 0x1B35
        || u == 0x1B3B
        || (0x1B3D <= u && u <= 0x1B41)
        || (0x1B43 <= u && u <= 0x1B44)
        || u == 0x1B82
        || u == 0x1BA1
        || (0x1BA6 <= u && u <= 0x1BA7)
        || u == 0x1BAA
        || u == 0x1BE7
        || (0x1BEA <= u && u <= 0x1BEC)
        || u == 0x1BEE
        || (0x1BF2 <= u && u <= 0x1BF3)
        || (0x1C24 <= u && u <= 0x1C2B)
        || (0x1C34 <= u && u <= 0x1C35)
        || u == 0x1CE1
        || u == 0x1CF7
        || (0xA823 <= u && u <= 0xA824)
        || u == 0xA827
        || (0xA880 <= u && u <= 0xA881)
        || (0xA8B4 <= u && u <= 0xA8C3)
        || (0xA952 <= u && u <= 0xA953)
        || u == 0xA983
        || (0xA9B4 <= u && u <= 0xA9B5)
        || (0xA9BA <= u && u <= 0xA9BB)
        || (0xA9BE <= u && u <= 0xA9C0)
        || (0xAA2F <= u && u <= 0xAA30)
        || (0xAA33 <= u && u <= 0xAA34)
        || u == 0xAA4D
        || u == 0xAAEB
        || (0xAAEE <= u && u <= 0xAAEF)
        || u == 0xAAF5
        || (0xABE3 <= u && u <= 0xABE4)
        || (0xABE6 <= u && u <= 0xABE7)
        || (0xABE9 <= u && u <= 0xABEA)
        || u == 0xABEC
        || u == 0x11000
        || u == 0x11002
        || u == 0x11082
        || (0x110B0 <= u && u <= 0x110B2)
        || (0x110B7 <= u && u <= 0x110B8)
        || u == 0x1112C
        || (0x11145 <= u && u <= 0x11146)
        || u == 0x11182
        || (0x111B3 <= u && u <= 0x111B5)
        || (0x111BF <= u && u <= 0x111C0)
        || u == 0x111CE
        || (0x1122C <= u && u <= 0x1122E)
        || (0x11232 <= u && u <= 0x11233)
        || u == 0x11235
        || (0x112E0 <= u && u <= 0x112E2)
        || (0x11302 <= u && u <= 0x11303)
        || (0x1133E <= u && u <= 0x1133F)
        || (0x11341 <= u && u <= 0x11344)
        || (0x11347 <= u && u <= 0x11348)
        || (0x1134B <= u && u <= 0x1134D)
        || u == 0x11357
        || (0x11362 <= u && u <= 0x11363)
        || (0x11435 <= u && u <= 0x11437)
        || (0x11440 <= u && u <= 0x11441))
}
pub open spec fn spec_gr_spacingmark_2(u: u32) -> bool {
    (0x11445 <= u && u <= 0x1D16D) && (u == 0x11445
        || (0x114B0 <= u && u <= 0x114B2)
        || u == 0x114B9
        || (0x114BB <= u && u <= 0x114BE)
        || u == 0x114C1
        || (0x115AF <= u && u <= 0x115B1)
        || (0x115B8 <= u && u <= 0x115BB)
        || u == 0x115BE
        || (0x11630 <= u && u <= 0x11632)
        || (0x1163B <= u && u <= 0x1163C)
        || u == 0x1163E
        || u == 0x116AC
        || (0x116AE <= u && u <= 0x116AF)
        || u == 0x116B6
        || u == 0x11726
        || (0x1182C <= u && u <= 0x1182E)
        || u == 0x11838
        || (0x11930 <= u && u <= 0x11935)
        || (0x11937 <= u && u <= 0x11938)
        || u == 0x1193D
        || u == 0x11940
        || u == 0x11942
        || (0x119D1 <= u && u <= 0x119D3)
        || (0x119DC <= u && u <= 0x119DF)
        || u == 0x119E4
        || u == 0x11A39
        || (0x11A57 <= u && u <= 0x11A58)
        || u == 0x11A97
        || u == 0x11C2F
        || u == 0x11C3E
        || u == 0x11CA9
        || u == 0x11CB1
        || u == 0x11CB4
        || (0x11D8A <= u && u <= 0x11D8E)
        || (0x11D93 <= u && u <= 0x11D94)
        || u == 0x11D96
        || (0x11EF5 <= u && u <= 0x11EF6)
        || (0x16F51 <= u && u <= 0x16F87)
        || (0x16FF0 <= u && u <= 0x16FF1)
        || u == 0x1D166
        || u == 0x1D16D)
}
fn gr_spacingmark_2(u: u32) -> (r: bool)
    ensures
        r == spec_gr_spacingmark_2(u),
{
    (0x11445 <= u && u <= 0x1D16D) && (u == 0x11445
        || (0x114B0 <= u && u <= 0x114B2)
        || u == 0x114B9
        || (0x114BB <= u && u <= 0x114BE)
        || u == 0x114C1
        || (0x115AF <= u && u <= 0x115B1)
        || (0x115B8 <= u && u <= 0x115BB)
        || u == 0x115BE
        || (0x11630 <= u && u <= 0x11632)
        || (0x1163B <= u && u <= 0x1163C)
        || u == 0x1163E
        || u == 0x116AC
        || (0x116AE <= u && u <= 0x116AF)
        || u == 0x116B6
        || u == 0x11726
        || (0x1182C <= u && u <= 0x1182E)
        || u == 0x11838
        || (0x11930 <= u && u <= 0x11935)
        || (0x11937 <= u && u <= 0x11938)
        || u == 0x1193D
        || u == 0x11940
        || u == 0x11942
        || (0x119D1 <= u && u <= 0x119D3)
        || (0x119DC <= u && u <= 0x119DF)
        || u == 0x119E4
        || u == 0x11A39
        || (0x11A57 <= u && u <= 0x11A58)
        || u == 0x11A97
        || u == 0x11C2F
        || u == 0x11C3E
        || u == 0x11CA9
        || u == 0x11CB1
        || u == 0x11CB4
        || (0x11D8A <= u && u <= 0x11D8E)
        || (0x11D93 <= u && u <= 0x11D94)
        || u == 0x11D96
        || (0x11EF5 <= u && u <= 0x11EF6)
        || (0x16F51 <= u && u <= 0x16F87)
        || (0x16FF0 <= u && u <= 0x16FF1)
        || u == 0x1D166
        || u == 0x1D16D)
}
pub open spec fn spec_gr_spacingmark(u: u32) -> bool {
    spec_gr_spacingmark_0(u) || spec_gr_spacingmark_1(u) || spec_gr_spacingmark_2(u)
}
fn gr_spacingmark(u: u32) -> (r: bool)
    ensures
        r == spec_gr_spacingmark(u),
{
    gr_spacingmark_0(u) || gr_spacingmark_1(u) || gr_spacingmark_2(u)
}
pub open spec fn spec_gr_e_base_0(u: u32) -> bool {
    (0x261D <= u && u <= 0x1F9DD) && (u == 0x261D
        || u == 0x26F9
        || (0x270A <= u && u <= 0x270D)
        || u == 0x1F385
        || (0x1F3C3 <= u && u <= 0x1F3C4)
        || (0x1F3CA <= u && u <= 0x1F3CB)
        || (0x1F442 <= u && u <= 0x1F443)
        || (0x1F446 <= u && u <= 0x1F450)
        || u == 0x1F46E
        || (0x1F470 <= u && u <= 0x1F478)
        || u == 0x1F47C
        || (0x1F481 <= u && u <= 0x1F483)
        || (0x1F485 <= u && u <= 0x1F487)
        || u == 0x1F4AA
        || (0x1F574 <= u && u <= 0x1F575)
        || u == 0x1F57A
        || u == 0x1F590
        || (0x1F595 <= u && u <= 0x1F596)
        || (0x1F645 <= u && u <= 0x1F647)
        || (0x1F64B <= u && u <= 0x1F64F)
        || u == 0x1F6A3
        || (0x1F6B4 <= u && u <= 0x1F6B6)
        || u == 0x1F6C0
        || u == 0x1F6CC
        || (0x1F918 <= u && u <= 0x1F91E)
        || u == 0x1F926
        || u == 0x1F930
        || (0x1F933 <= u && u <= 0x1F939)
        || (0x1F93C <= u && u <= 0x1F93E)
        || (0x1F9D1 <= u && u <= 0x1F9DD))
}
fn gr_e_base_0(u: u32) -> (r: bool)
    ensures
        r == spec_gr_e_base_0(u),
{
    (0x261D <= u && u <= 0x1F9DD) && (u == 0x261D
        || u == 0x26F9
        || (0x270A <= u && u <= 0x270D)
        || u == 0x1F385
        || (0x1F3C3 <= u && u <= 0x1F3C4)
        || (0x1F3CA <= u && u <= 0x1F3CB)
        || (0x1F442 <= u && u <= 0x1F443)
        || (0x1F446 <= u && u <= 0x1F450)
        || u == 0x1F46E
        || (0x1F470 <= u && u <= 0x1F478)
        || u == 0x1F47C
        || (0x1F481 <= u && u <= 0x1F483)
        || (0x1F485 <= u && u <= 0x1F487)
        || u == 0x1F4AA
        || (0x1F574 <= u && u <= 0x1F575)
        || u == 0x1F57A
        || u == 0x1F590
        || (0x1F595 <= u && u <= 0x1F596)
        || (0x1F645 <= u && u <= 0x1F647)
        || (0x1F64B <= u && u <= 0x1F64F)
        || u == 0x1F6A3
        || (0x1F6B4 <= u && u <= 0x1F6B6)
        || u == 0x1F6C0
        || u == 0x1F6CC
        || (0x1F918 <= u && u <= 0x1F91E)
        || u == 0x1F926
        || u == 0x1F930
        || (0x1F933 <= u && u <= 0x1F939)
        || (0x1F93C <= u && u <= 0x1F93E)
        || (0x1F9D1 <= u && u <= 0x1F9DD))
}
pub open spec fn spec_gr_e_base(u: u32) -> bool {
    spec_gr_e_base_0(u)
}
fn gr_e_base(u: u32) -> (r: bool)
    ensures
        r == spec_gr_e_base(u),
{
    gr_e_base_0(u)
}
pub open spec fn spec_gr_gaz_0(u: u32) -> bool {
    (0x2640 <= u && u <= 0x1F5E8) && (u == 0x2640
        || u == 0x2642
        || (0x2695 <= u && u <= 0x2696)
        || u == 0x2708
        || u == 0x2764
        || u == 0x1F48B
        || u == 0x1F5E8)
}
fn gr_gaz_0(u: u32) -> (r: bool)
    ensures
        r == spec_gr_gaz_0(u),
{
    (0x2640 <= u && u <= 0x1F5E8) && (u == 0x2640
        || u == 0x2642
        || (0x2695 <= u && u <= 0x2696)
        || u == 0x2708
        || u == 0x2764
        || u == 0x1F48B
        || u == 0x1F5E8)
}
pub open spec fn spec_gr_gaz(u: u32) -> bool {
    spec_gr_gaz_0(u)
}
fn gr_gaz(u: u32) -> (r: bool)
    ensures
        r == spec_gr_gaz(u),
{
    gr_gaz_0(u)
}
pub open spec fn spec_gr_hangul_l_0(u: u32) -> bool {
    (0x1100 <= u && u <= 0xA97C) && ((0x1100 <= u && u <= 0x115F)
        || (0xA960 <= u && u <= 0xA97C))
}
fn gr_hangul_l_0(u: u32) -> (r: bool)
    ensures
        r == spec_gr_hangul_l_0(u),
{
    (0x1100 <= u && u <= 0xA97C) && ((0x1100 <= u && u <= 0x115F)
        || (0xA960 <= u && u <= 0xA97C))
}
pub open spec fn spec_gr_hangul_l(u: u32) -> bool {
    spec_gr_hangul_l_0(u)
}
fn gr_hangul_l(u: u32) -> (r: bool)
    ensures
        r == spec_gr_hangul_l(u),
{
    gr_hangul_l_0(u)
}
pub open spec fn spec_gr_hangul_v_0(u: u32) -> bool {
    (0x1160 <= u && u <= 0xD7C6) && ((0x1160 <= u && u <= 0x11A7)
        || (0xD7B0 <= u && u <= 0xD7C6))
}
fn gr_hangul_v_0(u: u32) -> (r: bool)
    ensures
        r == spec_gr_hangul_v_0(u),
{
    (0x1160 <= u && u <= 0xD7C6) && ((0x1160 <= u && u <= 0x11A7)
        || (0xD7B0 <= u && u <= 0xD7C6))
}
pub open spec fn spec_gr_hangul_v(u: u32) -> bool {
    spec_gr_hangul_v_0(u)
}
fn gr_hangul_v(u: u32) -> (r: bool)
    ensures
        r == spec_gr_hangul_v(u),
{
    gr_hangul_v_0(u)
}
pub open spec fn spec_gr_hangul_t_0(u: u32) -> bool {
    (0x11A8 <= u && u <= 0xD7FB) && ((0x11A8 <= u && u <= 0x11FF)
        || (0xD7CB <= u && u <= 0xD7FB))
}
fn gr_hangul_t_0(u: u32) -> (r: bool)
    ensures
        r == spec_gr_hangul_t_0(u),
{
    (0x11A8 <= u && u <= 0xD7FB) && ((0x11A8 <= u && u <= 0x11FF)
        || (0xD7CB <= u && u <= 0xD7FB))
}
pub open spec fn spec_gr_hangul_t(u: u32) -> bool {
    spec_gr_hangul_t_0(u)
}
fn gr_hangul_t(u: u32) -> (r: bool)
    ensures
        r == spec_gr_hangul_t(u),
{
    gr_hangul_t_0(u)
}
/// Grapheme-cluster break category of a character, as a specification.
pub open spec fn spec_grapheme_category(c: char) -> GraphemeCat {
    let u = c as u32;
    if u == 0x200D {
        GraphemeCat::GC_ZWJ
    } else if 0x1F1E6 <= u && u <= 0x1F1FF {
        GraphemeCat::GC_Regional_Indicator
    } else if 0x1F3FB <= u && u <= 0x1F3FF {
        GraphemeCat::GC_E_Modifier
    } else if 0x1F466 <= u && u <= 0x1F469 {
        GraphemeCat::GC_E_Base_GAZ
    } else if 0xAC00 <= u && u <= 0xD7A3 {
        if (u - 0xAC00) % 28 == 0 {
            GraphemeCat::GC_LV
        } else {
            GraphemeCat::GC_LVT
        }
    } else if spec_gr_control(u) {
        GraphemeCat::GC_Control
    } else if spec_gr_extend(u) {
        GraphemeCat::GC_Extend
    } else if spec_gr_prepend(u) {
        GraphemeCat::GC_Prepend
    } else if spec_gr_spacingmark(u) {
        GraphemeCat::GC_SpacingMark
    } else if spec_gr_hangul_l(u) {
        GraphemeCat::GC_L
    } else if spec_gr_hangul_v(u) {
        GraphemeCat::GC_V
    } else if spec_gr_hangul_t(u) {
        GraphemeCat::GC_T
    } else if spec_gr_e_base(u) {
        GraphemeCat::GC_E_Base
    } else if spec_gr_gaz(u) {
        GraphemeCat::GC_Glue_After_Zwj
    } else {
        GraphemeCat::GC_Any
    }
}

/// Grapheme-cluster break category of a character.
pub fn grapheme_category(c: char) -> (r: GraphemeCat)
    ensures
        r == spec_grapheme_category(c),
{
    let u: u32 = c as u32;
    if u == 0x200D {
        GraphemeCat::GC_ZWJ
    } else if 0x1F1E6 <= u && u <= 0x1F1FF {
        GraphemeCat::GC_Regional_Indicator
    } else if 0x1F3FB <= u && u <= 0x1F3FF {
        GraphemeCat::GC_E_Modifier
    } else if 0x1F466 <= u && u <= 0x1F469 {
        GraphemeCat::GC_E_Base_GAZ
    } else if 0xAC00 <= u && u <= 0xD7A3 {
        if (u - 0xAC00) % 28 == 0 {
            GraphemeCat::GC_LV
        } else {
            GraphemeCat::GC_LVT
        }
    } else if gr_control(u) {
        GraphemeCat::GC_Control
    } else if gr_extend(u) {
        GraphemeCat::GC_Extend
    } else if gr_prepend(u) {
        GraphemeCat::GC_Prepend
    } else if gr_spacingmark(u) {
        GraphemeCat::GC_SpacingMark
    } else if gr_hangul_l(u) {
        GraphemeCat::GC_L
    } else if gr_hangul_v(u) {
        GraphemeCat::GC_V
    } else if gr_hangul_t(u) {
        GraphemeCat::GC_T
    } else if gr_e_base(u) {
        GraphemeCat::GC_E_Base
    } else if gr_gaz(u) {
        GraphemeCat::GC_Glue_After_Zwj
    } else {
        GraphemeCat::GC_Any
    }
}

} // verus!
