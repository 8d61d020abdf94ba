//! Precomputed Unicode property tables, sorted ascending by code point.

use vstd::prelude::*;

verus! {

/// The script tag `Arab`.
pub const SCRIPT_ARABIC: u32 = 0x41726162;
/// The script tag `Armn`.
pub const SCRIPT_ARMENIAN: u32 = 0x41726D6E;
/// The script tag `Beng`.
pub const SCRIPT_BENGALI: u32 = 0x42656E67;
/// The script tag `Bopo`.
pub const SCRIPT_BOPOMOFO: u32 = 0x426F706F;
/// The script tag `Brai`.
pub const SCRIPT_BRAILLE: u32 = 0x42726169;
/// The script tag `Cher`.
pub const SCRIPT_CHEROKEE: u32 = 0x43686572;
/// The script tag `Zyyy`.
pub const SCRIPT_COMMON: u32 = 0x5A797979;
/// The script tag `Copt`.
pub const SCRIPT_COPTIC: u32 = 0x436F7074;
/// The script tag `Cyrl`.
pub const SCRIPT_CYRILLIC: u32 = 0x4379726C;
/// The script tag `Deva`.
pub const SCRIPT_DEVANAGARI: u32 = 0x44657661;
/// The script tag `Ethi`.
pub const SCRIPT_ETHIOPIC: u32 = 0x45746869;
/// The script tag `Geor`.
pub const SCRIPT_GEORGIAN: u32 = 0x47656F72;
/// The script tag `Grek`.
pub const SCRIPT_GREEK: u32 = 0x4772656B;
/// The script tag `Gujr`.
pub const SCRIPT_GUJARATI: u32 = 0x47756A72;
/// The script tag `Guru`.
pub const SCRIPT_GURMUKHI: u32 = 0x47757275;
/// The script tag `Hani`.
pub const SCRIPT_HAN: u32 = 0x48616E69;
/// The script tag `Hang`.
pub const SCRIPT_HANGUL: u32 = 0x48616E67;
/// The script tag `Hebr`.
pub const SCRIPT_HEBREW: u32 = 0x48656272;
/// The script tag `Hira`.
pub const SCRIPT_HIRAGANA: u32 = 0x48697261;
/// The script tag `Zinh`.
pub const SCRIPT_INHERITED: u32 = 0x5A696E68;
/// The script tag `Knda`.
pub const SCRIPT_KANNADA: u32 = 0x4B6E6461;
/// The script tag `Kana`.
pub const SCRIPT_KATAKANA: u32 = 0x4B616E61;
/// The script tag `Khmr`.
pub const SCRIPT_KHMER: u32 = 0x4B686D72;
/// The script tag `Laoo`.
pub const SCRIPT_LAO: u32 = 0x4C616F6F;
/// The script tag `Latn`.
pub const SCRIPT_LATIN: u32 = 0x4C61746E;
/// The script tag `Mlym`.
pub const SCRIPT_MALAYALAM: u32 = 0x4D6C796D;
/// The script tag `Mong`.
pub const SCRIPT_MONGOLIAN: u32 = 0x4D6F6E67;
/// The script tag `Mymr`.
pub const SCRIPT_MYANMAR: u32 = 0x4D796D72;
/// The script tag `Orya`.
pub const SCRIPT_ORIYA: u32 = 0x4F727961;
/// The script tag `Sinh`.
pub const SCRIPT_SINHALA: u32 = 0x53696E68;
/// The script tag `Taml`.
pub const SCRIPT_TAMIL: u32 = 0x54616D6C;
/// The script tag `Telu`.
pub const SCRIPT_TELUGU: u32 = 0x54656C75;
/// The script tag `Thai`.
pub const SCRIPT_THAI: u32 = 0x54686169;
/// The script tag `Tibt`.
pub const SCRIPT_TIBETAN: u32 = 0x54696274;
/// The script tag `Zzzz`.
pub const SCRIPT_UNKNOWN: u32 = 0x5A7A7A7A;
/// The script tag `Yiii`.
pub const SCRIPT_YI: u32 = 0x59696969;

/// Disjoint inclusive code point ranges, ascending, each with its script.
pub const SCRIPT_RANGES: [(u32, u32, u32); 204] = [
    (0x0000, 0x0040, SCRIPT_COMMON),
    (0x0041, 0x005A, SCRIPT_LATIN),
    (0x005B, 0x0060, SCRIPT_COMMON),
    (0x0061, 0x007A, SCRIPT_LATIN),
    (0x007B, 0x00A9, SCRIPT_COMMON),
    (0x00AA, 0x00AA, SCRIPT_LATIN),
    (0x00AB, 0x00B9, SCRIPT_COMMON),
    (0x00BA, 0x00BA, SCRIPT_LATIN),
    (0x00BB, 0x00BF, SCRIPT_COMMON),
    (0x00C0, 0x00D6, SCRIPT_LATIN),
    (0x00D7, 0x00D7, SCRIPT_COMMON),
    (0x00D8, 0x00F6, SCRIPT_LATIN),
    (0x00F7, 0x00F7, SCRIPT_COMMON),
    (0x00F8, 0x02B8, SCRIPT_LATIN),
    (0x02B9, 0x02DF, SCRIPT_COMMON),
    (0x02E0, 0x02E4, SCRIPT_LATIN),
    (0x02E5, 0x02E9, SCRIPT_COMMON),
    (0x02EA, 0x02EB, SCRIPT_BOPOMOFO),
    (0x02EC, 0x02FF, SCRIPT_COMMON),
    (0x0300, 0x036F, SCRIPT_INHERITED),
    (0x0370, 0x0373, SCRIPT_GREEK),
    (0x0374, 0x0374, SCRIPT_COMMON),
    (0x0375, 0x0377, SCRIPT_GREEK),
    (0x037A, 0x037D, SCRIPT_GREEK),
    (0x037E, 0x037E, SCRIPT_COMMON),
    (0x037F, 0x037F, SCRIPT_GREEK),
    (0x0384, 0x0384, SCRIPT_GREEK),
    (0x0385, 0x0385, SCRIPT_COMMON),
    (0x0386, 0x0386, SCRIPT_GREEK),
    (0x0387, 0x0387, SCRIPT_COMMON),
    (0x0388, 0x038A, SCRIPT_GREEK),
    (0x038C, 0x038C, SCRIPT_GREEK),
    (0x038E, 0x03A1, SCRIPT_GREEK),
    (0x03A3, 0x03E1, SCRIPT_GREEK),
    (0x03E2, 0x03EF, SCRIPT_COPTIC),
    (0x03F0, 0x03FF, SCRIPT_GREEK),
    (0x0400, 0x0484, SCRIPT_CYRILLIC),
    (0x0485, 0x0486, SCRIPT_INHERITED),
    (0x0487, 0x052F, SCRIPT_CYRILLIC),
    (0x0531, 0x0556, SCRIPT_ARMENIAN),
    (0x0559, 0x058A, SCRIPT_ARMENIAN),
    (0x058D, 0x058F, SCRIPT_ARMENIAN),
    (0x0591, 0x05C7, SCRIPT_HEBREW),
    (0x05D0, 0x05EA, SCRIPT_HEBREW),
    (0x05EF, 0x05F4, SCRIPT_HEBREW),
    (0x0600, 0x0604, SCRIPT_ARABIC),
    (0x0605, 0x0605, SCRIPT_COMMON),
    (0x0606, 0x060B, SCRIPT_ARABIC),
    (0x060C, 0x060C, SCRIPT_COMMON),
    (0x060D, 0x061A, SCRIPT_ARABIC),
    (0x061B, 0x061B, SCRIPT_COMMON),
    (0x061C, 0x061E, SCRIPT_ARABIC),
    (0x061F, 0x061F, SCRIPT_COMMON),
    (0x0620, 0x063F, SCRIPT_ARABIC),
    (0x0640, 0x0640, SCRIPT_COMMON),
    (0x0641, 0x064A, SCRIPT_ARABIC),
    (0x064B, 0x0655, SCRIPT_INHERITED),
    (0x0656, 0x066F, SCRIPT_ARABIC),
    (0x0670, 0x0670, SCRIPT_INHERITED),
    (0x0671, 0x06DC, SCRIPT_ARABIC),
    (0x06DD, 0x06DD, SCRIPT_COMMON),
    (0x06DE, 0x06FF, SCRIPT_ARABIC),
    (0x0900, 0x0950, SCRIPT_DEVANAGARI),
    (0x0951, 0x0954, SCRIPT_INHERITED),
    (0x0955, 0x0963, SCRIPT_DEVANAGARI),
    (0x0964, 0x0965, SCRIPT_COMMON),
    (0x0966, 0x097F, SCRIPT_DEVANAGARI),
    (0x0980, 0x0983, SCRIPT_BENGALI),
    (0x0985, 0x09FE, SCRIPT_BENGALI),
    (0x0A01, 0x0A76, SCRIPT_GURMUKHI),
    (0x0A81, 0x0AFF, SCRIPT_GUJARATI),
    (0x0B01, 0x0B77, SCRIPT_ORIYA),
    (0x0B82, 0x0BFA, SCRIPT_TAMIL),
    (0x0C00, 0x0C7F, SCRIPT_TELUGU),
    (0x0C80, 0x0CF3, SCRIPT_KANNADA),
    (0x0D00, 0x0D7F, SCRIPT_MALAYALAM),
    (0x0D81, 0x0DF4, SCRIPT_SINHALA),
    (0x0E01, 0x0E3A, SCRIPT_THAI),
    (0x0E3F, 0x0E3F, SCRIPT_COMMON),
    (0x0E40, 0x0E5B, SCRIPT_THAI),
    (0x0E81, 0x0EDF, SCRIPT_LAO),
    (0x0F00, 0x0FD4, SCRIPT_TIBETAN),
    (0x0FD5, 0x0FD8, SCRIPT_COMMON),
    (0x0FD9, 0x0FDA, SCRIPT_TIBETAN),
    (0x1000, 0x109F, SCRIPT_MYANMAR),
    (0x10A0, 0x10FA, SCRIPT_GEORGIAN),
    (0x10FB, 0x10FB, SCRIPT_COMMON),
    (0x10FC, 0x10FF, SCRIPT_GEORGIAN),
    (0x1100, 0x11FF, SCRIPT_HANGUL),
    (0x1200, 0x1399, SCRIPT_ETHIOPIC),
    (0x13A0, 0x13FD, SCRIPT_CHEROKEE),
    (0x1780, 0x17F9, SCRIPT_KHMER),
    (0x1800, 0x1801, SCRIPT_MONGOLIAN),
    (0x1802, 0x1803, SCRIPT_COMMON),
    (0x1804, 0x1804, SCRIPT_MONGOLIAN),
    (0x1805, 0x1805, SCRIPT_COMMON),
    (0x1806, 0x18AA, SCRIPT_MONGOLIAN),
    (0x1AB0, 0x1ACE, SCRIPT_INHERITED),
    (0x1CD0, 0x1CD2, SCRIPT_INHERITED),
    (0x1D00, 0x1D25, SCRIPT_LATIN),
    (0x1D26, 0x1D2A, SCRIPT_GREEK),
    (0x1D2B, 0x1D2B, SCRIPT_CYRILLIC),
    (0x1D2C, 0x1D5C, SCRIPT_LATIN),
    (0x1D5D, 0x1D61, SCRIPT_GREEK),
    (0x1D62, 0x1D65, SCRIPT_LATIN),
    (0x1D66, 0x1D6A, SCRIPT_GREEK),
    (0x1D6B, 0x1D77, SCRIPT_LATIN),
    (0x1D78, 0x1D78, SCRIPT_CYRILLIC),
    (0x1D79, 0x1DBE, SCRIPT_LATIN),
    (0x1DBF, 0x1DBF, SCRIPT_GREEK),
    (0x1DC0, 0x1DFF, SCRIPT_INHERITED),
    (0x1E00, 0x1EFF, SCRIPT_LATIN),
    (0x1F00, 0x1FFE, SCRIPT_GREEK),
    (0x2000, 0x200B, SCRIPT_COMMON),
    (0x200C, 0x200D, SCRIPT_INHERITED),
    (0x200E, 0x2064, SCRIPT_COMMON),
    (0x2066, 0x2070, SCRIPT_COMMON),
    (0x2071, 0x2071, SCRIPT_LATIN),
    (0x2074, 0x207E, SCRIPT_COMMON),
    (0x207F, 0x207F, SCRIPT_LATIN),
    (0x2080, 0x208E, SCRIPT_COMMON),
    (0x2090, 0x209C, SCRIPT_LATIN),
    (0x20A0, 0x20C0, SCRIPT_COMMON),
    (0x20D0, 0x20F0, SCRIPT_INHERITED),
    (0x2100, 0x2125, SCRIPT_COMMON),
    (0x2126, 0x2126, SCRIPT_GREEK),
    (0x2127, 0x2129, SCRIPT_COMMON),
    (0x212A, 0x212B, SCRIPT_LATIN),
    (0x212C, 0x2131, SCRIPT_COMMON),
    (0x2132, 0x2132, SCRIPT_LATIN),
    (0x2133, 0x214D, SCRIPT_COMMON),
    (0x214E, 0x214E, SCRIPT_LATIN),
    (0x214F, 0x215F, SCRIPT_COMMON),
    (0x2160, 0x2188, SCRIPT_LATIN),
    (0x2189, 0x218B, SCRIPT_COMMON),
    (0x2190, 0x2426, SCRIPT_COMMON),
    (0x2440, 0x244A, SCRIPT_COMMON),
    (0x2460, 0x27FF, SCRIPT_COMMON),
    (0x2800, 0x28FF, SCRIPT_BRAILLE),
    (0x2900, 0x2B73, SCRIPT_COMMON),
    (0x2C60, 0x2C7F, SCRIPT_LATIN),
    (0x2D00, 0x2D2D, SCRIPT_GEORGIAN),
    (0x2E00, 0x2E5D, SCRIPT_COMMON),
    (0x2E80, 0x2FD5, SCRIPT_HAN),
    (0x3000, 0x3004, SCRIPT_COMMON),
    (0x3005, 0x3005, SCRIPT_HAN),
    (0x3006, 0x3006, SCRIPT_COMMON),
    (0x3007, 0x3007, SCRIPT_HAN),
    (0x3008, 0x3020, SCRIPT_COMMON),
    (0x3021, 0x3029, SCRIPT_HAN),
    (0x302A, 0x302D, SCRIPT_INHERITED),
    (0x302E, 0x302F, SCRIPT_HANGUL),
    (0x3030, 0x3037, SCRIPT_COMMON),
    (0x3038, 0x303B, SCRIPT_HAN),
    (0x303C, 0x303F, SCRIPT_COMMON),
    (0x3041, 0x3096, SCRIPT_HIRAGANA),
    (0x3099, 0x309A, SCRIPT_INHERITED),
    (0x309B, 0x309C, SCRIPT_COMMON),
    (0x309D, 0x309F, SCRIPT_HIRAGANA),
    (0x30A0, 0x30A0, SCRIPT_COMMON),
    (0x30A1, 0x30FA, SCRIPT_KATAKANA),
    (0x30FB, 0x30FC, SCRIPT_COMMON),
    (0x30FD, 0x30FF, SCRIPT_KATAKANA),
    (0x3105, 0x312F, SCRIPT_BOPOMOFO),
    (0x3131, 0x318E, SCRIPT_HANGUL),
    (0x3400, 0x4DBF, SCRIPT_HAN),
    (0x4DC0, 0x4DFF, SCRIPT_COMMON),
    (0x4E00, 0x9FFF, SCRIPT_HAN),
    (0xA000, 0xA4C6, SCRIPT_YI),
    (0xA720, 0xA721, SCRIPT_COMMON),
    (0xA722, 0xA787, SCRIPT_LATIN),
    (0xA788, 0xA78A, SCRIPT_COMMON),
    (0xA78B, 0xA7FF, SCRIPT_LATIN),
    (0xA8E0, 0xA8FF, SCRIPT_DEVANAGARI),
    (0xA960, 0xA97C, SCRIPT_HANGUL),
    (0xAB30, 0xAB5A, SCRIPT_LATIN),
    (0xAC00, 0xD7A3, SCRIPT_HANGUL),
    (0xD7B0, 0xD7FB, SCRIPT_HANGUL),
    (0xF900, 0xFAD9, SCRIPT_HAN),
    (0xFB00, 0xFB06, SCRIPT_LATIN),
    (0xFB1D, 0xFB4F, SCRIPT_HEBREW),
    (0xFB50, 0xFDFF, SCRIPT_ARABIC),
    (0xFE00, 0xFE0F, SCRIPT_INHERITED),
    (0xFE10, 0xFE19, SCRIPT_COMMON),
    (0xFE20, 0xFE2D, SCRIPT_INHERITED),
    (0xFE30, 0xFE6B, SCRIPT_COMMON),
    (0xFE70, 0xFEFC, SCRIPT_ARABIC),
    (0xFEFF, 0xFEFF, SCRIPT_COMMON),
    (0xFF01, 0xFF20, SCRIPT_COMMON),
    (0xFF21, 0xFF3A, SCRIPT_LATIN),
    (0xFF3B, 0xFF40, SCRIPT_COMMON),
    (0xFF41, 0xFF5A, SCRIPT_LATIN),
    (0xFF5B, 0xFF65, SCRIPT_COMMON),
    (0xFF66, 0xFF6F, SCRIPT_KATAKANA),
    (0xFF70, 0xFF70, SCRIPT_COMMON),
    (0xFF71, 0xFF9D, SCRIPT_KATAKANA),
    (0xFF9E, 0xFF9F, SCRIPT_COMMON),
    (0xFFA0, 0xFFDC, SCRIPT_HANGUL),
    (0xFFE0, 0xFFFD, SCRIPT_COMMON),
    (0x1F000, 0x1FAFF, SCRIPT_COMMON),
    (0x20000, 0x2A6DF, SCRIPT_HAN),
    (0x2A700, 0x2EBE0, SCRIPT_HAN),
    (0xE0001, 0xE007F, SCRIPT_COMMON),
    (0xE0100, 0xE01EF, SCRIPT_INHERITED),
];

/// Every range of `r` is non-empty and lies strictly before the next one.
pub open spec fn ranges_sorted(r: Seq<(u32, u32, u32)>) -> bool {
    &&& forall|i: int| 0 <= i < r.len() ==> (#[trigger] r[i]).0 <= r[i].1
    &&& forall|i: int, j: int| 0 <= i < j < r.len() ==> (#[trigger] r[i]).1 < (#[trigger] r[j]).0
}

/// Ranges ordered pairwise from neighbour to neighbour are ordered throughout.
proof fn lemma_adjacent_ranges_sorted(r: Seq<(u32, u32, u32)>)
    requires
        forall|i: int| 0 <= i < r.len() ==> (#[trigger] r[i]).0 <= r[i].1,
        forall|i: int| 0 <= i < r.len() - 1 ==> (#[trigger] r[i]).1 < r[i + 1].0,
    ensures
        ranges_sorted(r),
    decreases r.len(),
{
    if r.len() > 0 {
        let t = r.drop_first();
        assert forall|i: int| 0 <= i < t.len() - 1 implies (#[trigger] t[i]).1 < t[i + 1].0 by {
            assert(r[i + 1].1 < r[i + 2].0);
        }
        assert forall|i: int| 0 <= i < t.len() implies (#[trigger] t[i]).0 <= t[i].1 by {
            assert(r[i + 1].0 <= r[i + 1].1);
        }
        lemma_adjacent_ranges_sorted(t);
        assert forall|i: int, j: int| 0 <= i < j < r.len() implies (#[trigger] r[i]).1 < (
        #[trigger] r[j]).0 by {
            if i > 0 {
                assert(t[i - 1] == r[i] && t[j - 1] == r[j]);
            } else if j > 1 {
                assert(t[0] == r[1] && t[j - 1] == r[j]);
                assert(r[1].0 <= r[1].1);
            }
        }
    }
}

/// The script table is well formed.
#[verifier::rlimit(100)]
#[verifier::spinoff_prover]
pub proof fn lemma_script_ranges_sorted()
    ensures
        ranges_sorted(SCRIPT_RANGES@),
{
    let r = SCRIPT_RANGES@;
    assert(r.len() == 204);
    assert(r[0].1 < r[1].0);
    assert(r[1].1 < r[2].0);
    assert(r[2].1 < r[3].0);
    assert(r[3].1 < r[4].0);
    assert(r[4].1 < r[5].0);
    assert(r[5].1 < r[6].0);
    assert(r[6].1 < r[7].0);
    assert(r[7].1 < r[8].0);
    assert(r[8].1 < r[9].0);
    assert(r[9].1 < r[10].0);
    assert(r[10].1 < r[11].0);
    assert(r[11].1 < r[12].0);
    assert(r[12].1 < r[13].0);
    assert(r[13].1 < r[14].0);
    assert(r[14].1 < r[15].0);
    assert(r[15].1 < r[16].0);
    assert(r[16].1 < r[17].0);
    assert(r[17].1 < r[18].0);
    assert(r[18].1 < r[19].0);
    assert(r[19].1 < r[20].0);
    assert(r[20].1 < r[21].0);
    assert(r[21].1 < r[22].0);
    assert(r[22].1 < r[23].0);
    assert(r[23].1 < r[24].0);
    assert(r[24].1 < r[25].0);
    assert(r[25].1 < r[26].0);
    assert(r[26].1 < r[27].0);
    assert(r[27].1 < r[28].0);
    assert(r[28].1 < r[29].0);
    assert(r[29].1 < r[30].0);
    assert(r[30].1 < r[31].0);
    assert(r[31].1 < r[32].0);
    assert(r[32].1 < r[33].0);
    assert(r[33].1 < r[34].0);
    assert(r[34].1 < r[35].0);
    assert(r[35].1 < r[36].0);
    assert(r[36].1 < r[37].0);
    assert(r[37].1 < r[38].0);
    assert(r[38].1 < r[39].0);
    assert(r[39].1 < r[40].0);
    assert(r[40].1 < r[41].0);
    assert(r[41].1 < r[42].0);
    assert(r[42].1 < r[43].0);
    assert(r[43].1 < r[44].0);
    assert(r[44].1 < r[45].0);
    assert(r[45].1 < r[46].0);
    assert(r[46].1 < r[47].0);
    assert(r[47].1 < r[48].0);
    assert(r[48].1 < r[49].0);
    assert(r[49].1 < r[50].0);
    assert(r[50].1 < r[51].0);
    assert(r[51].1 < r[52].0);
    assert(r[52].1 < r[53].0);
    assert(r[53].1 < r[54].0);
    assert(r[54].1 < r[55].0);
    assert(r[55].1 < r[56].0);
    assert(r[56].1 < r[57].0);
    assert(r[57].1 < r[58].0);
    assert(r[58].1 < r[59].0);
    assert(r[59].1 < r[60].0);
    assert(r[60].1 < r[61].0);
    assert(r[61].1 < r[62].0);
    assert(r[62].1 < r[63].0);
    assert(r[63].1 < r[64].0);
    assert(r[64].1 < r[65].0);
    assert(r[65].1 < r[66].0);
    assert(r[66].1 < r[67].0);
    assert(r[67].1 < r[68].0);
    assert(r[68].1 < r[69].0);
    assert(r[69].1 < r[70].0);
    assert(r[70].1 < r[71].0);
    assert(r[71].1 < r[72].0);
    assert(r[72].1 < r[73].0);
    assert(r[73].1 < r[74].0);
    assert(r[74].1 < r[75].0);
    assert(r[75].1 < r[76].0);
    assert(r[76].1 < r[77].0);
    assert(r[77].1 < r[78].0);
    assert(r[78].1 < r[79].0);
    assert(r[79].1 < r[80].0);
    assert(r[80].1 < r[81].0);
    assert(r[81].1 < r[82].0);
    assert(r[82].1 < r[83].0);
    assert(r[83].1 < r[84].0);
    assert(r[84].1 < r[85].0);
    assert(r[85].1 < r[86].0);
    assert(r[86].1 < r[87].0);
    assert(r[87].1 < r[88].0);
    assert(r[88].1 < r[89].0);
    assert(r[89].1 < r[90].0);
    assert(r[90].1 < r[91].0);
    assert(r[91].1 < r[92].0);
    assert(r[92].1 < r[93].0);
    assert(r[93].1 < r[94].0);
    assert(r[94].1 < r[95].0);
    assert(r[95].1 < r[96].0);
    assert(r[96].1 < r[97].0);
    assert(r[97].1 < r[98].0);
    assert(r[98].1 < r[99].0);
    assert(r[99].1 < r[100].0);
    assert(r[100].1 < r[101].0);
    assert(r[101].1 < r[102].0);
    assert(r[102].1 < r[103].0);
    assert(r[103].1 < r[104].0);
    assert(r[104].1 < r[105].0);
    assert(r[105].1 < r[106].0);
    assert(r[106].1 < r[107].0);
    assert(r[107].1 < r[108].0);
    assert(r[108].1 < r[109].0);
    assert(r[109].1 < r[110].0);
    assert(r[110].1 < r[111].0);
    assert(r[111].1 < r[112].0);
    assert(r[112].1 < r[113].0);
    assert(r[113].1 < r[114].0);
    assert(r[114].1 < r[115].0);
    assert(r[115].1 < r[116].0);
    assert(r[116].1 < r[117].0);
    assert(r[117].1 < r[118].0);
    assert(r[118].1 < r[119].0);
    assert(r[119].1 < r[120].0);
    assert(r[120].1 < r[121].0);
    assert(r[121].1 < r[122].0);
    assert(r[122].1 < r[123].0);
    assert(r[123].1 < r[124].0);
    assert(r[124].1 < r[125].0);
    assert(r[125].1 < r[126].0);
    assert(r[126].1 < r[127].0);
    assert(r[127].1 < r[128].0);
    assert(r[128].1 < r[129].0);
    assert(r[129].1 < r[130].0);
    assert(r[130].1 < r[131].0);
    assert(r[131].1 < r[132].0);
    assert(r[132].1 < r[133].0);
    assert(r[133].1 < r[134].0);
    assert(r[134].1 < r[135].0);
    assert(r[135].1 < r[136].0);
    assert(r[136].1 < r[137].0);
    assert(r[137].1 < r[138].0);
    assert(r[138].1 < r[139].0);
    assert(r[139].1 < r[140].0);
    assert(r[140].1 < r[141].0);
    assert(r[141].1 < r[142].0);
    assert(r[142].1 < r[143].0);
    assert(r[143].1 < r[144].0);
    assert(r[144].1 < r[145].0);
    assert(r[145].1 < r[146].0);
    assert(r[146].1 < r[147].0);
    assert(r[147].1 < r[148].0);
    assert(r[148].1 < r[149].0);
    assert(r[149].1 < r[150].0);
    assert(r[150].1 < r[151].0);
    assert(r[151].1 < r[152].0);
    assert(r[152].1 < r[153].0);
    assert(r[153].1 < r[154].0);
    assert(r[154].1 < r[155].0);
    assert(r[155].1 < r[156].0);
    assert(r[156].1 < r[157].0);
    assert(r[157].1 < r[158].0);
    assert(r[158].1 < r[159].0);
    assert(r[159].1 < r[160].0);
    assert(r[160].1 < r[161].0);
    assert(r[161].1 < r[162].0);
    assert(r[162].1 < r[163].0);
    assert(r[163].1 < r[164].0);
    assert(r[164].1 < r[165].0);
    assert(r[165].1 < r[166].0);
    assert(r[166].1 < r[167].0);
    assert(r[167].1 < r[168].0);
    assert(r[168].1 < r[169].0);
    assert(r[169].1 < r[170].0);
    assert(r[170].1 < r[171].0);
    assert(r[171].1 < r[172].0);
    assert(r[172].1 < r[173].0);
    assert(r[173].1 < r[174].0);
    assert(r[174].1 < r[175].0);
    assert(r[175].1 < r[176].0);
    assert(r[176].1 < r[177].0);
    assert(r[177].1 < r[178].0);
    assert(r[178].1 < r[179].0);
    assert(r[179].1 < r[180].0);
    assert(r[180].1 < r[181].0);
    assert(r[181].1 < r[182].0);
    assert(r[182].1 < r[183].0);
    assert(r[183].1 < r[184].0);
    assert(r[184].1 < r[185].0);
    assert(r[185].1 < r[186].0);
    assert(r[186].1 < r[187].0);
    assert(r[187].1 < r[188].0);
    assert(r[188].1 < r[189].0);
    assert(r[189].1 < r[190].0);
    assert(r[190].1 < r[191].0);
    assert(r[191].1 < r[192].0);
    assert(r[192].1 < r[193].0);
    assert(r[193].1 < r[194].0);
    assert(r[194].1 < r[195].0);
    assert(r[195].1 < r[196].0);
    assert(r[196].1 < r[197].0);
    assert(r[197].1 < r[198].0);
    assert(r[198].1 < r[199].0);
    assert(r[199].1 < r[200].0);
    assert(r[200].1 < r[201].0);
    assert(r[201].1 < r[202].0);
    assert(r[202].1 < r[203].0);
    assert forall|i: int| 0 <= i < r.len() - 1 implies (#[trigger] r[i]).1 < r[i + 1].0 by {}
    assert forall|i: int| 0 <= i < r.len() implies (#[trigger] r[i]).0 <= r[i].1 by {}
    lemma_adjacent_ranges_sorted(r);
}


/// Canonical decompositions into two code points, ascending by the decomposed code point.
pub const CANONICAL_DECOMP: [(u32, u32, u32); 250] = [
    (0x00C0, 0x0041, 0x0300),
    (0x00C1, 0x0041, 0x0301),
    (0x00C2, 0x0041, 0x0302),
    (0x00C3, 0x0041, 0x0303),
    (0x00C4, 0x0041, 0x0308),
    (0x00C5, 0x0041, 0x030A),
    (0x00C7, 0x0043, 0x0327),
    (0x00C8, 0x0045, 0x0300),
    (0x00C9, 0x0045, 0x0301),
    (0x00CA, 0x0045, 0x0302),
    (0x00CB, 0x0045, 0x0308),
    (0x00CC, 0x0049, 0x0300),
    (0x00CD, 0x0049, 0x0301),
    (0x00CE, 0x0049, 0x0302),
    (0x00CF, 0x0049, 0x0308),
    (0x00D1, 0x004E, 0x0303),
    (0x00D2, 0x004F, 0x0300),
    (0x00D3, 0x004F, 0x0301),
    (0x00D4, 0x004F, 0x0302),
    (0x00D5, 0x004F, 0x0303),
    (0x00D6, 0x004F, 0x0308),
    (0x00D9, 0x0055, 0x0300),
    (0x00DA, 0x0055, 0x0301),
    (0x00DB, 0x0055, 0x0302),
    (0x00DC, 0x0055, 0x0308),
    (0x00DD, 0x0059, 0x0301),
    (0x00E0, 0x0061, 0x0300),
    (0x00E1, 0x0061, 0x0301),
    (0x00E2, 0x0061, 0x0302),
    (0x00E3, 0x0061, 0x0303),
    (0x00E4, 0x0061, 0x0308),
    (0x00E5, 0x0061, 0x030A),
    (0x00E7, 0x0063, 0x0327),
    (0x00E8, 0x0065, 0x0300),
    (0x00E9, 0x0065, 0x0301),
    (0x00EA, 0x0065, 0x0302),
    (0x00EB, 0x0065, 0x0308),
    (0x00EC, 0x0069, 0x0300),
    (0x00ED, 0x0069, 0x0301),
    (0x00EE, 0x0069, 0x0302),
    (0x00EF, 0x0069, 0x0308),
    (0x00F1, 0x006E, 0x0303),
    (0x00F2, 0x006F, 0x0300),
    (0x00F3, 0x006F, 0x0301),
    (0x00F4, 0x006F, 0x0302),
    (0x00F5, 0x006F, 0x0303),
    (0x00F6, 0x006F, 0x0308),
    (0x00F9, 0x0075, 0x0300),
    (0x00FA, 0x0075, 0x0301),
    (0x00FB, 0x0075, 0x0302),
    (0x00FC, 0x0075, 0x0308),
    (0x00FD, 0x0079, 0x0301),
    (0x00FF, 0x0079, 0x0308),
    (0x0100, 0x0041, 0x0304),
    (0x0101, 0x0061, 0x0304),
    (0x0102, 0x0041, 0x0306),
    (0x0103, 0x0061, 0x0306),
    (0x0104, 0x0041, 0x0328),
    (0x0105, 0x0061, 0x0328),
    (0x0106, 0x0043, 0x0301),
    (0x0107, 0x0063, 0x0301),
    (0x0108, 0x0043, 0x0302),
    (0x0109, 0x0063, 0x0302),
    (0x010A, 0x0043, 0x0307),
    (0x010B, 0x0063, 0x0307),
    (0x010C, 0x0043, 0x030C),
    (0x010D, 0x0063, 0x030C),
    (0x010E, 0x0044, 0x030C),
    (0x010F, 0x0064, 0x030C),
    (0x0112, 0x0045, 0x0304),
    (0x0113, 0x0065, 0x0304),
    (0x0114, 0x0045, 0x0306),
    (0x0115, 0x0065, 0x0306),
    (0x0116, 0x0045, 0x0307),
    (0x0117, 0x0065, 0x0307),
    (0x0118, 0x0045, 0x0328),
    (0x0119, 0x0065, 0x0328),
    (0x011A, 0x0045, 0x030C),
    (0x011B, 0x0065, 0x030C),
    (0x011C, 0x0047, 0x0302),
    (0x011D, 0x0067, 0x0302),
    (0x011E, 0x0047, 0x0306),
    (0x011F, 0x0067, 0x0306),
    (0x0120, 0x0047, 0x0307),
    (0x0121, 0x0067, 0x0307),
    (0x0122, 0x0047, 0x0327),
    (0x0123, 0x0067, 0x0327),
    (0x0124, 0x0048, 0x0302),
    (0x0125, 0x0068, 0x0302),
    (0x0128, 0x0049, 0x0303),
    (0x0129, 0x0069, 0x0303),
    (0x012A, 0x0049, 0x0304),
    (0x012B, 0x0069, 0x0304),
    (0x012C, 0x0049, 0x0306),
    (0x012D, 0x0069, 0x0306),
    (0x012E, 0x0049, 0x0328),
    (0x012F, 0x0069, 0x0328),
    (0x0130, 0x0049, 0x0307),
    (0x0134, 0x004A, 0x0302),
    (0x0135, 0x006A, 0x0302),
    (0x0136, 0x004B, 0x0327),
    (0x0137, 0x006B, 0x0327),
    (0x0139, 0x004C, 0x0301),
    (0x013A, 0x006C, 0x0301),
    (0x013B, 0x004C, 0x0327),
    (0x013C, 0x006C, 0x0327),
    (0x013D, 0x004C, 0x030C),
    (0x013E, 0x006C, 0x030C),
    (0x0143, 0x004E, 0x0301),
    (0x0144, 0x006E, 0x0301),
    (0x0145, 0x004E, 0x0327),
    (0x0146, 0x006E, 0x0327),
    (0x0147, 0x004E, 0x030C),
    (0x0148, 0x006E, 0x030C),
    (0x014C, 0x004F, 0x0304),
    (0x014D, 0x006F, 0x0304),
    (0x014E, 0x004F, 0x0306),
    (0x014F, 0x006F, 0x0306),
    (0x0150, 0x004F, 0x030B),
    (0x0151, 0x006F, 0x030B),
    (0x0154, 0x0052, 0x0301),
    (0x0155, 0x0072, 0x0301),
    (0x0156, 0x0052, 0x0327),
    (0x0157, 0x0072, 0x0327),
    (0x0158, 0x0052, 0x030C),
    (0x0159, 0x0072, 0x030C),
    (0x015A, 0x0053, 0x0301),
    (0x015B, 0x0073, 0x0301),
    (0x015C, 0x0053, 0x0302),
    (0x015D, 0x0073, 0x0302),
    (0x015E, 0x0053, 0x0327),
    (0x015F, 0x0073, 0x0327),
    (0x0160, 0x0053, 0x030C),
    (0x0161, 0x0073, 0x030C),
    (0x0162, 0x0054, 0x0327),
    (0x0163, 0x0074, 0x0327),
    (0x0164, 0x0054, 0x030C),
    (0x0165, 0x0074, 0x030C),
    (0x0168, 0x0055, 0x0303),
    (0x0169, 0x0075, 0x0303),
    (0x016A, 0x0055, 0x0304),
    (0x016B, 0x0075, 0x0304),
    (0x016C, 0x0055, 0x0306),
    (0x016D, 0x0075, 0x0306),
    (0x016E, 0x0055, 0x030A),
    (0x016F, 0x0075, 0x030A),
    (0x0170, 0x0055, 0x030B),
    (0x0171, 0x0075, 0x030B),
    (0x0172, 0x0055, 0x0328),
    (0x0173, 0x0075, 0x0328),
    (0x0174, 0x0057, 0x0302),
    (0x0175, 0x0077, 0x0302),
    (0x0176, 0x0059, 0x0302),
    (0x0177, 0x0079, 0x0302),
    (0x0178, 0x0059, 0x0308),
    (0x0179, 0x005A, 0x0301),
    (0x017A, 0x007A, 0x0301),
    (0x017B, 0x005A, 0x0307),
    (0x017C, 0x007A, 0x0307),
    (0x017D, 0x005A, 0x030C),
    (0x017E, 0x007A, 0x030C),
    (0x0385, 0x00A8, 0x0301),
    (0x0386, 0x0391, 0x0301),
    (0x0388, 0x0395, 0x0301),
    (0x0389, 0x0397, 0x0301),
    (0x038A, 0x0399, 0x0301),
    (0x038C, 0x039F, 0x0301),
    (0x038E, 0x03A5, 0x0301),
    (0x038F, 0x03A9, 0x0301),
    (0x0390, 0x03CA, 0x0301),
    (0x03AA, 0x0399, 0x0308),
    (0x03AB, 0x03A5, 0x0308),
    (0x03AC, 0x03B1, 0x0301),
    (0x03AD, 0x03B5, 0x0301),
    (0x03AE, 0x03B7, 0x0301),
    (0x03AF, 0x03B9, 0x0301),
    (0x03B0, 0x03CB, 0x0301),
    (0x03CA, 0x03B9, 0x0308),
    (0x03CB, 0x03C5, 0x0308),
    (0x03CC, 0x03BF, 0x0301),
    (0x03CD, 0x03C5, 0x0301),
    (0x03CE, 0x03C9, 0x0301),
    (0x0400, 0x0415, 0x0300),
    (0x0401, 0x0415, 0x0308),
    (0x0403, 0x0413, 0x0301),
    (0x0407, 0x0406, 0x0308),
    (0x040C, 0x041A, 0x0301),
    (0x040D, 0x0418, 0x0300),
    (0x040E, 0x0423, 0x0306),
    (0x0419, 0x0418, 0x0306),
    (0x0439, 0x0438, 0x0306),
    (0x0450, 0x0435, 0x0300),
    (0x0451, 0x0435, 0x0308),
    (0x0453, 0x0433, 0x0301),
    (0x0457, 0x0456, 0x0308),
    (0x045C, 0x043A, 0x0301),
    (0x045D, 0x0438, 0x0300),
    (0x045E, 0x0443, 0x0306),
    (0x0476, 0x0474, 0x030F),
    (0x0477, 0x0475, 0x030F),
    (0x04C1, 0x0416, 0x0306),
    (0x04C2, 0x0436, 0x0306),
    (0x04D0, 0x0410, 0x0306),
    (0x04D1, 0x0430, 0x0306),
    (0x04D2, 0x0410, 0x0308),
    (0x04D3, 0x0430, 0x0308),
    (0x04D6, 0x0415, 0x0306),
    (0x04D7, 0x0435, 0x0306),
    (0x04DA, 0x04D8, 0x0308),
    (0x04DB, 0x04D9, 0x0308),
    (0x04DC, 0x0416, 0x0308),
    (0x04DD, 0x0436, 0x0308),
    (0x04DE, 0x0417, 0x0308),
    (0x04DF, 0x0437, 0x0308),
    (0x04E2, 0x0418, 0x0304),
    (0x04E3, 0x0438, 0x0304),
    (0x04E4, 0x0418, 0x0308),
    (0x04E5, 0x0438, 0x0308),
    (0x04E6, 0x041E, 0x0308),
    (0x04E7, 0x043E, 0x0308),
    (0x04EA, 0x04E8, 0x0308),
    (0x04EB, 0x04E9, 0x0308),
    (0x04EC, 0x042D, 0x0308),
    (0x04ED, 0x044D, 0x0308),
    (0x04EE, 0x0423, 0x0304),
    (0x04EF, 0x0443, 0x0304),
    (0x04F0, 0x0423, 0x0308),
    (0x04F1, 0x0443, 0x0308),
    (0x04F2, 0x0423, 0x030B),
    (0x04F3, 0x0443, 0x030B),
    (0x04F4, 0x0427, 0x0308),
    (0x04F5, 0x0447, 0x0308),
    (0x04F8, 0x042B, 0x0308),
    (0x04F9, 0x044B, 0x0308),
    (0x0929, 0x0928, 0x093C),
    (0x0931, 0x0930, 0x093C),
    (0x0934, 0x0933, 0x093C),
    (0x0958, 0x0915, 0x093C),
    (0x0959, 0x0916, 0x093C),
    (0x095A, 0x0917, 0x093C),
    (0x095B, 0x091C, 0x093C),
    (0x095C, 0x0921, 0x093C),
    (0x095D, 0x0922, 0x093C),
    (0x095E, 0x092B, 0x093C),
    (0x095F, 0x092F, 0x093C),
    (0x09CB, 0x09C7, 0x09BE),
    (0x09CC, 0x09C7, 0x09D7),
    (0x09DC, 0x09A1, 0x09BC),
    (0x09DD, 0x09A2, 0x09BC),
    (0x09DF, 0x09AF, 0x09BC),
];

/// Bidi mirroring pairs, ascending by the first code point.
pub const MIRROR_PAIRS: [(u32, u32); 82] = [
    (0x0028, 0x0029),
    (0x0029, 0x0028),
    (0x003C, 0x003E),
    (0x003E, 0x003C),
    (0x005B, 0x005D),
    (0x005D, 0x005B),
    (0x007B, 0x007D),
    (0x007D, 0x007B),
    (0x00AB, 0x00BB),
    (0x00BB, 0x00AB),
    (0x0F3A, 0x0F3B),
    (0x0F3B, 0x0F3A),
    (0x0F3C, 0x0F3D),
    (0x0F3D, 0x0F3C),
    (0x169B, 0x169C),
    (0x169C, 0x169B),
    (0x2039, 0x203A),
    (0x203A, 0x2039),
    (0x2045, 0x2046),
    (0x2046, 0x2045),
    (0x207D, 0x207E),
    (0x207E, 0x207D),
    (0x208D, 0x208E),
    (0x208E, 0x208D),
    (0x2208, 0x220B),
    (0x2209, 0x220C),
    (0x220A, 0x220D),
    (0x220B, 0x2208),
    (0x220C, 0x2209),
    (0x220D, 0x220A),
    (0x2215, 0x29F5),
    (0x223C, 0x223D),
    (0x223D, 0x223C),
    (0x2243, 0x22CD),
    (0x2252, 0x2253),
    (0x2253, 0x2252),
    (0x2254, 0x2255),
    (0x2255, 0x2254),
    (0x2264, 0x2265),
    (0x2265, 0x2264),
    (0x2266, 0x2267),
    (0x2267, 0x2266),
    (0x226A, 0x226B),
    (0x226B, 0x226A),
    (0x226E, 0x226F),
    (0x226F, 0x226E),
    (0x2270, 0x2271),
    (0x2271, 0x2270),
    (0x2282, 0x2283),
    (0x2283, 0x2282),
    (0x2286, 0x2287),
    (0x2287, 0x2286),
    (0x2308, 0x2309),
    (0x2309, 0x2308),
    (0x230A, 0x230B),
    (0x230B, 0x230A),
    (0x2329, 0x232A),
    (0x232A, 0x2329),
    (0x27E6, 0x27E7),
    (0x27E7, 0x27E6),
    (0x27E8, 0x27E9),
    (0x27E9, 0x27E8),
    (0x27EA, 0x27EB),
    (0x27EB, 0x27EA),
    (0x3008, 0x3009),
    (0x3009, 0x3008),
    (0x300A, 0x300B),
    (0x300B, 0x300A),
    (0x300C, 0x300D),
    (0x300D, 0x300C),
    (0x300E, 0x300F),
    (0x300F, 0x300E),
    (0x3010, 0x3011),
    (0x3011, 0x3010),
    (0xFF08, 0xFF09),
    (0xFF09, 0xFF08),
    (0xFF1C, 0xFF1E),
    (0xFF1E, 0xFF1C),
    (0xFF3B, 0xFF3D),
    (0xFF3D, 0xFF3B),
    (0xFF5B, 0xFF5D),
    (0xFF5D, 0xFF5B),
];

/// The keys of `r` are strictly ascending.
pub open spec fn keys_sorted<A, B>(r: Seq<(u32, A, B)>) -> bool {
    forall|i: int, j: int| 0 <= i < j < r.len() ==> (#[trigger] r[i]).0 < (#[trigger] r[j]).0
}

/// The keys of `r` are strictly ascending.
pub open spec fn pair_keys_sorted(r: Seq<(u32, u32)>) -> bool {
    forall|i: int, j: int| 0 <= i < j < r.len() ==> (#[trigger] r[i]).0 < (#[trigger] r[j]).0
}

/// Keys ascending from neighbour to neighbour ascend throughout.
proof fn lemma_adjacent_keys_sorted<A, B>(r: Seq<(u32, A, B)>)
    requires
        forall|i: int| 0 <= i < r.len() - 1 ==> (#[trigger] r[i]).0 < r[i + 1].0,
    ensures
        keys_sorted(r),
    decreases r.len(),
{
    if r.len() > 0 {
        let t = r.drop_first();
        assert forall|i: int| 0 <= i < t.len() - 1 implies (#[trigger] t[i]).0 < t[i + 1].0 by {
            assert(r[i + 1].0 < r[i + 2].0);
        }
        lemma_adjacent_keys_sorted(t);
        assert forall|i: int, j: int| 0 <= i < j < r.len() implies (#[trigger] r[i]).0 < (
        #[trigger] r[j]).0 by {
            if i > 0 {
                assert(t[i - 1] == r[i] && t[j - 1] == r[j]);
            } else if j > 1 {
                assert(t[0] == r[1] && t[j - 1] == r[j]);
            }
        }
    }
}

/// Keys ascending from neighbour to neighbour ascend throughout.
proof fn lemma_adjacent_pair_keys_sorted(r: Seq<(u32, u32)>)
    requires
        forall|i: int| 0 <= i < r.len() - 1 ==> (#[trigger] r[i]).0 < r[i + 1].0,
    ensures
        pair_keys_sorted(r),
    decreases r.len(),
{
    if r.len() > 0 {
        let t = r.drop_first();
        assert forall|i: int| 0 <= i < t.len() - 1 implies (#[trigger] t[i]).0 < t[i + 1].0 by {
            assert(r[i + 1].0 < r[i + 2].0);
        }
        lemma_adjacent_pair_keys_sorted(t);
        assert forall|i: int, j: int| 0 <= i < j < r.len() implies (#[trigger] r[i]).0 < (
        #[trigger] r[j]).0 by {
            if i > 0 {
                assert(t[i - 1] == r[i] && t[j - 1] == r[j]);
            } else if j > 1 {
                assert(t[0] == r[1] && t[j - 1] == r[j]);
            }
        }
    }
}

/// The decomposition table is well formed.
#[verifier::rlimit(100)]
#[verifier::spinoff_prover]
pub proof fn lemma_decomp_sorted()
    ensures
        keys_sorted(CANONICAL_DECOMP@),
{
    let r = CANONICAL_DECOMP@;
    assert(r.len() == 250);
    assert(r[0].0 < r[1].0);
    assert(r[1].0 < r[2].0);
    assert(r[2].0 < r[3].0);
    assert(r[3].0 < r[4].0);
    assert(r[4].0 < r[5].0);
    assert(r[5].0 < r[6].0);
    assert(r[6].0 < r[7].0);
    assert(r[7].0 < r[8].0);
    assert(r[8].0 < r[9].0);
    assert(r[9].0 < r[10].0);
    assert(r[10].0 < r[11].0);
    assert(r[11].0 < r[12].0);
    assert(r[12].0 < r[13].0);
    assert(r[13].0 < r[14].0);
    assert(r[14].0 < r[15].0);
    assert(r[15].0 < r[16].0);
    assert(r[16].0 < r[17].0);
    assert(r[17].0 < r[18].0);
    assert(r[18].0 < r[19].0);
    assert(r[19].0 < r[20].0);
    assert(r[20].0 < r[21].0);
    assert(r[21].0 < r[22].0);
    assert(r[22].0 < r[23].0);
    assert(r[23].0 < r[24].0);
    assert(r[24].0 < r[25].0);
    assert(r[25].0 < r[26].0);
    assert(r[26].0 < r[27].0);
    assert(r[27].0 < r[28].0);
    assert(r[28].0 < r[29].0);
    assert(r[29].0 < r[30].0);
    assert(r[30].0 < r[31].0);
    assert(r[31].0 < r[32].0);
    assert(r[32].0 < r[33].0);
    assert(r[33].0 < r[34].0);
    assert(r[34].0 < r[35].0);
    assert(r[35].0 < r[36].0);
    assert(r[36].0 < r[37].0);
    assert(r[37].0 < r[38].0);
    assert(r[38].0 < r[39].0);
    assert(r[39].0 < r[40].0);
    assert(r[40].0 < r[41].0);
    assert(r[41].0 < r[42].0);
    assert(r[42].0 < r[43].0);
    assert(r[43].0 < r[44].0);
    assert(r[44].0 < r[45].0);
    assert(r[45].0 < r[46].0);
    assert(r[46].0 < r[47].0);
    assert(r[47].0 < r[48].0);
    assert(r[48].0 < r[49].0);
    assert(r[49].0 < r[50].0);
    assert(r[50].0 < r[51].0);
    assert(r[51].0 < r[52].0);
    assert(r[52].0 < r[53].0);
    assert(r[53].0 < r[54].0);
    assert(r[54].0 < r[55].0);
    assert(r[55].0 < r[56].0);
    assert(r[56].0 < r[57].0);
    assert(r[57].0 < r[58].0);
    assert(r[58].0 < r[59].0);
    assert(r[59].0 < r[60].0);
    assert(r[60].0 < r[61].0);
    assert(r[61].0 < r[62].0);
    assert(r[62].0 < r[63].0);
    assert(r[63].0 < r[64].0);
    assert(r[64].0 < r[65].0);
    assert(r[65].0 < r[66].0);
    assert(r[66].0 < r[67].0);
    assert(r[67].0 < r[68].0);
    assert(r[68].0 < r[69].0);
    assert(r[69].0 < r[70].0);
    assert(r[70].0 < r[71].0);
    assert(r[71].0 < r[72].0);
    assert(r[72].0 < r[73].0);
    assert(r[73].0 < r[74].0);
    assert(r[74].0 < r[75].0);
    assert(r[75].0 < r[76].0);
    assert(r[76].0 < r[77].0);
    assert(r[77].0 < r[78].0);
    assert(r[78].0 < r[79].0);
    assert(r[79].0 < r[80].0);
    assert(r[80].0 < r[81].0);
    assert(r[81].0 < r[82].0);
    assert(r[82].0 < r[83].0);
    assert(r[83].0 < r[84].0);
    assert(r[84].0 < r[85].0);
    assert(r[85].0 < r[86].0);
    assert(r[86].0 < r[87].0);
    assert(r[87].0 < r[88].0);
    assert(r[88].0 < r[89].0);
    assert(r[89].0 < r[90].0);
    assert(r[90].0 < r[91].0);
    assert(r[91].0 < r[92].0);
    assert(r[92].0 < r[93].0);
    assert(r[93].0 < r[94].0);
    assert(r[94].0 < r[95].0);
    assert(r[95].0 < r[96].0);
    assert(r[96].0 < r[97].0);
    assert(r[97].0 < r[98].0);
    assert(r[98].0 < r[99].0);
    assert(r[99].0 < r[100].0);
    assert(r[100].0 < r[101].0);
    assert(r[101].0 < r[102].0);
    assert(r[102].0 < r[103].0);
    assert(r[103].0 < r[104].0);
    assert(r[104].0 < r[105].0);
    assert(r[105].0 < r[106].0);
    assert(r[106].0 < r[107].0);
    assert(r[107].0 < r[108].0);
    assert(r[108].0 < r[109].0);
    assert(r[109].0 < r[110].0);
    assert(r[110].0 < r[111].0);
    assert(r[111].0 < r[112].0);
    assert(r[112].0 < r[113].0);
    assert(r[113].0 < r[114].0);
    assert(r[114].0 < r[115].0);
    assert(r[115].0 < r[116].0);
    assert(r[116].0 < r[117].0);
    assert(r[117].0 < r[118].0);
    assert(r[118].0 < r[119].0);
    assert(r[119].0 < r[120].0);
    assert(r[120].0 < r[121].0);
    assert(r[121].0 < r[122].0);
    assert(r[122].0 < r[123].0);
    assert(r[123].0 < r[124].0);
    assert(r[124].0 < r[125].0);
    assert(r[125].0 < r[126].0);
    assert(r[126].0 < r[127].0);
    assert(r[127].0 < r[128].0);
    assert(r[128].0 < r[129].0);
    assert(r[129].0 < r[130].0);
    assert(r[130].0 < r[131].0);
    assert(r[131].0 < r[132].0);
    assert(r[132].0 < r[133].0);
    assert(r[133].0 < r[134].0);
    assert(r[134].0 < r[135].0);
    assert(r[135].0 < r[136].0);
    assert(r[136].0 < r[137].0);
    assert(r[137].0 < r[138].0);
    assert(r[138].0 < r[139].0);
    assert(r[139].0 < r[140].0);
    assert(r[140].0 < r[141].0);
    assert(r[141].0 < r[142].0);
    assert(r[142].0 < r[143].0);
    assert(r[143].0 < r[144].0);
    assert(r[144].0 < r[145].0);
    assert(r[145].0 < r[146].0);
    assert(r[146].0 < r[147].0);
    assert(r[147].0 < r[148].0);
    assert(r[148].0 < r[149].0);
    assert(r[149].0 < r[150].0);
    assert(r[150].0 < r[151].0);
    assert(r[151].0 < r[152].0);
    assert(r[152].0 < r[153].0);
    assert(r[153].0 < r[154].0);
    assert(r[154].0 < r[155].0);
    assert(r[155].0 < r[156].0);
    assert(r[156].0 < r[157].0);
    assert(r[157].0 < r[158].0);
    assert(r[158].0 < r[159].0);
    assert(r[159].0 < r[160].0);
    assert(r[160].0 < r[161].0);
    assert(r[161].0 < r[162].0);
    assert(r[162].0 < r[163].0);
    assert(r[163].0 < r[164].0);
    assert(r[164].0 < r[165].0);
    assert(r[165].0 < r[166].0);
    assert(r[166].0 < r[167].0);
    assert(r[167].0 < r[168].0);
    assert(r[168].0 < r[169].0);
    assert(r[169].0 < r[170].0);
    assert(r[170].0 < r[171].0);
    assert(r[171].0 < r[172].0);
    assert(r[172].0 < r[173].0);
    assert(r[173].0 < r[174].0);
    assert(r[174].0 < r[175].0);
    assert(r[175].0 < r[176].0);
    assert(r[176].0 < r[177].0);
    assert(r[177].0 < r[178].0);
    assert(r[178].0 < r[179].0);
    assert(r[179].0 < r[180].0);
    assert(r[180].0 < r[181].0);
    assert(r[181].0 < r[182].0);
    assert(r[182].0 < r[183].0);
    assert(r[183].0 < r[184].0);
    assert(r[184].0 < r[185].0);
    assert(r[185].0 < r[186].0);
    assert(r[186].0 < r[187].0);
    assert(r[187].0 < r[188].0);
    assert(r[188].0 < r[189].0);
    assert(r[189].0 < r[190].0);
    assert(r[190].0 < r[191].0);
    assert(r[191].0 < r[192].0);
    assert(r[192].0 < r[193].0);
    assert(r[193].0 < r[194].0);
    assert(r[194].0 < r[195].0);
    assert(r[195].0 < r[196].0);
    assert(r[196].0 < r[197].0);
    assert(r[197].0 < r[198].0);
    assert(r[198].0 < r[199].0);
    assert(r[199].0 < r[200].0);
    assert(r[200].0 < r[201].0);
    assert(r[201].0 < r[202].0);
    assert(r[202].0 < r[203].0);
    assert(r[203].0 < r[204].0);
    assert(r[204].0 < r[205].0);
    assert(r[205].0 < r[206].0);
    assert(r[206].0 < r[207].0);
    assert(r[207].0 < r[208].0);
    assert(r[208].0 < r[209].0);
    assert(r[209].0 < r[210].0);
    assert(r[210].0 < r[211].0);
    assert(r[211].0 < r[212].0);
    assert(r[212].0 < r[213].0);
    assert(r[213].0 < r[214].0);
    assert(r[214].0 < r[215].0);
    assert(r[215].0 < r[216].0);
    assert(r[216].0 < r[217].0);
    assert(r[217].0 < r[218].0);
    assert(r[218].0 < r[219].0);
    assert(r[219].0 < r[220].0);
    assert(r[220].0 < r[221].0);
    assert(r[221].0 < r[222].0);
    assert(r[222].0 < r[223].0);
    assert(r[223].0 < r[224].0);
    assert(r[224].0 < r[225].0);
    assert(r[225].0 < r[226].0);
    assert(r[226].0 < r[227].0);
    assert(r[227].0 < r[228].0);
    assert(r[228].0 < r[229].0);
    assert(r[229].0 < r[230].0);
    assert(r[230].0 < r[231].0);
    assert(r[231].0 < r[232].0);
    assert(r[232].0 < r[233].0);
    assert(r[233].0 < r[234].0);
    assert(r[234].0 < r[235].0);
    assert(r[235].0 < r[236].0);
    assert(r[236].0 < r[237].0);
    assert(r[237].0 < r[238].0);
    assert(r[238].0 < r[239].0);
    assert(r[239].0 < r[240].0);
    assert(r[240].0 < r[241].0);
    assert(r[241].0 < r[242].0);
    assert(r[242].0 < r[243].0);
    assert(r[243].0 < r[244].0);
    assert(r[244].0 < r[245].0);
    assert(r[245].0 < r[246].0);
    assert(r[246].0 < r[247].0);
    assert(r[247].0 < r[248].0);
    assert(r[248].0 < r[249].0);
    assert forall|i: int| 0 <= i < r.len() - 1 implies (#[trigger] r[i]).0 < r[i + 1].0 by {}
    lemma_adjacent_keys_sorted(r);
}

/// The mirroring table is well formed.
#[verifier::rlimit(100)]
#[verifier::spinoff_prover]
pub proof fn lemma_mirror_sorted()
    ensures
        pair_keys_sorted(MIRROR_PAIRS@),
{
    let r = MIRROR_PAIRS@;
    assert(r.len() == 82);
    assert(r[0].0 < r[1].0);
    assert(r[1].0 < r[2].0);
    assert(r[2].0 < r[3].0);
    assert(r[3].0 < r[4].0);
    assert(r[4].0 < r[5].0);
    assert(r[5].0 < r[6].0);
    assert(r[6].0 < r[7].0);
    assert(r[7].0 < r[8].0);
    assert(r[8].0 < r[9].0);
    assert(r[9].0 < r[10].0);
    assert(r[10].0 < r[11].0);
    assert(r[11].0 < r[12].0);
    assert(r[12].0 < r[13].0);
    assert(r[13].0 < r[14].0);
    assert(r[14].0 < r[15].0);
    assert(r[15].0 < r[16].0);
    assert(r[16].0 < r[17].0);
    assert(r[17].0 < r[18].0);
    assert(r[18].0 < r[19].0);
    assert(r[19].0 < r[20].0);
    assert(r[20].0 < r[21].0);
    assert(r[21].0 < r[22].0);
    assert(r[22].0 < r[23].0);
    assert(r[23].0 < r[24].0);
    assert(r[24].0 < r[25].0);
    assert(r[25].0 < r[26].0);
    assert(r[26].0 < r[27].0);
    assert(r[27].0 < r[28].0);
    assert(r[28].0 < r[29].0);
    assert(r[29].0 < r[30].0);
    assert(r[30].0 < r[31].0);
    assert(r[31].0 < r[32].0);
    assert(r[32].0 < r[33].0);
    assert(r[33].0 < r[34].0);
    assert(r[34].0 < r[35].0);
    assert(r[35].0 < r[36].0);
    assert(r[36].0 < r[37].0);
    assert(r[37].0 < r[38].0);
    assert(r[38].0 < r[39].0);
    assert(r[39].0 < r[40].0);
    assert(r[40].0 < r[41].0);
    assert(r[41].0 < r[42].0);
    assert(r[42].0 < r[43].0);
    assert(r[43].0 < r[44].0);
    assert(r[44].0 < r[45].0);
    assert(r[45].0 < r[46].0);
    assert(r[46].0 < r[47].0);
    assert(r[47].0 < r[48].0);
    assert(r[48].0 < r[49].0);
    assert(r[49].0 < r[50].0);
    assert(r[50].0 < r[51].0);
    assert(r[51].0 < r[52].0);
    assert(r[52].0 < r[53].0);
    assert(r[53].0 < r[54].0);
    assert(r[54].0 < r[55].0);
    assert(r[55].0 < r[56].0);
    assert(r[56].0 < r[57].0);
    assert(r[57].0 < r[58].0);
    assert(r[58].0 < r[59].0);
    assert(r[59].0 < r[60].0);
    assert(r[60].0 < r[61].0);
    assert(r[61].0 < r[62].0);
    assert(r[62].0 < r[63].0);
    assert(r[63].0 < r[64].0);
    assert(r[64].0 < r[65].0);
    assert(r[65].0 < r[66].0);
    assert(r[66].0 < r[67].0);
    assert(r[67].0 < r[68].0);
    assert(r[68].0 < r[69].0);
    assert(r[69].0 < r[70].0);
    assert(r[70].0 < r[71].0);
    assert(r[71].0 < r[72].0);
    assert(r[72].0 < r[73].0);
    assert(r[73].0 < r[74].0);
    assert(r[74].0 < r[75].0);
    assert(r[75].0 < r[76].0);
    assert(r[76].0 < r[77].0);
    assert(r[77].0 < r[78].0);
    assert(r[78].0 < r[79].0);
    assert(r[79].0 < r[80].0);
    assert(r[80].0 < r[81].0);
    assert forall|i: int| 0 <= i < r.len() - 1 implies (#[trigger] r[i]).0 < r[i + 1].0 by {}
    lemma_adjacent_pair_keys_sorted(r);
}

} // verus!
