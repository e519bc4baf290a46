//! The fixed identity table: for each binary id in [0, 64) a hexagram's
//! Unicode glyph, its traditional King Wen number, and its Chinese name.
//!
//! The traditional numbering is historical domain knowledge, not a
//! derivable formula, so the 64 triples below state it literally, in
//! binary-id order.

use vstd::prelude::*;

verus! {

/// The table entry for binary id `b`: (glyph, traditional id, name).
pub open spec fn hexagram_entry(b: int) -> (char, int, Seq<char>)
    recommends
        0 <= b < 64,
{
    if b == 0 { ('䷁', 2, "乾"@) }
    else if b == 1 { ('䷖', 23, "坤"@) }
    else if b == 2 { ('䷇', 8, "屯"@) }
    else if b == 3 { ('䷓', 20, "蒙"@) }
    else if b == 4 { ('䷏', 16, "需"@) }
    else if b == 5 { ('䷢', 35, "訟"@) }
    else if b == 6 { ('䷬', 45, "師"@) }
    else if b == 7 { ('䷋', 12, "比"@) }
    else if b == 8 { ('䷎', 15, "小畜"@) }
    else if b == 9 { ('䷳', 52, "履"@) }
    else if b == 10 { ('䷦', 39, "泰"@) }
    else if b == 11 { ('䷴', 53, "否"@) }
    else if b == 12 { ('䷽', 62, "同人"@) }
    else if b == 13 { ('䷷', 56, "大有"@) }
    else if b == 14 { ('䷞', 31, "謙"@) }
    else if b == 15 { ('䷠', 33, "豫"@) }
    else if b == 16 { ('䷆', 7, "隨"@) }
    else if b == 17 { ('䷃', 4, "蠱"@) }
    else if b == 18 { ('䷜', 29, "臨"@) }
    else if b == 19 { ('䷺', 59, "觀"@) }
    else if b == 20 { ('䷧', 40, "噬嗑"@) }
    else if b == 21 { ('䷿', 64, "賁"@) }
    else if b == 22 { ('䷮', 47, "剝"@) }
    else if b == 23 { ('䷅', 6, "復"@) }
    else if b == 24 { ('䷭', 46, "無妄"@) }
    else if b == 25 { ('䷑', 18, "大畜"@) }
    else if b == 26 { ('䷯', 48, "頤"@) }
    else if b == 27 { ('䷸', 57, "大過"@) }
    else if b == 28 { ('䷟', 32, "坎"@) }
    else if b == 29 { ('䷱', 50, "離"@) }
    else if b == 30 { ('䷛', 28, "咸"@) }
    else if b == 31 { ('䷫', 44, "恆"@) }
    else if b == 32 { ('䷗', 24, "遯"@) }
    else if b == 33 { ('䷚', 27, "大壯"@) }
    else if b == 34 { ('䷂', 3, "晉"@) }
    else if b == 35 { ('䷩', 42, "明夷"@) }
    else if b == 36 { ('䷲', 51, "家人"@) }
    else if b == 37 { ('䷔', 21, "睽"@) }
    else if b == 38 { ('䷐', 17, "蹇"@) }
    else if b == 39 { ('䷘', 25, "解"@) }
    else if b == 40 { ('䷣', 36, "損"@) }
    else if b == 41 { ('䷕', 22, "益"@) }
    else if b == 42 { ('䷾', 63, "夬"@) }
    else if b == 43 { ('䷤', 37, "姤"@) }
    else if b == 44 { ('䷶', 55, "萃"@) }
    else if b == 45 { ('䷝', 30, "升"@) }
    else if b == 46 { ('䷰', 49, "困"@) }
    else if b == 47 { ('䷌', 13, "井"@) }
    else if b == 48 { ('䷒', 19, "革"@) }
    else if b == 49 { ('䷨', 41, "鼎"@) }
    else if b == 50 { ('䷻', 60, "震"@) }
    else if b == 51 { ('䷼', 61, "艮"@) }
    else if b == 52 { ('䷵', 54, "漸"@) }
    else if b == 53 { ('䷥', 38, "歸妹"@) }
    else if b == 54 { ('䷹', 58, "豐"@) }
    else if b == 55 { ('䷉', 10, "旅"@) }
    else if b == 56 { ('䷊', 11, "巽"@) }
    else if b == 57 { ('䷙', 26, "兌"@) }
    else if b == 58 { ('䷄', 5, "渙"@) }
    else if b == 59 { ('䷈', 9, "節"@) }
    else if b == 60 { ('䷡', 34, "中孚"@) }
    else if b == 61 { ('䷍', 14, "小過"@) }
    else if b == 62 { ('䷪', 43, "既濟"@) }
    else { ('䷀', 1, "未濟"@) }
}

/// The binary id whose entry carries traditional id `t`, for `t` in
/// [1, 64].
pub open spec fn bin_of_traditional(t: int) -> int
    recommends
        1 <= t <= 64,
{
    if t == 1 { 63 }
    else if t == 2 { 0 }
    else if t == 3 { 34 }
    else if t == 4 { 17 }
    else if t == 5 { 58 }
    else if t == 6 { 23 }
    else if t == 7 { 16 }
    else if t == 8 { 2 }
    else if t == 9 { 59 }
    else if t == 10 { 55 }
    else if t == 11 { 56 }
    else if t == 12 { 7 }
    else if t == 13 { 47 }
    else if t == 14 { 61 }
    else if t == 15 { 8 }
    else if t == 16 { 4 }
    else if t == 17 { 38 }
    else if t == 18 { 25 }
    else if t == 19 { 48 }
    else if t == 20 { 3 }
    else if t == 21 { 37 }
    else if t == 22 { 41 }
    else if t == 23 { 1 }
    else if t == 24 { 32 }
    else if t == 25 { 39 }
    else if t == 26 { 57 }
    else if t == 27 { 33 }
    else if t == 28 { 30 }
    else if t == 29 { 18 }
    else if t == 30 { 45 }
    else if t == 31 { 14 }
    else if t == 32 { 28 }
    else if t == 33 { 15 }
    else if t == 34 { 60 }
    else if t == 35 { 5 }
    else if t == 36 { 40 }
    else if t == 37 { 43 }
    else if t == 38 { 53 }
    else if t == 39 { 10 }
    else if t == 40 { 20 }
    else if t == 41 { 49 }
    else if t == 42 { 35 }
    else if t == 43 { 62 }
    else if t == 44 { 31 }
    else if t == 45 { 6 }
    else if t == 46 { 24 }
    else if t == 47 { 22 }
    else if t == 48 { 26 }
    else if t == 49 { 46 }
    else if t == 50 { 29 }
    else if t == 51 { 36 }
    else if t == 52 { 9 }
    else if t == 53 { 11 }
    else if t == 54 { 52 }
    else if t == 55 { 44 }
    else if t == 56 { 13 }
    else if t == 57 { 27 }
    else if t == 58 { 54 }
    else if t == 59 { 19 }
    else if t == 60 { 50 }
    else if t == 61 { 51 }
    else if t == 62 { 12 }
    else if t == 63 { 42 }
    else { 21 }
}

/// The binary id whose entry carries glyph `c`, for the 64 glyphs of
/// the table.
pub open spec fn bin_of_glyph(c: char) -> int {
    if c == '䷁' { 0 }
    else if c == '䷖' { 1 }
    else if c == '䷇' { 2 }
    else if c == '䷓' { 3 }
    else if c == '䷏' { 4 }
    else if c == '䷢' { 5 }
    else if c == '䷬' { 6 }
    else if c == '䷋' { 7 }
    else if c == '䷎' { 8 }
    else if c == '䷳' { 9 }
    else if c == '䷦' { 10 }
    else if c == '䷴' { 11 }
    else if c == '䷽' { 12 }
    else if c == '䷷' { 13 }
    else if c == '䷞' { 14 }
    else if c == '䷠' { 15 }
    else if c == '䷆' { 16 }
    else if c == '䷃' { 17 }
    else if c == '䷜' { 18 }
    else if c == '䷺' { 19 }
    else if c == '䷧' { 20 }
    else if c == '䷿' { 21 }
    else if c == '䷮' { 22 }
    else if c == '䷅' { 23 }
    else if c == '䷭' { 24 }
    else if c == '䷑' { 25 }
    else if c == '䷯' { 26 }
    else if c == '䷸' { 27 }
    else if c == '䷟' { 28 }
    else if c == '䷱' { 29 }
    else if c == '䷛' { 30 }
    else if c == '䷫' { 31 }
    else if c == '䷗' { 32 }
    else if c == '䷚' { 33 }
    else if c == '䷂' { 34 }
    else if c == '䷩' { 35 }
    else if c == '䷲' { 36 }
    else if c == '䷔' { 37 }
    else if c == '䷐' { 38 }
    else if c == '䷘' { 39 }
    else if c == '䷣' { 40 }
    else if c == '䷕' { 41 }
    else if c == '䷾' { 42 }
    else if c == '䷤' { 43 }
    else if c == '䷶' { 44 }
    else if c == '䷝' { 45 }
    else if c == '䷰' { 46 }
    else if c == '䷌' { 47 }
    else if c == '䷒' { 48 }
    else if c == '䷨' { 49 }
    else if c == '䷻' { 50 }
    else if c == '䷼' { 51 }
    else if c == '䷵' { 52 }
    else if c == '䷥' { 53 }
    else if c == '䷹' { 54 }
    else if c == '䷉' { 55 }
    else if c == '䷊' { 56 }
    else if c == '䷙' { 57 }
    else if c == '䷄' { 58 }
    else if c == '䷈' { 59 }
    else if c == '䷡' { 60 }
    else if c == '䷍' { 61 }
    else if c == '䷪' { 62 }
    else { 63 }
}

/// The glyph, traditional id and name for binary id `b`.  Handing in an
/// id outside [0, 64) is a contract violation.
pub fn entry_of(b: usize) -> (r: (char, usize, &'static str))
    requires
        b < 64,
    ensures
        r.0 == hexagram_entry(b as int).0,
        r.1 as int == hexagram_entry(b as int).1,
        r.2@ == hexagram_entry(b as int).2,
{
    match b {
        0 => ('䷁', 2, "乾"),
        1 => ('䷖', 23, "坤"),
        2 => ('䷇', 8, "屯"),
        3 => ('䷓', 20, "蒙"),
        4 => ('䷏', 16, "需"),
        5 => ('䷢', 35, "訟"),
        6 => ('䷬', 45, "師"),
        7 => ('䷋', 12, "比"),
        8 => ('䷎', 15, "小畜"),
        9 => ('䷳', 52, "履"),
        10 => ('䷦', 39, "泰"),
        11 => ('䷴', 53, "否"),
        12 => ('䷽', 62, "同人"),
        13 => ('䷷', 56, "大有"),
        14 => ('䷞', 31, "謙"),
        15 => ('䷠', 33, "豫"),
        16 => ('䷆', 7, "隨"),
        17 => ('䷃', 4, "蠱"),
        18 => ('䷜', 29, "臨"),
        19 => ('䷺', 59, "觀"),
        20 => ('䷧', 40, "噬嗑"),
        21 => ('䷿', 64, "賁"),
        22 => ('䷮', 47, "剝"),
        23 => ('䷅', 6, "復"),
        24 => ('䷭', 46, "無妄"),
        25 => ('䷑', 18, "大畜"),
        26 => ('䷯', 48, "頤"),
        27 => ('䷸', 57, "大過"),
        28 => ('䷟', 32, "坎"),
        29 => ('䷱', 50, "離"),
        30 => ('䷛', 28, "咸"),
        31 => ('䷫', 44, "恆"),
        32 => ('䷗', 24, "遯"),
        33 => ('䷚', 27, "大壯"),
        34 => ('䷂', 3, "晉"),
        35 => ('䷩', 42, "明夷"),
        36 => ('䷲', 51, "家人"),
        37 => ('䷔', 21, "睽"),
        38 => ('䷐', 17, "蹇"),
        39 => ('䷘', 25, "解"),
        40 => ('䷣', 36, "損"),
        41 => ('䷕', 22, "益"),
        42 => ('䷾', 63, "夬"),
        43 => ('䷤', 37, "姤"),
        44 => ('䷶', 55, "萃"),
        45 => ('䷝', 30, "升"),
        46 => ('䷰', 49, "困"),
        47 => ('䷌', 13, "井"),
        48 => ('䷒', 19, "革"),
        49 => ('䷨', 41, "鼎"),
        50 => ('䷻', 60, "震"),
        51 => ('䷼', 61, "艮"),
        52 => ('䷵', 54, "漸"),
        53 => ('䷥', 38, "歸妹"),
        54 => ('䷹', 58, "豐"),
        55 => ('䷉', 10, "旅"),
        56 => ('䷊', 11, "巽"),
        57 => ('䷙', 26, "兌"),
        58 => ('䷄', 5, "渙"),
        59 => ('䷈', 9, "節"),
        60 => ('䷡', 34, "中孚"),
        61 => ('䷍', 14, "小過"),
        62 => ('䷪', 43, "既濟"),
        _ => ('䷀', 1, "未濟"),
    }
}

/// Every entry's traditional id lies in [1, 64], and looking its
/// traditional id up again leads back to the same binary id.
pub proof fn lemma_traditional_inverse(b: int)
    requires
        0 <= b < 64,
    ensures
        1 <= hexagram_entry(b).1 <= 64,
        bin_of_traditional(hexagram_entry(b).1) == b,
{
}

/// Distinct binary ids carry distinct traditional ids: the traditional
/// numbering appears at most once per entry.
pub proof fn lemma_traditional_injective(b1: int, b2: int)
    requires
        0 <= b1 < 64,
        0 <= b2 < 64,
        hexagram_entry(b1).1 == hexagram_entry(b2).1,
    ensures
        b1 == b2,
{
    lemma_traditional_inverse(b1);
    lemma_traditional_inverse(b2);
}

/// Every traditional id in [1, 64] appears in the table: the numbering
/// is onto, and with the injectivity above a bijection.
pub proof fn lemma_traditional_onto(t: int)
    requires
        1 <= t <= 64,
    ensures
        0 <= bin_of_traditional(t) < 64,
        hexagram_entry(bin_of_traditional(t)).1 == t,
{
}

/// Looking an entry's glyph up again leads back to the same binary id.
pub proof fn lemma_glyph_inverse(b: int)
    requires
        0 <= b < 64,
    ensures
        bin_of_glyph(hexagram_entry(b).0) == b,
{
}

/// Distinct binary ids carry distinct glyphs.
pub proof fn lemma_glyph_injective(b1: int, b2: int)
    requires
        0 <= b1 < 64,
        0 <= b2 < 64,
        hexagram_entry(b1).0 == hexagram_entry(b2).0,
    ensures
        b1 == b2,
{
    lemma_glyph_inverse(b1);
    lemma_glyph_inverse(b2);
}

} // verus!
