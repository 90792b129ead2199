//! The glyph set of the built-in font, its bitmap data, and the `Font`
//! capability through which the renderer and its users read glyph rows.
use vstd::prelude::*;

use crate::charset::Char;

verus! {

/// Width of a glyph of the built-in font, in pixels.
pub const FONT_WIDTH: usize = 8;

/// Height of a glyph of the built-in font, in pixels.
pub const FONT_HEIGHT: usize = 16;

/// Our own glyph set. It is laid out as Code Page 850, so a glyph and the
/// `Char` with the same byte value look alike.
#[derive(Copy, Clone, PartialEq, Eq, Structural, Debug)]
pub enum Glyph {
    /// Glyph 000: replacement character
    Null,
    /// Glyph 001: white smiling face
    SOH,
    /// Glyph 002: black smiling face
    STX,
    /// Glyph 003: black heart suit
    ETX,
    /// Glyph 004: black diamond suit
    EOT,
    /// Glyph 005: black club suit
    ENQ,
    /// Glyph 006: black spade suit
    ACK,
    /// Glyph 007: bullet
    BEL,
    /// Glyph 008: inverse bullet
    BS,
    /// Glyph 009: white circle
    HT,
    /// Glyph 010: inverse white circle
    LF,
    /// Glyph 011: male sign
    VT,
    /// Glyph 012: female sign
    FF,
    /// Glyph 013: eighth note
    CR,
    /// Glyph 014: beamed eighth notes
    SO,
    /// Glyph 015: white sun with rays
    SI,
    /// Glyph 016: black right-pointing arrow
    DLE,
    /// Glyph 017: black left-pointing arrow
    DC1,
    /// Glyph 018: up down arrow
    DC2,
    /// Glyph 019: double exclamation mark
    DC3,
    /// Glyph 020: pilcrow sign
    DC4,
    /// Glyph 021: section sign
    NAK,
    /// Glyph 022: black rectangle
    SYN,
    /// Glyph 023: up down arrow with base
    ETB,
    /// Glyph 024: upwards arrow
    CAN,
    /// Glyph 025: downwards arrow
    EM,
    /// Glyph 026: rightwards arrow
    SUB,
    /// Glyph 027: leftwards arrow
    Escape,
    /// Glyph 028: right andle
    FS,
    /// Glyph 029: left right arrow
    GS,
    /// Glyph 030: black up pointing arrow
    RS,
    /// Glyph 031: black down pointing arrow
    US,
    /// Glyph 032: space
    Space,
    /// Glyph 033: exclamation mark
    ExclamationMark,
    /// Glyph 034: quotation mark
    QuotationMark,
    /// Glyph 035: number sign
    NumberSign,
    /// Glyph 036: dollar sign
    DollarSign,
    /// Glyph 037: percent sign
    PercentSign,
    /// Glyph 038: ampersand
    Ampersand,
    /// Glyph 039: apostrophe
    Apostrophe,
    /// Glyph 040: left parenthesis
    LeftParenthesis,
    /// Glyph 041: right parenthesis
    RightParenthesis,
    /// Glyph 042: asterisk
    Asterisk,
    /// Glyph 043: plus sign
    PlusSign,
    /// Glyph 044: comma
    Comma,
    /// Glyph 045: hyphen-minus
    HyphenMinus,
    /// Glyph 046: full stop
    FullStop,
    /// Glyph 047: solidus
    Solidus,
    /// Glyph 048: digit zero
    DigitZero,
    /// Glyph 049: digit one
    DigitOne,
    /// Glyph 050: digit two
    DigitTwo,
    /// Glyph 051: digit three
    DigitThree,
    /// Glyph 052: digit four
    DigitFour,
    /// Glyph 053: digit five
    DigitFive,
    /// Glyph 054: digit six
    DigitSix,
    /// Glyph 055: digit seven
    DigitSeven,
    /// Glyph 056: digit eight
    DigitEight,
    /// Glyph 057: digit nine
    DigitNine,
    /// Glyph 058: colon
    Colon,
    /// Glyph 059: semicolon
    Semicolon,
    /// Glyph 060: less-than sign
    LessThanSign,
    /// Glyph 061: equals sign
    EqualsSign,
    /// Glyph 062: greater-than sign
    GreaterThanSign,
    /// Glyph 063: question mark
    QuestionMark,
    /// Glyph 064: commercial at
    CommercialAt,
    /// Glyph 065: latin capital letter a
    LatinCapitalLetterA,
    /// Glyph 066: latin capital letter b
    LatinCapitalLetterB,
    /// Glyph 067: latin capital letter c
    LatinCapitalLetterC,
    /// Glyph 068: latin capital letter d
    LatinCapitalLetterD,
    /// Glyph 069: latin capital letter e
    LatinCapitalLetterE,
    /// Glyph 070: latin capital letter f
    LatinCapitalLetterF,
    /// Glyph 071: latin capital letter g
    LatinCapitalLetterG,
    /// Glyph 072: latin capital letter h
    LatinCapitalLetterH,
    /// Glyph 073: latin capital letter i
    LatinCapitalLetterI,
    /// Glyph 074: latin capital letter j
    LatinCapitalLetterJ,
    /// Glyph 075: latin capital letter k
    LatinCapitalLetterK,
    /// Glyph 076: latin capital letter l
    LatinCapitalLetterL,
    /// Glyph 077: latin capital letter m
    LatinCapitalLetterM,
    /// Glyph 078: latin capital letter n
    LatinCapitalLetterN,
    /// Glyph 079: latin capital letter o
    LatinCapitalLetterO,
    /// Glyph 080: latin capital letter p
    LatinCapitalLetterP,
    /// Glyph 081: latin capital letter q
    LatinCapitalLetterQ,
    /// Glyph 082: latin capital letter r
    LatinCapitalLetterR,
    /// Glyph 083: latin capital letter s
    LatinCapitalLetterS,
    /// Glyph 084: latin capital letter t
    LatinCapitalLetterT,
    /// Glyph 085: latin capital letter u
    LatinCapitalLetterU,
    /// Glyph 086: latin capital letter v
    LatinCapitalLetterV,
    /// Glyph 087: latin capital letter w
    LatinCapitalLetterW,
    /// Glyph 088: latin capital letter x
    LatinCapitalLetterX,
    /// Glyph 089: latin capital letter y
    LatinCapitalLetterY,
    /// Glyph 090: latin capital letter z
    LatinCapitalLetterZ,
    /// Glyph 091: left square bracket
    LeftSquareBracket,
    /// Glyph 092: reverse solidus
    ReverseSolidus,
    /// Glyph 093: right square bracket
    RightSquareBracket,
    /// Glyph 094: circumflex accent
    CircumflexAccent,
    /// Glyph 095: low line
    LowLine,
    /// Glyph 096: grave accent
    GraveAccent,
    /// Glyph 097: latin small letter a
    LatinSmallLetterA,
    /// Glyph 098: latin small letter b
    LatinSmallLetterB,
    /// Glyph 099: latin small letter c
    LatinSmallLetterC,
    /// Glyph 100: latin small letter d
    LatinSmallLetterD,
    /// Glyph 101: latin small letter e
    LatinSmallLetterE,
    /// Glyph 102: latin small letter f
    LatinSmallLetterF,
    /// Glyph 103: latin small letter g
    LatinSmallLetterG,
    /// Glyph 104: latin small letter h
    LatinSmallLetterH,
    /// Glyph 105: latin small letter i
    LatinSmallLetterI,
    /// Glyph 106: latin small letter j
    LatinSmallLetterJ,
    /// Glyph 107: latin small letter k
    LatinSmallLetterK,
    /// Glyph 108: latin small letter l
    LatinSmallLetterL,
    /// Glyph 109: latin small letter m
    LatinSmallLetterM,
    /// Glyph 110: latin small letter n
    LatinSmallLetterN,
    /// Glyph 111: latin small letter o
    LatinSmallLetterO,
    /// Glyph 112: latin small letter p
    LatinSmallLetterP,
    /// Glyph 113: latin small letter q
    LatinSmallLetterQ,
    /// Glyph 114: latin small letter r
    LatinSmallLetterR,
    /// Glyph 115: latin small letter s
    LatinSmallLetterS,
    /// Glyph 116: latin small letter t
    LatinSmallLetterT,
    /// Glyph 117: latin small letter u
    LatinSmallLetterU,
    /// Glyph 118: latin small letter v
    LatinSmallLetterV,
    /// Glyph 119: latin small letter w
    LatinSmallLetterW,
    /// Glyph 120: latin small letter x
    LatinSmallLetterX,
    /// Glyph 121: latin small letter y
    LatinSmallLetterY,
    /// Glyph 122: latin small letter z
    LatinSmallLetterZ,
    /// Glyph 123: left curly bracket
    LeftCurlyBracket,
    /// Glyph 124: vertical line
    VerticalLine,
    /// Glyph 125: right curly bracket
    RightCurlyBracket,
    /// Glyph 126: tilde
    Tilde,
    /// Glyph 127: delete
    Delete,
    /// Glyph 128: latin capital letter c with cedilla
    LatinCapitalLetterCWithCedilla,
    /// Glyph 129: latin small letter u with diaeresis
    LatinSmallLetterUWithDiaeresis,
    /// Glyph 130: latin small letter e with acute
    LatinSmallLetterEWithAcute,
    /// Glyph 131: latin small letter a with circumflex
    LatinSmallLetterAWithCircumflex,
    /// Glyph 132: latin small letter a with diaeresis
    LatinSmallLetterAWithDiaeresis,
    /// Glyph 133: latin small letter a with grave
    LatinSmallLetterAWithGrave,
    /// Glyph 134: latin small letter a with ring above
    LatinSmallLetterAWithRingAbove,
    /// Glyph 135: latin small letter c with cedilla
    LatinSmallLetterCWithCedilla,
    /// Glyph 136: latin small letter e with circumflex
    LatinSmallLetterEWithCircumflex,
    /// Glyph 137: latin small letter e with diaeresis
    LatinSmallLetterEWithDiaeresis,
    /// Glyph 138: latin small letter e with grave
    LatinSmallLetterEWithGrave,
    /// Glyph 139: latin small letter i with diaeresis
    LatinSmallLetterIWithDiaeresis,
    /// Glyph 140: latin small letter i with circumflex
    LatinSmallLetterIWithCircumflex,
    /// Glyph 141: latin small letter i with grave
    LatinSmallLetterIWithGrave,
    /// Glyph 142: latin capital letter a with diaeresis
    LatinCapitalLetterAWithDiaeresis,
    /// Glyph 143: latin capital letter a with ring above
    LatinCapitalLetterAWithRingAbove,
    /// Glyph 144: latin capital letter e with acute
    LatinCapitalLetterEWithAcute,
    /// Glyph 145: latin small letter ae
    LatinSmallLetterAe,
    /// Glyph 146: latin capital letter ae
    LatinCapitalLetterAe,
    /// Glyph 147: latin small letter o with circumflex
    LatinSmallLetterOWithCircumflex,
    /// Glyph 148: latin small letter o with diaeresis
    LatinSmallLetterOWithDiaeresis,
    /// Glyph 149: latin small letter o with grave
    LatinSmallLetterOWithGrave,
    /// Glyph 150: latin small letter u with circumflex
    LatinSmallLetterUWithCircumflex,
    /// Glyph 151: latin small letter u with grave
    LatinSmallLetterUWithGrave,
    /// Glyph 152: latin small letter y with diaeresis
    LatinSmallLetterYWithDiaeresis,
    /// Glyph 153: latin capital letter o with diaeresis
    LatinCapitalLetterOWithDiaeresis,
    /// Glyph 154: latin capital letter u with diaeresis
    LatinCapitalLetterUWithDiaeresis,
    /// Glyph 155: latin small letter o with stroke
    LatinSmallLetterOWithStroke,
    /// Glyph 156: pound sign
    PoundSign,
    /// Glyph 157: latin capital letter o with stroke
    LatinCapitalLetterOWithStroke,
    /// Glyph 158: multiplication sign
    MultiplicationSign,
    /// Glyph 159: latin small letter f with hook
    LatinSmallLetterFWithHook,
    /// Glyph 160: latin small letter a with acute
    LatinSmallLetterAWithAcute,
    /// Glyph 161: latin small letter i with acute
    LatinSmallLetterIWithAcute,
    /// Glyph 162: latin small letter o with acute
    LatinSmallLetterOWithAcute,
    /// Glyph 163: latin small letter u with acute
    LatinSmallLetterUWithAcute,
    /// Glyph 164: latin small letter n with tilde
    LatinSmallLetterNWithTilde,
    /// Glyph 165: latin capital letter n with tilde
    LatinCapitalLetterNWithTilde,
    /// Glyph 166: feminine ordinal indicator
    FeminineOrdinalIndicator,
    /// Glyph 167: masculine ordinal indicator
    MasculineOrdinalIndicator,
    /// Glyph 168: inverted question mark
    InvertedQuestionMark,
    /// Glyph 169: registered sign
    RegisteredSign,
    /// Glyph 170: not sign
    NotSign,
    /// Glyph 171: vulgar fraction one half
    VulgarFractionOneHalf,
    /// Glyph 172: vulgar fraction one quarter
    VulgarFractionOneQuarter,
    /// Glyph 173: inverted exclamation mark
    InvertedExclamationMark,
    /// Glyph 174: left-pointing double angle quotation mark
    LeftPointingDoubleAngleQuotationMark,
    /// Glyph 175: right-pointing double angle quotation mark
    RightPointingDoubleAngleQuotationMark,
    /// Glyph 176: light shade
    LightShade,
    /// Glyph 177: medium shade
    MediumShade,
    /// Glyph 178: dark shade
    DarkShade,
    /// Glyph 179: box drawings light vertical
    BoxDrawingsLightVertical,
    /// Glyph 180: box drawings light vertical and left
    BoxDrawingsLightVerticalAndLeft,
    /// Glyph 181: latin capital letter a with acute
    LatinCapitalLetterAWithAcute,
    /// Glyph 182: latin capital letter a with circumflex
    LatinCapitalLetterAWithCircumflex,
    /// Glyph 183: latin capital letter a with grave
    LatinCapitalLetterAWithGrave,
    /// Glyph 184: copyright sign
    CopyrightSign,
    /// Glyph 185: box drawings double vertical and left
    BoxDrawingsDoubleVerticalAndLeft,
    /// Glyph 186: box drawings double vertical
    BoxDrawingsDoubleVertical,
    /// Glyph 187: box drawings double down and left
    BoxDrawingsDoubleDownAndLeft,
    /// Glyph 188: box drawings double up and left
    BoxDrawingsDoubleUpAndLeft,
    /// Glyph 189: cent sign
    CentSign,
    /// Glyph 190: yen sign
    YenSign,
    /// Glyph 191: box drawings light down and left
    BoxDrawingsLightDownAndLeft,
    /// Glyph 192: box drawings light up and right
    BoxDrawingsLightUpAndRight,
    /// Glyph 193: box drawings light up and horizontal
    BoxDrawingsLightUpAndHorizontal,
    /// Glyph 194: box drawings light down and horizontal
    BoxDrawingsLightDownAndHorizontal,
    /// Glyph 195: box drawings light vertical and right
    BoxDrawingsLightVerticalAndRight,
    /// Glyph 196: box drawings light horizontal
    BoxDrawingsLightHorizontal,
    /// Glyph 197: box drawings light vertical and horizontal
    BoxDrawingsLightVerticalAndHorizontal,
    /// Glyph 198: latin small letter a with tilde
    LatinSmallLetterAWithTilde,
    /// Glyph 199: latin capital letter a with tilde
    LatinCapitalLetterAWithTilde,
    /// Glyph 200: box drawings double up and right
    BoxDrawingsDoubleUpAndRight,
    /// Glyph 201: box drawings double down and right
    BoxDrawingsDoubleDownAndRight,
    /// Glyph 202: box drawings double up and horizontal
    BoxDrawingsDoubleUpAndHorizontal,
    /// Glyph 203: box drawings double down and horizontal
    BoxDrawingsDoubleDownAndHorizontal,
    /// Glyph 204: box drawings double vertical and right
    BoxDrawingsDoubleVerticalAndRight,
    /// Glyph 205: box drawings double horizontal
    BoxDrawingsDoubleHorizontal,
    /// Glyph 206: box drawings double vertical and horizontal
    BoxDrawingsDoubleVerticalAndHorizontal,
    /// Glyph 207: currency sign
    CurrencySign,
    /// Glyph 208: latin small letter eth
    LatinSmallLetterEth,
    /// Glyph 209: latin capital letter eth
    LatinCapitalLetterEth,
    /// Glyph 210: latin capital letter e with circumflex
    LatinCapitalLetterEWithCircumflex,
    /// Glyph 211: latin capital letter e with diaeresis
    LatinCapitalLetterEWithDiaeresis,
    /// Glyph 212: latin capital letter e with grave
    LatinCapitalLetterEWithGrave,
    /// Glyph 213: latin small letter dotless i
    LatinSmallLetterDotlessI,
    /// Glyph 214: latin capital letter i with acute
    LatinCapitalLetterIWithAcute,
    /// Glyph 215: latin capital letter i with circumflex
    LatinCapitalLetterIWithCircumflex,
    /// Glyph 216: latin capital letter i with diaeresis
    LatinCapitalLetterIWithDiaeresis,
    /// Glyph 217: box drawings light up and left
    BoxDrawingsLightUpAndLeft,
    /// Glyph 218: box drawings light down and right
    BoxDrawingsLightDownAndRight,
    /// Glyph 219: full block
    FullBlock,
    /// Glyph 220: lower half block
    LowerHalfBlock,
    /// Glyph 221: broken bar
    BrokenBar,
    /// Glyph 222: latin capital letter i with grave
    LatinCapitalLetterIWithGrave,
    /// Glyph 223: upper half block
    UpperHalfBlock,
    /// Glyph 224: latin capital letter o with acute
    LatinCapitalLetterOWithAcute,
    /// Glyph 225: latin small letter sharp s
    LatinSmallLetterSharpS,
    /// Glyph 226: latin capital letter o with circumflex
    LatinCapitalLetterOWithCircumflex,
    /// Glyph 227: latin capital letter o with grave
    LatinCapitalLetterOWithGrave,
    /// Glyph 228: latin small letter o with tilde
    LatinSmallLetterOWithTilde,
    /// Glyph 229: latin capital letter o with tilde
    LatinCapitalLetterOWithTilde,
    /// Glyph 230: micro sign
    MicroSign,
    /// Glyph 231: latin small letter thorn
    LatinSmallLetterThorn,
    /// Glyph 232: latin capital letter thorn
    LatinCapitalLetterThorn,
    /// Glyph 233: latin capital letter u with acute
    LatinCapitalLetterUWithAcute,
    /// Glyph 234: latin capital letter u with circumflex
    LatinCapitalLetterUWithCircumflex,
    /// Glyph 235: latin capital letter u with grave
    LatinCapitalLetterUWithGrave,
    /// Glyph 236: latin small letter y with acute
    LatinSmallLetterYWithAcute,
    /// Glyph 237: latin capital letter y with acute
    LatinCapitalLetterYWithAcute,
    /// Glyph 238: macron
    Macron,
    /// Glyph 239: acute accent
    AcuteAccent,
    /// Glyph 240: soft hyphen
    SoftHyphen,
    /// Glyph 241: plus-minus sign
    PlusMinusSign,
    /// Glyph 242: double low line
    DoubleLowLine,
    /// Glyph 243: vulgar fraction three quarters
    VulgarFractionThreeQuarters,
    /// Glyph 244: pilcrow sign
    PilcrowSign,
    /// Glyph 245: section sign
    SectionSign,
    /// Glyph 246: division sign
    DivisionSign,
    /// Glyph 247: cedilla
    Cedilla,
    /// Glyph 248: degree sign
    DegreeSign,
    /// Glyph 249: diaeresis
    Diaeresis,
    /// Glyph 250: middle dot
    MiddleDot,
    /// Glyph 251: superscript one
    SuperscriptOne,
    /// Glyph 252: superscript three
    SuperscriptThree,
    /// Glyph 253: superscript two
    SuperscriptTwo,
    /// Glyph 254: black square
    BlackSquare,
    /// Glyph 255: no-break space
    NoBreakSpace,
}

impl Default for Glyph {
    fn default() -> (r: Glyph)
        ensures
            r == Glyph::Space,
    {
        Glyph::Space
    }
}

// The cp850-8x16 font from FreeBSD: sixteen one-byte rows per glyph, in the
// order of the `Glyph` enum, kept in blocks of sixteen glyphs. The most
// significant bit of a row is its leftmost pixel.
//
// Copyright (c) 2000 Andrey A. Chernov. Redistribution and use in source
// and binary forms, with or without modification, are permitted under the
// terms of the two-clause BSD licence; the font is provided "as is",
// without warranty of any kind.

/// Rows of the glyphs with codes 0 to 15.
pub const FONT_BLOCK_0: [u8; 256] = [
    0x00,0x00,0x00,0x00,0x00,0x00,0x00,0x00,0x00,0x00,0x00,0x00,0x00,0x00,0x00,0x00, // Glyph::Null
    0x00,0x00,0x7e,0x81,0xa5,0x81,0x81,0xbd,0x99,0x81,0x81,0x7e,0x00,0x00,0x00,0x00, // Glyph::SOH
    0x00,0x00,0x7e,0xff,0xdb,0xff,0xff,0xc3,0xe7,0xff,0xff,0x7e,0x00,0x00,0x00,0x00, // Glyph::STX
    0x00,0x00,0x00,0x00,0x6c,0xfe,0xfe,0xfe,0xfe,0x7c,0x38,0x10,0x00,0x00,0x00,0x00, // Glyph::ETX
    0x00,0x00,0x00,0x00,0x10,0x38,0x7c,0xfe,0x7c,0x38,0x10,0x00,0x00,0x00,0x00,0x00, // Glyph::EOT
    0x00,0x00,0x00,0x18,0x3c,0x3c,0xe7,0xe7,0xe7,0x18,0x18,0x3c,0x00,0x00,0x00,0x00, // Glyph::ENQ
    0x00,0x00,0x00,0x18,0x3c,0x7e,0xff,0xff,0x7e,0x18,0x18,0x3c,0x00,0x00,0x00,0x00, // Glyph::ACK
    0x00,0x00,0x00,0x00,0x00,0x00,0x18,0x3c,0x3c,0x18,0x00,0x00,0x00,0x00,0x00,0x00, // Glyph::BEL
    0xff,0xff,0xff,0xff,0xff,0xff,0xe7,0xc3,0xc3,0xe7,0xff,0xff,0xff,0xff,0xff,0xff, // Glyph::BS
    0x00,0x00,0x00,0x00,0x00,0x3c,0x66,0x42,0x42,0x66,0x3c,0x00,0x00,0x00,0x00,0x00, // Glyph::HT
    0xff,0xff,0xff,0xff,0xff,0xc3,0x99,0xbd,0xbd,0x99,0xc3,0xff,0xff,0xff,0xff,0xff, // Glyph::LF
    0x00,0x00,0x1e,0x0e,0x1a,0x32,0x78,0xcc,0xcc,0xcc,0xcc,0x78,0x00,0x00,0x00,0x00, // Glyph::VT
    0x00,0x00,0x3c,0x66,0x66,0x66,0x66,0x3c,0x18,0x7e,0x18,0x18,0x00,0x00,0x00,0x00, // Glyph::FF
    0x00,0x00,0x3f,0x33,0x3f,0x30,0x30,0x30,0x30,0x70,0xf0,0xe0,0x00,0x00,0x00,0x00, // Glyph::CR
    0x00,0x00,0x7f,0x63,0x7f,0x63,0x63,0x63,0x63,0x67,0xe7,0xe6,0xc0,0x00,0x00,0x00, // Glyph::SO
    0x00,0x00,0x00,0x18,0x18,0xdb,0x3c,0xe7,0x3c,0xdb,0x18,0x18,0x00,0x00,0x00,0x00, // Glyph::SI
];

/// Rows of the glyphs with codes 16 to 31.
pub const FONT_BLOCK_1: [u8; 256] = [
    0x00,0x80,0xc0,0xe0,0xf0,0xf8,0xfe,0xf8,0xf0,0xe0,0xc0,0x80,0x00,0x00,0x00,0x00, // Glyph::DLE
    0x00,0x02,0x06,0x0e,0x1e,0x3e,0xfe,0x3e,0x1e,0x0e,0x06,0x02,0x00,0x00,0x00,0x00, // Glyph::DC1
    0x00,0x00,0x18,0x3c,0x7e,0x18,0x18,0x18,0x7e,0x3c,0x18,0x00,0x00,0x00,0x00,0x00, // Glyph::DC2
    0x00,0x00,0x66,0x66,0x66,0x66,0x66,0x66,0x66,0x00,0x66,0x66,0x00,0x00,0x00,0x00, // Glyph::DC3
    0x00,0x00,0x7f,0xdb,0xdb,0xdb,0x7b,0x1b,0x1b,0x1b,0x1b,0x1b,0x00,0x00,0x00,0x00, // Glyph::DC4
    0x00,0x7c,0xc6,0x60,0x38,0x6c,0xc6,0xc6,0x6c,0x38,0x0c,0xc6,0x7c,0x00,0x00,0x00, // Glyph::NAK
    0x00,0x00,0x00,0x00,0x00,0x00,0x00,0x00,0xfe,0xfe,0xfe,0xfe,0x00,0x00,0x00,0x00, // Glyph::SYN
    0x00,0x00,0x18,0x3c,0x7e,0x18,0x18,0x18,0x7e,0x3c,0x18,0x7e,0x00,0x00,0x00,0x00, // Glyph::ETB
    0x00,0x00,0x18,0x3c,0x7e,0x18,0x18,0x18,0x18,0x18,0x18,0x18,0x00,0x00,0x00,0x00, // Glyph::CAN
    0x00,0x00,0x18,0x18,0x18,0x18,0x18,0x18,0x18,0x7e,0x3c,0x18,0x00,0x00,0x00,0x00, // Glyph::EM
    0x00,0x00,0x00,0x00,0x00,0x18,0x0c,0xfe,0x0c,0x18,0x00,0x00,0x00,0x00,0x00,0x00, // Glyph::SUB
    0x00,0x00,0x00,0x00,0x00,0x30,0x60,0xfe,0x60,0x30,0x00,0x00,0x00,0x00,0x00,0x00, // Glyph::Escape
    0x00,0x00,0x00,0x00,0x00,0x00,0xc0,0xc0,0xc0,0xfe,0x00,0x00,0x00,0x00,0x00,0x00, // Glyph::FS
    0x00,0x00,0x00,0x00,0x00,0x28,0x6c,0xfe,0x6c,0x28,0x00,0x00,0x00,0x00,0x00,0x00, // Glyph::GS
    0x00,0x00,0x00,0x00,0x10,0x38,0x38,0x7c,0x7c,0xfe,0xfe,0x00,0x00,0x00,0x00,0x00, // Glyph::RS
    0x00,0x00,0x00,0x00,0xfe,0xfe,0x7c,0x7c,0x38,0x38,0x10,0x00,0x00,0x00,0x00,0x00, // Glyph::US
];

/// Rows of the glyphs with codes 32 to 47.
pub const FONT_BLOCK_2: [u8; 256] = [
    0x00,0x00,0x00,0x00,0x00,0x00,0x00,0x00,0x00,0x00,0x00,0x00,0x00,0x00,0x00,0x00, // Glyph::Space
    0x00,0x00,0x18,0x3c,0x3c,0x3c,0x18,0x18,0x18,0x00,0x18,0x18,0x00,0x00,0x00,0x00, // Glyph::ExclamationMark
    0x00,0x66,0x66,0x66,0x24,0x00,0x00,0x00,0x00,0x00,0x00,0x00,0x00,0x00,0x00,0x00, // Glyph::QuotationMark
    0x00,0x00,0x00,0x6c,0x6c,0xfe,0x6c,0x6c,0x6c,0xfe,0x6c,0x6c,0x00,0x00,0x00,0x00, // Glyph::NumberSign
    0x18,0x18,0x7c,0xc6,0xc2,0xc0,0x7c,0x06,0x06,0x86,0xc6,0x7c,0x18,0x18,0x00,0x00, // Glyph::DollarSign
    0x00,0x00,0x00,0x00,0xc2,0xc6,0x0c,0x18,0x30,0x60,0xc6,0x86,0x00,0x00,0x00,0x00, // Glyph::PercentSign
    0x00,0x00,0x38,0x6c,0x6c,0x38,0x76,0xdc,0xcc,0xcc,0xcc,0x76,0x00,0x00,0x00,0x00, // Glyph::Ampersand
    0x00,0x30,0x30,0x30,0x60,0x00,0x00,0x00,0x00,0x00,0x00,0x00,0x00,0x00,0x00,0x00, // Glyph::Apostrophe
    0x00,0x00,0x0c,0x18,0x30,0x30,0x30,0x30,0x30,0x30,0x18,0x0c,0x00,0x00,0x00,0x00, // Glyph::LeftParenthesis
    0x00,0x00,0x30,0x18,0x0c,0x0c,0x0c,0x0c,0x0c,0x0c,0x18,0x30,0x00,0x00,0x00,0x00, // Glyph::RightParenthesis
    0x00,0x00,0x00,0x00,0x00,0x66,0x3c,0xff,0x3c,0x66,0x00,0x00,0x00,0x00,0x00,0x00, // Glyph::Asterisk
    0x00,0x00,0x00,0x00,0x00,0x18,0x18,0x7e,0x18,0x18,0x00,0x00,0x00,0x00,0x00,0x00, // Glyph::PlusSign
    0x00,0x00,0x00,0x00,0x00,0x00,0x00,0x00,0x00,0x18,0x18,0x18,0x30,0x00,0x00,0x00, // Glyph::Comma
    0x00,0x00,0x00,0x00,0x00,0x00,0x00,0xfe,0x00,0x00,0x00,0x00,0x00,0x00,0x00,0x00, // Glyph::HyphenMinus
    0x00,0x00,0x00,0x00,0x00,0x00,0x00,0x00,0x00,0x00,0x18,0x18,0x00,0x00,0x00,0x00, // Glyph::FullStop
    0x00,0x00,0x00,0x00,0x02,0x06,0x0c,0x18,0x30,0x60,0xc0,0x80,0x00,0x00,0x00,0x00, // Glyph::Solidus
];

/// Rows of the glyphs with codes 48 to 63.
pub const FONT_BLOCK_3: [u8; 256] = [
    0x00,0x00,0x38,0x6c,0xc6,0xc6,0xd6,0xd6,0xc6,0xc6,0x6c,0x38,0x00,0x00,0x00,0x00, // Glyph::DigitZero
    0x00,0x00,0x18,0x38,0x78,0x18,0x18,0x18,0x18,0x18,0x18,0x7e,0x00,0x00,0x00,0x00, // Glyph::DigitOne
    0x00,0x00,0x7c,0xc6,0x06,0x0c,0x18,0x30,0x60,0xc0,0xc6,0xfe,0x00,0x00,0x00,0x00, // Glyph::DigitTwo
    0x00,0x00,0x7c,0xc6,0x06,0x06,0x3c,0x06,0x06,0x06,0xc6,0x7c,0x00,0x00,0x00,0x00, // Glyph::DigitThree
    0x00,0x00,0x0c,0x1c,0x3c,0x6c,0xcc,0xfe,0x0c,0x0c,0x0c,0x1e,0x00,0x00,0x00,0x00, // Glyph::DigitFour
    0x00,0x00,0xfe,0xc0,0xc0,0xc0,0xfc,0x06,0x06,0x06,0xc6,0x7c,0x00,0x00,0x00,0x00, // Glyph::DigitFive
    0x00,0x00,0x38,0x60,0xc0,0xc0,0xfc,0xc6,0xc6,0xc6,0xc6,0x7c,0x00,0x00,0x00,0x00, // Glyph::DigitSix
    0x00,0x00,0xfe,0xc6,0x06,0x06,0x0c,0x18,0x30,0x30,0x30,0x30,0x00,0x00,0x00,0x00, // Glyph::DigitSeven
    0x00,0x00,0x7c,0xc6,0xc6,0xc6,0x7c,0xc6,0xc6,0xc6,0xc6,0x7c,0x00,0x00,0x00,0x00, // Glyph::DigitEight
    0x00,0x00,0x7c,0xc6,0xc6,0xc6,0x7e,0x06,0x06,0x06,0x0c,0x78,0x00,0x00,0x00,0x00, // Glyph::DigitNine
    0x00,0x00,0x00,0x00,0x18,0x18,0x00,0x00,0x00,0x18,0x18,0x00,0x00,0x00,0x00,0x00, // Glyph::Colon
    0x00,0x00,0x00,0x00,0x18,0x18,0x00,0x00,0x00,0x18,0x18,0x30,0x00,0x00,0x00,0x00, // Glyph::Semicolon
    0x00,0x00,0x00,0x06,0x0c,0x18,0x30,0x60,0x30,0x18,0x0c,0x06,0x00,0x00,0x00,0x00, // Glyph::LessThanSign
    0x00,0x00,0x00,0x00,0x00,0x7e,0x00,0x00,0x7e,0x00,0x00,0x00,0x00,0x00,0x00,0x00, // Glyph::EqualsSign
    0x00,0x00,0x00,0x60,0x30,0x18,0x0c,0x06,0x0c,0x18,0x30,0x60,0x00,0x00,0x00,0x00, // Glyph::GreaterThanSign
    0x00,0x00,0x7c,0xc6,0xc6,0x0c,0x18,0x18,0x18,0x00,0x18,0x18,0x00,0x00,0x00,0x00, // Glyph::QuestionMark
];

/// Rows of the glyphs with codes 64 to 79.
pub const FONT_BLOCK_4: [u8; 256] = [
    0x00,0x00,0x00,0x7c,0xc6,0xc6,0xde,0xde,0xde,0xdc,0xc0,0x7c,0x00,0x00,0x00,0x00, // Glyph::CommercialAt
    0x00,0x00,0x10,0x38,0x6c,0xc6,0xc6,0xfe,0xc6,0xc6,0xc6,0xc6,0x00,0x00,0x00,0x00, // Glyph::LatinCapitalLetterA
    0x00,0x00,0xfc,0x66,0x66,0x66,0x7c,0x66,0x66,0x66,0x66,0xfc,0x00,0x00,0x00,0x00, // Glyph::LatinCapitalLetterB
    0x00,0x00,0x3c,0x66,0xc2,0xc0,0xc0,0xc0,0xc0,0xc2,0x66,0x3c,0x00,0x00,0x00,0x00, // Glyph::LatinCapitalLetterC
    0x00,0x00,0xf8,0x6c,0x66,0x66,0x66,0x66,0x66,0x66,0x6c,0xf8,0x00,0x00,0x00,0x00, // Glyph::LatinCapitalLetterD
    0x00,0x00,0xfe,0x66,0x62,0x68,0x78,0x68,0x60,0x62,0x66,0xfe,0x00,0x00,0x00,0x00, // Glyph::LatinCapitalLetterE
    0x00,0x00,0xfe,0x66,0x62,0x68,0x78,0x68,0x60,0x60,0x60,0xf0,0x00,0x00,0x00,0x00, // Glyph::LatinCapitalLetterF
    0x00,0x00,0x3c,0x66,0xc2,0xc0,0xc0,0xde,0xc6,0xc6,0x66,0x3a,0x00,0x00,0x00,0x00, // Glyph::LatinCapitalLetterG
    0x00,0x00,0xc6,0xc6,0xc6,0xc6,0xfe,0xc6,0xc6,0xc6,0xc6,0xc6,0x00,0x00,0x00,0x00, // Glyph::LatinCapitalLetterH
    0x00,0x00,0x3c,0x18,0x18,0x18,0x18,0x18,0x18,0x18,0x18,0x3c,0x00,0x00,0x00,0x00, // Glyph::LatinCapitalLetterI
    0x00,0x00,0x1e,0x0c,0x0c,0x0c,0x0c,0x0c,0xcc,0xcc,0xcc,0x78,0x00,0x00,0x00,0x00, // Glyph::LatinCapitalLetterJ
    0x00,0x00,0xe6,0x66,0x66,0x6c,0x78,0x78,0x6c,0x66,0x66,0xe6,0x00,0x00,0x00,0x00, // Glyph::LatinCapitalLetterK
    0x00,0x00,0xf0,0x60,0x60,0x60,0x60,0x60,0x60,0x62,0x66,0xfe,0x00,0x00,0x00,0x00, // Glyph::LatinCapitalLetterL
    0x00,0x00,0xc6,0xee,0xfe,0xfe,0xd6,0xc6,0xc6,0xc6,0xc6,0xc6,0x00,0x00,0x00,0x00, // Glyph::LatinCapitalLetterM
    0x00,0x00,0xc6,0xe6,0xf6,0xfe,0xde,0xce,0xc6,0xc6,0xc6,0xc6,0x00,0x00,0x00,0x00, // Glyph::LatinCapitalLetterN
    0x00,0x00,0x7c,0xc6,0xc6,0xc6,0xc6,0xc6,0xc6,0xc6,0xc6,0x7c,0x00,0x00,0x00,0x00, // Glyph::LatinCapitalLetterO
];

/// Rows of the glyphs with codes 80 to 95.
pub const FONT_BLOCK_5: [u8; 256] = [
    0x00,0x00,0xfc,0x66,0x66,0x66,0x7c,0x60,0x60,0x60,0x60,0xf0,0x00,0x00,0x00,0x00, // Glyph::LatinCapitalLetterP
    0x00,0x00,0x7c,0xc6,0xc6,0xc6,0xc6,0xc6,0xc6,0xd6,0xde,0x7c,0x0c,0x0e,0x00,0x00, // Glyph::LatinCapitalLetterQ
    0x00,0x00,0xfc,0x66,0x66,0x66,0x7c,0x6c,0x66,0x66,0x66,0xe6,0x00,0x00,0x00,0x00, // Glyph::LatinCapitalLetterR
    0x00,0x00,0x7c,0xc6,0xc6,0x60,0x38,0x0c,0x06,0xc6,0xc6,0x7c,0x00,0x00,0x00,0x00, // Glyph::LatinCapitalLetterS
    0x00,0x00,0x7e,0x7e,0x5a,0x18,0x18,0x18,0x18,0x18,0x18,0x3c,0x00,0x00,0x00,0x00, // Glyph::LatinCapitalLetterT
    0x00,0x00,0xc6,0xc6,0xc6,0xc6,0xc6,0xc6,0xc6,0xc6,0xc6,0x7c,0x00,0x00,0x00,0x00, // Glyph::LatinCapitalLetterU
    0x00,0x00,0xc6,0xc6,0xc6,0xc6,0xc6,0xc6,0xc6,0x6c,0x38,0x10,0x00,0x00,0x00,0x00, // Glyph::LatinCapitalLetterV
    0x00,0x00,0xc6,0xc6,0xc6,0xc6,0xd6,0xd6,0xd6,0xfe,0xee,0x6c,0x00,0x00,0x00,0x00, // Glyph::LatinCapitalLetterW
    0x00,0x00,0xc6,0xc6,0x6c,0x7c,0x38,0x38,0x7c,0x6c,0xc6,0xc6,0x00,0x00,0x00,0x00, // Glyph::LatinCapitalLetterX
    0x00,0x00,0x66,0x66,0x66,0x66,0x3c,0x18,0x18,0x18,0x18,0x3c,0x00,0x00,0x00,0x00, // Glyph::LatinCapitalLetterY
    0x00,0x00,0xfe,0xc6,0x86,0x0c,0x18,0x30,0x60,0xc2,0xc6,0xfe,0x00,0x00,0x00,0x00, // Glyph::LatinCapitalLetterZ
    0x00,0x00,0x3c,0x30,0x30,0x30,0x30,0x30,0x30,0x30,0x30,0x3c,0x00,0x00,0x00,0x00, // Glyph::LeftSquareBracket
    0x00,0x00,0x00,0x80,0xc0,0xe0,0x70,0x38,0x1c,0x0e,0x06,0x02,0x00,0x00,0x00,0x00, // Glyph::ReverseSolidus
    0x00,0x00,0x3c,0x0c,0x0c,0x0c,0x0c,0x0c,0x0c,0x0c,0x0c,0x3c,0x00,0x00,0x00,0x00, // Glyph::RightSquareBracket
    0x10,0x38,0x6c,0xc6,0x00,0x00,0x00,0x00,0x00,0x00,0x00,0x00,0x00,0x00,0x00,0x00, // Glyph::CircumflexAccent
    0x00,0x00,0x00,0x00,0x00,0x00,0x00,0x00,0x00,0x00,0x00,0x00,0x00,0xff,0x00,0x00, // Glyph::LowLine
];

/// Rows of the glyphs with codes 96 to 111.
pub const FONT_BLOCK_6: [u8; 256] = [
    0x00,0x30,0x18,0x0c,0x00,0x00,0x00,0x00,0x00,0x00,0x00,0x00,0x00,0x00,0x00,0x00, // Glyph::GraveAccent
    0x00,0x00,0x00,0x00,0x00,0x78,0x0c,0x7c,0xcc,0xcc,0xcc,0x76,0x00,0x00,0x00,0x00, // Glyph::LatinSmallLetterA
    0x00,0x00,0xe0,0x60,0x60,0x78,0x6c,0x66,0x66,0x66,0x66,0x7c,0x00,0x00,0x00,0x00, // Glyph::LatinSmallLetterB
    0x00,0x00,0x00,0x00,0x00,0x7c,0xc6,0xc0,0xc0,0xc0,0xc6,0x7c,0x00,0x00,0x00,0x00, // Glyph::LatinSmallLetterC
    0x00,0x00,0x1c,0x0c,0x0c,0x3c,0x6c,0xcc,0xcc,0xcc,0xcc,0x76,0x00,0x00,0x00,0x00, // Glyph::LatinSmallLetterD
    0x00,0x00,0x00,0x00,0x00,0x7c,0xc6,0xfe,0xc0,0xc0,0xc6,0x7c,0x00,0x00,0x00,0x00, // Glyph::LatinSmallLetterE
    0x00,0x00,0x1c,0x36,0x32,0x30,0x78,0x30,0x30,0x30,0x30,0x78,0x00,0x00,0x00,0x00, // Glyph::LatinSmallLetterF
    0x00,0x00,0x00,0x00,0x00,0x76,0xcc,0xcc,0xcc,0xcc,0xcc,0x7c,0x0c,0xcc,0x78,0x00, // Glyph::LatinSmallLetterG
    0x00,0x00,0xe0,0x60,0x60,0x6c,0x76,0x66,0x66,0x66,0x66,0xe6,0x00,0x00,0x00,0x00, // Glyph::LatinSmallLetterH
    0x00,0x00,0x18,0x18,0x00,0x38,0x18,0x18,0x18,0x18,0x18,0x3c,0x00,0x00,0x00,0x00, // Glyph::LatinSmallLetterI
    0x00,0x00,0x06,0x06,0x00,0x0e,0x06,0x06,0x06,0x06,0x06,0x06,0x66,0x66,0x3c,0x00, // Glyph::LatinSmallLetterJ
    0x00,0x00,0xe0,0x60,0x60,0x66,0x6c,0x78,0x78,0x6c,0x66,0xe6,0x00,0x00,0x00,0x00, // Glyph::LatinSmallLetterK
    0x00,0x00,0x38,0x18,0x18,0x18,0x18,0x18,0x18,0x18,0x18,0x3c,0x00,0x00,0x00,0x00, // Glyph::LatinSmallLetterL
    0x00,0x00,0x00,0x00,0x00,0xec,0xfe,0xd6,0xd6,0xd6,0xd6,0xc6,0x00,0x00,0x00,0x00, // Glyph::LatinSmallLetterM
    0x00,0x00,0x00,0x00,0x00,0xdc,0x66,0x66,0x66,0x66,0x66,0x66,0x00,0x00,0x00,0x00, // Glyph::LatinSmallLetterN
    0x00,0x00,0x00,0x00,0x00,0x7c,0xc6,0xc6,0xc6,0xc6,0xc6,0x7c,0x00,0x00,0x00,0x00, // Glyph::LatinSmallLetterO
];

/// Rows of the glyphs with codes 112 to 127.
pub const FONT_BLOCK_7: [u8; 256] = [
    0x00,0x00,0x00,0x00,0x00,0xdc,0x66,0x66,0x66,0x66,0x66,0x7c,0x60,0x60,0xf0,0x00, // Glyph::LatinSmallLetterP
    0x00,0x00,0x00,0x00,0x00,0x76,0xcc,0xcc,0xcc,0xcc,0xcc,0x7c,0x0c,0x0c,0x1e,0x00, // Glyph::LatinSmallLetterQ
    0x00,0x00,0x00,0x00,0x00,0xdc,0x76,0x66,0x60,0x60,0x60,0xf0,0x00,0x00,0x00,0x00, // Glyph::LatinSmallLetterR
    0x00,0x00,0x00,0x00,0x00,0x7c,0xc6,0x60,0x38,0x0c,0xc6,0x7c,0x00,0x00,0x00,0x00, // Glyph::LatinSmallLetterS
    0x00,0x00,0x10,0x30,0x30,0xfc,0x30,0x30,0x30,0x30,0x36,0x1c,0x00,0x00,0x00,0x00, // Glyph::LatinSmallLetterT
    0x00,0x00,0x00,0x00,0x00,0xcc,0xcc,0xcc,0xcc,0xcc,0xcc,0x76,0x00,0x00,0x00,0x00, // Glyph::LatinSmallLetterU
    0x00,0x00,0x00,0x00,0x00,0xc6,0xc6,0xc6,0xc6,0xc6,0x6c,0x38,0x00,0x00,0x00,0x00, // Glyph::LatinSmallLetterV
    0x00,0x00,0x00,0x00,0x00,0xc6,0xc6,0xd6,0xd6,0xd6,0xfe,0x6c,0x00,0x00,0x00,0x00, // Glyph::LatinSmallLetterW
    0x00,0x00,0x00,0x00,0x00,0xc6,0x6c,0x38,0x38,0x38,0x6c,0xc6,0x00,0x00,0x00,0x00, // Glyph::LatinSmallLetterX
    0x00,0x00,0x00,0x00,0x00,0xc6,0xc6,0xc6,0xc6,0xc6,0xc6,0x7e,0x06,0x0c,0xf8,0x00, // Glyph::LatinSmallLetterY
    0x00,0x00,0x00,0x00,0x00,0xfe,0xcc,0x18,0x30,0x60,0xc6,0xfe,0x00,0x00,0x00,0x00, // Glyph::LatinSmallLetterZ
    0x00,0x00,0x0e,0x18,0x18,0x18,0x70,0x18,0x18,0x18,0x18,0x0e,0x00,0x00,0x00,0x00, // Glyph::LeftCurlyBracket
    0x00,0x00,0x18,0x18,0x18,0x18,0x18,0x18,0x18,0x18,0x18,0x18,0x00,0x00,0x00,0x00, // Glyph::VerticalLine
    0x00,0x00,0x70,0x18,0x18,0x18,0x0e,0x18,0x18,0x18,0x18,0x70,0x00,0x00,0x00,0x00, // Glyph::RightCurlyBracket
    0x00,0x76,0xdc,0x00,0x00,0x00,0x00,0x00,0x00,0x00,0x00,0x00,0x00,0x00,0x00,0x00, // Glyph::Tilde
    0x00,0x00,0x00,0x00,0x10,0x38,0x6c,0xc6,0xc6,0xc6,0xfe,0x00,0x00,0x00,0x00,0x00, // Glyph::Delete
];

/// Rows of the glyphs with codes 128 to 143.
pub const FONT_BLOCK_8: [u8; 256] = [
    0x00,0x00,0x3c,0x66,0xc2,0xc0,0xc0,0xc0,0xc0,0xc2,0x66,0x3c,0x18,0x70,0x00,0x00, // Glyph::LatinCapitalLetterCWithCedilla
    0x00,0x00,0xcc,0x00,0x00,0xcc,0xcc,0xcc,0xcc,0xcc,0xcc,0x76,0x00,0x00,0x00,0x00, // Glyph::LatinSmallLetterUWithDiaeresis
    0x00,0x0c,0x18,0x30,0x00,0x7c,0xc6,0xfe,0xc0,0xc0,0xc6,0x7c,0x00,0x00,0x00,0x00, // Glyph::LatinSmallLetterEWithAcute
    0x00,0x10,0x38,0x6c,0x00,0x78,0x0c,0x7c,0xcc,0xcc,0xcc,0x76,0x00,0x00,0x00,0x00, // Glyph::LatinSmallLetterAWithCircumflex
    0x00,0x00,0xcc,0x00,0x00,0x78,0x0c,0x7c,0xcc,0xcc,0xcc,0x76,0x00,0x00,0x00,0x00, // Glyph::LatinSmallLetterAWithDiaeresis
    0x00,0x60,0x30,0x18,0x00,0x78,0x0c,0x7c,0xcc,0xcc,0xcc,0x76,0x00,0x00,0x00,0x00, // Glyph::LatinSmallLetterAWithGrave
    0x00,0x38,0x6c,0x38,0x00,0x78,0x0c,0x7c,0xcc,0xcc,0xcc,0x76,0x00,0x00,0x00,0x00, // Glyph::LatinSmallLetterAWithRingAbove
    0x00,0x00,0x00,0x00,0x00,0x7c,0xc6,0xc0,0xc0,0xc0,0xc6,0x7c,0x18,0x70,0x00,0x00, // Glyph::LatinSmallLetterCWithCedilla
    0x00,0x10,0x38,0x6c,0x00,0x7c,0xc6,0xfe,0xc0,0xc0,0xc6,0x7c,0x00,0x00,0x00,0x00, // Glyph::LatinSmallLetterEWithCircumflex
    0x00,0x00,0xc6,0x00,0x00,0x7c,0xc6,0xfe,0xc0,0xc0,0xc6,0x7c,0x00,0x00,0x00,0x00, // Glyph::LatinSmallLetterEWithDiaeresis
    0x00,0x60,0x30,0x18,0x00,0x7c,0xc6,0xfe,0xc0,0xc0,0xc6,0x7c,0x00,0x00,0x00,0x00, // Glyph::LatinSmallLetterEWithGrave
    0x00,0x00,0x66,0x00,0x00,0x38,0x18,0x18,0x18,0x18,0x18,0x3c,0x00,0x00,0x00,0x00, // Glyph::LatinSmallLetterIWithDiaeresis
    0x00,0x18,0x3c,0x66,0x00,0x38,0x18,0x18,0x18,0x18,0x18,0x3c,0x00,0x00,0x00,0x00, // Glyph::LatinSmallLetterIWithCircumflex
    0x00,0x60,0x30,0x18,0x00,0x38,0x18,0x18,0x18,0x18,0x18,0x3c,0x00,0x00,0x00,0x00, // Glyph::LatinSmallLetterIWithGrave
    0x00,0xc6,0x00,0x10,0x38,0x6c,0xc6,0xc6,0xfe,0xc6,0xc6,0xc6,0x00,0x00,0x00,0x00, // Glyph::LatinCapitalLetterAWithDiaeresis
    0x38,0x6c,0x38,0x10,0x38,0x6c,0xc6,0xc6,0xfe,0xc6,0xc6,0xc6,0x00,0x00,0x00,0x00, // Glyph::LatinCapitalLetterAWithRingAbove
];

/// Rows of the glyphs with codes 144 to 159.
pub const FONT_BLOCK_9: [u8; 256] = [
    0x0c,0x18,0x00,0xfe,0x66,0x62,0x68,0x78,0x68,0x62,0x66,0xfe,0x00,0x00,0x00,0x00, // Glyph::LatinCapitalLetterEWithAcute
    0x00,0x00,0x00,0x00,0x00,0xec,0x36,0x36,0x7e,0xd8,0xd8,0x6e,0x00,0x00,0x00,0x00, // Glyph::LatinSmallLetterAe
    0x00,0x00,0x3e,0x6c,0xcc,0xcc,0xfe,0xcc,0xcc,0xcc,0xcc,0xce,0x00,0x00,0x00,0x00, // Glyph::LatinCapitalLetterAe
    0x00,0x10,0x38,0x6c,0x00,0x7c,0xc6,0xc6,0xc6,0xc6,0xc6,0x7c,0x00,0x00,0x00,0x00, // Glyph::LatinSmallLetterOWithCircumflex
    0x00,0x00,0xc6,0x00,0x00,0x7c,0xc6,0xc6,0xc6,0xc6,0xc6,0x7c,0x00,0x00,0x00,0x00, // Glyph::LatinSmallLetterOWithDiaeresis
    0x00,0x60,0x30,0x18,0x00,0x7c,0xc6,0xc6,0xc6,0xc6,0xc6,0x7c,0x00,0x00,0x00,0x00, // Glyph::LatinSmallLetterOWithGrave
    0x00,0x30,0x78,0xcc,0x00,0xcc,0xcc,0xcc,0xcc,0xcc,0xcc,0x76,0x00,0x00,0x00,0x00, // Glyph::LatinSmallLetterUWithCircumflex
    0x00,0x60,0x30,0x18,0x00,0xcc,0xcc,0xcc,0xcc,0xcc,0xcc,0x76,0x00,0x00,0x00,0x00, // Glyph::LatinSmallLetterUWithGrave
    0x00,0x00,0xc6,0x00,0x00,0xc6,0xc6,0xc6,0xc6,0xc6,0xc6,0x7e,0x06,0x0c,0x78,0x00, // Glyph::LatinSmallLetterYWithDiaeresis
    0x00,0xc6,0x00,0x7c,0xc6,0xc6,0xc6,0xc6,0xc6,0xc6,0xc6,0x7c,0x00,0x00,0x00,0x00, // Glyph::LatinCapitalLetterOWithDiaeresis
    0x00,0xc6,0x00,0xc6,0xc6,0xc6,0xc6,0xc6,0xc6,0xc6,0xc6,0x7c,0x00,0x00,0x00,0x00, // Glyph::LatinCapitalLetterUWithDiaeresis
    0x00,0x00,0x00,0x00,0x00,0x7c,0xce,0xde,0xf6,0xe6,0xc6,0x7c,0x00,0x00,0x00,0x00, // Glyph::LatinSmallLetterOWithStroke
    0x00,0x38,0x6c,0x64,0x60,0xf0,0x60,0x60,0x60,0x60,0xe6,0xfc,0x00,0x00,0x00,0x00, // Glyph::PoundSign
    0x00,0x04,0x7c,0xce,0xce,0xd6,0xd6,0xd6,0xd6,0xe6,0xe6,0x7c,0x40,0x00,0x00,0x00, // Glyph::LatinCapitalLetterOWithStroke
    0x00,0x00,0x00,0x00,0x00,0xc6,0x6c,0x38,0x38,0x6c,0xc6,0x00,0x00,0x00,0x00,0x00, // Glyph::MultiplicationSign
    0x00,0x0e,0x1b,0x18,0x18,0x18,0x7e,0x18,0x18,0x18,0xd8,0x70,0x00,0x00,0x00,0x00, // Glyph::LatinSmallLetterFWithHook
];

/// Rows of the glyphs with codes 160 to 175.
pub const FONT_BLOCK_10: [u8; 256] = [
    0x00,0x18,0x30,0x60,0x00,0x78,0x0c,0x7c,0xcc,0xcc,0xcc,0x76,0x00,0x00,0x00,0x00, // Glyph::LatinSmallLetterAWithAcute
    0x00,0x0c,0x18,0x30,0x00,0x38,0x18,0x18,0x18,0x18,0x18,0x3c,0x00,0x00,0x00,0x00, // Glyph::LatinSmallLetterIWithAcute
    0x00,0x18,0x30,0x60,0x00,0x7c,0xc6,0xc6,0xc6,0xc6,0xc6,0x7c,0x00,0x00,0x00,0x00, // Glyph::LatinSmallLetterOWithAcute
    0x00,0x18,0x30,0x60,0x00,0xcc,0xcc,0xcc,0xcc,0xcc,0xcc,0x76,0x00,0x00,0x00,0x00, // Glyph::LatinSmallLetterUWithAcute
    0x00,0x00,0x76,0xdc,0x00,0xdc,0x66,0x66,0x66,0x66,0x66,0x66,0x00,0x00,0x00,0x00, // Glyph::LatinSmallLetterNWithTilde
    0x76,0xdc,0x00,0xc6,0xe6,0xf6,0xfe,0xde,0xce,0xc6,0xc6,0xc6,0x00,0x00,0x00,0x00, // Glyph::LatinCapitalLetterNWithTilde
    0x00,0x00,0x3c,0x6c,0x6c,0x3e,0x00,0x7e,0x00,0x00,0x00,0x00,0x00,0x00,0x00,0x00, // Glyph::FeminineOrdinalIndicator
    0x00,0x00,0x38,0x6c,0x6c,0x38,0x00,0x7c,0x00,0x00,0x00,0x00,0x00,0x00,0x00,0x00, // Glyph::MasculineOrdinalIndicator
    0x00,0x00,0x30,0x30,0x00,0x30,0x30,0x60,0xc0,0xc6,0xc6,0x7c,0x00,0x00,0x00,0x00, // Glyph::InvertedQuestionMark
    0x00,0x00,0x7c,0x82,0xb2,0xaa,0xb2,0xaa,0xaa,0x82,0x7c,0x00,0x00,0x00,0x00,0x00, // Glyph::RegisteredSign
    0x00,0x00,0x00,0x00,0x00,0x00,0xfe,0x06,0x06,0x06,0x06,0x00,0x00,0x00,0x00,0x00, // Glyph::NotSign
    0x00,0x60,0xe0,0x62,0x66,0x6c,0x18,0x30,0x60,0xdc,0x86,0x0c,0x18,0x3e,0x00,0x00, // Glyph::VulgarFractionOneHalf
    0x00,0x60,0xe0,0x62,0x66,0x6c,0x18,0x30,0x66,0xce,0x9a,0x3f,0x06,0x06,0x00,0x00, // Glyph::VulgarFractionOneQuarter
    0x00,0x00,0x18,0x18,0x00,0x18,0x18,0x18,0x3c,0x3c,0x3c,0x18,0x00,0x00,0x00,0x00, // Glyph::InvertedExclamationMark
    0x00,0x00,0x00,0x00,0x00,0x36,0x6c,0xd8,0x6c,0x36,0x00,0x00,0x00,0x00,0x00,0x00, // Glyph::LeftPointingDoubleAngleQuotationMark
    0x00,0x00,0x00,0x00,0x00,0xd8,0x6c,0x36,0x6c,0xd8,0x00,0x00,0x00,0x00,0x00,0x00, // Glyph::RightPointingDoubleAngleQuotationMark
];

/// Rows of the glyphs with codes 176 to 191.
pub const FONT_BLOCK_11: [u8; 256] = [
    0x11,0x44,0x11,0x44,0x11,0x44,0x11,0x44,0x11,0x44,0x11,0x44,0x11,0x44,0x11,0x44, // Glyph::LightShade
    0x55,0xaa,0x55,0xaa,0x55,0xaa,0x55,0xaa,0x55,0xaa,0x55,0xaa,0x55,0xaa,0x55,0xaa, // Glyph::MediumShade
    0xdd,0x77,0xdd,0x77,0xdd,0x77,0xdd,0x77,0xdd,0x77,0xdd,0x77,0xdd,0x77,0xdd,0x77, // Glyph::DarkShade
    0x18,0x18,0x18,0x18,0x18,0x18,0x18,0x18,0x18,0x18,0x18,0x18,0x18,0x18,0x18,0x18, // Glyph::BoxDrawingsLightVertical
    0x18,0x18,0x18,0x18,0x18,0x18,0x18,0xf8,0x18,0x18,0x18,0x18,0x18,0x18,0x18,0x18, // Glyph::BoxDrawingsLightVerticalAndLeft
    0x60,0xc0,0x10,0x38,0x6c,0xc6,0xc6,0xfe,0xc6,0xc6,0xc6,0xc6,0x00,0x00,0x00,0x00, // Glyph::LatinCapitalLetterAWithAcute
    0x7c,0xc6,0x10,0x38,0x6c,0xc6,0xc6,0xfe,0xc6,0xc6,0xc6,0xc6,0x00,0x00,0x00,0x00, // Glyph::LatinCapitalLetterAWithCircumflex
    0x0c,0x06,0x10,0x38,0x6c,0xc6,0xc6,0xfe,0xc6,0xc6,0xc6,0xc6,0x00,0x00,0x00,0x00, // Glyph::LatinCapitalLetterAWithGrave
    0x00,0x00,0x7c,0x82,0x9a,0xa2,0xa2,0xa2,0x9a,0x82,0x7c,0x00,0x00,0x00,0x00,0x00, // Glyph::CopyrightSign
    0x36,0x36,0x36,0x36,0x36,0xf6,0x06,0xf6,0x36,0x36,0x36,0x36,0x36,0x36,0x36,0x36, // Glyph::BoxDrawingsDoubleVerticalAndLeft
    0x36,0x36,0x36,0x36,0x36,0x36,0x36,0x36,0x36,0x36,0x36,0x36,0x36,0x36,0x36,0x36, // Glyph::BoxDrawingsDoubleVertical
    0x00,0x00,0x00,0x00,0x00,0xfe,0x06,0xf6,0x36,0x36,0x36,0x36,0x36,0x36,0x36,0x36, // Glyph::BoxDrawingsDoubleDownAndLeft
    0x36,0x36,0x36,0x36,0x36,0xf6,0x06,0xfe,0x00,0x00,0x00,0x00,0x00,0x00,0x00,0x00, // Glyph::BoxDrawingsDoubleUpAndLeft
    0x00,0x00,0x18,0x18,0x7c,0xc6,0xc0,0xc0,0xc6,0x7c,0x18,0x18,0x00,0x00,0x00,0x00, // Glyph::CentSign
    0x00,0x00,0x00,0x66,0x66,0x3c,0x18,0x7e,0x18,0x7e,0x18,0x18,0x00,0x00,0x00,0x00, // Glyph::YenSign
    0x00,0x00,0x00,0x00,0x00,0x00,0x00,0xf8,0x18,0x18,0x18,0x18,0x18,0x18,0x18,0x18, // Glyph::BoxDrawingsLightDownAndLeft
];

/// Rows of the glyphs with codes 192 to 207.
pub const FONT_BLOCK_12: [u8; 256] = [
    0x18,0x18,0x18,0x18,0x18,0x18,0x18,0x1f,0x00,0x00,0x00,0x00,0x00,0x00,0x00,0x00, // Glyph::BoxDrawingsLightUpAndRight
    0x18,0x18,0x18,0x18,0x18,0x18,0x18,0xff,0x00,0x00,0x00,0x00,0x00,0x00,0x00,0x00, // Glyph::BoxDrawingsLightUpAndHorizontal
    0x00,0x00,0x00,0x00,0x00,0x00,0x00,0xff,0x18,0x18,0x18,0x18,0x18,0x18,0x18,0x18, // Glyph::BoxDrawingsLightDownAndHorizontal
    0x18,0x18,0x18,0x18,0x18,0x18,0x18,0x1f,0x18,0x18,0x18,0x18,0x18,0x18,0x18,0x18, // Glyph::BoxDrawingsLightVerticalAndRight
    0x00,0x00,0x00,0x00,0x00,0x00,0x00,0xff,0x00,0x00,0x00,0x00,0x00,0x00,0x00,0x00, // Glyph::BoxDrawingsLightHorizontal
    0x18,0x18,0x18,0x18,0x18,0x18,0x18,0xff,0x18,0x18,0x18,0x18,0x18,0x18,0x18,0x18, // Glyph::BoxDrawingsLightVerticalAndHorizontal
    0x00,0x00,0x76,0xdc,0x00,0x78,0x0c,0x7c,0xcc,0xcc,0xcc,0x76,0x00,0x00,0x00,0x00, // Glyph::LatinSmallLetterAWithTilde
    0x76,0xdc,0x00,0x38,0x6c,0xc6,0xc6,0xfe,0xc6,0xc6,0xc6,0xc6,0x00,0x00,0x00,0x00, // Glyph::LatinCapitalLetterAWithTilde
    0x36,0x36,0x36,0x36,0x36,0x37,0x30,0x3f,0x00,0x00,0x00,0x00,0x00,0x00,0x00,0x00, // Glyph::BoxDrawingsDoubleUpAndRight
    0x00,0x00,0x00,0x00,0x00,0x3f,0x30,0x37,0x36,0x36,0x36,0x36,0x36,0x36,0x36,0x36, // Glyph::BoxDrawingsDoubleDownAndRight
    0x36,0x36,0x36,0x36,0x36,0xf7,0x00,0xff,0x00,0x00,0x00,0x00,0x00,0x00,0x00,0x00, // Glyph::BoxDrawingsDoubleUpAndHorizontal
    0x00,0x00,0x00,0x00,0x00,0xff,0x00,0xf7,0x36,0x36,0x36,0x36,0x36,0x36,0x36,0x36, // Glyph::BoxDrawingsDoubleDownAndHorizontal
    0x36,0x36,0x36,0x36,0x36,0x37,0x30,0x37,0x36,0x36,0x36,0x36,0x36,0x36,0x36,0x36, // Glyph::BoxDrawingsDoubleVerticalAndRight
    0x00,0x00,0x00,0x00,0x00,0xff,0x00,0xff,0x00,0x00,0x00,0x00,0x00,0x00,0x00,0x00, // Glyph::BoxDrawingsDoubleHorizontal
    0x36,0x36,0x36,0x36,0x36,0xf7,0x00,0xf7,0x36,0x36,0x36,0x36,0x36,0x36,0x36,0x36, // Glyph::BoxDrawingsDoubleVerticalAndHorizontal
    0x00,0x00,0x00,0x00,0xc6,0x7c,0xc6,0xc6,0xc6,0xc6,0x7c,0xc6,0x00,0x00,0x00,0x00, // Glyph::CurrencySign
];

/// Rows of the glyphs with codes 208 to 223.
pub const FONT_BLOCK_13: [u8; 256] = [
    0x00,0x00,0x34,0x18,0x2c,0x06,0x3e,0x66,0x66,0x66,0x66,0x3c,0x00,0x00,0x00,0x00, // Glyph::LatinSmallLetterEth
    0x00,0x00,0xf8,0x6c,0x66,0x66,0xf6,0x66,0x66,0x66,0x6c,0xf8,0x00,0x00,0x00,0x00, // Glyph::LatinCapitalLetterEth
    0x38,0x6c,0x00,0xfe,0x66,0x62,0x68,0x78,0x68,0x62,0x66,0xfe,0x00,0x00,0x00,0x00, // Glyph::LatinCapitalLetterEWithCircumflex
    0x00,0xc6,0x00,0xfe,0x66,0x62,0x68,0x78,0x68,0x62,0x66,0xfe,0x00,0x00,0x00,0x00, // Glyph::LatinCapitalLetterEWithDiaeresis
    0x30,0x18,0x00,0xfe,0x66,0x62,0x68,0x78,0x68,0x62,0x66,0xfe,0x00,0x00,0x00,0x00, // Glyph::LatinCapitalLetterEWithGrave
    0x00,0x00,0x00,0x00,0x00,0x38,0x18,0x18,0x18,0x18,0x18,0x3c,0x00,0x00,0x00,0x00, // Glyph::LatinSmallLetterDotlessI
    0x0c,0x18,0x00,0x3c,0x18,0x18,0x18,0x18,0x18,0x18,0x18,0x3c,0x00,0x00,0x00,0x00, // Glyph::LatinCapitalLetterIWithAcute
    0x3c,0x66,0x00,0x3c,0x18,0x18,0x18,0x18,0x18,0x18,0x18,0x3c,0x00,0x00,0x00,0x00, // Glyph::LatinCapitalLetterIWithCircumflex
    0x00,0x66,0x00,0x3c,0x18,0x18,0x18,0x18,0x18,0x18,0x18,0x3c,0x00,0x00,0x00,0x00, // Glyph::LatinCapitalLetterIWithDiaeresis
    0x18,0x18,0x18,0x18,0x18,0x18,0x18,0xf8,0x00,0x00,0x00,0x00,0x00,0x00,0x00,0x00, // Glyph::BoxDrawingsLightUpAndLeft
    0x00,0x00,0x00,0x00,0x00,0x00,0x00,0x1f,0x18,0x18,0x18,0x18,0x18,0x18,0x18,0x18, // Glyph::BoxDrawingsLightDownAndRight
    0xff,0xff,0xff,0xff,0xff,0xff,0xff,0xff,0xff,0xff,0xff,0xff,0xff,0xff,0xff,0xff, // Glyph::FullBlock
    0x00,0x00,0x00,0x00,0x00,0x00,0x00,0xff,0xff,0xff,0xff,0xff,0xff,0xff,0xff,0xff, // Glyph::LowerHalfBlock
    0x00,0x18,0x18,0x18,0x18,0x18,0x00,0x00,0x18,0x18,0x18,0x18,0x18,0x00,0x00,0x00, // Glyph::BrokenBar
    0x30,0x18,0x00,0x3c,0x18,0x18,0x18,0x18,0x18,0x18,0x18,0x3c,0x00,0x00,0x00,0x00, // Glyph::LatinCapitalLetterIWithGrave
    0xff,0xff,0xff,0xff,0xff,0xff,0xff,0x00,0x00,0x00,0x00,0x00,0x00,0x00,0x00,0x00, // Glyph::UpperHalfBlock
];

/// Rows of the glyphs with codes 224 to 239.
pub const FONT_BLOCK_14: [u8; 256] = [
    0x18,0x30,0x00,0x7c,0xc6,0xc6,0xc6,0xc6,0xc6,0xc6,0xc6,0x7c,0x00,0x00,0x00,0x00, // Glyph::LatinCapitalLetterOWithAcute
    0x00,0x00,0x78,0xcc,0xcc,0xcc,0xd8,0xcc,0xc6,0xc6,0xc6,0xcc,0x00,0x00,0x00,0x00, // Glyph::LatinSmallLetterSharpS
    0x38,0x6c,0x00,0x7c,0xc6,0xc6,0xc6,0xc6,0xc6,0xc6,0xc6,0x7c,0x00,0x00,0x00,0x00, // Glyph::LatinCapitalLetterOWithCircumflex
    0x30,0x18,0x00,0x7c,0xc6,0xc6,0xc6,0xc6,0xc6,0xc6,0xc6,0x7c,0x00,0x00,0x00,0x00, // Glyph::LatinCapitalLetterOWithGrave
    0x00,0x00,0x76,0xdc,0x00,0x7c,0xc6,0xc6,0xc6,0xc6,0xc6,0x7c,0x00,0x00,0x00,0x00, // Glyph::LatinSmallLetterOWithTilde
    0x76,0xdc,0x00,0x7c,0xc6,0xc6,0xc6,0xc6,0xc6,0xc6,0xc6,0x7c,0x00,0x00,0x00,0x00, // Glyph::LatinCapitalLetterOWithTilde
    0x00,0x00,0x00,0x00,0x00,0x66,0x66,0x66,0x66,0x66,0x66,0x7c,0x60,0x60,0xc0,0x00, // Glyph::MicroSign
    0x00,0x00,0xe0,0x60,0x60,0x7c,0x66,0x66,0x66,0x66,0x66,0x7c,0x60,0x60,0xf0,0x00, // Glyph::LatinSmallLetterThorn
    0x00,0x00,0xf0,0x60,0x7c,0x66,0x66,0x66,0x66,0x7c,0x60,0xf0,0x00,0x00,0x00,0x00, // Glyph::LatinCapitalLetterThorn
    0x18,0x30,0x00,0xc6,0xc6,0xc6,0xc6,0xc6,0xc6,0xc6,0xc6,0x7c,0x00,0x00,0x00,0x00, // Glyph::LatinCapitalLetterUWithAcute
    0x38,0x6c,0x00,0xc6,0xc6,0xc6,0xc6,0xc6,0xc6,0xc6,0xc6,0x7c,0x00,0x00,0x00,0x00, // Glyph::LatinCapitalLetterUWithCircumflex
    0x30,0x18,0x00,0xc6,0xc6,0xc6,0xc6,0xc6,0xc6,0xc6,0xc6,0x7c,0x00,0x00,0x00,0x00, // Glyph::LatinCapitalLetterUWithGrave
    0x00,0x0c,0x18,0x30,0x00,0xc6,0xc6,0xc6,0xc6,0xc6,0xc6,0x7e,0x06,0x0c,0xf8,0x00, // Glyph::LatinSmallLetterYWithAcute
    0x0c,0x18,0x00,0x66,0x66,0x66,0x66,0x3c,0x18,0x18,0x18,0x3c,0x00,0x00,0x00,0x00, // Glyph::LatinCapitalLetterYWithAcute
    0x00,0xff,0x00,0x00,0x00,0x00,0x00,0x00,0x00,0x00,0x00,0x00,0x00,0x00,0x00,0x00, // Glyph::Macron
    0x00,0x0c,0x18,0x30,0x00,0x00,0x00,0x00,0x00,0x00,0x00,0x00,0x00,0x00,0x00,0x00, // Glyph::AcuteAccent
];

/// Rows of the glyphs with codes 240 to 255.
pub const FONT_BLOCK_15: [u8; 256] = [
    0x00,0x00,0x00,0x00,0x00,0x00,0x00,0xfe,0x00,0x00,0x00,0x00,0x00,0x00,0x00,0x00, // Glyph::SoftHyphen
    0x00,0x00,0x00,0x00,0x18,0x18,0x7e,0x18,0x18,0x00,0x00,0x7e,0x00,0x00,0x00,0x00, // Glyph::PlusMinusSign
    0x00,0x00,0x00,0x00,0x00,0x00,0x00,0x00,0x00,0x00,0x00,0x00,0xff,0x00,0xff,0x00, // Glyph::DoubleLowLine
    0x00,0xe0,0x30,0x62,0x36,0xec,0x18,0x30,0x66,0xce,0x9a,0x3f,0x06,0x06,0x00,0x00, // Glyph::VulgarFractionThreeQuarters
    0x00,0x00,0x7f,0xdb,0xdb,0xdb,0x7b,0x1b,0x1b,0x1b,0x1b,0x1b,0x00,0x00,0x00,0x00, // Glyph::PilcrowSign
    0x00,0x7c,0xc6,0x60,0x38,0x6c,0xc6,0xc6,0x6c,0x38,0x0c,0xc6,0x7c,0x00,0x00,0x00, // Glyph::SectionSign
    0x00,0x00,0x00,0x00,0x00,0x18,0x00,0x7e,0x00,0x18,0x00,0x00,0x00,0x00,0x00,0x00, // Glyph::DivisionSign
    0x00,0x00,0x00,0x00,0x00,0x00,0x00,0x00,0x00,0x00,0x00,0x18,0x0c,0x78,0x00,0x00, // Glyph::Cedilla
    0x00,0x38,0x6c,0x6c,0x38,0x00,0x00,0x00,0x00,0x00,0x00,0x00,0x00,0x00,0x00,0x00, // Glyph::DegreeSign
    0x00,0xc6,0x00,0x00,0x00,0x00,0x00,0x00,0x00,0x00,0x00,0x00,0x00,0x00,0x00,0x00, // Glyph::Diaeresis
    0x00,0x00,0x00,0x00,0x00,0x00,0x00,0x18,0x00,0x00,0x00,0x00,0x00,0x00,0x00,0x00, // Glyph::MiddleDot
    0x00,0x18,0x38,0x18,0x18,0x18,0x3c,0x00,0x00,0x00,0x00,0x00,0x00,0x00,0x00,0x00, // Glyph::SuperscriptOne
    0x00,0x7c,0x06,0x3c,0x06,0x06,0x7c,0x00,0x00,0x00,0x00,0x00,0x00,0x00,0x00,0x00, // Glyph::SuperscriptThree
    0x00,0x3c,0x66,0x0c,0x18,0x32,0x7e,0x00,0x00,0x00,0x00,0x00,0x00,0x00,0x00,0x00, // Glyph::SuperscriptTwo
    0x00,0x00,0x00,0x00,0x7e,0x7e,0x7e,0x7e,0x7e,0x7e,0x7e,0x00,0x00,0x00,0x00,0x00, // Glyph::BlackSquare
    0x00,0x00,0x00,0x00,0x00,0x00,0x00,0x00,0x00,0x00,0x00,0x00,0x00,0x00,0x00,0x00, // Glyph::NoBreakSpace
];

/// The byte of the built-in font for row `row` (below 16) of the glyph with
/// code `code`.
pub open spec fn font_byte(code: u8, row: int) -> u8 {
    let offset = (code as int % 16) * 16 + row;
    match code / 16 {
        0 => FONT_BLOCK_0@[offset],
        1 => FONT_BLOCK_1@[offset],
        2 => FONT_BLOCK_2@[offset],
        3 => FONT_BLOCK_3@[offset],
        4 => FONT_BLOCK_4@[offset],
        5 => FONT_BLOCK_5@[offset],
        6 => FONT_BLOCK_6@[offset],
        7 => FONT_BLOCK_7@[offset],
        8 => FONT_BLOCK_8@[offset],
        9 => FONT_BLOCK_9@[offset],
        10 => FONT_BLOCK_10@[offset],
        11 => FONT_BLOCK_11@[offset],
        12 => FONT_BLOCK_12@[offset],
        13 => FONT_BLOCK_13@[offset],
        14 => FONT_BLOCK_14@[offset],
        _ => FONT_BLOCK_15@[offset],
    }
}

/// Row `row` of the glyph with code `code` in the built-in font.
pub fn font_row(code: u8, row: usize) -> (r: u8)
    requires
        row < FONT_HEIGHT,
    ensures
        r == font_byte(code, row as int),
{
    let offset = (code % 16) as usize * FONT_HEIGHT + row;
    match code / 16 {
        0 => FONT_BLOCK_0[offset],
        1 => FONT_BLOCK_1[offset],
        2 => FONT_BLOCK_2[offset],
        3 => FONT_BLOCK_3[offset],
        4 => FONT_BLOCK_4[offset],
        5 => FONT_BLOCK_5[offset],
        6 => FONT_BLOCK_6[offset],
        7 => FONT_BLOCK_7[offset],
        8 => FONT_BLOCK_8[offset],
        9 => FONT_BLOCK_9[offset],
        10 => FONT_BLOCK_10[offset],
        11 => FONT_BLOCK_11[offset],
        12 => FONT_BLOCK_12[offset],
        13 => FONT_BLOCK_13[offset],
        14 => FONT_BLOCK_14[offset],
        _ => FONT_BLOCK_15[offset],
    }
}

impl Glyph {
    /// The byte value of this glyph.
    pub open spec fn code(self) -> u8 {
        match self {
            Glyph::Null => 0,
            Glyph::SOH => 1,
            Glyph::STX => 2,
            Glyph::ETX => 3,
            Glyph::EOT => 4,
            Glyph::ENQ => 5,
            Glyph::ACK => 6,
            Glyph::BEL => 7,
            Glyph::BS => 8,
            Glyph::HT => 9,
            Glyph::LF => 10,
            Glyph::VT => 11,
            Glyph::FF => 12,
            Glyph::CR => 13,
            Glyph::SO => 14,
            Glyph::SI => 15,
            Glyph::DLE => 16,
            Glyph::DC1 => 17,
            Glyph::DC2 => 18,
            Glyph::DC3 => 19,
            Glyph::DC4 => 20,
            Glyph::NAK => 21,
            Glyph::SYN => 22,
            Glyph::ETB => 23,
            Glyph::CAN => 24,
            Glyph::EM => 25,
            Glyph::SUB => 26,
            Glyph::Escape => 27,
            Glyph::FS => 28,
            Glyph::GS => 29,
            Glyph::RS => 30,
            Glyph::US => 31,
            Glyph::Space => 32,
            Glyph::ExclamationMark => 33,
            Glyph::QuotationMark => 34,
            Glyph::NumberSign => 35,
            Glyph::DollarSign => 36,
            Glyph::PercentSign => 37,
            Glyph::Ampersand => 38,
            Glyph::Apostrophe => 39,
            Glyph::LeftParenthesis => 40,
            Glyph::RightParenthesis => 41,
            Glyph::Asterisk => 42,
            Glyph::PlusSign => 43,
            Glyph::Comma => 44,
            Glyph::HyphenMinus => 45,
            Glyph::FullStop => 46,
            Glyph::Solidus => 47,
            Glyph::DigitZero => 48,
            Glyph::DigitOne => 49,
            Glyph::DigitTwo => 50,
            Glyph::DigitThree => 51,
            Glyph::DigitFour => 52,
            Glyph::DigitFive => 53,
            Glyph::DigitSix => 54,
            Glyph::DigitSeven => 55,
            Glyph::DigitEight => 56,
            Glyph::DigitNine => 57,
            Glyph::Colon => 58,
            Glyph::Semicolon => 59,
            Glyph::LessThanSign => 60,
            Glyph::EqualsSign => 61,
            Glyph::GreaterThanSign => 62,
            Glyph::QuestionMark => 63,
            Glyph::CommercialAt => 64,
            Glyph::LatinCapitalLetterA => 65,
            Glyph::LatinCapitalLetterB => 66,
            Glyph::LatinCapitalLetterC => 67,
            Glyph::LatinCapitalLetterD => 68,
            Glyph::LatinCapitalLetterE => 69,
            Glyph::LatinCapitalLetterF => 70,
            Glyph::LatinCapitalLetterG => 71,
            Glyph::LatinCapitalLetterH => 72,
            Glyph::LatinCapitalLetterI => 73,
            Glyph::LatinCapitalLetterJ => 74,
            Glyph::LatinCapitalLetterK => 75,
            Glyph::LatinCapitalLetterL => 76,
            Glyph::LatinCapitalLetterM => 77,
            Glyph::LatinCapitalLetterN => 78,
            Glyph::LatinCapitalLetterO => 79,
            Glyph::LatinCapitalLetterP => 80,
            Glyph::LatinCapitalLetterQ => 81,
            Glyph::LatinCapitalLetterR => 82,
            Glyph::LatinCapitalLetterS => 83,
            Glyph::LatinCapitalLetterT => 84,
            Glyph::LatinCapitalLetterU => 85,
            Glyph::LatinCapitalLetterV => 86,
            Glyph::LatinCapitalLetterW => 87,
            Glyph::LatinCapitalLetterX => 88,
            Glyph::LatinCapitalLetterY => 89,
            Glyph::LatinCapitalLetterZ => 90,
            Glyph::LeftSquareBracket => 91,
            Glyph::ReverseSolidus => 92,
            Glyph::RightSquareBracket => 93,
            Glyph::CircumflexAccent => 94,
            Glyph::LowLine => 95,
            Glyph::GraveAccent => 96,
            Glyph::LatinSmallLetterA => 97,
            Glyph::LatinSmallLetterB => 98,
            Glyph::LatinSmallLetterC => 99,
            Glyph::LatinSmallLetterD => 100,
            Glyph::LatinSmallLetterE => 101,
            Glyph::LatinSmallLetterF => 102,
            Glyph::LatinSmallLetterG => 103,
            Glyph::LatinSmallLetterH => 104,
            Glyph::LatinSmallLetterI => 105,
            Glyph::LatinSmallLetterJ => 106,
            Glyph::LatinSmallLetterK => 107,
            Glyph::LatinSmallLetterL => 108,
            Glyph::LatinSmallLetterM => 109,
            Glyph::LatinSmallLetterN => 110,
            Glyph::LatinSmallLetterO => 111,
            Glyph::LatinSmallLetterP => 112,
            Glyph::LatinSmallLetterQ => 113,
            Glyph::LatinSmallLetterR => 114,
            Glyph::LatinSmallLetterS => 115,
            Glyph::LatinSmallLetterT => 116,
            Glyph::LatinSmallLetterU => 117,
            Glyph::LatinSmallLetterV => 118,
            Glyph::LatinSmallLetterW => 119,
            Glyph::LatinSmallLetterX => 120,
            Glyph::LatinSmallLetterY => 121,
            Glyph::LatinSmallLetterZ => 122,
            Glyph::LeftCurlyBracket => 123,
            Glyph::VerticalLine => 124,
            Glyph::RightCurlyBracket => 125,
            Glyph::Tilde => 126,
            Glyph::Delete => 127,
            Glyph::LatinCapitalLetterCWithCedilla => 128,
            Glyph::LatinSmallLetterUWithDiaeresis => 129,
            Glyph::LatinSmallLetterEWithAcute => 130,
            Glyph::LatinSmallLetterAWithCircumflex => 131,
            Glyph::LatinSmallLetterAWithDiaeresis => 132,
            Glyph::LatinSmallLetterAWithGrave => 133,
            Glyph::LatinSmallLetterAWithRingAbove => 134,
            Glyph::LatinSmallLetterCWithCedilla => 135,
            Glyph::LatinSmallLetterEWithCircumflex => 136,
            Glyph::LatinSmallLetterEWithDiaeresis => 137,
            Glyph::LatinSmallLetterEWithGrave => 138,
            Glyph::LatinSmallLetterIWithDiaeresis => 139,
            Glyph::LatinSmallLetterIWithCircumflex => 140,
            Glyph::LatinSmallLetterIWithGrave => 141,
            Glyph::LatinCapitalLetterAWithDiaeresis => 142,
            Glyph::LatinCapitalLetterAWithRingAbove => 143,
            Glyph::LatinCapitalLetterEWithAcute => 144,
            Glyph::LatinSmallLetterAe => 145,
            Glyph::LatinCapitalLetterAe => 146,
            Glyph::LatinSmallLetterOWithCircumflex => 147,
            Glyph::LatinSmallLetterOWithDiaeresis => 148,
            Glyph::LatinSmallLetterOWithGrave => 149,
            Glyph::LatinSmallLetterUWithCircumflex => 150,
            Glyph::LatinSmallLetterUWithGrave => 151,
            Glyph::LatinSmallLetterYWithDiaeresis => 152,
            Glyph::LatinCapitalLetterOWithDiaeresis => 153,
            Glyph::LatinCapitalLetterUWithDiaeresis => 154,
            Glyph::LatinSmallLetterOWithStroke => 155,
            Glyph::PoundSign => 156,
            Glyph::LatinCapitalLetterOWithStroke => 157,
            Glyph::MultiplicationSign => 158,
            Glyph::LatinSmallLetterFWithHook => 159,
            Glyph::LatinSmallLetterAWithAcute => 160,
            Glyph::LatinSmallLetterIWithAcute => 161,
            Glyph::LatinSmallLetterOWithAcute => 162,
            Glyph::LatinSmallLetterUWithAcute => 163,
            Glyph::LatinSmallLetterNWithTilde => 164,
            Glyph::LatinCapitalLetterNWithTilde => 165,
            Glyph::FeminineOrdinalIndicator => 166,
            Glyph::MasculineOrdinalIndicator => 167,
            Glyph::InvertedQuestionMark => 168,
            Glyph::RegisteredSign => 169,
            Glyph::NotSign => 170,
            Glyph::VulgarFractionOneHalf => 171,
            Glyph::VulgarFractionOneQuarter => 172,
            Glyph::InvertedExclamationMark => 173,
            Glyph::LeftPointingDoubleAngleQuotationMark => 174,
            Glyph::RightPointingDoubleAngleQuotationMark => 175,
            Glyph::LightShade => 176,
            Glyph::MediumShade => 177,
            Glyph::DarkShade => 178,
            Glyph::BoxDrawingsLightVertical => 179,
            Glyph::BoxDrawingsLightVerticalAndLeft => 180,
            Glyph::LatinCapitalLetterAWithAcute => 181,
            Glyph::LatinCapitalLetterAWithCircumflex => 182,
            Glyph::LatinCapitalLetterAWithGrave => 183,
            Glyph::CopyrightSign => 184,
            Glyph::BoxDrawingsDoubleVerticalAndLeft => 185,
            Glyph::BoxDrawingsDoubleVertical => 186,
            Glyph::BoxDrawingsDoubleDownAndLeft => 187,
            Glyph::BoxDrawingsDoubleUpAndLeft => 188,
            Glyph::CentSign => 189,
            Glyph::YenSign => 190,
            Glyph::BoxDrawingsLightDownAndLeft => 191,
            Glyph::BoxDrawingsLightUpAndRight => 192,
            Glyph::BoxDrawingsLightUpAndHorizontal => 193,
            Glyph::BoxDrawingsLightDownAndHorizontal => 194,
            Glyph::BoxDrawingsLightVerticalAndRight => 195,
            Glyph::BoxDrawingsLightHorizontal => 196,
            Glyph::BoxDrawingsLightVerticalAndHorizontal => 197,
            Glyph::LatinSmallLetterAWithTilde => 198,
            Glyph::LatinCapitalLetterAWithTilde => 199,
            Glyph::BoxDrawingsDoubleUpAndRight => 200,
            Glyph::BoxDrawingsDoubleDownAndRight => 201,
            Glyph::BoxDrawingsDoubleUpAndHorizontal => 202,
            Glyph::BoxDrawingsDoubleDownAndHorizontal => 203,
            Glyph::BoxDrawingsDoubleVerticalAndRight => 204,
            Glyph::BoxDrawingsDoubleHorizontal => 205,
            Glyph::BoxDrawingsDoubleVerticalAndHorizontal => 206,
            Glyph::CurrencySign => 207,
            Glyph::LatinSmallLetterEth => 208,
            Glyph::LatinCapitalLetterEth => 209,
            Glyph::LatinCapitalLetterEWithCircumflex => 210,
            Glyph::LatinCapitalLetterEWithDiaeresis => 211,
            Glyph::LatinCapitalLetterEWithGrave => 212,
            Glyph::LatinSmallLetterDotlessI => 213,
            Glyph::LatinCapitalLetterIWithAcute => 214,
            Glyph::LatinCapitalLetterIWithCircumflex => 215,
            Glyph::LatinCapitalLetterIWithDiaeresis => 216,
            Glyph::BoxDrawingsLightUpAndLeft => 217,
            Glyph::BoxDrawingsLightDownAndRight => 218,
            Glyph::FullBlock => 219,
            Glyph::LowerHalfBlock => 220,
            Glyph::BrokenBar => 221,
            Glyph::LatinCapitalLetterIWithGrave => 222,
            Glyph::UpperHalfBlock => 223,
            Glyph::LatinCapitalLetterOWithAcute => 224,
            Glyph::LatinSmallLetterSharpS => 225,
            Glyph::LatinCapitalLetterOWithCircumflex => 226,
            Glyph::LatinCapitalLetterOWithGrave => 227,
            Glyph::LatinSmallLetterOWithTilde => 228,
            Glyph::LatinCapitalLetterOWithTilde => 229,
            Glyph::MicroSign => 230,
            Glyph::LatinSmallLetterThorn => 231,
            Glyph::LatinCapitalLetterThorn => 232,
            Glyph::LatinCapitalLetterUWithAcute => 233,
            Glyph::LatinCapitalLetterUWithCircumflex => 234,
            Glyph::LatinCapitalLetterUWithGrave => 235,
            Glyph::LatinSmallLetterYWithAcute => 236,
            Glyph::LatinCapitalLetterYWithAcute => 237,
            Glyph::Macron => 238,
            Glyph::AcuteAccent => 239,
            Glyph::SoftHyphen => 240,
            Glyph::PlusMinusSign => 241,
            Glyph::DoubleLowLine => 242,
            Glyph::VulgarFractionThreeQuarters => 243,
            Glyph::PilcrowSign => 244,
            Glyph::SectionSign => 245,
            Glyph::DivisionSign => 246,
            Glyph::Cedilla => 247,
            Glyph::DegreeSign => 248,
            Glyph::Diaeresis => 249,
            Glyph::MiddleDot => 250,
            Glyph::SuperscriptOne => 251,
            Glyph::SuperscriptThree => 252,
            Glyph::SuperscriptTwo => 253,
            Glyph::BlackSquare => 254,
            Glyph::NoBreakSpace => 255,
        }
    }

    /// Map a Unicode scalar value to the glyph that displays it, as
    /// `Char::map_char` does: a question mark where there is none.
    pub fn map_char(ch: char) -> (r: Glyph)
        ensures
            r.code() == Char::mapped(ch).code(),
    {
        Glyph::from_byte(Char::map_char(ch).as_u8())
    }

    /// Take a Code Page 850 byte.
    #[verifier::spinoff_prover]
    #[verifier::rlimit(100)]
    pub fn from_byte(byte: u8) -> (r: Glyph)
        ensures
            r.code() == byte,
    {
        match byte {
            0 => Glyph::Null,
            1 => Glyph::SOH,
            2 => Glyph::STX,
            3 => Glyph::ETX,
            4 => Glyph::EOT,
            5 => Glyph::ENQ,
            6 => Glyph::ACK,
            7 => Glyph::BEL,
            8 => Glyph::BS,
            9 => Glyph::HT,
            10 => Glyph::LF,
            11 => Glyph::VT,
            12 => Glyph::FF,
            13 => Glyph::CR,
            14 => Glyph::SO,
            15 => Glyph::SI,
            16 => Glyph::DLE,
            17 => Glyph::DC1,
            18 => Glyph::DC2,
            19 => Glyph::DC3,
            20 => Glyph::DC4,
            21 => Glyph::NAK,
            22 => Glyph::SYN,
            23 => Glyph::ETB,
            24 => Glyph::CAN,
            25 => Glyph::EM,
            26 => Glyph::SUB,
            27 => Glyph::Escape,
            28 => Glyph::FS,
            29 => Glyph::GS,
            30 => Glyph::RS,
            31 => Glyph::US,
            32 => Glyph::Space,
            33 => Glyph::ExclamationMark,
            34 => Glyph::QuotationMark,
            35 => Glyph::NumberSign,
            36 => Glyph::DollarSign,
            37 => Glyph::PercentSign,
            38 => Glyph::Ampersand,
            39 => Glyph::Apostrophe,
            40 => Glyph::LeftParenthesis,
            41 => Glyph::RightParenthesis,
            42 => Glyph::Asterisk,
            43 => Glyph::PlusSign,
            44 => Glyph::Comma,
            45 => Glyph::HyphenMinus,
            46 => Glyph::FullStop,
            47 => Glyph::Solidus,
            48 => Glyph::DigitZero,
            49 => Glyph::DigitOne,
            50 => Glyph::DigitTwo,
            51 => Glyph::DigitThree,
            52 => Glyph::DigitFour,
            53 => Glyph::DigitFive,
            54 => Glyph::DigitSix,
            55 => Glyph::DigitSeven,
            56 => Glyph::DigitEight,
            57 => Glyph::DigitNine,
            58 => Glyph::Colon,
            59 => Glyph::Semicolon,
            60 => Glyph::LessThanSign,
            61 => Glyph::EqualsSign,
            62 => Glyph::GreaterThanSign,
            63 => Glyph::QuestionMark,
            64 => Glyph::CommercialAt,
            65 => Glyph::LatinCapitalLetterA,
            66 => Glyph::LatinCapitalLetterB,
            67 => Glyph::LatinCapitalLetterC,
            68 => Glyph::LatinCapitalLetterD,
            69 => Glyph::LatinCapitalLetterE,
            70 => Glyph::LatinCapitalLetterF,
            71 => Glyph::LatinCapitalLetterG,
            72 => Glyph::LatinCapitalLetterH,
            73 => Glyph::LatinCapitalLetterI,
            74 => Glyph::LatinCapitalLetterJ,
            75 => Glyph::LatinCapitalLetterK,
            76 => Glyph::LatinCapitalLetterL,
            77 => Glyph::LatinCapitalLetterM,
            78 => Glyph::LatinCapitalLetterN,
            79 => Glyph::LatinCapitalLetterO,
            80 => Glyph::LatinCapitalLetterP,
            81 => Glyph::LatinCapitalLetterQ,
            82 => Glyph::LatinCapitalLetterR,
            83 => Glyph::LatinCapitalLetterS,
            84 => Glyph::LatinCapitalLetterT,
            85 => Glyph::LatinCapitalLetterU,
            86 => Glyph::LatinCapitalLetterV,
            87 => Glyph::LatinCapitalLetterW,
            88 => Glyph::LatinCapitalLetterX,
            89 => Glyph::LatinCapitalLetterY,
            90 => Glyph::LatinCapitalLetterZ,
            91 => Glyph::LeftSquareBracket,
            92 => Glyph::ReverseSolidus,
            93 => Glyph::RightSquareBracket,
            94 => Glyph::CircumflexAccent,
            95 => Glyph::LowLine,
            96 => Glyph::GraveAccent,
            97 => Glyph::LatinSmallLetterA,
            98 => Glyph::LatinSmallLetterB,
            99 => Glyph::LatinSmallLetterC,
            100 => Glyph::LatinSmallLetterD,
            101 => Glyph::LatinSmallLetterE,
            102 => Glyph::LatinSmallLetterF,
            103 => Glyph::LatinSmallLetterG,
            104 => Glyph::LatinSmallLetterH,
            105 => Glyph::LatinSmallLetterI,
            106 => Glyph::LatinSmallLetterJ,
            107 => Glyph::LatinSmallLetterK,
            108 => Glyph::LatinSmallLetterL,
            109 => Glyph::LatinSmallLetterM,
            110 => Glyph::LatinSmallLetterN,
            111 => Glyph::LatinSmallLetterO,
            112 => Glyph::LatinSmallLetterP,
            113 => Glyph::LatinSmallLetterQ,
            114 => Glyph::LatinSmallLetterR,
            115 => Glyph::LatinSmallLetterS,
            116 => Glyph::LatinSmallLetterT,
            117 => Glyph::LatinSmallLetterU,
            118 => Glyph::LatinSmallLetterV,
            119 => Glyph::LatinSmallLetterW,
            120 => Glyph::LatinSmallLetterX,
            121 => Glyph::LatinSmallLetterY,
            122 => Glyph::LatinSmallLetterZ,
            123 => Glyph::LeftCurlyBracket,
            124 => Glyph::VerticalLine,
            125 => Glyph::RightCurlyBracket,
            126 => Glyph::Tilde,
            127 => Glyph::Delete,
            128 => Glyph::LatinCapitalLetterCWithCedilla,
            129 => Glyph::LatinSmallLetterUWithDiaeresis,
            130 => Glyph::LatinSmallLetterEWithAcute,
            131 => Glyph::LatinSmallLetterAWithCircumflex,
            132 => Glyph::LatinSmallLetterAWithDiaeresis,
            133 => Glyph::LatinSmallLetterAWithGrave,
            134 => Glyph::LatinSmallLetterAWithRingAbove,
            135 => Glyph::LatinSmallLetterCWithCedilla,
            136 => Glyph::LatinSmallLetterEWithCircumflex,
            137 => Glyph::LatinSmallLetterEWithDiaeresis,
            138 => Glyph::LatinSmallLetterEWithGrave,
            139 => Glyph::LatinSmallLetterIWithDiaeresis,
            140 => Glyph::LatinSmallLetterIWithCircumflex,
            141 => Glyph::LatinSmallLetterIWithGrave,
            142 => Glyph::LatinCapitalLetterAWithDiaeresis,
            143 => Glyph::LatinCapitalLetterAWithRingAbove,
            144 => Glyph::LatinCapitalLetterEWithAcute,
            145 => Glyph::LatinSmallLetterAe,
            146 => Glyph::LatinCapitalLetterAe,
            147 => Glyph::LatinSmallLetterOWithCircumflex,
            148 => Glyph::LatinSmallLetterOWithDiaeresis,
            149 => Glyph::LatinSmallLetterOWithGrave,
            150 => Glyph::LatinSmallLetterUWithCircumflex,
            151 => Glyph::LatinSmallLetterUWithGrave,
            152 => Glyph::LatinSmallLetterYWithDiaeresis,
            153 => Glyph::LatinCapitalLetterOWithDiaeresis,
            154 => Glyph::LatinCapitalLetterUWithDiaeresis,
            155 => Glyph::LatinSmallLetterOWithStroke,
            156 => Glyph::PoundSign,
            157 => Glyph::LatinCapitalLetterOWithStroke,
            158 => Glyph::MultiplicationSign,
            159 => Glyph::LatinSmallLetterFWithHook,
            160 => Glyph::LatinSmallLetterAWithAcute,
            161 => Glyph::LatinSmallLetterIWithAcute,
            162 => Glyph::LatinSmallLetterOWithAcute,
            163 => Glyph::LatinSmallLetterUWithAcute,
            164 => Glyph::LatinSmallLetterNWithTilde,
            165 => Glyph::LatinCapitalLetterNWithTilde,
            166 => Glyph::FeminineOrdinalIndicator,
            167 => Glyph::MasculineOrdinalIndicator,
            168 => Glyph::InvertedQuestionMark,
            169 => Glyph::RegisteredSign,
            170 => Glyph::NotSign,
            171 => Glyph::VulgarFractionOneHalf,
            172 => Glyph::VulgarFractionOneQuarter,
            173 => Glyph::InvertedExclamationMark,
            174 => Glyph::LeftPointingDoubleAngleQuotationMark,
            175 => Glyph::RightPointingDoubleAngleQuotationMark,
            176 => Glyph::LightShade,
            177 => Glyph::MediumShade,
            178 => Glyph::DarkShade,
            179 => Glyph::BoxDrawingsLightVertical,
            180 => Glyph::BoxDrawingsLightVerticalAndLeft,
            181 => Glyph::LatinCapitalLetterAWithAcute,
            182 => Glyph::LatinCapitalLetterAWithCircumflex,
            183 => Glyph::LatinCapitalLetterAWithGrave,
            184 => Glyph::CopyrightSign,
            185 => Glyph::BoxDrawingsDoubleVerticalAndLeft,
            186 => Glyph::BoxDrawingsDoubleVertical,
            187 => Glyph::BoxDrawingsDoubleDownAndLeft,
            188 => Glyph::BoxDrawingsDoubleUpAndLeft,
            189 => Glyph::CentSign,
            190 => Glyph::YenSign,
            191 => Glyph::BoxDrawingsLightDownAndLeft,
            192 => Glyph::BoxDrawingsLightUpAndRight,
            193 => Glyph::BoxDrawingsLightUpAndHorizontal,
            194 => Glyph::BoxDrawingsLightDownAndHorizontal,
            195 => Glyph::BoxDrawingsLightVerticalAndRight,
            196 => Glyph::BoxDrawingsLightHorizontal,
            197 => Glyph::BoxDrawingsLightVerticalAndHorizontal,
            198 => Glyph::LatinSmallLetterAWithTilde,
            199 => Glyph::LatinCapitalLetterAWithTilde,
            200 => Glyph::BoxDrawingsDoubleUpAndRight,
            201 => Glyph::BoxDrawingsDoubleDownAndRight,
            202 => Glyph::BoxDrawingsDoubleUpAndHorizontal,
            203 => Glyph::BoxDrawingsDoubleDownAndHorizontal,
            204 => Glyph::BoxDrawingsDoubleVerticalAndRight,
            205 => Glyph::BoxDrawingsDoubleHorizontal,
            206 => Glyph::BoxDrawingsDoubleVerticalAndHorizontal,
            207 => Glyph::CurrencySign,
            208 => Glyph::LatinSmallLetterEth,
            209 => Glyph::LatinCapitalLetterEth,
            210 => Glyph::LatinCapitalLetterEWithCircumflex,
            211 => Glyph::LatinCapitalLetterEWithDiaeresis,
            212 => Glyph::LatinCapitalLetterEWithGrave,
            213 => Glyph::LatinSmallLetterDotlessI,
            214 => Glyph::LatinCapitalLetterIWithAcute,
            215 => Glyph::LatinCapitalLetterIWithCircumflex,
            216 => Glyph::LatinCapitalLetterIWithDiaeresis,
            217 => Glyph::BoxDrawingsLightUpAndLeft,
            218 => Glyph::BoxDrawingsLightDownAndRight,
            219 => Glyph::FullBlock,
            220 => Glyph::LowerHalfBlock,
            221 => Glyph::BrokenBar,
            222 => Glyph::LatinCapitalLetterIWithGrave,
            223 => Glyph::UpperHalfBlock,
            224 => Glyph::LatinCapitalLetterOWithAcute,
            225 => Glyph::LatinSmallLetterSharpS,
            226 => Glyph::LatinCapitalLetterOWithCircumflex,
            227 => Glyph::LatinCapitalLetterOWithGrave,
            228 => Glyph::LatinSmallLetterOWithTilde,
            229 => Glyph::LatinCapitalLetterOWithTilde,
            230 => Glyph::MicroSign,
            231 => Glyph::LatinSmallLetterThorn,
            232 => Glyph::LatinCapitalLetterThorn,
            233 => Glyph::LatinCapitalLetterUWithAcute,
            234 => Glyph::LatinCapitalLetterUWithCircumflex,
            235 => Glyph::LatinCapitalLetterUWithGrave,
            236 => Glyph::LatinSmallLetterYWithAcute,
            237 => Glyph::LatinCapitalLetterYWithAcute,
            238 => Glyph::Macron,
            239 => Glyph::AcuteAccent,
            240 => Glyph::SoftHyphen,
            241 => Glyph::PlusMinusSign,
            242 => Glyph::DoubleLowLine,
            243 => Glyph::VulgarFractionThreeQuarters,
            244 => Glyph::PilcrowSign,
            245 => Glyph::SectionSign,
            246 => Glyph::DivisionSign,
            247 => Glyph::Cedilla,
            248 => Glyph::DegreeSign,
            249 => Glyph::Diaeresis,
            250 => Glyph::MiddleDot,
            251 => Glyph::SuperscriptOne,
            252 => Glyph::SuperscriptThree,
            253 => Glyph::SuperscriptTwo,
            254 => Glyph::BlackSquare,
            255 => Glyph::NoBreakSpace,
        }
    }

    /// The byte value of this glyph.
    pub fn as_u8(self) -> (r: u8)
        ensures
            r == self.code(),
    {
        match self {
            Glyph::Null => 0,
            Glyph::SOH => 1,
            Glyph::STX => 2,
            Glyph::ETX => 3,
            Glyph::EOT => 4,
            Glyph::ENQ => 5,
            Glyph::ACK => 6,
            Glyph::BEL => 7,
            Glyph::BS => 8,
            Glyph::HT => 9,
            Glyph::LF => 10,
            Glyph::VT => 11,
            Glyph::FF => 12,
            Glyph::CR => 13,
            Glyph::SO => 14,
            Glyph::SI => 15,
            Glyph::DLE => 16,
            Glyph::DC1 => 17,
            Glyph::DC2 => 18,
            Glyph::DC3 => 19,
            Glyph::DC4 => 20,
            Glyph::NAK => 21,
            Glyph::SYN => 22,
            Glyph::ETB => 23,
            Glyph::CAN => 24,
            Glyph::EM => 25,
            Glyph::SUB => 26,
            Glyph::Escape => 27,
            Glyph::FS => 28,
            Glyph::GS => 29,
            Glyph::RS => 30,
            Glyph::US => 31,
            Glyph::Space => 32,
            Glyph::ExclamationMark => 33,
            Glyph::QuotationMark => 34,
            Glyph::NumberSign => 35,
            Glyph::DollarSign => 36,
            Glyph::PercentSign => 37,
            Glyph::Ampersand => 38,
            Glyph::Apostrophe => 39,
            Glyph::LeftParenthesis => 40,
            Glyph::RightParenthesis => 41,
            Glyph::Asterisk => 42,
            Glyph::PlusSign => 43,
            Glyph::Comma => 44,
            Glyph::HyphenMinus => 45,
            Glyph::FullStop => 46,
            Glyph::Solidus => 47,
            Glyph::DigitZero => 48,
            Glyph::DigitOne => 49,
            Glyph::DigitTwo => 50,
            Glyph::DigitThree => 51,
            Glyph::DigitFour => 52,
            Glyph::DigitFive => 53,
            Glyph::DigitSix => 54,
            Glyph::DigitSeven => 55,
            Glyph::DigitEight => 56,
            Glyph::DigitNine => 57,
            Glyph::Colon => 58,
            Glyph::Semicolon => 59,
            Glyph::LessThanSign => 60,
            Glyph::EqualsSign => 61,
            Glyph::GreaterThanSign => 62,
            Glyph::QuestionMark => 63,
            Glyph::CommercialAt => 64,
            Glyph::LatinCapitalLetterA => 65,
            Glyph::LatinCapitalLetterB => 66,
            Glyph::LatinCapitalLetterC => 67,
            Glyph::LatinCapitalLetterD => 68,
            Glyph::LatinCapitalLetterE => 69,
            Glyph::LatinCapitalLetterF => 70,
            Glyph::LatinCapitalLetterG => 71,
            Glyph::LatinCapitalLetterH => 72,
            Glyph::LatinCapitalLetterI => 73,
            Glyph::LatinCapitalLetterJ => 74,
            Glyph::LatinCapitalLetterK => 75,
            Glyph::LatinCapitalLetterL => 76,
            Glyph::LatinCapitalLetterM => 77,
            Glyph::LatinCapitalLetterN => 78,
            Glyph::LatinCapitalLetterO => 79,
            Glyph::LatinCapitalLetterP => 80,
            Glyph::LatinCapitalLetterQ => 81,
            Glyph::LatinCapitalLetterR => 82,
            Glyph::LatinCapitalLetterS => 83,
            Glyph::LatinCapitalLetterT => 84,
            Glyph::LatinCapitalLetterU => 85,
            Glyph::LatinCapitalLetterV => 86,
            Glyph::LatinCapitalLetterW => 87,
            Glyph::LatinCapitalLetterX => 88,
            Glyph::LatinCapitalLetterY => 89,
            Glyph::LatinCapitalLetterZ => 90,
            Glyph::LeftSquareBracket => 91,
            Glyph::ReverseSolidus => 92,
            Glyph::RightSquareBracket => 93,
            Glyph::CircumflexAccent => 94,
            Glyph::LowLine => 95,
            Glyph::GraveAccent => 96,
            Glyph::LatinSmallLetterA => 97,
            Glyph::LatinSmallLetterB => 98,
            Glyph::LatinSmallLetterC => 99,
            Glyph::LatinSmallLetterD => 100,
            Glyph::LatinSmallLetterE => 101,
            Glyph::LatinSmallLetterF => 102,
            Glyph::LatinSmallLetterG => 103,
            Glyph::LatinSmallLetterH => 104,
            Glyph::LatinSmallLetterI => 105,
            Glyph::LatinSmallLetterJ => 106,
            Glyph::LatinSmallLetterK => 107,
            Glyph::LatinSmallLetterL => 108,
            Glyph::LatinSmallLetterM => 109,
            Glyph::LatinSmallLetterN => 110,
            Glyph::LatinSmallLetterO => 111,
            Glyph::LatinSmallLetterP => 112,
            Glyph::LatinSmallLetterQ => 113,
            Glyph::LatinSmallLetterR => 114,
            Glyph::LatinSmallLetterS => 115,
            Glyph::LatinSmallLetterT => 116,
            Glyph::LatinSmallLetterU => 117,
            Glyph::LatinSmallLetterV => 118,
            Glyph::LatinSmallLetterW => 119,
            Glyph::LatinSmallLetterX => 120,
            Glyph::LatinSmallLetterY => 121,
            Glyph::LatinSmallLetterZ => 122,
            Glyph::LeftCurlyBracket => 123,
            Glyph::VerticalLine => 124,
            Glyph::RightCurlyBracket => 125,
            Glyph::Tilde => 126,
            Glyph::Delete => 127,
            Glyph::LatinCapitalLetterCWithCedilla => 128,
            Glyph::LatinSmallLetterUWithDiaeresis => 129,
            Glyph::LatinSmallLetterEWithAcute => 130,
            Glyph::LatinSmallLetterAWithCircumflex => 131,
            Glyph::LatinSmallLetterAWithDiaeresis => 132,
            Glyph::LatinSmallLetterAWithGrave => 133,
            Glyph::LatinSmallLetterAWithRingAbove => 134,
            Glyph::LatinSmallLetterCWithCedilla => 135,
            Glyph::LatinSmallLetterEWithCircumflex => 136,
            Glyph::LatinSmallLetterEWithDiaeresis => 137,
            Glyph::LatinSmallLetterEWithGrave => 138,
            Glyph::LatinSmallLetterIWithDiaeresis => 139,
            Glyph::LatinSmallLetterIWithCircumflex => 140,
            Glyph::LatinSmallLetterIWithGrave => 141,
            Glyph::LatinCapitalLetterAWithDiaeresis => 142,
            Glyph::LatinCapitalLetterAWithRingAbove => 143,
            Glyph::LatinCapitalLetterEWithAcute => 144,
            Glyph::LatinSmallLetterAe => 145,
            Glyph::LatinCapitalLetterAe => 146,
            Glyph::LatinSmallLetterOWithCircumflex => 147,
            Glyph::LatinSmallLetterOWithDiaeresis => 148,
            Glyph::LatinSmallLetterOWithGrave => 149,
            Glyph::LatinSmallLetterUWithCircumflex => 150,
            Glyph::LatinSmallLetterUWithGrave => 151,
            Glyph::LatinSmallLetterYWithDiaeresis => 152,
            Glyph::LatinCapitalLetterOWithDiaeresis => 153,
            Glyph::LatinCapitalLetterUWithDiaeresis => 154,
            Glyph::LatinSmallLetterOWithStroke => 155,
            Glyph::PoundSign => 156,
            Glyph::LatinCapitalLetterOWithStroke => 157,
            Glyph::MultiplicationSign => 158,
            Glyph::LatinSmallLetterFWithHook => 159,
            Glyph::LatinSmallLetterAWithAcute => 160,
            Glyph::LatinSmallLetterIWithAcute => 161,
            Glyph::LatinSmallLetterOWithAcute => 162,
            Glyph::LatinSmallLetterUWithAcute => 163,
            Glyph::LatinSmallLetterNWithTilde => 164,
            Glyph::LatinCapitalLetterNWithTilde => 165,
            Glyph::FeminineOrdinalIndicator => 166,
            Glyph::MasculineOrdinalIndicator => 167,
            Glyph::InvertedQuestionMark => 168,
            Glyph::RegisteredSign => 169,
            Glyph::NotSign => 170,
            Glyph::VulgarFractionOneHalf => 171,
            Glyph::VulgarFractionOneQuarter => 172,
            Glyph::InvertedExclamationMark => 173,
            Glyph::LeftPointingDoubleAngleQuotationMark => 174,
            Glyph::RightPointingDoubleAngleQuotationMark => 175,
            Glyph::LightShade => 176,
            Glyph::MediumShade => 177,
            Glyph::DarkShade => 178,
            Glyph::BoxDrawingsLightVertical => 179,
            Glyph::BoxDrawingsLightVerticalAndLeft => 180,
            Glyph::LatinCapitalLetterAWithAcute => 181,
            Glyph::LatinCapitalLetterAWithCircumflex => 182,
            Glyph::LatinCapitalLetterAWithGrave => 183,
            Glyph::CopyrightSign => 184,
            Glyph::BoxDrawingsDoubleVerticalAndLeft => 185,
            Glyph::BoxDrawingsDoubleVertical => 186,
            Glyph::BoxDrawingsDoubleDownAndLeft => 187,
            Glyph::BoxDrawingsDoubleUpAndLeft => 188,
            Glyph::CentSign => 189,
            Glyph::YenSign => 190,
            Glyph::BoxDrawingsLightDownAndLeft => 191,
            Glyph::BoxDrawingsLightUpAndRight => 192,
            Glyph::BoxDrawingsLightUpAndHorizontal => 193,
            Glyph::BoxDrawingsLightDownAndHorizontal => 194,
            Glyph::BoxDrawingsLightVerticalAndRight => 195,
            Glyph::BoxDrawingsLightHorizontal => 196,
            Glyph::BoxDrawingsLightVerticalAndHorizontal => 197,
            Glyph::LatinSmallLetterAWithTilde => 198,
            Glyph::LatinCapitalLetterAWithTilde => 199,
            Glyph::BoxDrawingsDoubleUpAndRight => 200,
            Glyph::BoxDrawingsDoubleDownAndRight => 201,
            Glyph::BoxDrawingsDoubleUpAndHorizontal => 202,
            Glyph::BoxDrawingsDoubleDownAndHorizontal => 203,
            Glyph::BoxDrawingsDoubleVerticalAndRight => 204,
            Glyph::BoxDrawingsDoubleHorizontal => 205,
            Glyph::BoxDrawingsDoubleVerticalAndHorizontal => 206,
            Glyph::CurrencySign => 207,
            Glyph::LatinSmallLetterEth => 208,
            Glyph::LatinCapitalLetterEth => 209,
            Glyph::LatinCapitalLetterEWithCircumflex => 210,
            Glyph::LatinCapitalLetterEWithDiaeresis => 211,
            Glyph::LatinCapitalLetterEWithGrave => 212,
            Glyph::LatinSmallLetterDotlessI => 213,
            Glyph::LatinCapitalLetterIWithAcute => 214,
            Glyph::LatinCapitalLetterIWithCircumflex => 215,
            Glyph::LatinCapitalLetterIWithDiaeresis => 216,
            Glyph::BoxDrawingsLightUpAndLeft => 217,
            Glyph::BoxDrawingsLightDownAndRight => 218,
            Glyph::FullBlock => 219,
            Glyph::LowerHalfBlock => 220,
            Glyph::BrokenBar => 221,
            Glyph::LatinCapitalLetterIWithGrave => 222,
            Glyph::UpperHalfBlock => 223,
            Glyph::LatinCapitalLetterOWithAcute => 224,
            Glyph::LatinSmallLetterSharpS => 225,
            Glyph::LatinCapitalLetterOWithCircumflex => 226,
            Glyph::LatinCapitalLetterOWithGrave => 227,
            Glyph::LatinSmallLetterOWithTilde => 228,
            Glyph::LatinCapitalLetterOWithTilde => 229,
            Glyph::MicroSign => 230,
            Glyph::LatinSmallLetterThorn => 231,
            Glyph::LatinCapitalLetterThorn => 232,
            Glyph::LatinCapitalLetterUWithAcute => 233,
            Glyph::LatinCapitalLetterUWithCircumflex => 234,
            Glyph::LatinCapitalLetterUWithGrave => 235,
            Glyph::LatinSmallLetterYWithAcute => 236,
            Glyph::LatinCapitalLetterYWithAcute => 237,
            Glyph::Macron => 238,
            Glyph::AcuteAccent => 239,
            Glyph::SoftHyphen => 240,
            Glyph::PlusMinusSign => 241,
            Glyph::DoubleLowLine => 242,
            Glyph::VulgarFractionThreeQuarters => 243,
            Glyph::PilcrowSign => 244,
            Glyph::SectionSign => 245,
            Glyph::DivisionSign => 246,
            Glyph::Cedilla => 247,
            Glyph::DegreeSign => 248,
            Glyph::Diaeresis => 249,
            Glyph::MiddleDot => 250,
            Glyph::SuperscriptOne => 251,
            Glyph::SuperscriptThree => 252,
            Glyph::SuperscriptTwo => 253,
            Glyph::BlackSquare => 254,
            Glyph::NoBreakSpace => 255,
        }
    }

    /// One row of this glyph in the built-in font: eight pixels, the
    /// leftmost in the most significant bit.
    pub fn pixels(self, row: usize) -> (r: u8)
        requires
            row < FONT_HEIGHT,
        ensures
            r == font_byte(self.code(), row as int),
    {
        font_row(self.as_u8(), row)
    }
}

/// A bitmap font: for each of the 256 characters, `height_pixels` rows of
/// at most eight pixels each.
pub trait Font {
    /// Number of pixel rows in each glyph.
    spec fn height(&self) -> nat;

    /// The pixels of row `row` of `glyph`; the most significant bit is the
    /// leftmost pixel.
    fn pixels(&self, glyph: Char, row: usize) -> u8
        requires
            row < self.height(),
    ;

    /// Number of pixel rows in each glyph.
    fn height_pixels(&self) -> (r: usize)
        ensures
            r == self.height(),
    ;

    /// Number of pixels in each glyph row.
    fn width_pixels(&self) -> usize;

    /// Size of the font's bitmap data, in bytes.
    fn length_bytes(&self) -> usize;
}

/// The built-in font, eight pixels wide and sixteen high.
pub struct Font8x16;

impl Font for Font8x16 {
    open spec fn height(&self) -> nat {
        16
    }

    fn pixels(&self, glyph: Char, row: usize) -> (r: u8)
        ensures
            r == font_byte(glyph.code(), row as int),
    {
        font_row(glyph.as_u8(), row)
    }

    fn height_pixels(&self) -> (r: usize) {
        FONT_HEIGHT
    }

    fn width_pixels(&self) -> (r: usize)
        ensures
            r == 8,
    {
        FONT_WIDTH
    }

    fn length_bytes(&self) -> (r: usize)
        ensures
            r == 4096,
    {
        4096
    }
}

} // verus!
