//! The MS-DOS Code Page 850 character set, which the text grid stores.
//!
//! It offers a compromise between the box characters of Code Page 437 and
//! the accents of ISO 8859-1 / Latin-1.
use vstd::prelude::*;

verus! {

/// One character of Code Page 850. The variants are listed in code order,
/// so a variant's position in this list is its byte value.
#[derive(Copy, Clone, PartialEq, Eq, Structural, Debug)]
pub enum Char {
    /// Code 000: replacement character
    Null,
    /// Code 001: white smiling face
    SOH,
    /// Code 002: black smiling face
    STX,
    /// Code 003: black heart suit
    ETX,
    /// Code 004: black diamond suit
    EOT,
    /// Code 005: black club suit
    ENQ,
    /// Code 006: black spade suit
    ACK,
    /// Code 007: bullet
    BEL,
    /// Code 008: inverse bullet
    BS,
    /// Code 009: white circle
    HT,
    /// Code 010: inverse white circle
    LF,
    /// Code 011: male sign
    VT,
    /// Code 012: female sign
    FF,
    /// Code 013: eighth note
    CR,
    /// Code 014: beamed eighth notes
    SO,
    /// Code 015: white sun with rays
    SI,
    /// Code 016: black right-pointing arrow
    DLE,
    /// Code 017: black left-pointing arrow
    DC1,
    /// Code 018: up down arrow
    DC2,
    /// Code 019: double exclamation mark
    DC3,
    /// Code 020: pilcrow sign
    DC4,
    /// Code 021: section sign
    NAK,
    /// Code 022: black rectangle
    SYN,
    /// Code 023: up down arrow with base
    ETB,
    /// Code 024: upwards arrow
    CAN,
    /// Code 025: downwards arrow
    EM,
    /// Code 026: rightwards arrow
    SUB,
    /// Code 027: leftwards arrow
    Escape,
    /// Code 028: right andle
    FS,
    /// Code 029: left right arrow
    GS,
    /// Code 030: black up pointing arrow
    RS,
    /// Code 031: black down pointing arrow
    US,
    /// Code 032: space
    Space,
    /// Code 033: exclamation mark
    ExclamationMark,
    /// Code 034: quotation mark
    QuotationMark,
    /// Code 035: number sign
    NumberSign,
    /// Code 036: dollar sign
    DollarSign,
    /// Code 037: percent sign
    PercentSign,
    /// Code 038: ampersand
    Ampersand,
    /// Code 039: apostrophe
    Apostrophe,
    /// Code 040: left parenthesis
    LeftParenthesis,
    /// Code 041: right parenthesis
    RightParenthesis,
    /// Code 042: asterisk
    Asterisk,
    /// Code 043: plus sign
    PlusSign,
    /// Code 044: comma
    Comma,
    /// Code 045: hyphen-minus
    HyphenMinus,
    /// Code 046: full stop
    FullStop,
    /// Code 047: solidus
    Solidus,
    /// Code 048: digit zero
    DigitZero,
    /// Code 049: digit one
    DigitOne,
    /// Code 050: digit two
    DigitTwo,
    /// Code 051: digit three
    DigitThree,
    /// Code 052: digit four
    DigitFour,
    /// Code 053: digit five
    DigitFive,
    /// Code 054: digit six
    DigitSix,
    /// Code 055: digit seven
    DigitSeven,
    /// Code 056: digit eight
    DigitEight,
    /// Code 057: digit nine
    DigitNine,
    /// Code 058: colon
    Colon,
    /// Code 059: semicolon
    Semicolon,
    /// Code 060: less-than sign
    LessThanSign,
    /// Code 061: equals sign
    EqualsSign,
    /// Code 062: greater-than sign
    GreaterThanSign,
    /// Code 063: question mark
    QuestionMark,
    /// Code 064: commercial at
    CommercialAt,
    /// Code 065: latin capital letter a
    LatinCapitalLetterA,
    /// Code 066: latin capital letter b
    LatinCapitalLetterB,
    /// Code 067: latin capital letter c
    LatinCapitalLetterC,
    /// Code 068: latin capital letter d
    LatinCapitalLetterD,
    /// Code 069: latin capital letter e
    LatinCapitalLetterE,
    /// Code 070: latin capital letter f
    LatinCapitalLetterF,
    /// Code 071: latin capital letter g
    LatinCapitalLetterG,
    /// Code 072: latin capital letter h
    LatinCapitalLetterH,
    /// Code 073: latin capital letter i
    LatinCapitalLetterI,
    /// Code 074: latin capital letter j
    LatinCapitalLetterJ,
    /// Code 075: latin capital letter k
    LatinCapitalLetterK,
    /// Code 076: latin capital letter l
    LatinCapitalLetterL,
    /// Code 077: latin capital letter m
    LatinCapitalLetterM,
    /// Code 078: latin capital letter n
    LatinCapitalLetterN,
    /// Code 079: latin capital letter o
    LatinCapitalLetterO,
    /// Code 080: latin capital letter p
    LatinCapitalLetterP,
    /// Code 081: latin capital letter q
    LatinCapitalLetterQ,
    /// Code 082: latin capital letter r
    LatinCapitalLetterR,
    /// Code 083: latin capital letter s
    LatinCapitalLetterS,
    /// Code 084: latin capital letter t
    LatinCapitalLetterT,
    /// Code 085: latin capital letter u
    LatinCapitalLetterU,
    /// Code 086: latin capital letter v
    LatinCapitalLetterV,
    /// Code 087: latin capital letter w
    LatinCapitalLetterW,
    /// Code 088: latin capital letter x
    LatinCapitalLetterX,
    /// Code 089: latin capital letter y
    LatinCapitalLetterY,
    /// Code 090: latin capital letter z
    LatinCapitalLetterZ,
    /// Code 091: left square bracket
    LeftSquareBracket,
    /// Code 092: reverse solidus
    ReverseSolidus,
    /// Code 093: right square bracket
    RightSquareBracket,
    /// Code 094: circumflex accent
    CircumflexAccent,
    /// Code 095: low line
    LowLine,
    /// Code 096: grave accent
    GraveAccent,
    /// Code 097: latin small letter a
    LatinSmallLetterA,
    /// Code 098: latin small letter b
    LatinSmallLetterB,
    /// Code 099: latin small letter c
    LatinSmallLetterC,
    /// Code 100: latin small letter d
    LatinSmallLetterD,
    /// Code 101: latin small letter e
    LatinSmallLetterE,
    /// Code 102: latin small letter f
    LatinSmallLetterF,
    /// Code 103: latin small letter g
    LatinSmallLetterG,
    /// Code 104: latin small letter h
    LatinSmallLetterH,
    /// Code 105: latin small letter i
    LatinSmallLetterI,
    /// Code 106: latin small letter j
    LatinSmallLetterJ,
    /// Code 107: latin small letter k
    LatinSmallLetterK,
    /// Code 108: latin small letter l
    LatinSmallLetterL,
    /// Code 109: latin small letter m
    LatinSmallLetterM,
    /// Code 110: latin small letter n
    LatinSmallLetterN,
    /// Code 111: latin small letter o
    LatinSmallLetterO,
    /// Code 112: latin small letter p
    LatinSmallLetterP,
    /// Code 113: latin small letter q
    LatinSmallLetterQ,
    /// Code 114: latin small letter r
    LatinSmallLetterR,
    /// Code 115: latin small letter s
    LatinSmallLetterS,
    /// Code 116: latin small letter t
    LatinSmallLetterT,
    /// Code 117: latin small letter u
    LatinSmallLetterU,
    /// Code 118: latin small letter v
    LatinSmallLetterV,
    /// Code 119: latin small letter w
    LatinSmallLetterW,
    /// Code 120: latin small letter x
    LatinSmallLetterX,
    /// Code 121: latin small letter y
    LatinSmallLetterY,
    /// Code 122: latin small letter z
    LatinSmallLetterZ,
    /// Code 123: left curly bracket
    LeftCurlyBracket,
    /// Code 124: vertical line
    VerticalLine,
    /// Code 125: right curly bracket
    RightCurlyBracket,
    /// Code 126: tilde
    Tilde,
    /// Code 127: delete
    Delete,
    /// Code 128: latin capital letter c with cedilla
    LatinCapitalLetterCWithCedilla,
    /// Code 129: latin small letter u with diaeresis
    LatinSmallLetterUWithDiaeresis,
    /// Code 130: latin small letter e with acute
    LatinSmallLetterEWithAcute,
    /// Code 131: latin small letter a with circumflex
    LatinSmallLetterAWithCircumflex,
    /// Code 132: latin small letter a with diaeresis
    LatinSmallLetterAWithDiaeresis,
    /// Code 133: latin small letter a with grave
    LatinSmallLetterAWithGrave,
    /// Code 134: latin small letter a with ring above
    LatinSmallLetterAWithRingAbove,
    /// Code 135: latin small letter c with cedilla
    LatinSmallLetterCWithCedilla,
    /// Code 136: latin small letter e with circumflex
    LatinSmallLetterEWithCircumflex,
    /// Code 137: latin small letter e with diaeresis
    LatinSmallLetterEWithDiaeresis,
    /// Code 138: latin small letter e with grave
    LatinSmallLetterEWithGrave,
    /// Code 139: latin small letter i with diaeresis
    LatinSmallLetterIWithDiaeresis,
    /// Code 140: latin small letter i with circumflex
    LatinSmallLetterIWithCircumflex,
    /// Code 141: latin small letter i with grave
    LatinSmallLetterIWithGrave,
    /// Code 142: latin capital letter a with diaeresis
    LatinCapitalLetterAWithDiaeresis,
    /// Code 143: latin capital letter a with ring above
    LatinCapitalLetterAWithRingAbove,
    /// Code 144: latin capital letter e with acute
    LatinCapitalLetterEWithAcute,
    /// Code 145: latin small letter ae
    LatinSmallLetterAe,
    /// Code 146: latin capital letter ae
    LatinCapitalLetterAe,
    /// Code 147: latin small letter o with circumflex
    LatinSmallLetterOWithCircumflex,
    /// Code 148: latin small letter o with diaeresis
    LatinSmallLetterOWithDiaeresis,
    /// Code 149: latin small letter o with grave
    LatinSmallLetterOWithGrave,
    /// Code 150: latin small letter u with circumflex
    LatinSmallLetterUWithCircumflex,
    /// Code 151: latin small letter u with grave
    LatinSmallLetterUWithGrave,
    /// Code 152: latin small letter y with diaeresis
    LatinSmallLetterYWithDiaeresis,
    /// Code 153: latin capital letter o with diaeresis
    LatinCapitalLetterOWithDiaeresis,
    /// Code 154: latin capital letter u with diaeresis
    LatinCapitalLetterUWithDiaeresis,
    /// Code 155: latin small letter o with stroke
    LatinSmallLetterOWithStroke,
    /// Code 156: pound sign
    PoundSign,
    /// Code 157: latin capital letter o with stroke
    LatinCapitalLetterOWithStroke,
    /// Code 158: multiplication sign
    MultiplicationSign,
    /// Code 159: latin small letter f with hook
    LatinSmallLetterFWithHook,
    /// Code 160: latin small letter a with acute
    LatinSmallLetterAWithAcute,
    /// Code 161: latin small letter i with acute
    LatinSmallLetterIWithAcute,
    /// Code 162: latin small letter o with acute
    LatinSmallLetterOWithAcute,
    /// Code 163: latin small letter u with acute
    LatinSmallLetterUWithAcute,
    /// Code 164: latin small letter n with tilde
    LatinSmallLetterNWithTilde,
    /// Code 165: latin capital letter n with tilde
    LatinCapitalLetterNWithTilde,
    /// Code 166: feminine ordinal indicator
    FeminineOrdinalIndicator,
    /// Code 167: masculine ordinal indicator
    MasculineOrdinalIndicator,
    /// Code 168: inverted question mark
    InvertedQuestionMark,
    /// Code 169: registered sign
    RegisteredSign,
    /// Code 170: not sign
    NotSign,
    /// Code 171: vulgar fraction one half
    VulgarFractionOneHalf,
    /// Code 172: vulgar fraction one quarter
    VulgarFractionOneQuarter,
    /// Code 173: inverted exclamation mark
    InvertedExclamationMark,
    /// Code 174: left-pointing double angle quotation mark
    LeftPointingDoubleAngleQuotationMark,
    /// Code 175: right-pointing double angle quotation mark
    RightPointingDoubleAngleQuotationMark,
    /// Code 176: light shade
    LightShade,
    /// Code 177: medium shade
    MediumShade,
    /// Code 178: dark shade
    DarkShade,
    /// Code 179: box drawings light vertical
    BoxDrawingsLightVertical,
    /// Code 180: box drawings light vertical and left
    BoxDrawingsLightVerticalAndLeft,
    /// Code 181: latin capital letter a with acute
    LatinCapitalLetterAWithAcute,
    /// Code 182: latin capital letter a with circumflex
    LatinCapitalLetterAWithCircumflex,
    /// Code 183: latin capital letter a with grave
    LatinCapitalLetterAWithGrave,
    /// Code 184: copyright sign
    CopyrightSign,
    /// Code 185: box drawings double vertical and left
    BoxDrawingsDoubleVerticalAndLeft,
    /// Code 186: box drawings double vertical
    BoxDrawingsDoubleVertical,
    /// Code 187: box drawings double down and left
    BoxDrawingsDoubleDownAndLeft,
    /// Code 188: box drawings double up and left
    BoxDrawingsDoubleUpAndLeft,
    /// Code 189: cent sign
    CentSign,
    /// Code 190: yen sign
    YenSign,
    /// Code 191: box drawings light down and left
    BoxDrawingsLightDownAndLeft,
    /// Code 192: box drawings light up and right
    BoxDrawingsLightUpAndRight,
    /// Code 193: box drawings light up and horizontal
    BoxDrawingsLightUpAndHorizontal,
    /// Code 194: box drawings light down and horizontal
    BoxDrawingsLightDownAndHorizontal,
    /// Code 195: box drawings light vertical and right
    BoxDrawingsLightVerticalAndRight,
    /// Code 196: box drawings light horizontal
    BoxDrawingsLightHorizontal,
    /// Code 197: box drawings light vertical and horizontal
    BoxDrawingsLightVerticalAndHorizontal,
    /// Code 198: latin small letter a with tilde
    LatinSmallLetterAWithTilde,
    /// Code 199: latin capital letter a with tilde
    LatinCapitalLetterAWithTilde,
    /// Code 200: box drawings double up and right
    BoxDrawingsDoubleUpAndRight,
    /// Code 201: box drawings double down and right
    BoxDrawingsDoubleDownAndRight,
    /// Code 202: box drawings double up and horizontal
    BoxDrawingsDoubleUpAndHorizontal,
    /// Code 203: box drawings double down and horizontal
    BoxDrawingsDoubleDownAndHorizontal,
    /// Code 204: box drawings double vertical and right
    BoxDrawingsDoubleVerticalAndRight,
    /// Code 205: box drawings double horizontal
    BoxDrawingsDoubleHorizontal,
    /// Code 206: box drawings double vertical and horizontal
    BoxDrawingsDoubleVerticalAndHorizontal,
    /// Code 207: currency sign
    CurrencySign,
    /// Code 208: latin small letter eth
    LatinSmallLetterEth,
    /// Code 209: latin capital letter eth
    LatinCapitalLetterEth,
    /// Code 210: latin capital letter e with circumflex
    LatinCapitalLetterEWithCircumflex,
    /// Code 211: latin capital letter e with diaeresis
    LatinCapitalLetterEWithDiaeresis,
    /// Code 212: latin capital letter e with grave
    LatinCapitalLetterEWithGrave,
    /// Code 213: latin small letter dotless i
    LatinSmallLetterDotlessI,
    /// Code 214: latin capital letter i with acute
    LatinCapitalLetterIWithAcute,
    /// Code 215: latin capital letter i with circumflex
    LatinCapitalLetterIWithCircumflex,
    /// Code 216: latin capital letter i with diaeresis
    LatinCapitalLetterIWithDiaeresis,
    /// Code 217: box drawings light up and left
    BoxDrawingsLightUpAndLeft,
    /// Code 218: box drawings light down and right
    BoxDrawingsLightDownAndRight,
    /// Code 219: full block
    FullBlock,
    /// Code 220: lower half block
    LowerHalfBlock,
    /// Code 221: broken bar
    BrokenBar,
    /// Code 222: latin capital letter i with grave
    LatinCapitalLetterIWithGrave,
    /// Code 223: upper half block
    UpperHalfBlock,
    /// Code 224: latin capital letter o with acute
    LatinCapitalLetterOWithAcute,
    /// Code 225: latin small letter sharp s
    LatinSmallLetterSharpS,
    /// Code 226: latin capital letter o with circumflex
    LatinCapitalLetterOWithCircumflex,
    /// Code 227: latin capital letter o with grave
    LatinCapitalLetterOWithGrave,
    /// Code 228: latin small letter o with tilde
    LatinSmallLetterOWithTilde,
    /// Code 229: latin capital letter o with tilde
    LatinCapitalLetterOWithTilde,
    /// Code 230: micro sign
    MicroSign,
    /// Code 231: latin small letter thorn
    LatinSmallLetterThorn,
    /// Code 232: latin capital letter thorn
    LatinCapitalLetterThorn,
    /// Code 233: latin capital letter u with acute
    LatinCapitalLetterUWithAcute,
    /// Code 234: latin capital letter u with circumflex
    LatinCapitalLetterUWithCircumflex,
    /// Code 235: latin capital letter u with grave
    LatinCapitalLetterUWithGrave,
    /// Code 236: latin small letter y with acute
    LatinSmallLetterYWithAcute,
    /// Code 237: latin capital letter y with acute
    LatinCapitalLetterYWithAcute,
    /// Code 238: macron
    Macron,
    /// Code 239: acute accent
    AcuteAccent,
    /// Code 240: soft hyphen
    SoftHyphen,
    /// Code 241: plus-minus sign
    PlusMinusSign,
    /// Code 242: double low line
    DoubleLowLine,
    /// Code 243: vulgar fraction three quarters
    VulgarFractionThreeQuarters,
    /// Code 244: pilcrow sign
    PilcrowSign,
    /// Code 245: section sign
    SectionSign,
    /// Code 246: division sign
    DivisionSign,
    /// Code 247: cedilla
    Cedilla,
    /// Code 248: degree sign
    DegreeSign,
    /// Code 249: diaeresis
    Diaeresis,
    /// Code 250: middle dot
    MiddleDot,
    /// Code 251: superscript one
    SuperscriptOne,
    /// Code 252: superscript three
    SuperscriptThree,
    /// Code 253: superscript two
    SuperscriptTwo,
    /// Code 254: black square
    BlackSquare,
    /// Code 255: no-break space
    NoBreakSpace,
}

impl Default for Char {
    fn default() -> (r: Char)
        ensures
            r == Char::Space,
    {
        Char::Space
    }
}

impl Char {
    /// The byte value of this character in Code Page 850.
    pub open spec fn code(self) -> u8 {
        match self {
            Char::Null => 0,
            Char::SOH => 1,
            Char::STX => 2,
            Char::ETX => 3,
            Char::EOT => 4,
            Char::ENQ => 5,
            Char::ACK => 6,
            Char::BEL => 7,
            Char::BS => 8,
            Char::HT => 9,
            Char::LF => 10,
            Char::VT => 11,
            Char::FF => 12,
            Char::CR => 13,
            Char::SO => 14,
            Char::SI => 15,
            Char::DLE => 16,
            Char::DC1 => 17,
            Char::DC2 => 18,
            Char::DC3 => 19,
            Char::DC4 => 20,
            Char::NAK => 21,
            Char::SYN => 22,
            Char::ETB => 23,
            Char::CAN => 24,
            Char::EM => 25,
            Char::SUB => 26,
            Char::Escape => 27,
            Char::FS => 28,
            Char::GS => 29,
            Char::RS => 30,
            Char::US => 31,
            Char::Space => 32,
            Char::ExclamationMark => 33,
            Char::QuotationMark => 34,
            Char::NumberSign => 35,
            Char::DollarSign => 36,
            Char::PercentSign => 37,
            Char::Ampersand => 38,
            Char::Apostrophe => 39,
            Char::LeftParenthesis => 40,
            Char::RightParenthesis => 41,
            Char::Asterisk => 42,
            Char::PlusSign => 43,
            Char::Comma => 44,
            Char::HyphenMinus => 45,
            Char::FullStop => 46,
            Char::Solidus => 47,
            Char::DigitZero => 48,
            Char::DigitOne => 49,
            Char::DigitTwo => 50,
            Char::DigitThree => 51,
            Char::DigitFour => 52,
            Char::DigitFive => 53,
            Char::DigitSix => 54,
            Char::DigitSeven => 55,
            Char::DigitEight => 56,
            Char::DigitNine => 57,
            Char::Colon => 58,
            Char::Semicolon => 59,
            Char::LessThanSign => 60,
            Char::EqualsSign => 61,
            Char::GreaterThanSign => 62,
            Char::QuestionMark => 63,
            Char::CommercialAt => 64,
            Char::LatinCapitalLetterA => 65,
            Char::LatinCapitalLetterB => 66,
            Char::LatinCapitalLetterC => 67,
            Char::LatinCapitalLetterD => 68,
            Char::LatinCapitalLetterE => 69,
            Char::LatinCapitalLetterF => 70,
            Char::LatinCapitalLetterG => 71,
            Char::LatinCapitalLetterH => 72,
            Char::LatinCapitalLetterI => 73,
            Char::LatinCapitalLetterJ => 74,
            Char::LatinCapitalLetterK => 75,
            Char::LatinCapitalLetterL => 76,
            Char::LatinCapitalLetterM => 77,
            Char::LatinCapitalLetterN => 78,
            Char::LatinCapitalLetterO => 79,
            Char::LatinCapitalLetterP => 80,
            Char::LatinCapitalLetterQ => 81,
            Char::LatinCapitalLetterR => 82,
            Char::LatinCapitalLetterS => 83,
            Char::LatinCapitalLetterT => 84,
            Char::LatinCapitalLetterU => 85,
            Char::LatinCapitalLetterV => 86,
            Char::LatinCapitalLetterW => 87,
            Char::LatinCapitalLetterX => 88,
            Char::LatinCapitalLetterY => 89,
            Char::LatinCapitalLetterZ => 90,
            Char::LeftSquareBracket => 91,
            Char::ReverseSolidus => 92,
            Char::RightSquareBracket => 93,
            Char::CircumflexAccent => 94,
            Char::LowLine => 95,
            Char::GraveAccent => 96,
            Char::LatinSmallLetterA => 97,
            Char::LatinSmallLetterB => 98,
            Char::LatinSmallLetterC => 99,
            Char::LatinSmallLetterD => 100,
            Char::LatinSmallLetterE => 101,
            Char::LatinSmallLetterF => 102,
            Char::LatinSmallLetterG => 103,
            Char::LatinSmallLetterH => 104,
            Char::LatinSmallLetterI => 105,
            Char::LatinSmallLetterJ => 106,
            Char::LatinSmallLetterK => 107,
            Char::LatinSmallLetterL => 108,
            Char::LatinSmallLetterM => 109,
            Char::LatinSmallLetterN => 110,
            Char::LatinSmallLetterO => 111,
            Char::LatinSmallLetterP => 112,
            Char::LatinSmallLetterQ => 113,
            Char::LatinSmallLetterR => 114,
            Char::LatinSmallLetterS => 115,
            Char::LatinSmallLetterT => 116,
            Char::LatinSmallLetterU => 117,
            Char::LatinSmallLetterV => 118,
            Char::LatinSmallLetterW => 119,
            Char::LatinSmallLetterX => 120,
            Char::LatinSmallLetterY => 121,
            Char::LatinSmallLetterZ => 122,
            Char::LeftCurlyBracket => 123,
            Char::VerticalLine => 124,
            Char::RightCurlyBracket => 125,
            Char::Tilde => 126,
            Char::Delete => 127,
            Char::LatinCapitalLetterCWithCedilla => 128,
            Char::LatinSmallLetterUWithDiaeresis => 129,
            Char::LatinSmallLetterEWithAcute => 130,
            Char::LatinSmallLetterAWithCircumflex => 131,
            Char::LatinSmallLetterAWithDiaeresis => 132,
            Char::LatinSmallLetterAWithGrave => 133,
            Char::LatinSmallLetterAWithRingAbove => 134,
            Char::LatinSmallLetterCWithCedilla => 135,
            Char::LatinSmallLetterEWithCircumflex => 136,
            Char::LatinSmallLetterEWithDiaeresis => 137,
            Char::LatinSmallLetterEWithGrave => 138,
            Char::LatinSmallLetterIWithDiaeresis => 139,
            Char::LatinSmallLetterIWithCircumflex => 140,
            Char::LatinSmallLetterIWithGrave => 141,
            Char::LatinCapitalLetterAWithDiaeresis => 142,
            Char::LatinCapitalLetterAWithRingAbove => 143,
            Char::LatinCapitalLetterEWithAcute => 144,
            Char::LatinSmallLetterAe => 145,
            Char::LatinCapitalLetterAe => 146,
            Char::LatinSmallLetterOWithCircumflex => 147,
            Char::LatinSmallLetterOWithDiaeresis => 148,
            Char::LatinSmallLetterOWithGrave => 149,
            Char::LatinSmallLetterUWithCircumflex => 150,
            Char::LatinSmallLetterUWithGrave => 151,
            Char::LatinSmallLetterYWithDiaeresis => 152,
            Char::LatinCapitalLetterOWithDiaeresis => 153,
            Char::LatinCapitalLetterUWithDiaeresis => 154,
            Char::LatinSmallLetterOWithStroke => 155,
            Char::PoundSign => 156,
            Char::LatinCapitalLetterOWithStroke => 157,
            Char::MultiplicationSign => 158,
            Char::LatinSmallLetterFWithHook => 159,
            Char::LatinSmallLetterAWithAcute => 160,
            Char::LatinSmallLetterIWithAcute => 161,
            Char::LatinSmallLetterOWithAcute => 162,
            Char::LatinSmallLetterUWithAcute => 163,
            Char::LatinSmallLetterNWithTilde => 164,
            Char::LatinCapitalLetterNWithTilde => 165,
            Char::FeminineOrdinalIndicator => 166,
            Char::MasculineOrdinalIndicator => 167,
            Char::InvertedQuestionMark => 168,
            Char::RegisteredSign => 169,
            Char::NotSign => 170,
            Char::VulgarFractionOneHalf => 171,
            Char::VulgarFractionOneQuarter => 172,
            Char::InvertedExclamationMark => 173,
            Char::LeftPointingDoubleAngleQuotationMark => 174,
            Char::RightPointingDoubleAngleQuotationMark => 175,
            Char::LightShade => 176,
            Char::MediumShade => 177,
            Char::DarkShade => 178,
            Char::BoxDrawingsLightVertical => 179,
            Char::BoxDrawingsLightVerticalAndLeft => 180,
            Char::LatinCapitalLetterAWithAcute => 181,
            Char::LatinCapitalLetterAWithCircumflex => 182,
            Char::LatinCapitalLetterAWithGrave => 183,
            Char::CopyrightSign => 184,
            Char::BoxDrawingsDoubleVerticalAndLeft => 185,
            Char::BoxDrawingsDoubleVertical => 186,
            Char::BoxDrawingsDoubleDownAndLeft => 187,
            Char::BoxDrawingsDoubleUpAndLeft => 188,
            Char::CentSign => 189,
            Char::YenSign => 190,
            Char::BoxDrawingsLightDownAndLeft => 191,
            Char::BoxDrawingsLightUpAndRight => 192,
            Char::BoxDrawingsLightUpAndHorizontal => 193,
            Char::BoxDrawingsLightDownAndHorizontal => 194,
            Char::BoxDrawingsLightVerticalAndRight => 195,
            Char::BoxDrawingsLightHorizontal => 196,
            Char::BoxDrawingsLightVerticalAndHorizontal => 197,
            Char::LatinSmallLetterAWithTilde => 198,
            Char::LatinCapitalLetterAWithTilde => 199,
            Char::BoxDrawingsDoubleUpAndRight => 200,
            Char::BoxDrawingsDoubleDownAndRight => 201,
            Char::BoxDrawingsDoubleUpAndHorizontal => 202,
            Char::BoxDrawingsDoubleDownAndHorizontal => 203,
            Char::BoxDrawingsDoubleVerticalAndRight => 204,
            Char::BoxDrawingsDoubleHorizontal => 205,
            Char::BoxDrawingsDoubleVerticalAndHorizontal => 206,
            Char::CurrencySign => 207,
            Char::LatinSmallLetterEth => 208,
            Char::LatinCapitalLetterEth => 209,
            Char::LatinCapitalLetterEWithCircumflex => 210,
            Char::LatinCapitalLetterEWithDiaeresis => 211,
            Char::LatinCapitalLetterEWithGrave => 212,
            Char::LatinSmallLetterDotlessI => 213,
            Char::LatinCapitalLetterIWithAcute => 214,
            Char::LatinCapitalLetterIWithCircumflex => 215,
            Char::LatinCapitalLetterIWithDiaeresis => 216,
            Char::BoxDrawingsLightUpAndLeft => 217,
            Char::BoxDrawingsLightDownAndRight => 218,
            Char::FullBlock => 219,
            Char::LowerHalfBlock => 220,
            Char::BrokenBar => 221,
            Char::LatinCapitalLetterIWithGrave => 222,
            Char::UpperHalfBlock => 223,
            Char::LatinCapitalLetterOWithAcute => 224,
            Char::LatinSmallLetterSharpS => 225,
            Char::LatinCapitalLetterOWithCircumflex => 226,
            Char::LatinCapitalLetterOWithGrave => 227,
            Char::LatinSmallLetterOWithTilde => 228,
            Char::LatinCapitalLetterOWithTilde => 229,
            Char::MicroSign => 230,
            Char::LatinSmallLetterThorn => 231,
            Char::LatinCapitalLetterThorn => 232,
            Char::LatinCapitalLetterUWithAcute => 233,
            Char::LatinCapitalLetterUWithCircumflex => 234,
            Char::LatinCapitalLetterUWithGrave => 235,
            Char::LatinSmallLetterYWithAcute => 236,
            Char::LatinCapitalLetterYWithAcute => 237,
            Char::Macron => 238,
            Char::AcuteAccent => 239,
            Char::SoftHyphen => 240,
            Char::PlusMinusSign => 241,
            Char::DoubleLowLine => 242,
            Char::VulgarFractionThreeQuarters => 243,
            Char::PilcrowSign => 244,
            Char::SectionSign => 245,
            Char::DivisionSign => 246,
            Char::Cedilla => 247,
            Char::DegreeSign => 248,
            Char::Diaeresis => 249,
            Char::MiddleDot => 250,
            Char::SuperscriptOne => 251,
            Char::SuperscriptThree => 252,
            Char::SuperscriptTwo => 253,
            Char::BlackSquare => 254,
            Char::NoBreakSpace => 255,
        }
    }

    /// The character that `map_char` picks for a Unicode scalar value: the
    /// Code Page 850 character that looks like it, or a question mark when
    /// there is none.
    pub open spec fn mapped(ch: char) -> Char {
        match ch {
            '\u{0000}' => Char::Null,
            '\u{0001}' => Char::SOH,
            '\u{0002}' => Char::STX,
            '\u{0003}' => Char::ETX,
            '\u{0004}' => Char::EOT,
            '\u{0005}' => Char::ENQ,
            '\u{0006}' => Char::ACK,
            '\u{0007}' => Char::BEL,
            '\u{0008}' => Char::BS,
            '\t' => Char::HT,
            '\n' => Char::LF,
            '\u{000b}' => Char::VT,
            '\u{000c}' => Char::FF,
            '\r' => Char::CR,
            '\u{000e}' => Char::SO,
            '\u{000f}' => Char::SI,
            '\u{0010}' => Char::DLE,
            '\u{0011}' => Char::DC1,
            '\u{0012}' => Char::DC2,
            '\u{0013}' => Char::DC3,
            '\u{0014}' => Char::DC4,
            '\u{0015}' => Char::NAK,
            '\u{0016}' => Char::SYN,
            '\u{0017}' => Char::ETB,
            '\u{0018}' => Char::CAN,
            '\u{0019}' => Char::EM,
            '\u{001a}' => Char::SUB,
            '\u{001b}' => Char::Escape,
            '\u{001c}' => Char::FS,
            '\u{001d}' => Char::GS,
            '\u{001e}' => Char::RS,
            '\u{001f}' => Char::US,
            ' ' => Char::Space,
            '!' => Char::ExclamationMark,
            '"' => Char::QuotationMark,
            '#' => Char::NumberSign,
            '$' => Char::DollarSign,
            '%' => Char::PercentSign,
            '&' => Char::Ampersand,
            '\'' => Char::Apostrophe,
            '(' => Char::LeftParenthesis,
            ')' => Char::RightParenthesis,
            '*' => Char::Asterisk,
            '+' => Char::PlusSign,
            ',' => Char::Comma,
            '-' => Char::HyphenMinus,
            '.' => Char::FullStop,
            '/' => Char::Solidus,
            '0' => Char::DigitZero,
            '1' => Char::DigitOne,
            '2' => Char::DigitTwo,
            '3' => Char::DigitThree,
            '4' => Char::DigitFour,
            '5' => Char::DigitFive,
            '6' => Char::DigitSix,
            '7' => Char::DigitSeven,
            '8' => Char::DigitEight,
            '9' => Char::DigitNine,
            ':' => Char::Colon,
            ';' => Char::Semicolon,
            '<' => Char::LessThanSign,
            '=' => Char::EqualsSign,
            '>' => Char::GreaterThanSign,
            '?' => Char::QuestionMark,
            '@' => Char::CommercialAt,
            'A' => Char::LatinCapitalLetterA,
            'B' => Char::LatinCapitalLetterB,
            'C' => Char::LatinCapitalLetterC,
            'D' => Char::LatinCapitalLetterD,
            'E' => Char::LatinCapitalLetterE,
            'F' => Char::LatinCapitalLetterF,
            'G' => Char::LatinCapitalLetterG,
            'H' => Char::LatinCapitalLetterH,
            'I' => Char::LatinCapitalLetterI,
            'J' => Char::LatinCapitalLetterJ,
            'K' => Char::LatinCapitalLetterK,
            'L' => Char::LatinCapitalLetterL,
            'M' => Char::LatinCapitalLetterM,
            'N' => Char::LatinCapitalLetterN,
            'O' => Char::LatinCapitalLetterO,
            'P' => Char::LatinCapitalLetterP,
            'Q' => Char::LatinCapitalLetterQ,
            'R' => Char::LatinCapitalLetterR,
            'S' => Char::LatinCapitalLetterS,
            'T' => Char::LatinCapitalLetterT,
            'U' => Char::LatinCapitalLetterU,
            'V' => Char::LatinCapitalLetterV,
            'W' => Char::LatinCapitalLetterW,
            'X' => Char::LatinCapitalLetterX,
            'Y' => Char::LatinCapitalLetterY,
            'Z' => Char::LatinCapitalLetterZ,
            '[' => Char::LeftSquareBracket,
            '\\' => Char::ReverseSolidus,
            ']' => Char::RightSquareBracket,
            '^' => Char::CircumflexAccent,
            '_' => Char::LowLine,
            '`' => Char::GraveAccent,
            'a' => Char::LatinSmallLetterA,
            'b' => Char::LatinSmallLetterB,
            'c' => Char::LatinSmallLetterC,
            'd' => Char::LatinSmallLetterD,
            'e' => Char::LatinSmallLetterE,
            'f' => Char::LatinSmallLetterF,
            'g' => Char::LatinSmallLetterG,
            'h' => Char::LatinSmallLetterH,
            'i' => Char::LatinSmallLetterI,
            'j' => Char::LatinSmallLetterJ,
            'k' => Char::LatinSmallLetterK,
            'l' => Char::LatinSmallLetterL,
            'm' => Char::LatinSmallLetterM,
            'n' => Char::LatinSmallLetterN,
            'o' => Char::LatinSmallLetterO,
            'p' => Char::LatinSmallLetterP,
            'q' => Char::LatinSmallLetterQ,
            'r' => Char::LatinSmallLetterR,
            's' => Char::LatinSmallLetterS,
            't' => Char::LatinSmallLetterT,
            'u' => Char::LatinSmallLetterU,
            'v' => Char::LatinSmallLetterV,
            'w' => Char::LatinSmallLetterW,
            'x' => Char::LatinSmallLetterX,
            'y' => Char::LatinSmallLetterY,
            'z' => Char::LatinSmallLetterZ,
            '{' => Char::LeftCurlyBracket,
            '|' => Char::VerticalLine,
            '}' => Char::RightCurlyBracket,
            '~' => Char::Tilde,
            '\u{007f}' => Char::Delete,
            'Ç' => Char::LatinCapitalLetterCWithCedilla,
            'ü' => Char::LatinSmallLetterUWithDiaeresis,
            'é' => Char::LatinSmallLetterEWithAcute,
            'â' => Char::LatinSmallLetterAWithCircumflex,
            'ä' => Char::LatinSmallLetterAWithDiaeresis,
            'à' => Char::LatinSmallLetterAWithGrave,
            'å' => Char::LatinSmallLetterAWithRingAbove,
            'ç' => Char::LatinSmallLetterCWithCedilla,
            'ê' => Char::LatinSmallLetterEWithCircumflex,
            'ë' => Char::LatinSmallLetterEWithDiaeresis,
            'è' => Char::LatinSmallLetterEWithGrave,
            'ï' => Char::LatinSmallLetterIWithDiaeresis,
            'î' => Char::LatinSmallLetterIWithCircumflex,
            'ì' => Char::LatinSmallLetterIWithGrave,
            'Ä' => Char::LatinCapitalLetterAWithDiaeresis,
            'Å' => Char::LatinCapitalLetterAWithRingAbove,
            'É' => Char::LatinCapitalLetterEWithAcute,
            'æ' => Char::LatinSmallLetterAe,
            'Æ' => Char::LatinCapitalLetterAe,
            'ô' => Char::LatinSmallLetterOWithCircumflex,
            'ö' => Char::LatinSmallLetterOWithDiaeresis,
            'ò' => Char::LatinSmallLetterOWithGrave,
            'û' => Char::LatinSmallLetterUWithCircumflex,
            'ù' => Char::LatinSmallLetterUWithGrave,
            'ÿ' => Char::LatinSmallLetterYWithDiaeresis,
            'Ö' => Char::LatinCapitalLetterOWithDiaeresis,
            'Ü' => Char::LatinCapitalLetterUWithDiaeresis,
            'ø' => Char::LatinSmallLetterOWithStroke,
            '£' => Char::PoundSign,
            'Ø' => Char::LatinCapitalLetterOWithStroke,
            '×' => Char::MultiplicationSign,
            'ƒ' => Char::LatinSmallLetterFWithHook,
            'á' => Char::LatinSmallLetterAWithAcute,
            'í' => Char::LatinSmallLetterIWithAcute,
            'ó' => Char::LatinSmallLetterOWithAcute,
            'ú' => Char::LatinSmallLetterUWithAcute,
            'ñ' => Char::LatinSmallLetterNWithTilde,
            'Ñ' => Char::LatinCapitalLetterNWithTilde,
            'ª' => Char::FeminineOrdinalIndicator,
            'º' => Char::MasculineOrdinalIndicator,
            '¿' => Char::InvertedQuestionMark,
            '®' => Char::RegisteredSign,
            '¬' => Char::NotSign,
            '½' => Char::VulgarFractionOneHalf,
            '¼' => Char::VulgarFractionOneQuarter,
            '¡' => Char::InvertedExclamationMark,
            '«' => Char::LeftPointingDoubleAngleQuotationMark,
            '»' => Char::RightPointingDoubleAngleQuotationMark,
            '░' => Char::LightShade,
            '▒' => Char::MediumShade,
            '▓' => Char::DarkShade,
            '│' => Char::BoxDrawingsLightVertical,
            '┤' => Char::BoxDrawingsLightVerticalAndLeft,
            'Á' => Char::LatinCapitalLetterAWithAcute,
            'Â' => Char::LatinCapitalLetterAWithCircumflex,
            'À' => Char::LatinCapitalLetterAWithGrave,
            '©' => Char::CopyrightSign,
            '╣' => Char::BoxDrawingsDoubleVerticalAndLeft,
            '║' => Char::BoxDrawingsDoubleVertical,
            '╗' => Char::BoxDrawingsDoubleDownAndLeft,
            '╝' => Char::BoxDrawingsDoubleUpAndLeft,
            '¢' => Char::CentSign,
            '¥' => Char::YenSign,
            '┐' => Char::BoxDrawingsLightDownAndLeft,
            '└' => Char::BoxDrawingsLightUpAndRight,
            '┴' => Char::BoxDrawingsLightUpAndHorizontal,
            '┬' => Char::BoxDrawingsLightDownAndHorizontal,
            '├' => Char::BoxDrawingsLightVerticalAndRight,
            '─' => Char::BoxDrawingsLightHorizontal,
            '┼' => Char::BoxDrawingsLightVerticalAndHorizontal,
            'ã' => Char::LatinSmallLetterAWithTilde,
            'Ã' => Char::LatinCapitalLetterAWithTilde,
            '╚' => Char::BoxDrawingsDoubleUpAndRight,
            '╔' => Char::BoxDrawingsDoubleDownAndRight,
            '╩' => Char::BoxDrawingsDoubleUpAndHorizontal,
            '╦' => Char::BoxDrawingsDoubleDownAndHorizontal,
            '╠' => Char::BoxDrawingsDoubleVerticalAndRight,
            '═' => Char::BoxDrawingsDoubleHorizontal,
            '╬' => Char::BoxDrawingsDoubleVerticalAndHorizontal,
            '¤' => Char::CurrencySign,
            'ð' => Char::LatinSmallLetterEth,
            'Ð' => Char::LatinCapitalLetterEth,
            'Ê' => Char::LatinCapitalLetterEWithCircumflex,
            'Ë' => Char::LatinCapitalLetterEWithDiaeresis,
            'È' => Char::LatinCapitalLetterEWithGrave,
            'ı' => Char::LatinSmallLetterDotlessI,
            'Í' => Char::LatinCapitalLetterIWithAcute,
            'Î' => Char::LatinCapitalLetterIWithCircumflex,
            'Ï' => Char::LatinCapitalLetterIWithDiaeresis,
            '┘' => Char::BoxDrawingsLightUpAndLeft,
            '┌' => Char::BoxDrawingsLightDownAndRight,
            '█' => Char::FullBlock,
            '▄' => Char::LowerHalfBlock,
            '¦' => Char::BrokenBar,
            'Ì' => Char::LatinCapitalLetterIWithGrave,
            '▀' => Char::UpperHalfBlock,
            'Ó' => Char::LatinCapitalLetterOWithAcute,
            'ß' => Char::LatinSmallLetterSharpS,
            'Ô' => Char::LatinCapitalLetterOWithCircumflex,
            'Ò' => Char::LatinCapitalLetterOWithGrave,
            'õ' => Char::LatinSmallLetterOWithTilde,
            'Õ' => Char::LatinCapitalLetterOWithTilde,
            'µ' => Char::MicroSign,
            'þ' => Char::LatinSmallLetterThorn,
            'Þ' => Char::LatinCapitalLetterThorn,
            'Ú' => Char::LatinCapitalLetterUWithAcute,
            'Û' => Char::LatinCapitalLetterUWithCircumflex,
            'Ù' => Char::LatinCapitalLetterUWithGrave,
            'ý' => Char::LatinSmallLetterYWithAcute,
            'Ý' => Char::LatinCapitalLetterYWithAcute,
            '¯' => Char::Macron,
            '´' => Char::AcuteAccent,
            '\u{00ad}' => Char::SoftHyphen,
            '±' => Char::PlusMinusSign,
            '‗' => Char::DoubleLowLine,
            '¾' => Char::VulgarFractionThreeQuarters,
            '¶' => Char::PilcrowSign,
            '§' => Char::SectionSign,
            '÷' => Char::DivisionSign,
            '¸' => Char::Cedilla,
            '°' => Char::DegreeSign,
            '¨' => Char::Diaeresis,
            '·' => Char::MiddleDot,
            '¹' => Char::SuperscriptOne,
            '³' => Char::SuperscriptThree,
            '²' => Char::SuperscriptTwo,
            '■' => Char::BlackSquare,
            '\u{00a0}' => Char::NoBreakSpace,
            '☺' => Char::SOH,
            '☻' => Char::STX,
            '♥' => Char::ETX,
            '♦' => Char::EOT,
            '♣' => Char::ENQ,
            '♠' => Char::ACK,
            '•' => Char::BEL,
            '◘' => Char::BS,
            '○' => Char::HT,
            '◙' => Char::LF,
            '♂' => Char::VT,
            '♀' => Char::FF,
            '♪' => Char::CR,
            '♫' => Char::SO,
            '☼' => Char::SI,
            '►' => Char::DLE,
            '◄' => Char::DC1,
            '↕' => Char::DC2,
            '‼' => Char::DC3,
            '▬' => Char::SYN,
            '↨' => Char::ETB,
            '↑' => Char::CAN,
            '↓' => Char::EM,
            '→' => Char::SUB,
            '←' => Char::Escape,
            '∟' => Char::FS,
            '↔' => Char::GS,
            '▲' => Char::RS,
            '▼' => Char::US,
            _ => Char::QuestionMark,
        }
    }

    /// Map a Unicode scalar value to the Code Page 850 character that
    /// displays it. Characters that Code Page 850 cannot show become `?`.
    pub fn map_char(ch: char) -> (r: Char)
        ensures
            r == Char::mapped(ch),
    {
        match ch {
            '\u{0000}' => Char::Null,
            '\u{0001}' => Char::SOH,
            '\u{0002}' => Char::STX,
            '\u{0003}' => Char::ETX,
            '\u{0004}' => Char::EOT,
            '\u{0005}' => Char::ENQ,
            '\u{0006}' => Char::ACK,
            '\u{0007}' => Char::BEL,
            '\u{0008}' => Char::BS,
            '\t' => Char::HT,
            '\n' => Char::LF,
            '\u{000b}' => Char::VT,
            '\u{000c}' => Char::FF,
            '\r' => Char::CR,
            '\u{000e}' => Char::SO,
            '\u{000f}' => Char::SI,
            '\u{0010}' => Char::DLE,
            '\u{0011}' => Char::DC1,
            '\u{0012}' => Char::DC2,
            '\u{0013}' => Char::DC3,
            '\u{0014}' => Char::DC4,
            '\u{0015}' => Char::NAK,
            '\u{0016}' => Char::SYN,
            '\u{0017}' => Char::ETB,
            '\u{0018}' => Char::CAN,
            '\u{0019}' => Char::EM,
            '\u{001a}' => Char::SUB,
            '\u{001b}' => Char::Escape,
            '\u{001c}' => Char::FS,
            '\u{001d}' => Char::GS,
            '\u{001e}' => Char::RS,
            '\u{001f}' => Char::US,
            ' ' => Char::Space,
            '!' => Char::ExclamationMark,
            '"' => Char::QuotationMark,
            '#' => Char::NumberSign,
            '$' => Char::DollarSign,
            '%' => Char::PercentSign,
            '&' => Char::Ampersand,
            '\'' => Char::Apostrophe,
            '(' => Char::LeftParenthesis,
            ')' => Char::RightParenthesis,
            '*' => Char::Asterisk,
            '+' => Char::PlusSign,
            ',' => Char::Comma,
            '-' => Char::HyphenMinus,
            '.' => Char::FullStop,
            '/' => Char::Solidus,
            '0' => Char::DigitZero,
            '1' => Char::DigitOne,
            '2' => Char::DigitTwo,
            '3' => Char::DigitThree,
            '4' => Char::DigitFour,
            '5' => Char::DigitFive,
            '6' => Char::DigitSix,
            '7' => Char::DigitSeven,
            '8' => Char::DigitEight,
            '9' => Char::DigitNine,
            ':' => Char::Colon,
            ';' => Char::Semicolon,
            '<' => Char::LessThanSign,
            '=' => Char::EqualsSign,
            '>' => Char::GreaterThanSign,
            '?' => Char::QuestionMark,
            '@' => Char::CommercialAt,
            'A' => Char::LatinCapitalLetterA,
            'B' => Char::LatinCapitalLetterB,
            'C' => Char::LatinCapitalLetterC,
            'D' => Char::LatinCapitalLetterD,
            'E' => Char::LatinCapitalLetterE,
            'F' => Char::LatinCapitalLetterF,
            'G' => Char::LatinCapitalLetterG,
            'H' => Char::LatinCapitalLetterH,
            'I' => Char::LatinCapitalLetterI,
            'J' => Char::LatinCapitalLetterJ,
            'K' => Char::LatinCapitalLetterK,
            'L' => Char::LatinCapitalLetterL,
            'M' => Char::LatinCapitalLetterM,
            'N' => Char::LatinCapitalLetterN,
            'O' => Char::LatinCapitalLetterO,
            'P' => Char::LatinCapitalLetterP,
            'Q' => Char::LatinCapitalLetterQ,
            'R' => Char::LatinCapitalLetterR,
            'S' => Char::LatinCapitalLetterS,
            'T' => Char::LatinCapitalLetterT,
            'U' => Char::LatinCapitalLetterU,
            'V' => Char::LatinCapitalLetterV,
            'W' => Char::LatinCapitalLetterW,
            'X' => Char::LatinCapitalLetterX,
            'Y' => Char::LatinCapitalLetterY,
            'Z' => Char::LatinCapitalLetterZ,
            '[' => Char::LeftSquareBracket,
            '\\' => Char::ReverseSolidus,
            ']' => Char::RightSquareBracket,
            '^' => Char::CircumflexAccent,
            '_' => Char::LowLine,
            '`' => Char::GraveAccent,
            'a' => Char::LatinSmallLetterA,
            'b' => Char::LatinSmallLetterB,
            'c' => Char::LatinSmallLetterC,
            'd' => Char::LatinSmallLetterD,
            'e' => Char::LatinSmallLetterE,
            'f' => Char::LatinSmallLetterF,
            'g' => Char::LatinSmallLetterG,
            'h' => Char::LatinSmallLetterH,
            'i' => Char::LatinSmallLetterI,
            'j' => Char::LatinSmallLetterJ,
            'k' => Char::LatinSmallLetterK,
            'l' => Char::LatinSmallLetterL,
            'm' => Char::LatinSmallLetterM,
            'n' => Char::LatinSmallLetterN,
            'o' => Char::LatinSmallLetterO,
            'p' => Char::LatinSmallLetterP,
            'q' => Char::LatinSmallLetterQ,
            'r' => Char::LatinSmallLetterR,
            's' => Char::LatinSmallLetterS,
            't' => Char::LatinSmallLetterT,
            'u' => Char::LatinSmallLetterU,
            'v' => Char::LatinSmallLetterV,
            'w' => Char::LatinSmallLetterW,
            'x' => Char::LatinSmallLetterX,
            'y' => Char::LatinSmallLetterY,
            'z' => Char::LatinSmallLetterZ,
            '{' => Char::LeftCurlyBracket,
            '|' => Char::VerticalLine,
            '}' => Char::RightCurlyBracket,
            '~' => Char::Tilde,
            '\u{007f}' => Char::Delete,
            'Ç' => Char::LatinCapitalLetterCWithCedilla,
            'ü' => Char::LatinSmallLetterUWithDiaeresis,
            'é' => Char::LatinSmallLetterEWithAcute,
            'â' => Char::LatinSmallLetterAWithCircumflex,
            'ä' => Char::LatinSmallLetterAWithDiaeresis,
            'à' => Char::LatinSmallLetterAWithGrave,
            'å' => Char::LatinSmallLetterAWithRingAbove,
            'ç' => Char::LatinSmallLetterCWithCedilla,
            'ê' => Char::LatinSmallLetterEWithCircumflex,
            'ë' => Char::LatinSmallLetterEWithDiaeresis,
            'è' => Char::LatinSmallLetterEWithGrave,
            'ï' => Char::LatinSmallLetterIWithDiaeresis,
            'î' => Char::LatinSmallLetterIWithCircumflex,
            'ì' => Char::LatinSmallLetterIWithGrave,
            'Ä' => Char::LatinCapitalLetterAWithDiaeresis,
            'Å' => Char::LatinCapitalLetterAWithRingAbove,
            'É' => Char::LatinCapitalLetterEWithAcute,
            'æ' => Char::LatinSmallLetterAe,
            'Æ' => Char::LatinCapitalLetterAe,
            'ô' => Char::LatinSmallLetterOWithCircumflex,
            'ö' => Char::LatinSmallLetterOWithDiaeresis,
            'ò' => Char::LatinSmallLetterOWithGrave,
            'û' => Char::LatinSmallLetterUWithCircumflex,
            'ù' => Char::LatinSmallLetterUWithGrave,
            'ÿ' => Char::LatinSmallLetterYWithDiaeresis,
            'Ö' => Char::LatinCapitalLetterOWithDiaeresis,
            'Ü' => Char::LatinCapitalLetterUWithDiaeresis,
            'ø' => Char::LatinSmallLetterOWithStroke,
            '£' => Char::PoundSign,
            'Ø' => Char::LatinCapitalLetterOWithStroke,
            '×' => Char::MultiplicationSign,
            'ƒ' => Char::LatinSmallLetterFWithHook,
            'á' => Char::LatinSmallLetterAWithAcute,
            'í' => Char::LatinSmallLetterIWithAcute,
            'ó' => Char::LatinSmallLetterOWithAcute,
            'ú' => Char::LatinSmallLetterUWithAcute,
            'ñ' => Char::LatinSmallLetterNWithTilde,
            'Ñ' => Char::LatinCapitalLetterNWithTilde,
            'ª' => Char::FeminineOrdinalIndicator,
            'º' => Char::MasculineOrdinalIndicator,
            '¿' => Char::InvertedQuestionMark,
            '®' => Char::RegisteredSign,
            '¬' => Char::NotSign,
            '½' => Char::VulgarFractionOneHalf,
            '¼' => Char::VulgarFractionOneQuarter,
            '¡' => Char::InvertedExclamationMark,
            '«' => Char::LeftPointingDoubleAngleQuotationMark,
            '»' => Char::RightPointingDoubleAngleQuotationMark,
            '░' => Char::LightShade,
            '▒' => Char::MediumShade,
            '▓' => Char::DarkShade,
            '│' => Char::BoxDrawingsLightVertical,
            '┤' => Char::BoxDrawingsLightVerticalAndLeft,
            'Á' => Char::LatinCapitalLetterAWithAcute,
            'Â' => Char::LatinCapitalLetterAWithCircumflex,
            'À' => Char::LatinCapitalLetterAWithGrave,
            '©' => Char::CopyrightSign,
            '╣' => Char::BoxDrawingsDoubleVerticalAndLeft,
            '║' => Char::BoxDrawingsDoubleVertical,
            '╗' => Char::BoxDrawingsDoubleDownAndLeft,
            '╝' => Char::BoxDrawingsDoubleUpAndLeft,
            '¢' => Char::CentSign,
            '¥' => Char::YenSign,
            '┐' => Char::BoxDrawingsLightDownAndLeft,
            '└' => Char::BoxDrawingsLightUpAndRight,
            '┴' => Char::BoxDrawingsLightUpAndHorizontal,
            '┬' => Char::BoxDrawingsLightDownAndHorizontal,
            '├' => Char::BoxDrawingsLightVerticalAndRight,
            '─' => Char::BoxDrawingsLightHorizontal,
            '┼' => Char::BoxDrawingsLightVerticalAndHorizontal,
            'ã' => Char::LatinSmallLetterAWithTilde,
            'Ã' => Char::LatinCapitalLetterAWithTilde,
            '╚' => Char::BoxDrawingsDoubleUpAndRight,
            '╔' => Char::BoxDrawingsDoubleDownAndRight,
            '╩' => Char::BoxDrawingsDoubleUpAndHorizontal,
            '╦' => Char::BoxDrawingsDoubleDownAndHorizontal,
            '╠' => Char::BoxDrawingsDoubleVerticalAndRight,
            '═' => Char::BoxDrawingsDoubleHorizontal,
            '╬' => Char::BoxDrawingsDoubleVerticalAndHorizontal,
            '¤' => Char::CurrencySign,
            'ð' => Char::LatinSmallLetterEth,
            'Ð' => Char::LatinCapitalLetterEth,
            'Ê' => Char::LatinCapitalLetterEWithCircumflex,
            'Ë' => Char::LatinCapitalLetterEWithDiaeresis,
            'È' => Char::LatinCapitalLetterEWithGrave,
            'ı' => Char::LatinSmallLetterDotlessI,
            'Í' => Char::LatinCapitalLetterIWithAcute,
            'Î' => Char::LatinCapitalLetterIWithCircumflex,
            'Ï' => Char::LatinCapitalLetterIWithDiaeresis,
            '┘' => Char::BoxDrawingsLightUpAndLeft,
            '┌' => Char::BoxDrawingsLightDownAndRight,
            '█' => Char::FullBlock,
            '▄' => Char::LowerHalfBlock,
            '¦' => Char::BrokenBar,
            'Ì' => Char::LatinCapitalLetterIWithGrave,
            '▀' => Char::UpperHalfBlock,
            'Ó' => Char::LatinCapitalLetterOWithAcute,
            'ß' => Char::LatinSmallLetterSharpS,
            'Ô' => Char::LatinCapitalLetterOWithCircumflex,
            'Ò' => Char::LatinCapitalLetterOWithGrave,
            'õ' => Char::LatinSmallLetterOWithTilde,
            'Õ' => Char::LatinCapitalLetterOWithTilde,
            'µ' => Char::MicroSign,
            'þ' => Char::LatinSmallLetterThorn,
            'Þ' => Char::LatinCapitalLetterThorn,
            'Ú' => Char::LatinCapitalLetterUWithAcute,
            'Û' => Char::LatinCapitalLetterUWithCircumflex,
            'Ù' => Char::LatinCapitalLetterUWithGrave,
            'ý' => Char::LatinSmallLetterYWithAcute,
            'Ý' => Char::LatinCapitalLetterYWithAcute,
            '¯' => Char::Macron,
            '´' => Char::AcuteAccent,
            '\u{00ad}' => Char::SoftHyphen,
            '±' => Char::PlusMinusSign,
            '‗' => Char::DoubleLowLine,
            '¾' => Char::VulgarFractionThreeQuarters,
            '¶' => Char::PilcrowSign,
            '§' => Char::SectionSign,
            '÷' => Char::DivisionSign,
            '¸' => Char::Cedilla,
            '°' => Char::DegreeSign,
            '¨' => Char::Diaeresis,
            '·' => Char::MiddleDot,
            '¹' => Char::SuperscriptOne,
            '³' => Char::SuperscriptThree,
            '²' => Char::SuperscriptTwo,
            '■' => Char::BlackSquare,
            '\u{00a0}' => Char::NoBreakSpace,
            '☺' => Char::SOH,
            '☻' => Char::STX,
            '♥' => Char::ETX,
            '♦' => Char::EOT,
            '♣' => Char::ENQ,
            '♠' => Char::ACK,
            '•' => Char::BEL,
            '◘' => Char::BS,
            '○' => Char::HT,
            '◙' => Char::LF,
            '♂' => Char::VT,
            '♀' => Char::FF,
            '♪' => Char::CR,
            '♫' => Char::SO,
            '☼' => Char::SI,
            '►' => Char::DLE,
            '◄' => Char::DC1,
            '↕' => Char::DC2,
            '‼' => Char::DC3,
            '▬' => Char::SYN,
            '↨' => Char::ETB,
            '↑' => Char::CAN,
            '↓' => Char::EM,
            '→' => Char::SUB,
            '←' => Char::Escape,
            '∟' => Char::FS,
            '↔' => Char::GS,
            '▲' => Char::RS,
            '▼' => Char::US,
            _ => Char::QuestionMark,
        }
    }

    /// The character whose byte value is `byte`.
    pub open spec fn from_code(byte: u8) -> Char {
        match byte {
            0 => Char::Null,
            1 => Char::SOH,
            2 => Char::STX,
            3 => Char::ETX,
            4 => Char::EOT,
            5 => Char::ENQ,
            6 => Char::ACK,
            7 => Char::BEL,
            8 => Char::BS,
            9 => Char::HT,
            10 => Char::LF,
            11 => Char::VT,
            12 => Char::FF,
            13 => Char::CR,
            14 => Char::SO,
            15 => Char::SI,
            16 => Char::DLE,
            17 => Char::DC1,
            18 => Char::DC2,
            19 => Char::DC3,
            20 => Char::DC4,
            21 => Char::NAK,
            22 => Char::SYN,
            23 => Char::ETB,
            24 => Char::CAN,
            25 => Char::EM,
            26 => Char::SUB,
            27 => Char::Escape,
            28 => Char::FS,
            29 => Char::GS,
            30 => Char::RS,
            31 => Char::US,
            32 => Char::Space,
            33 => Char::ExclamationMark,
            34 => Char::QuotationMark,
            35 => Char::NumberSign,
            36 => Char::DollarSign,
            37 => Char::PercentSign,
            38 => Char::Ampersand,
            39 => Char::Apostrophe,
            40 => Char::LeftParenthesis,
            41 => Char::RightParenthesis,
            42 => Char::Asterisk,
            43 => Char::PlusSign,
            44 => Char::Comma,
            45 => Char::HyphenMinus,
            46 => Char::FullStop,
            47 => Char::Solidus,
            48 => Char::DigitZero,
            49 => Char::DigitOne,
            50 => Char::DigitTwo,
            51 => Char::DigitThree,
            52 => Char::DigitFour,
            53 => Char::DigitFive,
            54 => Char::DigitSix,
            55 => Char::DigitSeven,
            56 => Char::DigitEight,
            57 => Char::DigitNine,
            58 => Char::Colon,
            59 => Char::Semicolon,
            60 => Char::LessThanSign,
            61 => Char::EqualsSign,
            62 => Char::GreaterThanSign,
            63 => Char::QuestionMark,
            64 => Char::CommercialAt,
            65 => Char::LatinCapitalLetterA,
            66 => Char::LatinCapitalLetterB,
            67 => Char::LatinCapitalLetterC,
            68 => Char::LatinCapitalLetterD,
            69 => Char::LatinCapitalLetterE,
            70 => Char::LatinCapitalLetterF,
            71 => Char::LatinCapitalLetterG,
            72 => Char::LatinCapitalLetterH,
            73 => Char::LatinCapitalLetterI,
            74 => Char::LatinCapitalLetterJ,
            75 => Char::LatinCapitalLetterK,
            76 => Char::LatinCapitalLetterL,
            77 => Char::LatinCapitalLetterM,
            78 => Char::LatinCapitalLetterN,
            79 => Char::LatinCapitalLetterO,
            80 => Char::LatinCapitalLetterP,
            81 => Char::LatinCapitalLetterQ,
            82 => Char::LatinCapitalLetterR,
            83 => Char::LatinCapitalLetterS,
            84 => Char::LatinCapitalLetterT,
            85 => Char::LatinCapitalLetterU,
            86 => Char::LatinCapitalLetterV,
            87 => Char::LatinCapitalLetterW,
            88 => Char::LatinCapitalLetterX,
            89 => Char::LatinCapitalLetterY,
            90 => Char::LatinCapitalLetterZ,
            91 => Char::LeftSquareBracket,
            92 => Char::ReverseSolidus,
            93 => Char::RightSquareBracket,
            94 => Char::CircumflexAccent,
            95 => Char::LowLine,
            96 => Char::GraveAccent,
            97 => Char::LatinSmallLetterA,
            98 => Char::LatinSmallLetterB,
            99 => Char::LatinSmallLetterC,
            100 => Char::LatinSmallLetterD,
            101 => Char::LatinSmallLetterE,
            102 => Char::LatinSmallLetterF,
            103 => Char::LatinSmallLetterG,
            104 => Char::LatinSmallLetterH,
            105 => Char::LatinSmallLetterI,
            106 => Char::LatinSmallLetterJ,
            107 => Char::LatinSmallLetterK,
            108 => Char::LatinSmallLetterL,
            109 => Char::LatinSmallLetterM,
            110 => Char::LatinSmallLetterN,
            111 => Char::LatinSmallLetterO,
            112 => Char::LatinSmallLetterP,
            113 => Char::LatinSmallLetterQ,
            114 => Char::LatinSmallLetterR,
            115 => Char::LatinSmallLetterS,
            116 => Char::LatinSmallLetterT,
            117 => Char::LatinSmallLetterU,
            118 => Char::LatinSmallLetterV,
            119 => Char::LatinSmallLetterW,
            120 => Char::LatinSmallLetterX,
            121 => Char::LatinSmallLetterY,
            122 => Char::LatinSmallLetterZ,
            123 => Char::LeftCurlyBracket,
            124 => Char::VerticalLine,
            125 => Char::RightCurlyBracket,
            126 => Char::Tilde,
            127 => Char::Delete,
            128 => Char::LatinCapitalLetterCWithCedilla,
            129 => Char::LatinSmallLetterUWithDiaeresis,
            130 => Char::LatinSmallLetterEWithAcute,
            131 => Char::LatinSmallLetterAWithCircumflex,
            132 => Char::LatinSmallLetterAWithDiaeresis,
            133 => Char::LatinSmallLetterAWithGrave,
            134 => Char::LatinSmallLetterAWithRingAbove,
            135 => Char::LatinSmallLetterCWithCedilla,
            136 => Char::LatinSmallLetterEWithCircumflex,
            137 => Char::LatinSmallLetterEWithDiaeresis,
            138 => Char::LatinSmallLetterEWithGrave,
            139 => Char::LatinSmallLetterIWithDiaeresis,
            140 => Char::LatinSmallLetterIWithCircumflex,
            141 => Char::LatinSmallLetterIWithGrave,
            142 => Char::LatinCapitalLetterAWithDiaeresis,
            143 => Char::LatinCapitalLetterAWithRingAbove,
            144 => Char::LatinCapitalLetterEWithAcute,
            145 => Char::LatinSmallLetterAe,
            146 => Char::LatinCapitalLetterAe,
            147 => Char::LatinSmallLetterOWithCircumflex,
            148 => Char::LatinSmallLetterOWithDiaeresis,
            149 => Char::LatinSmallLetterOWithGrave,
            150 => Char::LatinSmallLetterUWithCircumflex,
            151 => Char::LatinSmallLetterUWithGrave,
            152 => Char::LatinSmallLetterYWithDiaeresis,
            153 => Char::LatinCapitalLetterOWithDiaeresis,
            154 => Char::LatinCapitalLetterUWithDiaeresis,
            155 => Char::LatinSmallLetterOWithStroke,
            156 => Char::PoundSign,
            157 => Char::LatinCapitalLetterOWithStroke,
            158 => Char::MultiplicationSign,
            159 => Char::LatinSmallLetterFWithHook,
            160 => Char::LatinSmallLetterAWithAcute,
            161 => Char::LatinSmallLetterIWithAcute,
            162 => Char::LatinSmallLetterOWithAcute,
            163 => Char::LatinSmallLetterUWithAcute,
            164 => Char::LatinSmallLetterNWithTilde,
            165 => Char::LatinCapitalLetterNWithTilde,
            166 => Char::FeminineOrdinalIndicator,
            167 => Char::MasculineOrdinalIndicator,
            168 => Char::InvertedQuestionMark,
            169 => Char::RegisteredSign,
            170 => Char::NotSign,
            171 => Char::VulgarFractionOneHalf,
            172 => Char::VulgarFractionOneQuarter,
            173 => Char::InvertedExclamationMark,
            174 => Char::LeftPointingDoubleAngleQuotationMark,
            175 => Char::RightPointingDoubleAngleQuotationMark,
            176 => Char::LightShade,
            177 => Char::MediumShade,
            178 => Char::DarkShade,
            179 => Char::BoxDrawingsLightVertical,
            180 => Char::BoxDrawingsLightVerticalAndLeft,
            181 => Char::LatinCapitalLetterAWithAcute,
            182 => Char::LatinCapitalLetterAWithCircumflex,
            183 => Char::LatinCapitalLetterAWithGrave,
            184 => Char::CopyrightSign,
            185 => Char::BoxDrawingsDoubleVerticalAndLeft,
            186 => Char::BoxDrawingsDoubleVertical,
            187 => Char::BoxDrawingsDoubleDownAndLeft,
            188 => Char::BoxDrawingsDoubleUpAndLeft,
            189 => Char::CentSign,
            190 => Char::YenSign,
            191 => Char::BoxDrawingsLightDownAndLeft,
            192 => Char::BoxDrawingsLightUpAndRight,
            193 => Char::BoxDrawingsLightUpAndHorizontal,
            194 => Char::BoxDrawingsLightDownAndHorizontal,
            195 => Char::BoxDrawingsLightVerticalAndRight,
            196 => Char::BoxDrawingsLightHorizontal,
            197 => Char::BoxDrawingsLightVerticalAndHorizontal,
            198 => Char::LatinSmallLetterAWithTilde,
            199 => Char::LatinCapitalLetterAWithTilde,
            200 => Char::BoxDrawingsDoubleUpAndRight,
            201 => Char::BoxDrawingsDoubleDownAndRight,
            202 => Char::BoxDrawingsDoubleUpAndHorizontal,
            203 => Char::BoxDrawingsDoubleDownAndHorizontal,
            204 => Char::BoxDrawingsDoubleVerticalAndRight,
            205 => Char::BoxDrawingsDoubleHorizontal,
            206 => Char::BoxDrawingsDoubleVerticalAndHorizontal,
            207 => Char::CurrencySign,
            208 => Char::LatinSmallLetterEth,
            209 => Char::LatinCapitalLetterEth,
            210 => Char::LatinCapitalLetterEWithCircumflex,
            211 => Char::LatinCapitalLetterEWithDiaeresis,
            212 => Char::LatinCapitalLetterEWithGrave,
            213 => Char::LatinSmallLetterDotlessI,
            214 => Char::LatinCapitalLetterIWithAcute,
            215 => Char::LatinCapitalLetterIWithCircumflex,
            216 => Char::LatinCapitalLetterIWithDiaeresis,
            217 => Char::BoxDrawingsLightUpAndLeft,
            218 => Char::BoxDrawingsLightDownAndRight,
            219 => Char::FullBlock,
            220 => Char::LowerHalfBlock,
            221 => Char::BrokenBar,
            222 => Char::LatinCapitalLetterIWithGrave,
            223 => Char::UpperHalfBlock,
            224 => Char::LatinCapitalLetterOWithAcute,
            225 => Char::LatinSmallLetterSharpS,
            226 => Char::LatinCapitalLetterOWithCircumflex,
            227 => Char::LatinCapitalLetterOWithGrave,
            228 => Char::LatinSmallLetterOWithTilde,
            229 => Char::LatinCapitalLetterOWithTilde,
            230 => Char::MicroSign,
            231 => Char::LatinSmallLetterThorn,
            232 => Char::LatinCapitalLetterThorn,
            233 => Char::LatinCapitalLetterUWithAcute,
            234 => Char::LatinCapitalLetterUWithCircumflex,
            235 => Char::LatinCapitalLetterUWithGrave,
            236 => Char::LatinSmallLetterYWithAcute,
            237 => Char::LatinCapitalLetterYWithAcute,
            238 => Char::Macron,
            239 => Char::AcuteAccent,
            240 => Char::SoftHyphen,
            241 => Char::PlusMinusSign,
            242 => Char::DoubleLowLine,
            243 => Char::VulgarFractionThreeQuarters,
            244 => Char::PilcrowSign,
            245 => Char::SectionSign,
            246 => Char::DivisionSign,
            247 => Char::Cedilla,
            248 => Char::DegreeSign,
            249 => Char::Diaeresis,
            250 => Char::MiddleDot,
            251 => Char::SuperscriptOne,
            252 => Char::SuperscriptThree,
            253 => Char::SuperscriptTwo,
            254 => Char::BlackSquare,
            255 => Char::NoBreakSpace,
        }
    }

    /// Take a Code Page 850 byte.
    #[verifier::spinoff_prover]
    #[verifier::rlimit(100)]
    pub fn from_byte(byte: u8) -> (r: Char)
        ensures
            r == Char::from_code(byte),
            r.code() == byte,
    {
        match byte {
            0 => Char::Null,
            1 => Char::SOH,
            2 => Char::STX,
            3 => Char::ETX,
            4 => Char::EOT,
            5 => Char::ENQ,
            6 => Char::ACK,
            7 => Char::BEL,
            8 => Char::BS,
            9 => Char::HT,
            10 => Char::LF,
            11 => Char::VT,
            12 => Char::FF,
            13 => Char::CR,
            14 => Char::SO,
            15 => Char::SI,
            16 => Char::DLE,
            17 => Char::DC1,
            18 => Char::DC2,
            19 => Char::DC3,
            20 => Char::DC4,
            21 => Char::NAK,
            22 => Char::SYN,
            23 => Char::ETB,
            24 => Char::CAN,
            25 => Char::EM,
            26 => Char::SUB,
            27 => Char::Escape,
            28 => Char::FS,
            29 => Char::GS,
            30 => Char::RS,
            31 => Char::US,
            32 => Char::Space,
            33 => Char::ExclamationMark,
            34 => Char::QuotationMark,
            35 => Char::NumberSign,
            36 => Char::DollarSign,
            37 => Char::PercentSign,
            38 => Char::Ampersand,
            39 => Char::Apostrophe,
            40 => Char::LeftParenthesis,
            41 => Char::RightParenthesis,
            42 => Char::Asterisk,
            43 => Char::PlusSign,
            44 => Char::Comma,
            45 => Char::HyphenMinus,
            46 => Char::FullStop,
            47 => Char::Solidus,
            48 => Char::DigitZero,
            49 => Char::DigitOne,
            50 => Char::DigitTwo,
            51 => Char::DigitThree,
            52 => Char::DigitFour,
            53 => Char::DigitFive,
            54 => Char::DigitSix,
            55 => Char::DigitSeven,
            56 => Char::DigitEight,
            57 => Char::DigitNine,
            58 => Char::Colon,
            59 => Char::Semicolon,
            60 => Char::LessThanSign,
            61 => Char::EqualsSign,
            62 => Char::GreaterThanSign,
            63 => Char::QuestionMark,
            64 => Char::CommercialAt,
            65 => Char::LatinCapitalLetterA,
            66 => Char::LatinCapitalLetterB,
            67 => Char::LatinCapitalLetterC,
            68 => Char::LatinCapitalLetterD,
            69 => Char::LatinCapitalLetterE,
            70 => Char::LatinCapitalLetterF,
            71 => Char::LatinCapitalLetterG,
            72 => Char::LatinCapitalLetterH,
            73 => Char::LatinCapitalLetterI,
            74 => Char::LatinCapitalLetterJ,
            75 => Char::LatinCapitalLetterK,
            76 => Char::LatinCapitalLetterL,
            77 => Char::LatinCapitalLetterM,
            78 => Char::LatinCapitalLetterN,
            79 => Char::LatinCapitalLetterO,
            80 => Char::LatinCapitalLetterP,
            81 => Char::LatinCapitalLetterQ,
            82 => Char::LatinCapitalLetterR,
            83 => Char::LatinCapitalLetterS,
            84 => Char::LatinCapitalLetterT,
            85 => Char::LatinCapitalLetterU,
            86 => Char::LatinCapitalLetterV,
            87 => Char::LatinCapitalLetterW,
            88 => Char::LatinCapitalLetterX,
            89 => Char::LatinCapitalLetterY,
            90 => Char::LatinCapitalLetterZ,
            91 => Char::LeftSquareBracket,
            92 => Char::ReverseSolidus,
            93 => Char::RightSquareBracket,
            94 => Char::CircumflexAccent,
            95 => Char::LowLine,
            96 => Char::GraveAccent,
            97 => Char::LatinSmallLetterA,
            98 => Char::LatinSmallLetterB,
            99 => Char::LatinSmallLetterC,
            100 => Char::LatinSmallLetterD,
            101 => Char::LatinSmallLetterE,
            102 => Char::LatinSmallLetterF,
            103 => Char::LatinSmallLetterG,
            104 => Char::LatinSmallLetterH,
            105 => Char::LatinSmallLetterI,
            106 => Char::LatinSmallLetterJ,
            107 => Char::LatinSmallLetterK,
            108 => Char::LatinSmallLetterL,
            109 => Char::LatinSmallLetterM,
            110 => Char::LatinSmallLetterN,
            111 => Char::LatinSmallLetterO,
            112 => Char::LatinSmallLetterP,
            113 => Char::LatinSmallLetterQ,
            114 => Char::LatinSmallLetterR,
            115 => Char::LatinSmallLetterS,
            116 => Char::LatinSmallLetterT,
            117 => Char::LatinSmallLetterU,
            118 => Char::LatinSmallLetterV,
            119 => Char::LatinSmallLetterW,
            120 => Char::LatinSmallLetterX,
            121 => Char::LatinSmallLetterY,
            122 => Char::LatinSmallLetterZ,
            123 => Char::LeftCurlyBracket,
            124 => Char::VerticalLine,
            125 => Char::RightCurlyBracket,
            126 => Char::Tilde,
            127 => Char::Delete,
            128 => Char::LatinCapitalLetterCWithCedilla,
            129 => Char::LatinSmallLetterUWithDiaeresis,
            130 => Char::LatinSmallLetterEWithAcute,
            131 => Char::LatinSmallLetterAWithCircumflex,
            132 => Char::LatinSmallLetterAWithDiaeresis,
            133 => Char::LatinSmallLetterAWithGrave,
            134 => Char::LatinSmallLetterAWithRingAbove,
            135 => Char::LatinSmallLetterCWithCedilla,
            136 => Char::LatinSmallLetterEWithCircumflex,
            137 => Char::LatinSmallLetterEWithDiaeresis,
            138 => Char::LatinSmallLetterEWithGrave,
            139 => Char::LatinSmallLetterIWithDiaeresis,
            140 => Char::LatinSmallLetterIWithCircumflex,
            141 => Char::LatinSmallLetterIWithGrave,
            142 => Char::LatinCapitalLetterAWithDiaeresis,
            143 => Char::LatinCapitalLetterAWithRingAbove,
            144 => Char::LatinCapitalLetterEWithAcute,
            145 => Char::LatinSmallLetterAe,
            146 => Char::LatinCapitalLetterAe,
            147 => Char::LatinSmallLetterOWithCircumflex,
            148 => Char::LatinSmallLetterOWithDiaeresis,
            149 => Char::LatinSmallLetterOWithGrave,
            150 => Char::LatinSmallLetterUWithCircumflex,
            151 => Char::LatinSmallLetterUWithGrave,
            152 => Char::LatinSmallLetterYWithDiaeresis,
            153 => Char::LatinCapitalLetterOWithDiaeresis,
            154 => Char::LatinCapitalLetterUWithDiaeresis,
            155 => Char::LatinSmallLetterOWithStroke,
            156 => Char::PoundSign,
            157 => Char::LatinCapitalLetterOWithStroke,
            158 => Char::MultiplicationSign,
            159 => Char::LatinSmallLetterFWithHook,
            160 => Char::LatinSmallLetterAWithAcute,
            161 => Char::LatinSmallLetterIWithAcute,
            162 => Char::LatinSmallLetterOWithAcute,
            163 => Char::LatinSmallLetterUWithAcute,
            164 => Char::LatinSmallLetterNWithTilde,
            165 => Char::LatinCapitalLetterNWithTilde,
            166 => Char::FeminineOrdinalIndicator,
            167 => Char::MasculineOrdinalIndicator,
            168 => Char::InvertedQuestionMark,
            169 => Char::RegisteredSign,
            170 => Char::NotSign,
            171 => Char::VulgarFractionOneHalf,
            172 => Char::VulgarFractionOneQuarter,
            173 => Char::InvertedExclamationMark,
            174 => Char::LeftPointingDoubleAngleQuotationMark,
            175 => Char::RightPointingDoubleAngleQuotationMark,
            176 => Char::LightShade,
            177 => Char::MediumShade,
            178 => Char::DarkShade,
            179 => Char::BoxDrawingsLightVertical,
            180 => Char::BoxDrawingsLightVerticalAndLeft,
            181 => Char::LatinCapitalLetterAWithAcute,
            182 => Char::LatinCapitalLetterAWithCircumflex,
            183 => Char::LatinCapitalLetterAWithGrave,
            184 => Char::CopyrightSign,
            185 => Char::BoxDrawingsDoubleVerticalAndLeft,
            186 => Char::BoxDrawingsDoubleVertical,
            187 => Char::BoxDrawingsDoubleDownAndLeft,
            188 => Char::BoxDrawingsDoubleUpAndLeft,
            189 => Char::CentSign,
            190 => Char::YenSign,
            191 => Char::BoxDrawingsLightDownAndLeft,
            192 => Char::BoxDrawingsLightUpAndRight,
            193 => Char::BoxDrawingsLightUpAndHorizontal,
            194 => Char::BoxDrawingsLightDownAndHorizontal,
            195 => Char::BoxDrawingsLightVerticalAndRight,
            196 => Char::BoxDrawingsLightHorizontal,
            197 => Char::BoxDrawingsLightVerticalAndHorizontal,
            198 => Char::LatinSmallLetterAWithTilde,
            199 => Char::LatinCapitalLetterAWithTilde,
            200 => Char::BoxDrawingsDoubleUpAndRight,
            201 => Char::BoxDrawingsDoubleDownAndRight,
            202 => Char::BoxDrawingsDoubleUpAndHorizontal,
            203 => Char::BoxDrawingsDoubleDownAndHorizontal,
            204 => Char::BoxDrawingsDoubleVerticalAndRight,
            205 => Char::BoxDrawingsDoubleHorizontal,
            206 => Char::BoxDrawingsDoubleVerticalAndHorizontal,
            207 => Char::CurrencySign,
            208 => Char::LatinSmallLetterEth,
            209 => Char::LatinCapitalLetterEth,
            210 => Char::LatinCapitalLetterEWithCircumflex,
            211 => Char::LatinCapitalLetterEWithDiaeresis,
            212 => Char::LatinCapitalLetterEWithGrave,
            213 => Char::LatinSmallLetterDotlessI,
            214 => Char::LatinCapitalLetterIWithAcute,
            215 => Char::LatinCapitalLetterIWithCircumflex,
            216 => Char::LatinCapitalLetterIWithDiaeresis,
            217 => Char::BoxDrawingsLightUpAndLeft,
            218 => Char::BoxDrawingsLightDownAndRight,
            219 => Char::FullBlock,
            220 => Char::LowerHalfBlock,
            221 => Char::BrokenBar,
            222 => Char::LatinCapitalLetterIWithGrave,
            223 => Char::UpperHalfBlock,
            224 => Char::LatinCapitalLetterOWithAcute,
            225 => Char::LatinSmallLetterSharpS,
            226 => Char::LatinCapitalLetterOWithCircumflex,
            227 => Char::LatinCapitalLetterOWithGrave,
            228 => Char::LatinSmallLetterOWithTilde,
            229 => Char::LatinCapitalLetterOWithTilde,
            230 => Char::MicroSign,
            231 => Char::LatinSmallLetterThorn,
            232 => Char::LatinCapitalLetterThorn,
            233 => Char::LatinCapitalLetterUWithAcute,
            234 => Char::LatinCapitalLetterUWithCircumflex,
            235 => Char::LatinCapitalLetterUWithGrave,
            236 => Char::LatinSmallLetterYWithAcute,
            237 => Char::LatinCapitalLetterYWithAcute,
            238 => Char::Macron,
            239 => Char::AcuteAccent,
            240 => Char::SoftHyphen,
            241 => Char::PlusMinusSign,
            242 => Char::DoubleLowLine,
            243 => Char::VulgarFractionThreeQuarters,
            244 => Char::PilcrowSign,
            245 => Char::SectionSign,
            246 => Char::DivisionSign,
            247 => Char::Cedilla,
            248 => Char::DegreeSign,
            249 => Char::Diaeresis,
            250 => Char::MiddleDot,
            251 => Char::SuperscriptOne,
            252 => Char::SuperscriptThree,
            253 => Char::SuperscriptTwo,
            254 => Char::BlackSquare,
            255 => Char::NoBreakSpace,
        }
    }

    /// The byte value of this character in Code Page 850.
    pub fn as_u8(self) -> (r: u8)
        ensures
            r == self.code(),
    {
        match self {
            Char::Null => 0,
            Char::SOH => 1,
            Char::STX => 2,
            Char::ETX => 3,
            Char::EOT => 4,
            Char::ENQ => 5,
            Char::ACK => 6,
            Char::BEL => 7,
            Char::BS => 8,
            Char::HT => 9,
            Char::LF => 10,
            Char::VT => 11,
            Char::FF => 12,
            Char::CR => 13,
            Char::SO => 14,
            Char::SI => 15,
            Char::DLE => 16,
            Char::DC1 => 17,
            Char::DC2 => 18,
            Char::DC3 => 19,
            Char::DC4 => 20,
            Char::NAK => 21,
            Char::SYN => 22,
            Char::ETB => 23,
            Char::CAN => 24,
            Char::EM => 25,
            Char::SUB => 26,
            Char::Escape => 27,
            Char::FS => 28,
            Char::GS => 29,
            Char::RS => 30,
            Char::US => 31,
            Char::Space => 32,
            Char::ExclamationMark => 33,
            Char::QuotationMark => 34,
            Char::NumberSign => 35,
            Char::DollarSign => 36,
            Char::PercentSign => 37,
            Char::Ampersand => 38,
            Char::Apostrophe => 39,
            Char::LeftParenthesis => 40,
            Char::RightParenthesis => 41,
            Char::Asterisk => 42,
            Char::PlusSign => 43,
            Char::Comma => 44,
            Char::HyphenMinus => 45,
            Char::FullStop => 46,
            Char::Solidus => 47,
            Char::DigitZero => 48,
            Char::DigitOne => 49,
            Char::DigitTwo => 50,
            Char::DigitThree => 51,
            Char::DigitFour => 52,
            Char::DigitFive => 53,
            Char::DigitSix => 54,
            Char::DigitSeven => 55,
            Char::DigitEight => 56,
            Char::DigitNine => 57,
            Char::Colon => 58,
            Char::Semicolon => 59,
            Char::LessThanSign => 60,
            Char::EqualsSign => 61,
            Char::GreaterThanSign => 62,
            Char::QuestionMark => 63,
            Char::CommercialAt => 64,
            Char::LatinCapitalLetterA => 65,
            Char::LatinCapitalLetterB => 66,
            Char::LatinCapitalLetterC => 67,
            Char::LatinCapitalLetterD => 68,
            Char::LatinCapitalLetterE => 69,
            Char::LatinCapitalLetterF => 70,
            Char::LatinCapitalLetterG => 71,
            Char::LatinCapitalLetterH => 72,
            Char::LatinCapitalLetterI => 73,
            Char::LatinCapitalLetterJ => 74,
            Char::LatinCapitalLetterK => 75,
            Char::LatinCapitalLetterL => 76,
            Char::LatinCapitalLetterM => 77,
            Char::LatinCapitalLetterN => 78,
            Char::LatinCapitalLetterO => 79,
            Char::LatinCapitalLetterP => 80,
            Char::LatinCapitalLetterQ => 81,
            Char::LatinCapitalLetterR => 82,
            Char::LatinCapitalLetterS => 83,
            Char::LatinCapitalLetterT => 84,
            Char::LatinCapitalLetterU => 85,
            Char::LatinCapitalLetterV => 86,
            Char::LatinCapitalLetterW => 87,
            Char::LatinCapitalLetterX => 88,
            Char::LatinCapitalLetterY => 89,
            Char::LatinCapitalLetterZ => 90,
            Char::LeftSquareBracket => 91,
            Char::ReverseSolidus => 92,
            Char::RightSquareBracket => 93,
            Char::CircumflexAccent => 94,
            Char::LowLine => 95,
            Char::GraveAccent => 96,
            Char::LatinSmallLetterA => 97,
            Char::LatinSmallLetterB => 98,
            Char::LatinSmallLetterC => 99,
            Char::LatinSmallLetterD => 100,
            Char::LatinSmallLetterE => 101,
            Char::LatinSmallLetterF => 102,
            Char::LatinSmallLetterG => 103,
            Char::LatinSmallLetterH => 104,
            Char::LatinSmallLetterI => 105,
            Char::LatinSmallLetterJ => 106,
            Char::LatinSmallLetterK => 107,
            Char::LatinSmallLetterL => 108,
            Char::LatinSmallLetterM => 109,
            Char::LatinSmallLetterN => 110,
            Char::LatinSmallLetterO => 111,
            Char::LatinSmallLetterP => 112,
            Char::LatinSmallLetterQ => 113,
            Char::LatinSmallLetterR => 114,
            Char::LatinSmallLetterS => 115,
            Char::LatinSmallLetterT => 116,
            Char::LatinSmallLetterU => 117,
            Char::LatinSmallLetterV => 118,
            Char::LatinSmallLetterW => 119,
            Char::LatinSmallLetterX => 120,
            Char::LatinSmallLetterY => 121,
            Char::LatinSmallLetterZ => 122,
            Char::LeftCurlyBracket => 123,
            Char::VerticalLine => 124,
            Char::RightCurlyBracket => 125,
            Char::Tilde => 126,
            Char::Delete => 127,
            Char::LatinCapitalLetterCWithCedilla => 128,
            Char::LatinSmallLetterUWithDiaeresis => 129,
            Char::LatinSmallLetterEWithAcute => 130,
            Char::LatinSmallLetterAWithCircumflex => 131,
            Char::LatinSmallLetterAWithDiaeresis => 132,
            Char::LatinSmallLetterAWithGrave => 133,
            Char::LatinSmallLetterAWithRingAbove => 134,
            Char::LatinSmallLetterCWithCedilla => 135,
            Char::LatinSmallLetterEWithCircumflex => 136,
            Char::LatinSmallLetterEWithDiaeresis => 137,
            Char::LatinSmallLetterEWithGrave => 138,
            Char::LatinSmallLetterIWithDiaeresis => 139,
            Char::LatinSmallLetterIWithCircumflex => 140,
            Char::LatinSmallLetterIWithGrave => 141,
            Char::LatinCapitalLetterAWithDiaeresis => 142,
            Char::LatinCapitalLetterAWithRingAbove => 143,
            Char::LatinCapitalLetterEWithAcute => 144,
            Char::LatinSmallLetterAe => 145,
            Char::LatinCapitalLetterAe => 146,
            Char::LatinSmallLetterOWithCircumflex => 147,
            Char::LatinSmallLetterOWithDiaeresis => 148,
            Char::LatinSmallLetterOWithGrave => 149,
            Char::LatinSmallLetterUWithCircumflex => 150,
            Char::LatinSmallLetterUWithGrave => 151,
            Char::LatinSmallLetterYWithDiaeresis => 152,
            Char::LatinCapitalLetterOWithDiaeresis => 153,
            Char::LatinCapitalLetterUWithDiaeresis => 154,
            Char::LatinSmallLetterOWithStroke => 155,
            Char::PoundSign => 156,
            Char::LatinCapitalLetterOWithStroke => 157,
            Char::MultiplicationSign => 158,
            Char::LatinSmallLetterFWithHook => 159,
            Char::LatinSmallLetterAWithAcute => 160,
            Char::LatinSmallLetterIWithAcute => 161,
            Char::LatinSmallLetterOWithAcute => 162,
            Char::LatinSmallLetterUWithAcute => 163,
            Char::LatinSmallLetterNWithTilde => 164,
            Char::LatinCapitalLetterNWithTilde => 165,
            Char::FeminineOrdinalIndicator => 166,
            Char::MasculineOrdinalIndicator => 167,
            Char::InvertedQuestionMark => 168,
            Char::RegisteredSign => 169,
            Char::NotSign => 170,
            Char::VulgarFractionOneHalf => 171,
            Char::VulgarFractionOneQuarter => 172,
            Char::InvertedExclamationMark => 173,
            Char::LeftPointingDoubleAngleQuotationMark => 174,
            Char::RightPointingDoubleAngleQuotationMark => 175,
            Char::LightShade => 176,
            Char::MediumShade => 177,
            Char::DarkShade => 178,
            Char::BoxDrawingsLightVertical => 179,
            Char::BoxDrawingsLightVerticalAndLeft => 180,
            Char::LatinCapitalLetterAWithAcute => 181,
            Char::LatinCapitalLetterAWithCircumflex => 182,
            Char::LatinCapitalLetterAWithGrave => 183,
            Char::CopyrightSign => 184,
            Char::BoxDrawingsDoubleVerticalAndLeft => 185,
            Char::BoxDrawingsDoubleVertical => 186,
            Char::BoxDrawingsDoubleDownAndLeft => 187,
            Char::BoxDrawingsDoubleUpAndLeft => 188,
            Char::CentSign => 189,
            Char::YenSign => 190,
            Char::BoxDrawingsLightDownAndLeft => 191,
            Char::BoxDrawingsLightUpAndRight => 192,
            Char::BoxDrawingsLightUpAndHorizontal => 193,
            Char::BoxDrawingsLightDownAndHorizontal => 194,
            Char::BoxDrawingsLightVerticalAndRight => 195,
            Char::BoxDrawingsLightHorizontal => 196,
            Char::BoxDrawingsLightVerticalAndHorizontal => 197,
            Char::LatinSmallLetterAWithTilde => 198,
            Char::LatinCapitalLetterAWithTilde => 199,
            Char::BoxDrawingsDoubleUpAndRight => 200,
            Char::BoxDrawingsDoubleDownAndRight => 201,
            Char::BoxDrawingsDoubleUpAndHorizontal => 202,
            Char::BoxDrawingsDoubleDownAndHorizontal => 203,
            Char::BoxDrawingsDoubleVerticalAndRight => 204,
            Char::BoxDrawingsDoubleHorizontal => 205,
            Char::BoxDrawingsDoubleVerticalAndHorizontal => 206,
            Char::CurrencySign => 207,
            Char::LatinSmallLetterEth => 208,
            Char::LatinCapitalLetterEth => 209,
            Char::LatinCapitalLetterEWithCircumflex => 210,
            Char::LatinCapitalLetterEWithDiaeresis => 211,
            Char::LatinCapitalLetterEWithGrave => 212,
            Char::LatinSmallLetterDotlessI => 213,
            Char::LatinCapitalLetterIWithAcute => 214,
            Char::LatinCapitalLetterIWithCircumflex => 215,
            Char::LatinCapitalLetterIWithDiaeresis => 216,
            Char::BoxDrawingsLightUpAndLeft => 217,
            Char::BoxDrawingsLightDownAndRight => 218,
            Char::FullBlock => 219,
            Char::LowerHalfBlock => 220,
            Char::BrokenBar => 221,
            Char::LatinCapitalLetterIWithGrave => 222,
            Char::UpperHalfBlock => 223,
            Char::LatinCapitalLetterOWithAcute => 224,
            Char::LatinSmallLetterSharpS => 225,
            Char::LatinCapitalLetterOWithCircumflex => 226,
            Char::LatinCapitalLetterOWithGrave => 227,
            Char::LatinSmallLetterOWithTilde => 228,
            Char::LatinCapitalLetterOWithTilde => 229,
            Char::MicroSign => 230,
            Char::LatinSmallLetterThorn => 231,
            Char::LatinCapitalLetterThorn => 232,
            Char::LatinCapitalLetterUWithAcute => 233,
            Char::LatinCapitalLetterUWithCircumflex => 234,
            Char::LatinCapitalLetterUWithGrave => 235,
            Char::LatinSmallLetterYWithAcute => 236,
            Char::LatinCapitalLetterYWithAcute => 237,
            Char::Macron => 238,
            Char::AcuteAccent => 239,
            Char::SoftHyphen => 240,
            Char::PlusMinusSign => 241,
            Char::DoubleLowLine => 242,
            Char::VulgarFractionThreeQuarters => 243,
            Char::PilcrowSign => 244,
            Char::SectionSign => 245,
            Char::DivisionSign => 246,
            Char::Cedilla => 247,
            Char::DegreeSign => 248,
            Char::Diaeresis => 249,
            Char::MiddleDot => 250,
            Char::SuperscriptOne => 251,
            Char::SuperscriptThree => 252,
            Char::SuperscriptTwo => 253,
            Char::BlackSquare => 254,
            Char::NoBreakSpace => 255,
        }
    }
}

} // verus!
