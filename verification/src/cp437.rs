//! Code-page-aware text handling.
//!
//! The machine's console speaks a single-byte code page.  [`CP437Char`]
//! is one byte of it, validated on construction by a bounds-checked
//! reverse lookup of the glyph table rather than a blind
//! reinterpretation.  [`CP437Str`] is an owned run of such bytes built
//! from ordinary text, substituting `'?'` for anything the code page
//! cannot show.

use vstd::prelude::*;

verus! {


/// The glyph the code page assigns to each byte.
pub open spec fn glyph(b: u8) -> char {
    match b {
            0u8 => '\0',
            1u8 => '☺',
            2u8 => '☻',
            3u8 => '♥',
            4u8 => '♦',
            5u8 => '♣',
            6u8 => '♠',
            7u8 => '•',
            8u8 => '◘',
            9u8 => '○',
            10u8 => '◙',
            11u8 => '♂',
            12u8 => '♀',
            13u8 => '♪',
            14u8 => '♫',
            15u8 => '☼',
            16u8 => '►',
            17u8 => '◄',
            18u8 => '↕',
            19u8 => '‼',
            20u8 => '¶',
            21u8 => '§',
            22u8 => '▬',
            23u8 => '↨',
            24u8 => '↑',
            25u8 => '↓',
            26u8 => '→',
            27u8 => '←',
            28u8 => '∟',
            29u8 => '↔',
            30u8 => '▲',
            31u8 => '▼',
            32u8 => ' ',
            33u8 => '!',
            34u8 => '"',
            35u8 => '#',
            36u8 => '$',
            37u8 => '%',
            38u8 => '&',
            39u8 => '\'',
            40u8 => '(',
            41u8 => ')',
            42u8 => '*',
            43u8 => '+',
            44u8 => ',',
            45u8 => '-',
            46u8 => '.',
            47u8 => '/',
            48u8 => '0',
            49u8 => '1',
            50u8 => '2',
            51u8 => '3',
            52u8 => '4',
            53u8 => '5',
            54u8 => '6',
            55u8 => '7',
            56u8 => '8',
            57u8 => '9',
            58u8 => ':',
            59u8 => ';',
            60u8 => '<',
            61u8 => '=',
            62u8 => '>',
            63u8 => '?',
            64u8 => '@',
            65u8 => 'A',
            66u8 => 'B',
            67u8 => 'C',
            68u8 => 'D',
            69u8 => 'E',
            70u8 => 'F',
            71u8 => 'G',
            72u8 => 'H',
            73u8 => 'I',
            74u8 => 'J',
            75u8 => 'K',
            76u8 => 'L',
            77u8 => 'M',
            78u8 => 'N',
            79u8 => 'O',
            80u8 => 'P',
            81u8 => 'Q',
            82u8 => 'R',
            83u8 => 'S',
            84u8 => 'T',
            85u8 => 'U',
            86u8 => 'V',
            87u8 => 'W',
            88u8 => 'X',
            89u8 => 'Y',
            90u8 => 'Z',
            91u8 => '[',
            92u8 => '\\',
            93u8 => ']',
            94u8 => '^',
            95u8 => '_',
            96u8 => '`',
            97u8 => 'a',
            98u8 => 'b',
            99u8 => 'c',
            100u8 => 'd',
            101u8 => 'e',
            102u8 => 'f',
            103u8 => 'g',
            104u8 => 'h',
            105u8 => 'i',
            106u8 => 'j',
            107u8 => 'k',
            108u8 => 'l',
            109u8 => 'm',
            110u8 => 'n',
            111u8 => 'o',
            112u8 => 'p',
            113u8 => 'q',
            114u8 => 'r',
            115u8 => 's',
            116u8 => 't',
            117u8 => 'u',
            118u8 => 'v',
            119u8 => 'w',
            120u8 => 'x',
            121u8 => 'y',
            122u8 => 'z',
            123u8 => '{',
            124u8 => '|',
            125u8 => '}',
            126u8 => '~',
            127u8 => '⌂',
            128u8 => 'Ç',
            129u8 => 'ü',
            130u8 => 'é',
            131u8 => 'â',
            132u8 => 'ä',
            133u8 => 'à',
            134u8 => 'å',
            135u8 => 'ç',
            136u8 => 'ê',
            137u8 => 'ë',
            138u8 => 'è',
            139u8 => 'ï',
            140u8 => 'î',
            141u8 => 'ì',
            142u8 => 'Ä',
            143u8 => 'Å',
            144u8 => 'É',
            145u8 => 'æ',
            146u8 => 'Æ',
            147u8 => 'ô',
            148u8 => 'ö',
            149u8 => 'ò',
            150u8 => 'û',
            151u8 => 'ù',
            152u8 => 'ÿ',
            153u8 => 'Ö',
            154u8 => 'Ü',
            155u8 => '¢',
            156u8 => '£',
            157u8 => '¥',
            158u8 => '₧',
            159u8 => 'ƒ',
            160u8 => 'á',
            161u8 => 'í',
            162u8 => 'ó',
            163u8 => 'ú',
            164u8 => 'ñ',
            165u8 => 'Ñ',
            166u8 => 'ª',
            167u8 => 'º',
            168u8 => '¿',
            169u8 => '⌐',
            170u8 => '¬',
            171u8 => '½',
            172u8 => '¼',
            173u8 => '¡',
            174u8 => '«',
            175u8 => '»',
            176u8 => '░',
            177u8 => '▒',
            178u8 => '▓',
            179u8 => '│',
            180u8 => '┤',
            181u8 => '╡',
            182u8 => '╢',
            183u8 => '╖',
            184u8 => '╕',
            185u8 => '╣',
            186u8 => '║',
            187u8 => '╗',
            188u8 => '╝',
            189u8 => '╜',
            190u8 => '╛',
            191u8 => '┐',
            192u8 => '└',
            193u8 => '┴',
            194u8 => '┬',
            195u8 => '├',
            196u8 => '─',
            197u8 => '┼',
            198u8 => '╞',
            199u8 => '╟',
            200u8 => '╚',
            201u8 => '╔',
            202u8 => '╩',
            203u8 => '╦',
            204u8 => '╠',
            205u8 => '═',
            206u8 => '╬',
            207u8 => '╧',
            208u8 => '╨',
            209u8 => '╤',
            210u8 => '╥',
            211u8 => '╙',
            212u8 => '╘',
            213u8 => '╒',
            214u8 => '╓',
            215u8 => '╫',
            216u8 => '╪',
            217u8 => '┘',
            218u8 => '┌',
            219u8 => '█',
            220u8 => '▄',
            221u8 => '▌',
            222u8 => '▐',
            223u8 => '▀',
            224u8 => 'α',
            225u8 => 'ß',
            226u8 => 'Γ',
            227u8 => 'π',
            228u8 => 'Σ',
            229u8 => 'σ',
            230u8 => 'µ',
            231u8 => 'τ',
            232u8 => 'Φ',
            233u8 => 'Θ',
            234u8 => 'Ω',
            235u8 => 'δ',
            236u8 => '∞',
            237u8 => 'φ',
            238u8 => 'ε',
            239u8 => '∩',
            240u8 => '≡',
            241u8 => '±',
            242u8 => '≥',
            243u8 => '≤',
            244u8 => '⌠',
            245u8 => '⌡',
            246u8 => '÷',
            247u8 => '≈',
            248u8 => '°',
            249u8 => '∙',
            250u8 => '·',
            251u8 => '√',
            252u8 => 'ⁿ',
            253u8 => '²',
            254u8 => '■',
            _ => '\u{A0}',
    }
}

/// The byte-to-glyph table, readable at run time.
pub fn glyph_of(b: u8) -> (c: char)
    ensures
        c == glyph(b),
{
    match b {
            0u8 => '\0',
            1u8 => '☺',
            2u8 => '☻',
            3u8 => '♥',
            4u8 => '♦',
            5u8 => '♣',
            6u8 => '♠',
            7u8 => '•',
            8u8 => '◘',
            9u8 => '○',
            10u8 => '◙',
            11u8 => '♂',
            12u8 => '♀',
            13u8 => '♪',
            14u8 => '♫',
            15u8 => '☼',
            16u8 => '►',
            17u8 => '◄',
            18u8 => '↕',
            19u8 => '‼',
            20u8 => '¶',
            21u8 => '§',
            22u8 => '▬',
            23u8 => '↨',
            24u8 => '↑',
            25u8 => '↓',
            26u8 => '→',
            27u8 => '←',
            28u8 => '∟',
            29u8 => '↔',
            30u8 => '▲',
            31u8 => '▼',
            32u8 => ' ',
            33u8 => '!',
            34u8 => '"',
            35u8 => '#',
            36u8 => '$',
            37u8 => '%',
            38u8 => '&',
            39u8 => '\'',
            40u8 => '(',
            41u8 => ')',
            42u8 => '*',
            43u8 => '+',
            44u8 => ',',
            45u8 => '-',
            46u8 => '.',
            47u8 => '/',
            48u8 => '0',
            49u8 => '1',
            50u8 => '2',
            51u8 => '3',
            52u8 => '4',
            53u8 => '5',
            54u8 => '6',
            55u8 => '7',
            56u8 => '8',
            57u8 => '9',
            58u8 => ':',
            59u8 => ';',
            60u8 => '<',
            61u8 => '=',
            62u8 => '>',
            63u8 => '?',
            64u8 => '@',
            65u8 => 'A',
            66u8 => 'B',
            67u8 => 'C',
            68u8 => 'D',
            69u8 => 'E',
            70u8 => 'F',
            71u8 => 'G',
            72u8 => 'H',
            73u8 => 'I',
            74u8 => 'J',
            75u8 => 'K',
            76u8 => 'L',
            77u8 => 'M',
            78u8 => 'N',
            79u8 => 'O',
            80u8 => 'P',
            81u8 => 'Q',
            82u8 => 'R',
            83u8 => 'S',
            84u8 => 'T',
            85u8 => 'U',
            86u8 => 'V',
            87u8 => 'W',
            88u8 => 'X',
            89u8 => 'Y',
            90u8 => 'Z',
            91u8 => '[',
            92u8 => '\\',
            93u8 => ']',
            94u8 => '^',
            95u8 => '_',
            96u8 => '`',
            97u8 => 'a',
            98u8 => 'b',
            99u8 => 'c',
            100u8 => 'd',
            101u8 => 'e',
            102u8 => 'f',
            103u8 => 'g',
            104u8 => 'h',
            105u8 => 'i',
            106u8 => 'j',
            107u8 => 'k',
            108u8 => 'l',
            109u8 => 'm',
            110u8 => 'n',
            111u8 => 'o',
            112u8 => 'p',
            113u8 => 'q',
            114u8 => 'r',
            115u8 => 's',
            116u8 => 't',
            117u8 => 'u',
            118u8 => 'v',
            119u8 => 'w',
            120u8 => 'x',
            121u8 => 'y',
            122u8 => 'z',
            123u8 => '{',
            124u8 => '|',
            125u8 => '}',
            126u8 => '~',
            127u8 => '⌂',
            128u8 => 'Ç',
            129u8 => 'ü',
            130u8 => 'é',
            131u8 => 'â',
            132u8 => 'ä',
            133u8 => 'à',
            134u8 => 'å',
            135u8 => 'ç',
            136u8 => 'ê',
            137u8 => 'ë',
            138u8 => 'è',
            139u8 => 'ï',
            140u8 => 'î',
            141u8 => 'ì',
            142u8 => 'Ä',
            143u8 => 'Å',
            144u8 => 'É',
            145u8 => 'æ',
            146u8 => 'Æ',
            147u8 => 'ô',
            148u8 => 'ö',
            149u8 => 'ò',
            150u8 => 'û',
            151u8 => 'ù',
            152u8 => 'ÿ',
            153u8 => 'Ö',
            154u8 => 'Ü',
            155u8 => '¢',
            156u8 => '£',
            157u8 => '¥',
            158u8 => '₧',
            159u8 => 'ƒ',
            160u8 => 'á',
            161u8 => 'í',
            162u8 => 'ó',
            163u8 => 'ú',
            164u8 => 'ñ',
            165u8 => 'Ñ',
            166u8 => 'ª',
            167u8 => 'º',
            168u8 => '¿',
            169u8 => '⌐',
            170u8 => '¬',
            171u8 => '½',
            172u8 => '¼',
            173u8 => '¡',
            174u8 => '«',
            175u8 => '»',
            176u8 => '░',
            177u8 => '▒',
            178u8 => '▓',
            179u8 => '│',
            180u8 => '┤',
            181u8 => '╡',
            182u8 => '╢',
            183u8 => '╖',
            184u8 => '╕',
            185u8 => '╣',
            186u8 => '║',
            187u8 => '╗',
            188u8 => '╝',
            189u8 => '╜',
            190u8 => '╛',
            191u8 => '┐',
            192u8 => '└',
            193u8 => '┴',
            194u8 => '┬',
            195u8 => '├',
            196u8 => '─',
            197u8 => '┼',
            198u8 => '╞',
            199u8 => '╟',
            200u8 => '╚',
            201u8 => '╔',
            202u8 => '╩',
            203u8 => '╦',
            204u8 => '╠',
            205u8 => '═',
            206u8 => '╬',
            207u8 => '╧',
            208u8 => '╨',
            209u8 => '╤',
            210u8 => '╥',
            211u8 => '╙',
            212u8 => '╘',
            213u8 => '╒',
            214u8 => '╓',
            215u8 => '╫',
            216u8 => '╪',
            217u8 => '┘',
            218u8 => '┌',
            219u8 => '█',
            220u8 => '▄',
            221u8 => '▌',
            222u8 => '▐',
            223u8 => '▀',
            224u8 => 'α',
            225u8 => 'ß',
            226u8 => 'Γ',
            227u8 => 'π',
            228u8 => 'Σ',
            229u8 => 'σ',
            230u8 => 'µ',
            231u8 => 'τ',
            232u8 => 'Φ',
            233u8 => 'Θ',
            234u8 => 'Ω',
            235u8 => 'δ',
            236u8 => '∞',
            237u8 => 'φ',
            238u8 => 'ε',
            239u8 => '∩',
            240u8 => '≡',
            241u8 => '±',
            242u8 => '≥',
            243u8 => '≤',
            244u8 => '⌠',
            245u8 => '⌡',
            246u8 => '÷',
            247u8 => '≈',
            248u8 => '°',
            249u8 => '∙',
            250u8 => '·',
            251u8 => '√',
            252u8 => 'ⁿ',
            253u8 => '²',
            254u8 => '■',
            _ => '\u{A0}',
    }
}


/// The least table index whose glyph is `ch`, searching from `i`
/// upward; nothing when no index at or above `i` matches.
pub open spec fn encode_from(ch: char, i: int) -> Option<u8>
    decreases 256 - i,
{
    if i < 0 || i >= 256 {
        None
    } else if glyph(i as u8) == ch {
        Some(i as u8)
    } else {
        encode_from(ch, i + 1)
    }
}

/// The byte the code page assigns to `ch`: the least table index whose
/// glyph is `ch`, or nothing when the code page cannot show `ch`.
pub open spec fn encode(ch: char) -> Option<u8> {
    encode_from(ch, 0)
}

/// One character of the code page: a byte validated against the glyph
/// table on construction.
#[derive(Clone, Copy, PartialEq, Eq, PartialOrd, Ord, Hash, Structural)]
pub struct CP437Char {
    pub code: u8,
}

impl CP437Char {
    pub open spec fn new_spec(ch: char) -> Option<CP437Char> {
        match encode(ch) {
            Some(b) => Some(CP437Char { code: b }),
            None => None,
        }
    }

    /// The code-page character showing `ch`, found by a bounds-checked
    /// search of the glyph table; nothing when the code page has no
    /// glyph for `ch`.
    pub fn new(ch: char) -> (r: Option<CP437Char>)
        ensures
            r == Self::new_spec(ch),
    {
        let mut index: usize = 0;
        while index < 256
            invariant
                index <= 256,
                encode(ch) == encode_from(ch, index as int),
                forall|j: int| 0 <= j < index ==> #[trigger] glyph(j as u8) != ch,
            decreases 256 - index,
        {
            if glyph_of(index as u8) == ch {
                return Some(CP437Char { code: index as u8 });
            }
            index += 1;
        }
        None
    }

    /// The character as the raw byte the console takes.
    pub fn as_byte(self) -> (b: u8)
        ensures
            b == self.code,
    {
        self.code
    }

    /// The character's byte read as a Unicode code point.  For bytes past
    /// the ASCII range this differs from the glyph the console would
    /// draw.
    pub fn as_char(self) -> (c: char)
        ensures
            c == self.code as char,
    {
        self.code as char
    }
}

impl Default for CP437Char {
    fn default() -> (r: Self)
        ensures
            r.code == 0,
    {
        CP437Char { code: 0 }
    }
}

/// A single-byte code page: a total assignment of glyphs to bytes.
pub trait CodePage {
    /// The glyph the page assigns to `b`.
    spec fn table(b: u8) -> char;

    /// The assignment, readable at run time.
    fn table_char(b: u8) -> (c: char)
        ensures
            c == Self::table(b),
    ;
}

impl CodePage for CP437Char {
    open spec fn table(b: u8) -> char {
        glyph(b)
    }

    fn table_char(b: u8) -> (c: char)
        ensures
            c == glyph(b),
    {
        glyph_of(b)
    }
}

/// The byte standing for `ch` in encoded text: the code-page byte when
/// one exists, a question mark otherwise.
pub open spec fn encode_or_question(ch: char) -> u8 {
    match encode(ch) {
        Some(b) => b,
        None => 0x3F,
    }
}

/// An owned run of code-page characters.
#[derive(PartialEq, Eq, PartialOrd, Ord, Hash)]
pub struct CP437Str {
    pub chars: Vec<CP437Char>,
}

impl CP437Str {
    /// Encodes ordinary text, substituting a question mark for every
    /// character the code page cannot show.
    pub fn new(input: &str) -> (r: CP437Str)
        ensures
            r.chars@.len() == input@.len(),
            forall|i: int|
                0 <= i < input@.len() ==> (#[trigger] r.chars@[i]).code == encode_or_question(
                    input@[i],
                ),
    {
        let len = input.unicode_len();
        let mut chars: Vec<CP437Char> = Vec::new();
        let mut i: usize = 0;
        while i < len
            invariant
                len == input@.len(),
                i <= len,
                chars@.len() == i,
                forall|j: int|
                    0 <= j < i ==> (#[trigger] chars@[j]).code == encode_or_question(input@[j]),
            decreases len - i,
        {
            let ch = input.get_char(i);
            match CP437Char::new(ch) {
                Some(c) => chars.push(c),
                None => chars.push(CP437Char { code: 0x3F }),
            }
            i += 1;
        }
        CP437Str { chars }
    }

    /// The whole string as a slice of code-page characters.
    pub fn as_slice(&self) -> (s: &[CP437Char])
        ensures
            s@ == self.chars@,
    {
        self.chars.as_slice()
    }

    /// The whole string as raw console bytes.
    pub fn as_bytes(&self) -> (b: Vec<u8>)
        ensures
            b@.len() == self.chars@.len(),
            forall|i: int| 0 <= i < b@.len() ==> b@[i] == (#[trigger] self.chars@[i]).code,
    {
        let mut b: Vec<u8> = Vec::new();
        let mut i: usize = 0;
        while i < self.chars.len()
            invariant
                i <= self.chars@.len(),
                b@.len() == i,
                forall|j: int| 0 <= j < i ==> b@[j] == (#[trigger] self.chars@[j]).code,
            decreases self.chars@.len() - i,
        {
            b.push(self.chars[i].code);
            i += 1;
        }
        b
    }

    pub fn len(&self) -> (n: usize)
        ensures
            n == self.chars@.len(),
    {
        self.chars.len()
    }

    pub fn is_empty(&self) -> (b: bool)
        ensures
            b == (self.chars@.len() == 0),
    {
        self.chars.len() == 0
    }
}

/// Law: when the code page can show a character, decoding the byte it
/// encodes to yields that character back.
pub proof fn lemma_encode_glyph_round_trip(ch: char)
    requires
        encode(ch) is Some,
    ensures
        encode(ch) matches Some(b) && glyph(b) == ch,
{
    lemma_encode_from_glyph(ch, 0);
}

proof fn lemma_encode_from_glyph(ch: char, i: int)
    requires
        encode_from(ch, i) is Some,
    ensures
        encode_from(ch, i) matches Some(b) && glyph(b) == ch && i <= b < 256,
    decreases 256 - i,
{
    if !(i < 0 || i >= 256) && glyph(i as u8) != ch {
        lemma_encode_from_glyph(ch, i + 1);
    }
}

} // verus!
