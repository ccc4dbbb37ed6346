//! Character sets the rain draws its glyph contents from.

use vstd::prelude::*;

verus! {

/// A code point in this range is a Unicode scalar value: `char::from_u32`
/// accepts exactly these.
pub open spec fn is_scalar_code(v: int) -> bool {
    0 <= v < 0xD800 || 0xE000 <= v < 0x110000
}

/// Relies on `char::from_u32`: for a Unicode scalar value (not a surrogate,
/// at most 0x10FFFF) it returns the character with that code.
#[verifier::external_body]
fn char_from_code(v: u32) -> (r: char)
    requires
        is_scalar_code(v as int),
    ensures
        r as u32 == v,
{
    char::from_u32(v).unwrap()
}

/// A character set for the rain.
#[derive(Debug, Clone, PartialEq)]
pub enum CharacterSet {
    /// An explicit enumeration of character options. This is the least performant.
    Explicit { options: Vec<char> },
    /// A range of unicode values.
    UnicodeRange { start: u32, len: u32 },
    /// Half-width Japanese Kana characters.
    ///
    /// Equivalent to `CharacterSet::UnicodeRange { start: 0xFF66, len: 56 }`.
    HalfKana,
    /// The lowercase English alphabet.
    ///
    /// Equivalent to `CharacterSet::UnicodeRange { start: 0x61, len: 26 }`.
    Lowercase,
}

impl CharacterSet {
    /// A well-formed set is non-empty, not absurdly large, and a range form
    /// covers only Unicode scalar values. Construction-time validation
    /// guarantees this; the per-frame engine assumes it.
    pub open spec fn wf(self) -> bool {
        match self {
            CharacterSet::Explicit { options } => 1 <= options.len() <= 0x110000,
            CharacterSet::UnicodeRange { start, len } => {
                &&& 1 <= len
                &&& (start + len <= 0xD800 || (0xE000 <= start && start + len <= 0x110000))
            },
            CharacterSet::HalfKana => true,
            CharacterSet::Lowercase => true,
        }
    }

    /// The number of characters in the set.
    pub open spec fn spec_size(self) -> int {
        match self {
            CharacterSet::Explicit { options } => options.len() as int,
            CharacterSet::UnicodeRange { start: _, len } => len as int,
            CharacterSet::HalfKana => 56,
            CharacterSet::Lowercase => 26,
        }
    }

    /// The character selected by an arbitrary seed: position `seed mod size`
    /// in the set.
    pub open spec fn spec_get(self, seed: u32) -> char {
        match self {
            CharacterSet::Explicit { options } => options[seed as int % options.len() as int],
            CharacterSet::UnicodeRange { start, len } => {
                (((seed as int % len as int) + start) as u32) as char
            },
            CharacterSet::HalfKana => (((seed as int % 56) + 0xFF66) as u32) as char,
            CharacterSet::Lowercase => (((seed as int % 26) + 0x61) as u32) as char,
        }
    }

    /// Check well-formedness; `true` exactly for sets that [`CharacterSet::wf`]
    /// admits.
    pub fn is_well_formed(&self) -> (r: bool)
        ensures
            r == self.wf(),
    {
        match self {
            CharacterSet::Explicit { options } => {
                1 <= options.len() && options.len() <= 0x110000
            },
            CharacterSet::UnicodeRange { start, len } => {
                let start_u64: u64 = *start as u64;
                let len_u64: u64 = *len as u64;
                1 <= len_u64 && (start_u64 + len_u64 <= 0xD800 || (0xE000 <= start_u64
                    && start_u64 + len_u64 <= 0x110000))
            },
            CharacterSet::HalfKana => true,
            CharacterSet::Lowercase => true,
        }
    }

    /// Look up the character a seed selects: position `seed mod size` in the
    /// set.
    pub fn get(&self, seed: u32) -> (r: char)
        requires
            self.wf(),
        ensures
            r == self.spec_get(seed),
    {
        match self {
            CharacterSet::Explicit { options } => options[(seed as usize) % options.len()],
            CharacterSet::UnicodeRange { start, len } => {
                let code: u32 = (seed % *len) + *start;
                let c = char_from_code(code);
                proof {
                    vstd::utf8::char_u32_cast(c, code);
                }
                c
            },
            CharacterSet::HalfKana => {
                let code: u32 = (seed % 56) + 0xFF66;
                let c = char_from_code(code);
                proof {
                    vstd::utf8::char_u32_cast(c, code);
                }
                c
            },
            CharacterSet::Lowercase => {
                let code: u32 = (seed % 26) + 0x61;
                let c = char_from_code(code);
                proof {
                    vstd::utf8::char_u32_cast(c, code);
                }
                c
            },
        }
    }

    /// The number of characters in the set.
    pub fn size(&self) -> (r: usize)
        ensures
            r == self.spec_size(),
    {
        match self {
            CharacterSet::Explicit { options } => options.len(),
            CharacterSet::UnicodeRange { start: _, len } => *len as usize,
            CharacterSet::HalfKana => 56,
            CharacterSet::Lowercase => 26,
        }
    }
}

} // verus!
