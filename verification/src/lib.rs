//! A compact tagged value: a 32-bit word that holds either a `char` or a
//! 22-bit unsigned integer, with no separate discriminant.
//!
//! The encoding exploits the surrogate range `[0xD800, 0xDFFF]`, which no
//! Unicode scalar value may occupy. A character is stored as its code point,
//! unmodified. A 22-bit integer is split into two 11-bit chunks, placed in
//! the top and bottom 11 bits of the word, and the fixed surrogate bit
//! pattern is OR-ed into the middle bits; the resulting word can never be a
//! valid scalar value, so the variant is recoverable from the word alone.

use vstd::prelude::*;
use vstd::string::StringExecFns;

mod text;
mod u22;

pub use text::dec_digit;
pub use text::dec_rep;
pub use text::decimal_string;

pub use u22::U22;
pub use u22::U22FromU32Error;
pub use u22::lemma_u22_eq_iff_value_eq;
pub use u22::lemma_u22_value;
pub use u22::u22_value;

verus! {

/// Low bound of the surrogate range.
pub const SURROGATE_LOW: u32 = 0xD800;

/// High bound of the surrogate range.
pub const SURROGATE_HIGH: u32 = 0xDFFF;

/// The bit pattern shared by every value in the surrogate range.
pub const SURROGATE_MASK: u32 = SURROGATE_LOW & SURROGATE_HIGH;

/// The largest Unicode scalar value, `char::MAX` as an integer.
pub const CHAR_MAX_U32: u32 = 0x10FFFF;

/// Number of high bits of a 32-bit word that no scalar value uses:
/// the leading zeros of [`CHAR_MAX_U32`].
pub const LEADING: u32 = 11;

/// The top [`LEADING`] bits of a 32-bit word.
pub const LEADING_MASK: u32 = !(u32::MAX >> LEADING);

/// Number of low zero bits of [`SURROGATE_LOW`].
pub const TRAILING: u32 = 11;

/// The bottom [`TRAILING`] bits of a 32-bit word.
pub const TRAILING_MASK: u32 = !(u32::MAX << TRAILING);

/// The leading zeros of [`U22::MAX`]: the shift that moves a 22-bit value's
/// high chunk into the top bits of a 32-bit word.
pub const MAX_U22_LEADING: u32 = 10;

/// True when `n` is a Unicode scalar value: at most [`CHAR_MAX_U32`] and
/// outside the surrogate range.
pub open spec fn is_scalar_value(n: u32) -> bool {
    n <= CHAR_MAX_U32 && !(SURROGATE_LOW <= n && n <= SURROGATE_HIGH)
}

/// The word that stores the character `c`: its code point, unmodified.
pub open spec fn char_word(c: char) -> u32 {
    c as u32
}

/// The word that stores the 22-bit integer `v`: the high 11 bits of `v` in
/// the word's top 11 bits, the low 11 bits of `v` in the word's bottom 11
/// bits, and the surrogate pattern in the middle.
pub open spec fn u22_word(v: u32) -> u32 {
    ((v << MAX_U22_LEADING) & LEADING_MASK) | (v & TRAILING_MASK) | SURROGATE_MASK
}

/// The 22-bit integer recovered from the word `w`: the bottom 11 bits joined
/// with the top 11 bits shifted back down.
pub open spec fn word_u22(w: u32) -> u32 {
    (w & TRAILING_MASK) | ((w & LEADING_MASK) >> MAX_U22_LEADING)
}

/// True of every word a [`PackedChar`] can hold: either a scalar value, or a
/// word whose middle bits carry exactly the surrogate pattern, as the integer
/// encoding forces.
pub open spec fn word_wf(w: u32) -> bool {
    is_scalar_value(w) || (w & !(LEADING_MASK | TRAILING_MASK)) == SURROGATE_MASK
}

/// True when decoding the word `w` yields exactly the contents `r`: a
/// character with code point `w` when `w` is a scalar value, and otherwise
/// the 22-bit integer whose chunks `w` carries.
pub open spec fn decodes_to(w: u32, r: Contents) -> bool {
    match r {
        Contents::Char(c) => is_scalar_value(w) && c as u32 == w,
        Contents::U22(u) => !is_scalar_value(w) && u@ == word_u22(w),
    }
}

/// Relies on `char::from_u32` of core: returns the character with code point
/// `n` when `n` is a Unicode scalar value, and `None` otherwise.
pub assume_specification[ char::from_u32 ](n: u32) -> (r: Option<char>)
    ensures
        r is Some <==> is_scalar_value(n),
        r matches Some(c) ==> c as u32 == n,
;

/// Stores either a `char` or a [`U22`] in 32 bits of space.
#[derive(Debug, Clone, Copy, PartialEq, Eq, Structural, PartialOrd, Ord, Hash)]
pub struct PackedChar(u32);

impl View for PackedChar {
    type V = u32;

    closed spec fn view(&self) -> u32 {
        self.0
    }
}

impl PackedChar {
    /// Every reachable word is one that some constructor produced.
    #[verifier::type_invariant]
    pub closed spec fn wf(self) -> bool {
        word_wf(self.0)
    }

    /// Creates a new value storing the given `char`.
    pub fn from_char(c: char) -> (r: Self)
        ensures
            r@ == char_word(c),
    {
        proof {
            vstd::utf8::char_is_scalar(c);
        }
        PackedChar(c as u32)
    }

    /// Creates a new value storing the given [`U22`].
    pub fn from_u22(u22: U22) -> (r: Self)
        ensures
            r@ == u22_word(u22@),
    {
        let n: u32 = u22.as_u32();
        let leading: u32 = (n << MAX_U22_LEADING) & LEADING_MASK;
        let trailing: u32 = n & TRAILING_MASK;
        let w: u32 = leading | trailing | SURROGATE_MASK;
        proof {
            assert((((n << MAX_U22_LEADING) & LEADING_MASK) | (n & TRAILING_MASK)
                | SURROGATE_MASK) & !(LEADING_MASK | TRAILING_MASK) == SURROGATE_MASK)
                by (bit_vector);
        }
        PackedChar(w)
    }

    /// Gets the stored value: the character with code point `w` when the
    /// word `w` is a scalar value, and otherwise the 22-bit integer whose
    /// chunks the word carries.
    pub fn contents(self) -> (r: Contents)
        ensures
            decodes_to(self@, r),
    {
        match char::from_u32(self.0) {
            Some(c) => Contents::Char(c),
            None => {
                let trailing: u32 = self.0 & TRAILING_MASK;
                let leading: u32 = self.0 & LEADING_MASK;
                let n: u32 = trailing | (leading >> MAX_U22_LEADING);
                proof {
                    let w = self.0;
                    assert((w & TRAILING_MASK) | ((w & LEADING_MASK) >> MAX_U22_LEADING)
                        <= U22::MAX) by (bit_vector);
                }
                Contents::U22(U22::from_u32_unchecked(n))
            },
        }
    }

    /// Renders the decoded contents, not the raw word: the variant's name
    /// around the character, or around the integer in decimal.
    pub fn to_debug_string(&self) -> (s: String)
        ensures
            forall|r: Contents| decodes_to(self@, r) ==> s@ == contents_text(r),
    {
        let decoded: Contents = self.contents();
        let mut s: String = String::new();
        match decoded {
            Contents::Char(c) => {
                s.append("Char('");
                text::push_char(&mut s, c);
                s.append("')");
            },
            Contents::U22(u) => {
                s.append("U22(");
                s.append(decimal_string(u.as_u32()).as_str());
                s.append(")");
            },
        }
        proof {
            assert(s@ =~= contents_text(decoded));
            assert forall|r: Contents| decodes_to(self@, r) implies s@ == contents_text(r) by {
                lemma_decodes_to_unique(self@, r, decoded);
            }
        }
        s
    }
}

/// The text that renders the contents `r`: the variant's name around the
/// character, or around the integer in decimal.
pub open spec fn contents_text(r: Contents) -> Seq<char> {
    match r {
        Contents::Char(c) => "Char('"@ + seq![c] + "')"@,
        Contents::U22(u) => "U22("@ + dec_rep(u@ as nat) + ")"@,
    }
}

/// The packed value holding the word `w`.
pub closed spec fn packed_from_word(w: u32) -> PackedChar {
    PackedChar(w)
}

/// The word of [`packed_from_word`] is the one given.
pub proof fn lemma_packed_from_word(w: u32)
    ensures
        packed_from_word(w)@ == w,
{
}

impl From<char> for PackedChar {
    /// Stores the character, as [`PackedChar::from_char`] does.
    fn from(c: char) -> (r: Self) {
        PackedChar::from_char(c)
    }
}

impl vstd::std_specs::convert::FromSpecImpl<char> for PackedChar {
    open spec fn obeys_from_spec() -> bool {
        true
    }

    open spec fn from_spec(c: char) -> PackedChar {
        packed_from_word(char_word(c))
    }
}

impl From<U22> for PackedChar {
    /// Stores the 22-bit integer, as [`PackedChar::from_u22`] does.
    fn from(u22: U22) -> (r: Self) {
        PackedChar::from_u22(u22)
    }
}

impl vstd::std_specs::convert::FromSpecImpl<U22> for PackedChar {
    open spec fn obeys_from_spec() -> bool {
        true
    }

    open spec fn from_spec(u22: U22) -> PackedChar {
        packed_from_word(u22_word(u22@))
    }
}

impl TryFrom<u32> for PackedChar {
    type Error = U22FromU32Error;

    /// Succeeds exactly when the input fits in 22 bits; the input is taken
    /// as a candidate bounded integer, never as a character.
    fn try_from(n: u32) -> (r: Result<Self, U22FromU32Error>) {
        match U22::from_u32(n) {
            Ok(u22) => Ok(PackedChar::from_u22(u22)),
            Err(e) => Err(e),
        }
    }
}

impl vstd::std_specs::convert::TryFromSpecImpl<u32> for PackedChar {
    open spec fn obeys_try_from_spec() -> bool {
        true
    }

    open spec fn try_from_spec(n: u32) -> Result<PackedChar, U22FromU32Error> {
        if n <= U22::MAX {
            Ok(packed_from_word(u22_word(n)))
        } else {
            Err(U22FromU32Error(n))
        }
    }
}

impl Default for PackedChar {
    /// The default packed value holds the all-zero word, which decodes as
    /// the null character.
    fn default() -> (r: Self)
        ensures
            r@ == 0,
    {
        PackedChar(0)
    }
}

/// The bit-level facts about the integer encoding: for a value within the
/// 22-bit bound, the encoded word is never a scalar value, and decoding the
/// word gives the value back.
proof fn lemma_u22_word_bits(v: u32)
    by (bit_vector)
    requires
        v <= U22::MAX,
    ensures
        !is_scalar_value(u22_word(v)),
        word_u22(u22_word(v)) == v,
{
}

/// Round trip for characters: the word that stores a character decodes to
/// exactly that character.
pub proof fn lemma_char_round_trip(c: char)
    ensures
        decodes_to(char_word(c), Contents::Char(c)),
{
    vstd::utf8::char_is_scalar(c);
}

/// Round trip for 22-bit integers: the word that stores a bounded integer
/// decodes to exactly that integer.
pub proof fn lemma_u22_round_trip(u: U22)
    requires
        u@ <= U22::MAX,
    ensures
        decodes_to(u22_word(u@), Contents::U22(u)),
{
    lemma_u22_word_bits(u@);
}

/// Mutual exclusivity: no word stores both a character and a 22-bit integer;
/// the words the two encodings can reach are disjoint.
pub proof fn lemma_variants_disjoint(c: char, v: u32)
    requires
        v <= U22::MAX,
    ensures
        char_word(c) != u22_word(v),
{
    vstd::utf8::char_is_scalar(c);
    lemma_u22_word_bits(v);
}

/// Injectivity for characters: distinct characters never produce the same
/// word.
pub proof fn lemma_char_word_injective(c1: char, c2: char)
    ensures
        char_word(c1) == char_word(c2) ==> c1 == c2,
{
    if char_word(c1) == char_word(c2) {
        vstd::utf8::char_u32_cast(c1, c1 as u32);
        vstd::utf8::char_u32_cast(c2, c2 as u32);
    }
}

/// Injectivity for 22-bit integers: distinct bounded values never produce
/// the same word.
pub proof fn lemma_u22_word_injective(v1: u32, v2: u32)
    requires
        v1 <= U22::MAX,
        v2 <= U22::MAX,
    ensures
        u22_word(v1) == u22_word(v2) ==> v1 == v2,
{
    lemma_u22_word_bits(v1);
    lemma_u22_word_bits(v2);
}

/// Decoding is a function of the word alone: a word decodes to at most one
/// contents value.
pub proof fn lemma_decodes_to_unique(w: u32, r1: Contents, r2: Contents)
    requires
        decodes_to(w, r1),
        decodes_to(w, r2),
    ensures
        r1 == r2,
{
    match (r1, r2) {
        (Contents::Char(c1), Contents::Char(c2)) => {
            vstd::utf8::char_u32_cast(c1, w);
            vstd::utf8::char_u32_cast(c2, w);
        },
        (Contents::U22(u1), Contents::U22(u2)) => {
            lemma_u22_eq_iff_value_eq(u1, u2);
        },
        _ => {},
    }
}

/// Structural equality law: two packed values are equal exactly when their
/// decoded contents are equal.
pub proof fn lemma_eq_iff_contents_eq(p1: PackedChar, p2: PackedChar, r1: Contents, r2: Contents)
    requires
        p1.wf(),
        p2.wf(),
        decodes_to(p1@, r1),
        decodes_to(p2@, r2),
    ensures
        p1 == p2 <==> r1 == r2,
{
    let w1 = p1@;
    let w2 = p2@;
    if p1 == p2 {
        match (r1, r2) {
            (Contents::Char(c1), Contents::Char(c2)) => {
                vstd::utf8::char_u32_cast(c1, w1);
                vstd::utf8::char_u32_cast(c2, w2);
            },
            (Contents::U22(u1), Contents::U22(u2)) => {
                lemma_u22_eq_iff_value_eq(u1, u2);
            },
            _ => {},
        }
    } else {
        assert(w1 != w2);
        if !is_scalar_value(w1) && !is_scalar_value(w2) {
            assert((w1 & !(LEADING_MASK | TRAILING_MASK)) == SURROGATE_MASK);
            assert((w2 & !(LEADING_MASK | TRAILING_MASK)) == SURROGATE_MASK);
            assert(word_u22(w1) != word_u22(w2)) by (bit_vector)
                requires
                    w1 != w2,
                    (w1 & !(LEADING_MASK | TRAILING_MASK)) == SURROGATE_MASK,
                    (w2 & !(LEADING_MASK | TRAILING_MASK)) == SURROGATE_MASK,
            ;
        }
    }
}

/// The contents of a [`PackedChar`], as returned from [`PackedChar::contents`].
#[derive(Debug, Clone, Copy, PartialEq, Eq, Structural, PartialOrd, Ord, Hash)]
pub enum Contents {
    Char(char),
    U22(U22),
}

} // verus!
