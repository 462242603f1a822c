//! The password configuration model: which characters a generated password
//! may contain, and when a string is a valid password for a configuration.

use vstd::prelude::*;

verus! {

/// A password generation request: the desired length, which character
/// classes are enabled, whether visually similar characters are excluded,
/// and whether every enabled class must actually occur (strict mode).
#[derive(Clone, Copy, PartialEq, Eq, Structural, Debug)]
pub struct PasswordConfig {
    pub length: usize,
    pub numbers: bool,
    pub lowercase_letters: bool,
    pub uppercase_letters: bool,
    pub symbols: bool,
    pub spaces: bool,
    pub exclude_similar_characters: bool,
    pub strict: bool,
}

/// An ASCII decimal digit, `'0'` through `'9'`.
pub open spec fn is_digit_char(c: char) -> bool {
    '0' <= c && c <= '9'
}

/// An ASCII lowercase letter, `'a'` through `'z'`.
pub open spec fn is_lowercase_char(c: char) -> bool {
    'a' <= c && c <= 'z'
}

/// An ASCII uppercase letter, `'A'` through `'Z'`.
pub open spec fn is_uppercase_char(c: char) -> bool {
    'A' <= c && c <= 'Z'
}

/// ASCII punctuation: the four printable ranges around the digits and
/// letters.
pub open spec fn is_symbol_char(c: char) -> bool {
    ||| ('!' <= c && c <= '/')
    ||| (':' <= c && c <= '@')
    ||| ('[' <= c && c <= '`')
    ||| ('{' <= c && c <= '~')
}

/// The space character.
pub open spec fn is_space_char(c: char) -> bool {
    c == ' '
}

/// Characters that are easy to mistake for one another and are left out
/// when `exclude_similar_characters` is set.
pub open spec fn is_similar_char(c: char) -> bool {
    ||| c == 'i'
    ||| c == 'I'
    ||| c == '1'
    ||| c == 'l'
    ||| c == 'o'
    ||| c == 'O'
    ||| c == '0'
    ||| c == '"'
    ||| c == '\''
    ||| c == '`'
    ||| c == '|'
}

/// Whether a single character may occur in a password for `cfg`: it must
/// belong to an enabled class, and must not be a similar character when
/// those are excluded.
pub open spec fn char_allowed(cfg: PasswordConfig, c: char) -> bool {
    ||| (cfg.numbers && is_digit_char(c) && !(cfg.exclude_similar_characters
        && is_similar_char(c)))
    ||| (cfg.lowercase_letters && is_lowercase_char(c) && !(cfg.exclude_similar_characters
        && is_similar_char(c)))
    ||| (cfg.uppercase_letters && is_uppercase_char(c) && !(cfg.exclude_similar_characters
        && is_similar_char(c)))
    ||| (cfg.symbols && is_symbol_char(c) && !(cfg.exclude_similar_characters
        && is_similar_char(c)))
    ||| (cfg.spaces && is_space_char(c))
}

/// The string contains at least one digit.
pub open spec fn contains_digit(s: Seq<char>) -> bool {
    exists|i: int| 0 <= i < s.len() && is_digit_char(#[trigger] s[i])
}

/// The string contains at least one lowercase letter.
pub open spec fn contains_lowercase(s: Seq<char>) -> bool {
    exists|i: int| 0 <= i < s.len() && is_lowercase_char(#[trigger] s[i])
}

/// The string contains at least one uppercase letter.
pub open spec fn contains_uppercase(s: Seq<char>) -> bool {
    exists|i: int| 0 <= i < s.len() && is_uppercase_char(#[trigger] s[i])
}

/// The string contains at least one symbol.
pub open spec fn contains_symbol(s: Seq<char>) -> bool {
    exists|i: int| 0 <= i < s.len() && is_symbol_char(#[trigger] s[i])
}

/// The string contains at least one space.
pub open spec fn contains_space(s: Seq<char>) -> bool {
    exists|i: int| 0 <= i < s.len() && is_space_char(#[trigger] s[i])
}

/// A string is a valid password for `cfg` when it has exactly the requested
/// length, every character belongs to an enabled class, and, in strict mode,
/// every enabled class actually occurs.
pub open spec fn satisfies(cfg: PasswordConfig, s: Seq<char>) -> bool {
    &&& s.len() == cfg.length
    &&& forall|i: int| 0 <= i < s.len() ==> char_allowed(cfg, #[trigger] s[i])
    &&& cfg.strict ==> {
        &&& cfg.numbers ==> contains_digit(s)
        &&& cfg.lowercase_letters ==> contains_lowercase(s)
        &&& cfg.uppercase_letters ==> contains_uppercase(s)
        &&& cfg.symbols ==> contains_symbol(s)
        &&& cfg.spaces ==> contains_space(s)
    }
}

/// At least one character class is enabled.
pub open spec fn has_enabled_class(cfg: PasswordConfig) -> bool {
    cfg.numbers || cfg.lowercase_letters || cfg.uppercase_letters || cfg.symbols || cfg.spaces
}

/// How many character classes are enabled.
pub open spec fn enabled_class_count(cfg: PasswordConfig) -> int {
    (if cfg.numbers { 1int } else { 0int })
        + (if cfg.lowercase_letters { 1int } else { 0int })
        + (if cfg.uppercase_letters { 1int } else { 0int })
        + (if cfg.symbols { 1int } else { 0int })
        + (if cfg.spaces { 1int } else { 0int })
}

/// The generator accepts exactly these configurations: a positive length,
/// at least one enabled class, and, in strict mode, a length that can hold
/// one character of every enabled class.
pub open spec fn generation_succeeds(cfg: PasswordConfig) -> bool {
    &&& cfg.length > 0
    &&& has_enabled_class(cfg)
    &&& cfg.strict ==> enabled_class_count(cfg) <= cfg.length
}

/// Why a configuration is rejected.
#[derive(Clone, Copy, PartialEq, Eq, Structural, Debug)]
pub enum GenerateError {
    /// The requested length is zero.
    ZeroLength,
    /// No character class is enabled.
    NoClassEnabled,
    /// Strict mode enables more classes than the length can hold.
    LengthTooShort,
}

/// The error reported for a rejected configuration. The length is checked
/// first, then the classes, then the strict-mode bound.
pub open spec fn rejection_error(cfg: PasswordConfig) -> GenerateError {
    if cfg.length == 0 {
        GenerateError::ZeroLength
    } else if !has_enabled_class(cfg) {
        GenerateError::NoClassEnabled
    } else {
        GenerateError::LengthTooShort
    }
}

/// The fixed configuration of the application shell: twenty characters,
/// digits, lowercase, uppercase and symbols enabled, no spaces, similar
/// characters kept, strict mode on.
pub open spec fn spec_app_config() -> PasswordConfig {
    PasswordConfig {
        length: 20,
        numbers: true,
        lowercase_letters: true,
        uppercase_letters: true,
        symbols: true,
        spaces: false,
        exclude_similar_characters: false,
        strict: true,
    }
}

/// The fixed configuration of the application shell.
pub fn app_config() -> (cfg: PasswordConfig)
    ensures
        cfg == spec_app_config(),
{
    PasswordConfig {
        length: 20,
        numbers: true,
        lowercase_letters: true,
        uppercase_letters: true,
        symbols: true,
        spaces: false,
        exclude_similar_characters: false,
        strict: true,
    }
}

/// Every allowed character is printable ASCII: all five classes lie between
/// the space character and `'~'`.
pub proof fn lemma_allowed_is_ascii(cfg: PasswordConfig, c: char)
    requires
        char_allowed(cfg, c),
    ensures
        ' ' <= c && c <= '~',
{
}

/// Checks whether `s` is a valid password for `cfg`, by the same predicate
/// that the generator's result is stated with.
pub fn check_password(cfg: &PasswordConfig, s: &str) -> (r: bool)
    ensures
        r == satisfies(*cfg, s@),
{
    if !s.is_ascii() {
        proof {
            if satisfies(*cfg, s@) {
                assert forall|i: int|
                    0 <= i < s@.len() implies '\0' <= #[trigger] s@[i] <= '\u{7f}' by {
                    assert(char_allowed(*cfg, s@[i]));
                    lemma_allowed_is_ascii(*cfg, s@[i]);
                }
                assert(vstd::utf8::is_ascii_chars(s@));
            }
        }
        return false;
    }
    proof {
        vstd::utf8::is_ascii_chars_encode_utf8(s@);
    }
    let bytes = s.as_bytes();
    if bytes.len() != cfg.length {
        return false;
    }
    let n = bytes.len();
    let mut has_digit = false;
    let mut has_lower = false;
    let mut has_upper = false;
    let mut has_symbol = false;
    let mut has_space = false;
    let mut i: usize = 0;
    while i < n
        invariant
            n == bytes@.len(),
            n == s@.len(),
            forall|j: int| 0 <= j < s@.len() ==> bytes@[j] == (#[trigger] s@[j]) as u8,
            vstd::utf8::is_ascii_chars(s@),
            0 <= i <= n,
            forall|j: int| 0 <= j < i ==> char_allowed(*cfg, #[trigger] s@[j]),
            has_digit == exists|j: int| 0 <= j < i && is_digit_char(#[trigger] s@[j]),
            has_lower == exists|j: int| 0 <= j < i && is_lowercase_char(#[trigger] s@[j]),
            has_upper == exists|j: int| 0 <= j < i && is_uppercase_char(#[trigger] s@[j]),
            has_symbol == exists|j: int| 0 <= j < i && is_symbol_char(#[trigger] s@[j]),
            has_space == exists|j: int| 0 <= j < i && is_space_char(#[trigger] s@[j]),
        decreases n - i,
    {
        let b = bytes[i];
        let ghost c = s@[i as int];
        proof {
            assert('\0' <= c <= '\u{7f}');
            assert(b == c as u8);
        }
        let is_d = 48 <= b && b <= 57;
        let is_l = 97 <= b && b <= 122;
        let is_u = 65 <= b && b <= 90;
        let is_sym = (33 <= b && b <= 47) || (58 <= b && b <= 64) || (91 <= b && b <= 96)
            || (123 <= b && b <= 126);
        let is_sp = b == 32;
        let is_sim = b == 105 || b == 73 || b == 49 || b == 108 || b == 111 || b == 79 || b == 48
            || b == 34 || b == 39 || b == 96 || b == 124;
        proof {
            assert(is_d == is_digit_char(c));
            assert(is_l == is_lowercase_char(c));
            assert(is_u == is_uppercase_char(c));
            assert(is_sym == is_symbol_char(c));
            assert(is_sp == is_space_char(c));
            assert(is_sim == is_similar_char(c));
        }
        let similar_excluded = cfg.exclude_similar_characters && is_sim;
        let allowed = (cfg.numbers && is_d && !similar_excluded)
            || (cfg.lowercase_letters && is_l && !similar_excluded)
            || (cfg.uppercase_letters && is_u && !similar_excluded)
            || (cfg.symbols && is_sym && !similar_excluded)
            || (cfg.spaces && is_sp);
        if !allowed {
            proof {
                assert(!char_allowed(*cfg, c));
            }
            return false;
        }
        if is_d {
            has_digit = true;
        }
        if is_l {
            has_lower = true;
        }
        if is_u {
            has_upper = true;
        }
        if is_sym {
            has_symbol = true;
        }
        if is_sp {
            has_space = true;
        }
        i += 1;
    }
    proof {
        assert(has_digit == contains_digit(s@));
        assert(has_lower == contains_lowercase(s@));
        assert(has_upper == contains_uppercase(s@));
        assert(has_symbol == contains_symbol(s@));
        assert(has_space == contains_space(s@));
    }
    if !cfg.strict {
        return true;
    }
    (!cfg.numbers || has_digit) && (!cfg.lowercase_letters || has_lower)
        && (!cfg.uppercase_letters || has_upper) && (!cfg.symbols || has_symbol)
        && (!cfg.spaces || has_space)
}

/// Law: a configuration with length at least four and at least one enabled
/// class is accepted by the generator — apart from strict configurations
/// that enable more classes than the length can hold — and every valid
/// password for it has exactly the configured length.
pub proof fn lemma_accepted_and_length_exact(cfg: PasswordConfig, s: Seq<char>)
    requires
        cfg.length >= 4,
        has_enabled_class(cfg),
        !(cfg.strict && enabled_class_count(cfg) > cfg.length),
        satisfies(cfg, s),
    ensures
        generation_succeeds(cfg),
        s.len() == cfg.length,
{
}

/// Law: in strict mode with digits, lowercase, uppercase and symbols all
/// enabled, a valid password contains at least one character of each of the
/// four classes.
pub proof fn lemma_strict_covers_all_classes(cfg: PasswordConfig, s: Seq<char>)
    requires
        satisfies(cfg, s),
        cfg.strict,
        cfg.numbers,
        cfg.lowercase_letters,
        cfg.uppercase_letters,
        cfg.symbols,
    ensures
        contains_digit(s),
        contains_lowercase(s),
        contains_uppercase(s),
        contains_symbol(s),
{
}

/// Law: when spaces are disabled, a valid password contains no space.
pub proof fn lemma_no_space(cfg: PasswordConfig, s: Seq<char>)
    requires
        satisfies(cfg, s),
        !cfg.spaces,
    ensures
        forall|i: int| 0 <= i < s.len() ==> #[trigger] s[i] != ' ',
{
    assert forall|i: int| 0 <= i < s.len() implies #[trigger] s[i] != ' ' by {
        assert(char_allowed(cfg, s[i]));
    }
}

} // verus!
