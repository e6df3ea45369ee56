use vstd::prelude::*;

verus! {

/// Which character categories a generated password may draw from, and how
/// many characters it has. If every category is switched off there is
/// nothing to draw from and generation reports the configuration error.
pub struct PasswordConfig {
    pub length: usize,
    pub uppercase: bool,
    pub lowercase: bool,
    pub numbers: bool,
    pub symbols: bool,
}

impl Default for PasswordConfig {
    /// Sixteen characters drawn from all four categories.
    fn default() -> (d: Self)
        ensures
            d.length == 16,
            d.uppercase,
            d.lowercase,
            d.numbers,
            d.symbols,
    {
        PasswordConfig {
            length: 16,
            uppercase: true,
            lowercase: true,
            numbers: true,
            symbols: true,
        }
    }
}

pub open spec fn uppercase_chars() -> Seq<char> {
    "ABCDEFGHIJKLMNOPQRSTUVWXYZ"@
}

pub open spec fn lowercase_chars() -> Seq<char> {
    "abcdefghijklmnopqrstuvwxyz"@
}

pub open spec fn digit_chars() -> Seq<char> {
    "0123456789"@
}

pub open spec fn symbol_chars() -> Seq<char> {
    "!@#$%^&*()_+-=[]{}|;:,.<>?"@
}

/// The character set a configuration draws from: the enabled category
/// alphabets concatenated in the fixed order uppercase, lowercase,
/// numbers, symbols.
pub open spec fn spec_charset(c: PasswordConfig) -> Seq<char> {
    (if c.uppercase {
        uppercase_chars()
    } else {
        Seq::<char>::empty()
    }) + (if c.lowercase {
        lowercase_chars()
    } else {
        Seq::<char>::empty()
    }) + (if c.numbers {
        digit_chars()
    } else {
        Seq::<char>::empty()
    }) + (if c.symbols {
        symbol_chars()
    } else {
        Seq::<char>::empty()
    })
}

/// The sentinel reported when every category is disabled.
pub open spec fn empty_charset_message() -> Seq<char> {
    "Error: No character set selected."@
}

fn build_charset(config: &PasswordConfig) -> (s: String)
    ensures
        s@ == spec_charset(*config),
{
    let mut s = String::new();
    if config.uppercase {
        s.append("ABCDEFGHIJKLMNOPQRSTUVWXYZ");
    }
    if config.lowercase {
        s.append("abcdefghijklmnopqrstuvwxyz");
    }
    if config.numbers {
        s.append("0123456789");
    }
    if config.symbols {
        s.append("!@#$%^&*()_+-=[]{}|;:,.<>?");
    }
    proof {
        assert(s@ =~= spec_charset(*config));
    }
    s
}

/// Draws `config.length` independent uniform samples from the enabled
/// category alphabets. With every category disabled the defined error
/// indicator comes back instead; a length of zero gives the empty string.
pub fn generate_password(config: &PasswordConfig) -> (r: String)
    ensures
        spec_charset(*config).len() > 0 <==> (config.uppercase || config.lowercase
            || config.numbers || config.symbols),
        spec_charset(*config).len() == 0 ==> r@ == empty_charset_message(),
        spec_charset(*config).len() > 0 ==> r@.len() == config.length,
        spec_charset(*config).len() > 0 ==> forall|i: int|
            0 <= i < r@.len() ==> spec_charset(*config).contains(#[trigger] r@[i]),
{
    proof {
        reveal_strlit("ABCDEFGHIJKLMNOPQRSTUVWXYZ");
        reveal_strlit("abcdefghijklmnopqrstuvwxyz");
        reveal_strlit("0123456789");
        reveal_strlit("!@#$%^&*()_+-=[]{}|;:,.<>?");
    }
    let charset = build_charset(config);
    let n = charset.as_str().unicode_len();
    if n == 0 {
        return String::from_str("Error: No character set selected.");
    }
    let mut out = String::new();
    let mut i: usize = 0;
    while i < config.length
        invariant
            i <= config.length,
            out@.len() == i,
            charset@ == spec_charset(*config),
            n == charset@.len(),
            n > 0,
            forall|j: int| 0 <= j < out@.len() ==> charset@.contains(#[trigger] out@[j]),
        decreases config.length - i,
    {
        let idx = crate::rng::random_index(n);
        let piece = charset.as_str().substring_char(idx, idx + 1);
        proof {
            assert(piece@[0] == charset@[idx as int]);
            assert(charset@.contains(charset@[idx as int]));
        }
        out.append(piece);
        i = i + 1;
    }
    out
}

} // verus!
