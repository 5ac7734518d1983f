//! Settings of the process, read from raw key/value texts. A value that is
//! absent takes its default, except the credentials and the recipient list,
//! which have none.

use vstd::prelude::*;

use crate::extract::{pattern_compiles, ExtractorConfig, ExtractorSettings};
use crate::text::{chars_of, split, split_on, split_trimmed, trimmed_pieces, views};

verus! {

/// Why the settings cannot be used.
#[derive(Debug, Clone, Copy, PartialEq, Eq, Structural)]
pub enum ConfigError {
    /// No API identifier was given.
    MissingApiId,
    /// The API identifier is no 32-bit decimal number.
    InvalidApiId,
    /// No API secret was given.
    MissingApiHash,
    /// No recipient usernames were given.
    MissingRecipients,
    /// The address pattern is no valid regular expression.
    InvalidAddressPattern,
    /// The name prefix was given as an empty text.
    EmptyNamePrefix,
}

/// An ASCII decimal digit.
pub open spec fn is_digit(c: char) -> bool {
    '0' <= c <= '9'
}

/// The number that a text of decimal digits denotes.
pub open spec fn decimal_value(digits: Seq<char>) -> int
    decreases digits.len(),
{
    if digits.len() == 0 {
        0
    } else {
        decimal_value(digits.drop_last()) * 10 + (digits.last() as int - '0' as int)
    }
}

pub open spec fn all_digits(s: Seq<char>) -> bool {
    forall|k: int| 0 <= k < s.len() ==> is_digit(#[trigger] s[k])
}

/// The digits of a number text: what follows an optional sign.
pub open spec fn unsigned_part(s: Seq<char>) -> Seq<char> {
    if s.len() > 0 && (s[0] == '-' || s[0] == '+') {
        s.drop_first()
    } else {
        s
    }
}

/// The integer that a number text denotes.
pub open spec fn signed_value(s: Seq<char>) -> int {
    if s.len() > 0 && s[0] == '-' {
        -decimal_value(unsigned_part(s))
    } else {
        decimal_value(unsigned_part(s))
    }
}

/// The 32-bit integer written as `s`: an optional `+` or `-`, then one or more
/// decimal digits and nothing else, with a value in range.
pub open spec fn parsed_i32(s: Seq<char>) -> Option<i32> {
    if unsigned_part(s).len() > 0 && all_digits(unsigned_part(s)) && i32::MIN <= signed_value(s)
        <= i32::MAX {
        Some(signed_value(s) as i32)
    } else {
        None
    }
}

proof fn lemma_decimal_value_grows(digits: Seq<char>, k: int)
    requires
        all_digits(digits),
        0 <= k <= digits.len(),
    ensures
        0 <= decimal_value(digits.take(k)) <= decimal_value(digits),
    decreases digits.len() - k,
{
    if k == digits.len() {
        assert(digits.take(k) =~= digits);
        lemma_decimal_value_nonnegative(digits);
    } else {
        lemma_decimal_value_grows(digits, k + 1);
        assert(digits.take(k + 1).drop_last() =~= digits.take(k));
        assert(is_digit(digits[k]));
        assert(digits.take(k + 1).last() == digits[k]);
        lemma_decimal_value_nonnegative(digits.take(k));
    }
}

proof fn lemma_decimal_value_nonnegative(digits: Seq<char>)
    requires
        all_digits(digits),
    ensures
        0 <= decimal_value(digits),
    decreases digits.len(),
{
    if digits.len() > 0 {
        assert(is_digit(digits.last()));
        assert forall|k: int| 0 <= k < digits.drop_last().len() implies is_digit(
            #[trigger] digits.drop_last()[k],
        ) by {
            assert(digits.drop_last()[k] == digits[k]);
        }
        lemma_decimal_value_nonnegative(digits.drop_last());
    }
}

/// Reads a 32-bit integer in decimal notation.
pub fn parse_i32(s: &str) -> (value: Option<i32>)
    ensures
        value == parsed_i32(s@),
{
    let chars = chars_of(s);
    let n: usize = chars.len();
    let negative: bool = n > 0 && chars[0] == '-';
    let start: usize = if n > 0 && (chars[0] == '-' || chars[0] == '+') {
        1
    } else {
        0
    };
    let ghost digits = unsigned_part(s@);
    assert(digits =~= chars@.subrange(start as int, n as int));
    if start == n {
        return None;
    }
    let mut acc: i64 = 0;
    let mut i: usize = start;
    while i < n
        invariant
            start <= i <= n,
            n == chars.len(),
            digits == unsigned_part(s@),
            digits == chars@.subrange(start as int, n as int),
            negative == (s@.len() > 0 && s@[0] == '-'),
            forall|k: int| 0 <= k < i - start ==> is_digit(#[trigger] digits[k]),
            acc == decimal_value(digits.take(i - start)),
            0 <= acc <= 2147483648,
        decreases n - i,
    {
        let c = chars[i];
        assert(digits[i - start] == c);
        if !('0' <= c && c <= '9') {
            assert(!is_digit(digits[i - start]));
            return None;
        }
        let d: i64 = (c as u32 - '0' as u32) as i64;
        proof {
            assert(digits.take(i - start + 1).drop_last() =~= digits.take(i - start));
            assert(digits.take(i - start + 1).last() == c);
        }
        if acc * 10 + d > 2147483648 {
            proof {
                if all_digits(digits) {
                    lemma_decimal_value_grows(digits, i - start + 1);
                }
            }
            return None;
        }
        acc = acc * 10 + d;
        i += 1;
    }
    assert(digits.take(n - start) =~= digits);
    if negative {
        Some((-acc) as i32)
    } else if acc <= 2147483647 {
        Some(acc as i32)
    } else {
        None
    }
}

/// The API identifier: present, and a 32-bit decimal number.
pub fn get_api_id(raw: Option<&str>) -> (api_id: Result<i32, ConfigError>)
    ensures
        api_id == (match raw {
            None => Err::<i32, ConfigError>(ConfigError::MissingApiId),
            Some(s) => match parsed_i32(s@) {
                Some(v) => Ok(v),
                None => Err(ConfigError::InvalidApiId),
            },
        }),
{
    match raw {
        None => Err(ConfigError::MissingApiId),
        Some(s) => match parse_i32(s) {
            Some(v) => Ok(v),
            None => Err(ConfigError::InvalidApiId),
        },
    }
}

/// The API secret: present, and taken as it is.
pub fn get_api_hash(raw: Option<&str>) -> (api_hash: Result<String, ConfigError>)
    ensures
        raw is None ==> api_hash == Err::<String, ConfigError>(ConfigError::MissingApiHash),
        raw matches Some(s) ==> api_hash matches Ok(h) && h@ == s@,
{
    match raw {
        None => Err(ConfigError::MissingApiHash),
        Some(s) => Ok(s.to_owned()),
    }
}

/// The given text, or the default where none was given.
pub open spec fn or_default(raw: Option<&str>, default: Seq<char>) -> Seq<char> {
    match raw {
        Some(s) => s@,
        None => default,
    }
}

fn value_or(raw: Option<&str>, default: &str) -> (value: String)
    ensures
        value@ == or_default(raw, default@),
{
    match raw {
        Some(s) => s.to_owned(),
        None => default.to_owned(),
    }
}

/// The path of the session file, `user.session` unless one is given.
pub fn session_file(raw: Option<&str>) -> (path: String)
    ensures
        path@ == or_default(raw, "user.session"@),
{
    value_or(raw, "user.session")
}

/// `s` without the elements that occurred before: of equal texts the first stays.
pub open spec fn distinct(s: Seq<Seq<char>>) -> Seq<Seq<char>>
    decreases s.len(),
{
    if s.len() == 0 {
        Seq::empty()
    } else {
        let before = distinct(s.drop_last());
        if before.contains(s.last()) {
            before
        } else {
            before.push(s.last())
        }
    }
}

/// `distinct` holds no text twice, and holds exactly the texts of its argument.
pub proof fn lemma_distinct(s: Seq<Seq<char>>)
    ensures
        distinct(s).no_duplicates(),
        forall|x: Seq<char>| distinct(s).contains(x) <==> s.contains(x),
    decreases s.len(),
{
    if s.len() > 0 {
        let init = s.drop_last();
        let last = s.last();
        let before = distinct(init);
        let d = distinct(s);
        lemma_distinct(init);
        assert forall|x: Seq<char>| d.contains(x) <==> s.contains(x) by {
            assert(s.contains(x) <==> (init.contains(x) || x == last)) by {
                if s.contains(x) {
                    let i = choose|i: int| 0 <= i < s.len() && s[i] == x;
                    if i < init.len() {
                        assert(init[i] == x);
                    }
                }
                if init.contains(x) {
                    let i = choose|i: int| 0 <= i < init.len() && init[i] == x;
                    assert(s[i] == x);
                }
                if x == last {
                    assert(s[s.len() - 1] == x);
                }
            }
            if !before.contains(last) {
                if d.contains(x) {
                    let j = choose|j: int| 0 <= j < d.len() && d[j] == x;
                    if j < before.len() {
                        assert(before[j] == x);
                    }
                }
                if before.contains(x) {
                    let j = choose|j: int| 0 <= j < before.len() && before[j] == x;
                    assert(d[j] == x);
                }
                if x == last {
                    assert(d[before.len() as int] == x);
                }
            }
        }
    }
}

fn holds_name(names: &Vec<String>, name: &String) -> (found: bool)
    ensures
        found == views(names@).contains(name@),
{
    let mut i: usize = 0;
    while i < names.len()
        invariant
            i <= names.len(),
            forall|k: int| 0 <= k < i ==> views(names@)[k] != name@,
        decreases names.len() - i,
    {
        assert(views(names@)[i as int] == names@[i as int]@);
        if names[i] == *name {
            return true;
        }
        i += 1;
    }
    false
}

/// The characters of an optional raw value.
pub open spec fn raw_view(raw: Option<&str>) -> Option<Seq<char>> {
    match raw {
        Some(s) => Some(s@),
        None => None,
    }
}

/// The recipient usernames that a raw text lists: its comma-separated pieces,
/// trimmed, each once, in the order of their first occurrence.
pub open spec fn recipients_of(raw: Seq<char>) -> Seq<Seq<char>> {
    distinct(trimmed_pieces(raw, ','))
}

/// The source channel names that a raw text lists: its comma-separated
/// pieces, trimmed. Without a text there is one name, the empty one.
pub open spec fn channels_of(raw: Option<Seq<char>>) -> Seq<Seq<char>> {
    match raw {
        Some(s) => trimmed_pieces(s, ','),
        None => trimmed_pieces(Seq::empty(), ','),
    }
}

/// Reads the recipient usernames. The list is required.
pub fn load_target_usernames(raw: Option<&str>) -> (usernames: Result<Vec<String>, ConfigError>)
    ensures
        raw is None ==> usernames == Err::<Vec<String>, ConfigError>(
            ConfigError::MissingRecipients,
        ),
        raw matches Some(s) ==> usernames matches Ok(names) && views(names@) == recipients_of(s@)
            && views(names@).no_duplicates(),
{
    match raw {
        None => Err(ConfigError::MissingRecipients),
        Some(s) => {
            let pieces = split_trimmed(s, ',');
            let mut names: Vec<String> = Vec::new();
            let mut i: usize = 0;
            assert(views(pieces@).take(0) =~= Seq::<Seq<char>>::empty());
            assert(views(names@) =~= Seq::<Seq<char>>::empty());
            while i < pieces.len()
                invariant
                    i <= pieces.len(),
                    views(names@) == distinct(views(pieces@).take(i as int)),
                decreases pieces.len() - i,
            {
                let ghost before = views(names@);
                assert(views(pieces@).take(i + 1).drop_last() =~= views(pieces@).take(i as int));
                assert(views(pieces@).take(i + 1).last() == pieces@[i as int]@);
                if !holds_name(&names, &pieces[i]) {
                    names.push(pieces[i].clone());
                    assert(views(names@) =~= before.push(pieces@[i as int]@));
                }
                i += 1;
            }
            proof {
                assert(views(pieces@).take(pieces.len() as int) =~= views(pieces@));
                lemma_distinct(views(pieces@));
            }
            Ok(names)
        },
    }
}

/// Reads the source channel names.
pub fn load_target_channels(raw: Option<&str>) -> (names: Vec<String>)
    ensures
        views(names@) == channels_of(raw_view(raw)),
{
    match raw {
        Some(s) => split_trimmed(s, ','),
        None => {
            let names = split_trimmed("", ',');
            proof {
                reveal_strlit("");
                assert(""@ =~= Seq::<char>::empty());
            }
            names
        },
    }
}

/// The settings of the extractor under the given raw values.
///
/// Defaults: include word `SOL`, skip words `update,pumfun`, a pattern of 32
/// to 44 base58 characters, name prefix `$`. The skip words are the
/// comma-separated pieces of their text, untrimmed; the name prefix is the
/// first character of its text.
pub open spec fn extractor_settings(
    include_word: Option<&str>,
    skip_words: Option<&str>,
    address_pattern: Option<&str>,
    name_prefix: Option<&str>,
) -> ExtractorSettings {
    ExtractorSettings {
        include_word: or_default(include_word, "SOL"@),
        skip_words: split_on(or_default(skip_words, "update,pumfun"@), ','),
        address_pattern: or_default(address_pattern, "[1-9A-HJ-NP-Za-km-z]{32,44}"@),
        name_start_char: or_default(name_prefix, "$"@)[0],
    }
}

/// Builds the extractor's configuration from raw values, each optional.
///
/// An empty name prefix is refused, then a pattern that does not compile;
/// everything else is accepted.
pub fn load_extractor_config(
    include_word: Option<&str>,
    skip_words: Option<&str>,
    address_pattern: Option<&str>,
    name_prefix: Option<&str>,
) -> (config: Result<ExtractorConfig, ConfigError>)
    ensures
        ({
            let settings = extractor_settings(include_word, skip_words, address_pattern, name_prefix);
            let no_prefix = or_default(name_prefix, "$"@).len() == 0;
            match config {
                Ok(c) => !no_prefix && pattern_compiles(settings.address_pattern) && c@
                    == settings,
                Err(e) => if no_prefix {
                    e == ConfigError::EmptyNamePrefix
                } else {
                    e == ConfigError::InvalidAddressPattern && !pattern_compiles(
                        settings.address_pattern,
                    )
                },
            }
        }),
{
    let required = value_or(include_word, "SOL");
    let skip_text = value_or(skip_words, "update,pumfun");
    let skips = split(skip_text.as_str(), ',');
    let pattern = value_or(address_pattern, "[1-9A-HJ-NP-Za-km-z]{32,44}");
    let prefix_text = value_or(name_prefix, "$");
    let prefix_chars = chars_of(prefix_text.as_str());
    if prefix_chars.len() == 0 {
        return Err(ConfigError::EmptyNamePrefix);
    }
    match ExtractorConfig::new(required, skips, pattern, prefix_chars[0]) {
        Ok(c) => Ok(c),
        Err(_) => Err(ConfigError::InvalidAddressPattern),
    }
}

} // verus!
