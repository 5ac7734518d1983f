//! The extractor: from the text of a message to a wallet record, or to the
//! empty record when the message carries nothing worth forwarding.

use vstd::prelude::*;

use crate::models::{Signal, WalletData, WalletRecord};
use crate::text::{
    chars_of, contains, contains_text, find_prefixed_word, first_prefixed_word,
    lemma_prefixed_word_found, lowercase, occurs_at, push_char, text_view, to_lowercase, views,
    word_spans,
};

verus! {

/// `regex::Error`: what `regex::Regex::new` gives for a pattern it refuses.
/// Its content is not looked into.
#[verifier::external_type_specification]
#[verifier::external_body]
pub struct ExRegexError(regex::Error);

/// Whether `regex::Regex::new` accepts a pattern.
pub uninterp spec fn pattern_compiles(pattern: Seq<char>) -> bool;

/// The text of the leftmost match that `regex::Regex::find` reports for a
/// pattern in a haystack, if there is one.
pub uninterp spec fn first_match(pattern: Seq<char>, haystack: Seq<char>) -> Option<Seq<char>>;

/// `regex::Regex::new` followed by `regex::Regex::find` and `Match::as_str`.
///
/// The call fails exactly when the pattern does not compile. Otherwise it
/// gives the text of the first match of the pattern in the haystack, which is
/// a contiguous part of the haystack. Both depend on the two texts alone.
#[verifier::external_body]
pub(crate) fn find_first_match(pattern: &str, haystack: &str) -> (found: Result<
    Option<String>,
    regex::Error,
>)
    ensures
        found is Ok <==> pattern_compiles(pattern@),
        found matches Ok(m) ==> text_view(m) == first_match(pattern@, haystack@),
        found matches Ok(Some(m)) ==> contains_text(haystack@, m@),
{
    match regex::Regex::new(pattern) {
        Ok(re) => match re.find(haystack) {
            Some(m) => Ok(Some(m.as_str().to_string())),
            None => Ok(None),
        },
        Err(e) => Err(e),
    }
}

/// The layout of a capture time: year, month, day, hour, minute, second.
pub open spec fn timestamp_layout() -> Seq<char> {
    "%Y-%m-%d %H:%M:%S"@
}

/// `chrono::Local::now`, formatted with `DateTime::format` under the given
/// layout. Nothing is claimed of the text: it depends on the clock and on the
/// machine's time zone. Only the one layout is admitted, which chrono can
/// format; a clock set before 1970 makes chrono panic.
#[verifier::external_body]
pub(crate) fn local_time_text(layout: &str) -> (stamp: String)
    requires
        layout@ == timestamp_layout(),
{
    chrono::Local::now().format(layout).to_string()
}

/// What the extractor is configured with, as mathematical values.
pub struct ExtractorSettings {
    /// A message must contain this word, in any letter case.
    pub include_word: Seq<char>,
    /// A message that contains one of these words, in any letter case, is dropped.
    pub skip_words: Seq<Seq<char>>,
    /// Regular expression that an address matches.
    pub address_pattern: Seq<char>,
    /// First character of a word that is taken as a name.
    pub name_start_char: char,
}

/// Why a set of extractor settings was refused.
#[derive(Debug, Clone, Copy, PartialEq, Eq)]
pub enum PatternError {
    /// The address pattern is no valid regular expression.
    InvalidAddressPattern,
}

/// Validated configuration of the extractor. Its address pattern compiles.
pub struct ExtractorConfig {
    include_word: String,
    skip_words: Vec<String>,
    address_pattern: String,
    name_start_char: char,
}

impl View for ExtractorConfig {
    type V = ExtractorSettings;

    closed spec fn view(&self) -> ExtractorSettings {
        ExtractorSettings {
            include_word: self.include_word@,
            skip_words: views(self.skip_words@),
            address_pattern: self.address_pattern@,
            name_start_char: self.name_start_char,
        }
    }
}

impl ExtractorConfig {
    #[verifier::type_invariant]
    spec fn pattern_is_valid(&self) -> bool {
        pattern_compiles(self.address_pattern@)
    }

    /// Checks the address pattern and builds the configuration. The pattern is
    /// refused exactly when it does not compile, which is found out by a
    /// search in the empty text.
    pub fn new(
        include_word: String,
        skip_words: Vec<String>,
        address_pattern: String,
        name_start_char: char,
    ) -> (config: Result<ExtractorConfig, PatternError>)
        ensures
            config is Ok <==> pattern_compiles(address_pattern@),
            config matches Ok(c) ==> c@ == (ExtractorSettings {
                include_word: include_word@,
                skip_words: views(skip_words@),
                address_pattern: address_pattern@,
                name_start_char,
            }),
            config matches Err(e) ==> e == PatternError::InvalidAddressPattern,
    {
        match find_first_match(address_pattern.as_str(), "") {
            Ok(_) => Ok(
                ExtractorConfig { include_word, skip_words, address_pattern, name_start_char },
            ),
            Err(_) => Err(PatternError::InvalidAddressPattern),
        }
    }

    /// The word a message must contain.
    pub fn include_word(&self) -> (word: &str)
        ensures
            word@ == self@.include_word,
    {
        self.include_word.as_str()
    }

    /// The words that rule a message out.
    pub fn skip_words(&self) -> (words: &Vec<String>)
        ensures
            views(words@) == self@.skip_words,
    {
        &self.skip_words
    }

    /// The regular expression of an address.
    pub fn address_pattern(&self) -> (pattern: &str)
        ensures
            pattern@ == self@.address_pattern,
            pattern_compiles(pattern@),
    {
        proof {
            use_type_invariant(self);
        }
        self.address_pattern.as_str()
    }

    /// The character a name begins with.
    pub fn name_start_char(&self) -> (c: char)
        ensures
            c == self@.name_start_char,
    {
        self.name_start_char
    }
}

/// Characters that are removed before the address pattern is applied.
pub open spec fn is_noise(c: char) -> bool {
    c == '(' || c == ')' || c == '🔥' || c == ' ' || c == '\n' || c == '\r'
}

/// `text` without its noise characters.
pub open spec fn compacted(text: Seq<char>) -> Seq<char> {
    text.filter(|c: char| !is_noise(c))
}

/// The message contains one of the skip words, letter case aside.
pub open spec fn is_excluded(settings: ExtractorSettings, text: Seq<char>) -> bool {
    exists|k: int|
        0 <= k < settings.skip_words.len() && contains_text(
            lowercase(text),
            lowercase(#[trigger] settings.skip_words[k]),
        )
}

/// The message contains the include word, letter case aside.
pub open spec fn is_included(settings: ExtractorSettings, text: Seq<char>) -> bool {
    contains_text(lowercase(text), lowercase(settings.include_word))
}

/// Why a message was dropped without a record.
#[derive(Debug, Clone, Copy, PartialEq, Eq, Structural)]
pub enum SkipReason {
    /// The message contains a skip word.
    ExcludedWord,
    /// The message lacks the include word.
    MissingIncludeWord,
    /// The message passed both filters but holds neither an address nor a name.
    NothingFound,
}

/// The line reported for a message that is dropped.
pub open spec fn skip_line(reason: SkipReason) -> Seq<char> {
    match reason {
        SkipReason::ExcludedWord => "Skipping message: contains words to skip."@,
        SkipReason::MissingIncludeWord =>
            "Skipping message: does not contain required words to include."@,
        SkipReason::NothingFound => "No wallet address or valid name found."@,
    }
}

impl SkipReason {
    /// The line reported for a message that is dropped for this reason.
    pub fn message(&self) -> (line: String)
        ensures
            line@ == skip_line(*self),
    {
        match self {
            SkipReason::ExcludedWord => "Skipping message: contains words to skip.".to_owned(),
            SkipReason::MissingIncludeWord =>
                "Skipping message: does not contain required words to include.".to_owned(),
            SkipReason::NothingFound => "No wallet address or valid name found.".to_owned(),
        }
    }
}

/// The outcome of examining a message, as a mathematical value.
pub enum Examination {
    Skipped(SkipReason),
    Address(Seq<char>),
    Name(Seq<char>),
}

impl Examination {
    /// The outcome without the reason for a skip.
    pub open spec fn signal(self) -> Signal {
        match self {
            Examination::Skipped(_) => Signal::Empty,
            Examination::Address(a) => Signal::Address(a),
            Examination::Name(n) => Signal::Name(n),
        }
    }
}

/// An address wins over a name; with neither there is nothing to report.
pub open spec fn select(address: Option<Seq<char>>, name: Option<Seq<char>>) -> Examination {
    match (address, name) {
        (Some(a), _) => Examination::Address(a),
        (None, Some(n)) => Examination::Name(n),
        (None, None) => Examination::Skipped(SkipReason::NothingFound),
    }
}

/// What examining a message gives under the given settings.
///
/// Exclusion is tested first, then inclusion. An address is looked for in the
/// text as received, less its noise characters; a name in the lowercased text.
pub open spec fn examination(settings: ExtractorSettings, text: Seq<char>) -> Examination {
    if is_excluded(settings, text) {
        Examination::Skipped(SkipReason::ExcludedWord)
    } else if !is_included(settings, text) {
        Examination::Skipped(SkipReason::MissingIncludeWord)
    } else {
        select(
            first_match(settings.address_pattern, compacted(text)),
            first_prefixed_word(lowercase(text), settings.name_start_char),
        )
    }
}

/// What a message carries under the given settings.
pub open spec fn extraction(settings: ExtractorSettings, text: Seq<char>) -> Signal {
    examination(settings, text).signal()
}

/// `record` is a result of extraction from `text`: it is well formed and holds
/// the signal of the text. Its capture time is whatever the clock gave.
pub open spec fn extracted_from(
    settings: ExtractorSettings,
    text: Seq<char>,
    record: WalletRecord,
) -> bool {
    record.well_formed() && record.signal() == extraction(settings, text)
}

/// The outcome of examining a message: an address or a name, not yet stamped
/// with a time, or the reason why the message is dropped.
#[derive(Debug, PartialEq, Eq)]
pub enum Finding {
    Skipped(SkipReason),
    Address(String),
    Name(String),
}

impl View for Finding {
    type V = Examination;

    open spec fn view(&self) -> Examination {
        match self {
            Finding::Skipped(reason) => Examination::Skipped(*reason),
            Finding::Address(a) => Examination::Address(a@),
            Finding::Name(n) => Examination::Name(n@),
        }
    }
}

/// Tests a character against the noise set.
pub fn is_noise_char(c: char) -> (b: bool)
    ensures
        b == is_noise(c),
{
    c == '(' || c == ')' || c == '🔥' || c == ' ' || c == '\n' || c == '\r'
}

/// Removes the noise characters from `text`.
pub fn compact(text: &str) -> (out: String)
    ensures
        out@ == compacted(text@),
{
    let chars = chars_of(text);
    let mut out = String::new();
    let mut i: usize = 0;
    assert(chars@.take(0) =~= Seq::<char>::empty());
    while i < chars.len()
        invariant
            i <= chars.len(),
            out@ == compacted(chars@.take(i as int)),
        decreases chars.len() - i,
    {
        let c = chars[i];
        proof {
            assert(chars@.take(i + 1).drop_last() =~= chars@.take(i as int));
            assert(chars@.take(i + 1).last() == c);
            reveal_with_fuel(Seq::filter, 2);
        }
        if !is_noise_char(c) {
            push_char(&mut out, c);
        }
        i += 1;
    }
    assert(chars@.take(chars.len() as int) =~= chars@);
    out
}

/// Whether `lower` contains the lowercase form of one of `words`.
pub fn mentions_any(lower: &Vec<char>, words: &Vec<String>) -> (found: bool)
    ensures
        found == exists|k: int|
            0 <= k < words.len() && contains_text(lower@, lowercase(#[trigger] views(words@)[k])),
{
    let mut i: usize = 0;
    while i < words.len()
        invariant
            i <= words.len(),
            forall|k: int|
                0 <= k < i ==> !contains_text(lower@, lowercase(#[trigger] views(words@)[k])),
        decreases words.len() - i,
    {
        let word = to_lowercase(words[i].as_str());
        let needle = chars_of(word.as_str());
        assert(views(words@)[i as int] == words@[i as int]@);
        if contains(lower, &needle) {
            return true;
        }
        i += 1;
    }
    false
}

/// Runs the keyword filters and the two searches, and reports what was found.
/// An address that is reported stands as one piece in the text without its
/// noise characters.
pub fn examine(config: &ExtractorConfig, message_text: &str) -> (finding: Finding)
    ensures
        finding@ == examination(config@, message_text@),
        finding matches Finding::Address(a) ==> contains_text(compacted(message_text@), a@),
{
    let lower_text = to_lowercase(message_text);
    let lower = chars_of(lower_text.as_str());
    if mentions_any(&lower, config.skip_words()) {
        return Finding::Skipped(SkipReason::ExcludedWord);
    }
    let required = to_lowercase(config.include_word());
    let required_chars = chars_of(required.as_str());
    if !contains(&lower, &required_chars) {
        return Finding::Skipped(SkipReason::MissingIncludeWord);
    }
    let cleaned = compact(message_text);
    let address = match find_first_match(config.address_pattern(), cleaned.as_str()) {
        Ok(found) => found,
        Err(_) => None,
    };
    match address {
        Some(a) => Finding::Address(a),
        None => match find_prefixed_word(&lower, config.name_start_char()) {
            Some(n) => Finding::Name(n),
            None => Finding::Skipped(SkipReason::NothingFound),
        },
    }
}

/// The record of an examination's outcome, stamped with a capture time. The
/// time is kept only where there is a signal.
pub open spec fn stamped(outcome: Examination, observed_at: Seq<char>) -> WalletRecord {
    match outcome {
        Examination::Skipped(_) => WalletRecord { address: None, name: None, observed_at: None },
        Examination::Address(a) => WalletRecord {
            address: Some(a),
            name: None,
            observed_at: Some(observed_at),
        },
        Examination::Name(n) => WalletRecord {
            address: None,
            name: Some(n),
            observed_at: Some(observed_at),
        },
    }
}

/// Turns a finding into a record, stamped with the given capture time.
pub fn stamp(finding: Finding, observed_at: String) -> (record: WalletData)
    ensures
        record@ == stamped(finding@, observed_at@),
        record@.well_formed(),
        record@.signal() == finding@.signal(),
{
    match finding {
        Finding::Skipped(_) => WalletData::empty(),
        Finding::Address(a) => WalletData::with_address(a, observed_at),
        Finding::Name(n) => WalletData::with_name(n, observed_at),
    }
}

/// Stamps a finding with the local time of the call. A skipped message gives
/// the empty record, and the clock is not read for it.
pub fn stamp_now(finding: Finding) -> (record: WalletData)
    ensures
        exists|observed_at: Seq<char>| record@ == #[trigger] stamped(finding@, observed_at),
        record@.well_formed(),
        record@.signal() == finding@.signal(),
{
    match finding {
        Finding::Skipped(_) => {
            let record = WalletData::empty();
            assert(record@ == stamped(finding@, Seq::empty()));
            record
        },
        _ => {
            let now = local_time_text("%Y-%m-%d %H:%M:%S");
            stamp(finding, now)
        },
    }
}

/// Extracts wallet information from the text of a message.
///
/// The result is empty when the message contains a skip word, lacks the
/// include word, or holds neither an address nor a name. Otherwise it carries
/// the address, or else the name, with the local time of the call.
pub fn extract_wallet_data(config: &ExtractorConfig, message_text: &str) -> (record: WalletData)
    ensures
        extracted_from(config@, message_text@, record@),
        record@.address matches Some(a) ==> contains_text(compacted(message_text@), a),
{
    let finding = examine(config, message_text);
    stamp_now(finding)
}

/// A message that contains a skip word gives the empty record, whether or not
/// it contains the include word.
pub proof fn excluded_text_gives_empty_record(
    settings: ExtractorSettings,
    text: Seq<char>,
    record: WalletRecord,
)
    requires
        is_excluded(settings, text),
        extracted_from(settings, text, record),
    ensures
        record.is_empty(),
{
}

/// A message that lacks the include word gives the empty record.
pub proof fn text_without_include_word_gives_empty_record(
    settings: ExtractorSettings,
    text: Seq<char>,
    record: WalletRecord,
)
    requires
        !is_included(settings, text),
        extracted_from(settings, text, record),
    ensures
        record.is_empty(),
{
}

/// A message that passes both keyword filters and whose text, noise removed,
/// holds a match of the address pattern gives a record with that address, no
/// name, and a capture time.
pub proof fn address_match_gives_address_record(
    settings: ExtractorSettings,
    text: Seq<char>,
    record: WalletRecord,
)
    requires
        !is_excluded(settings, text),
        is_included(settings, text),
        first_match(settings.address_pattern, compacted(text)) is Some,
        extracted_from(settings, text, record),
    ensures
        record.address == first_match(settings.address_pattern, compacted(text)),
        record.name is None,
        record.observed_at is Some,
{
}

/// A message that passes both keyword filters, holds no match of the address
/// pattern, and whose lowercase form has a whitespace-delimited word that
/// begins with the name prefix gives a record with the first such word as its
/// name, no address, and a capture time.
pub proof fn prefixed_word_gives_name_record(
    settings: ExtractorSettings,
    text: Seq<char>,
    record: WalletRecord,
    i: int,
    j: int,
)
    requires
        !is_excluded(settings, text),
        is_included(settings, text),
        first_match(settings.address_pattern, compacted(text)) is None,
        word_spans(lowercase(text), i, j),
        lowercase(text)[i] == settings.name_start_char,
        extracted_from(settings, text, record),
    ensures
        record.address is None,
        record.name is Some,
        record.name == first_prefixed_word(lowercase(text), settings.name_start_char),
        record.observed_at is Some,
{
    lemma_prefixed_word_found(lowercase(text), settings.name_start_char, i, j);
}

/// Two extractions from the same text under the same settings agree on the
/// address and on the name, and carry a capture time together or not at all.
pub proof fn extraction_is_repeatable(
    settings: ExtractorSettings,
    text: Seq<char>,
    first: WalletRecord,
    second: WalletRecord,
)
    requires
        extracted_from(settings, text, first),
        extracted_from(settings, text, second),
    ensures
        first.address == second.address,
        first.name == second.name,
        first.observed_at is Some <==> second.observed_at is Some,
{
}

/// A text that stands as one piece in a compacted text holds no noise
/// character: an extracted address is free of them.
pub proof fn part_of_compacted_text_has_no_noise(text: Seq<char>, part: Seq<char>)
    requires
        contains_text(compacted(text), part),
    ensures
        forall|k: int| 0 <= k < part.len() ==> !is_noise(#[trigger] part[k]),
{
    let i = choose|i: int| occurs_at(compacted(text), part, i);
    let pred = |c: char| !is_noise(c);
    assert forall|k: int| 0 <= k < part.len() implies !is_noise(#[trigger] part[k]) by {
        assert(part[k] == compacted(text).subrange(i, i + part.len())[k]);
        text.lemma_filter_pred(pred, i + k);
    }
}

} // verus!
