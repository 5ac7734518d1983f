use wallet_relay::config::load_extractor_config;
use wallet_relay::dispatch::format_wallet_data;
use wallet_relay::extract::{
    compact, examine, extract_wallet_data, is_noise_char, mentions_any, stamp, ExtractorConfig,
    Finding, PatternError, SkipReason,
};
use wallet_relay::models::WalletData;
use wallet_relay::text::chars_of;

const ADDRESS: &str = "7xKXtg2CW87d97TXJSDpbD5jBkheTqA83TZRuJosgAsU";

fn defaults() -> ExtractorConfig {
    match load_extractor_config(None, None, None, None) {
        Ok(c) => c,
        Err(e) => panic!("default settings refused: {:?}", e),
    }
}

fn looks_like_timestamp(t: &str) -> bool {
    let c: Vec<char> = t.chars().collect();
    c.len() == 19
        && c[4] == '-'
        && c[7] == '-'
        && c[10] == ' '
        && c[13] == ':'
        && c[16] == ':'
        && c.iter().enumerate().all(|(i, ch)| match i {
            4 | 7 | 10 | 13 | 16 => true,
            _ => ch.is_ascii_digit(),
        })
}

#[test]
fn address_is_extracted_and_forwarded_verbatim() {
    assert_eq!(ADDRESS.chars().count(), 44);
    let text = format!("new $SOL token, address: {}", ADDRESS);
    let record = extract_wallet_data(&defaults(), &text);
    assert_eq!(record.wallet_address.as_deref(), Some(ADDRESS));
    assert_eq!(record.wallet_name, None);
    assert!(record.wallet_time.is_some());
    let message = format_wallet_data(&record);
    assert!(message.contains(&format!("🌍 Wallet Address: {} ", ADDRESS)));
    assert!(message.contains("👤 Wallet Name: N/A "));
}

#[test]
fn excluded_keyword_gives_empty_record() {
    let text = format!("pumfun launch on SOL: {}", ADDRESS);
    let record = extract_wallet_data(&defaults(), &text);
    assert_eq!(record.wallet_address, None);
    assert_eq!(record.wallet_name, None);
    assert_eq!(record.wallet_time, None);
    assert_eq!(examine(&defaults(), &text), Finding::Skipped(SkipReason::ExcludedWord));
}

#[test]
fn excluded_keyword_is_matched_in_any_case() {
    let text = format!("UPDATE: SOL {}", ADDRESS);
    let record = extract_wallet_data(&defaults(), &text);
    assert!(record.has_no_signal());
    assert_eq!(record.wallet_time, None);
}

#[test]
fn name_is_extracted_in_lower_case() {
    let record = extract_wallet_data(&defaults(), "$MoonCoin is live, buy SOL now");
    assert_eq!(record.wallet_name.as_deref(), Some("$mooncoin"));
    assert_eq!(record.wallet_address, None);
    assert!(record.wallet_time.is_some());
}

#[test]
fn missing_include_word_gives_empty_record() {
    let text = format!("$MoonCoin {}", ADDRESS);
    let config = defaults();
    let record = extract_wallet_data(&config, &text);
    assert!(record.has_no_signal());
    assert_eq!(record.wallet_time, None);
    assert_eq!(examine(&config, &text), Finding::Skipped(SkipReason::MissingIncludeWord));
}

#[test]
fn include_word_is_matched_in_any_case() {
    let record = extract_wallet_data(&defaults(), "buy sol, see $luna");
    assert_eq!(record.wallet_name.as_deref(), Some("$luna"));
}

#[test]
fn empty_and_blank_text_give_empty_record() {
    let config = defaults();
    assert!(extract_wallet_data(&config, "").has_no_signal());
    assert!(extract_wallet_data(&config, " \n\t  ").has_no_signal());
    assert_eq!(extract_wallet_data(&config, "").wallet_time, None);
}

#[test]
fn prefix_inside_a_word_is_no_name() {
    let config = defaults();
    let record = extract_wallet_data(&config, "SOL price is 5$now and rising");
    assert!(record.has_no_signal());
    assert_eq!(
        examine(&config, "SOL price is 5$now and rising"),
        Finding::Skipped(SkipReason::NothingFound)
    );
}

#[test]
fn first_prefixed_word_is_taken() {
    let record = extract_wallet_data(&defaults(), "SOL: not$this $First and $Second");
    assert_eq!(record.wallet_name.as_deref(), Some("$first"));
}

#[test]
fn address_wins_over_name() {
    let text = format!("$MoonCoin on SOL: {}", ADDRESS);
    let record = extract_wallet_data(&defaults(), &text);
    assert_eq!(record.wallet_address.as_deref(), Some(ADDRESS));
    assert_eq!(record.wallet_name, None);
}

#[test]
fn noise_is_removed_before_the_pattern_is_applied() {
    let broken = "7xKXtg2CW87d97TXJSDp (bD5jBkheTqA83TZ)\nRuJosg🔥AsU";
    let text = format!("SOL: {}", broken);
    let record = extract_wallet_data(&defaults(), &text);
    let address = record.wallet_address.expect("address");
    assert_eq!(address, ADDRESS);
    assert!(address.chars().all(|c| !is_noise_char(c)));
}

#[test]
fn capture_time_has_the_documented_layout() {
    let record = extract_wallet_data(&defaults(), "SOL $abc");
    let time = record.wallet_time.expect("time");
    assert!(looks_like_timestamp(&time), "unexpected layout: {}", time);
}

#[test]
fn extraction_twice_agrees_but_for_the_time() {
    let config = defaults();
    let text = format!("SOL: {} $name", ADDRESS);
    let first = extract_wallet_data(&config, &text);
    let second = extract_wallet_data(&config, &text);
    assert_eq!(first.wallet_address, second.wallet_address);
    assert_eq!(first.wallet_name, second.wallet_name);
    assert_eq!(first.wallet_time.is_some(), second.wallet_time.is_some());
}

#[test]
fn compact_removes_exactly_the_noise_characters() {
    assert_eq!(compact("a (b)\n c\r🔥d\te"), "abcd\te");
    assert_eq!(compact(""), "");
    assert!(is_noise_char('('));
    assert!(is_noise_char(')'));
    assert!(is_noise_char(' '));
    assert!(is_noise_char('\n'));
    assert!(is_noise_char('\r'));
    assert!(is_noise_char('🔥'));
    assert!(!is_noise_char('\t'));
    assert!(!is_noise_char('a'));
}

#[test]
fn mentions_any_lowers_the_words() {
    let lower = chars_of("an update came");
    assert!(mentions_any(&lower, &vec!["UPDATE".to_string()]));
    assert!(!mentions_any(&lower, &vec!["pumfun".to_string()]));
    assert!(!mentions_any(&lower, &Vec::new()));
    assert!(mentions_any(&lower, &vec!["zzz".to_string(), String::new()]));
}

#[test]
fn stamp_keeps_the_time_only_with_a_signal() {
    let skipped = stamp(Finding::Skipped(SkipReason::NothingFound), "t".to_string());
    assert_eq!(skipped.wallet_time, None);
    let address = stamp(Finding::Address("A".to_string()), "t".to_string());
    assert_eq!(address.wallet_address.as_deref(), Some("A"));
    assert_eq!(address.wallet_name, None);
    assert_eq!(address.wallet_time.as_deref(), Some("t"));
    let name = stamp(Finding::Name("$n".to_string()), "t".to_string());
    assert_eq!(name.wallet_address, None);
    assert_eq!(name.wallet_name.as_deref(), Some("$n"));
    assert_eq!(name.wallet_time.as_deref(), Some("t"));
}

#[test]
fn invalid_pattern_is_refused() {
    let refused = ExtractorConfig::new("SOL".to_string(), Vec::new(), "[unclosed".to_string(), '$');
    assert_eq!(refused.err(), Some(PatternError::InvalidAddressPattern));
    let accepted = ExtractorConfig::new("SOL".to_string(), Vec::new(), "[0-9]+".to_string(), '#');
    let config = accepted.expect("valid pattern");
    assert_eq!(config.include_word(), "SOL");
    assert_eq!(config.address_pattern(), "[0-9]+");
    assert_eq!(config.name_start_char(), '#');
    assert!(config.skip_words().is_empty());
}

#[test]
fn custom_settings_are_honoured() {
    let config = ExtractorConfig::new(
        "eth".to_string(),
        vec!["Scam".to_string()],
        "0x[0-9a-f]{4}".to_string(),
        '#',
    )
    .expect("valid pattern");
    let found = extract_wallet_data(&config, "ETH drop at 0xBEEF 0xbeef");
    assert_eq!(found.wallet_address.as_deref(), Some("0xbeef"));
    let named = extract_wallet_data(&config, "ETH drop #Gem $other");
    assert_eq!(named.wallet_name.as_deref(), Some("#gem"));
    assert!(extract_wallet_data(&config, "eth SCAM 0xbeef").has_no_signal());
}

#[test]
fn skip_reason_lines() {
    assert_eq!(SkipReason::ExcludedWord.message(), "Skipping message: contains words to skip.");
    assert_eq!(
        SkipReason::MissingIncludeWord.message(),
        "Skipping message: does not contain required words to include."
    );
    assert_eq!(SkipReason::NothingFound.message(), "No wallet address or valid name found.");
}

#[test]
fn record_constructors() {
    let r = WalletData::new(Some("a".to_string()), None, Some("t".to_string()));
    assert_eq!(r.wallet_address.as_deref(), Some("a"));
    assert_eq!(r.wallet_name, None);
    assert_eq!(r.wallet_time.as_deref(), Some("t"));
    assert!(!r.has_no_signal());
    assert!(WalletData::empty().has_no_signal());
    assert!(!WalletData::with_name("n".to_string(), "t".to_string()).has_no_signal());
    assert!(!WalletData::with_address("a".to_string(), "t".to_string()).has_no_signal());
}
