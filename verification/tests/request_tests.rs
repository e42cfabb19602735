use mimic_keyboard::config::{MimicConfig, MIMIC3_HOST, MIMIC3_LENGTH, MIMIC3_NOISE, MIMIC3_VOICE};
use mimic_keyboard::encoding::percent_encode;
use mimic_keyboard::request::{build_body, build_request, build_url, Method};

fn default_config(ssml: bool) -> MimicConfig {
    MimicConfig::new(
        String::from(MIMIC3_HOST),
        MIMIC3_VOICE,
        String::from(MIMIC3_NOISE),
        String::from(MIMIC3_LENGTH),
        ssml,
    )
}

fn occurrences(text: &str, part: &str) -> usize {
    text.matches(part).count()
}

#[test]
fn encodes_the_default_voice() {
    assert_eq!(percent_encode("en_US/vctk_low#p236"), "en_US%2Fvctk_low%23p236");
}

#[test]
fn keeps_unreserved_characters() {
    assert_eq!(percent_encode("AZaz09-._~"), "AZaz09-._~");
    assert_eq!(percent_encode(""), "");
}

#[test]
fn encodes_delimiters_and_spaces() {
    assert_eq!(percent_encode("a b&c=d?e"), "a%20b%26c%3Dd%3Fe");
    assert_eq!(percent_encode("%"), "%25");
    assert_eq!(percent_encode("\n"), "%0A");
}

#[test]
fn encodes_each_byte_of_a_wide_character() {
    assert_eq!(percent_encode("\u{e9}"), "%C3%A9");
    assert_eq!(percent_encode("\u{20ac}"), "%E2%82%AC");
    assert_eq!(percent_encode("\u{1f600}"), "%F0%9F%98%80");
}

#[test]
fn config_holds_the_encoded_voice() {
    let config = default_config(false);
    assert_eq!(config.host, "http://tts.local:59125");
    assert_eq!(config.voice, "en_US%2Fvctk_low%23p236");
    assert_eq!(config.noise, "0.33");
    assert_eq!(config.length, "1.2");
    assert!(!config.ssml);
}

#[test]
fn url_of_the_default_settings() {
    let config = default_config(false);
    assert_eq!(
        build_url(&config),
        "http://tts.local:59125/api/tts?voice=en_US%2Fvctk_low%23p236&noiseScale=0.33&lengthScale=1.2&ssml=false&audioTarget=client"
    );
}

#[test]
fn url_with_ssml_and_other_settings() {
    let config = MimicConfig::new(
        String::from("http://localhost:8080"),
        "de_DE/thorsten low",
        String::from("0.5"),
        String::from("1"),
        true,
    );
    assert_eq!(
        build_url(&config),
        "http://localhost:8080/api/tts?voice=de_DE%2Fthorsten%20low&noiseScale=0.5&lengthScale=1&ssml=true&audioTarget=client"
    );
}

#[test]
fn url_names_each_parameter_once() {
    for ssml in [false, true] {
        let url = build_url(&default_config(ssml));
        let query = url.split_once('?').unwrap().1;
        let names: Vec<&str> = query.split('&').map(|pair| pair.split_once('=').unwrap().0).collect();
        assert_eq!(names, vec!["voice", "noiseScale", "lengthScale", "ssml", "audioTarget"]);
        assert_eq!(occurrences(&url, "audioTarget=client"), 1);
        assert_eq!(occurrences(&url, "?"), 1);
        assert_eq!(occurrences(&url, "&"), 4);
        assert_eq!(occurrences(&url, "="), 5);
    }
}

#[test]
fn voice_with_delimiters_stays_one_parameter() {
    let config = MimicConfig::new(
        String::from(MIMIC3_HOST),
        "x&ssml=true#y",
        String::from(MIMIC3_NOISE),
        String::from(MIMIC3_LENGTH),
        false,
    );
    let url = build_url(&config);
    assert_eq!(occurrences(&url, "&"), 4);
    assert_eq!(occurrences(&url, "ssml="), 1);
    assert!(url.contains("voice=x%26ssml%3Dtrue%23y&"));
}

#[test]
fn plain_body_is_the_utterance() {
    assert_eq!(build_body(false, "hello world"), "hello world");
    assert_eq!(build_body(false, ""), "");
    assert_eq!(build_body(false, "<speak>a & b</speak>"), "<speak>a & b</speak>");
}

#[test]
fn ssml_body_wraps_the_utterance() {
    assert_eq!(build_body(true, "hello world"), "<speak>hello world</speak>");
    assert_eq!(build_body(true, ""), "<speak></speak>");
}

#[test]
fn ssml_body_escapes_nothing() {
    assert_eq!(build_body(true, "a < b & \"c\" </speak>"), "<speak>a < b & \"c\" </speak></speak>");
}

#[test]
fn request_is_a_post_of_body_to_url() {
    let config = default_config(true);
    let request = build_request(&config, "hi");
    assert_eq!(request.method, Method::Post);
    assert_eq!(request.url, build_url(&config));
    assert_eq!(request.body, "<speak>hi</speak>");
}

#[test]
fn url_does_not_depend_on_the_utterance() {
    let config = default_config(false);
    let first = build_request(&config, "one");
    let second = build_request(&config, "two & three?");
    assert_eq!(first.url, second.url);
    assert_eq!(first.body, "one");
    assert_eq!(second.body, "two & three?");
}
