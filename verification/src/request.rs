//! The request that is sent for one utterance.

use vstd::prelude::*;
use vstd::string::*;
use crate::config::MimicConfig;
use crate::encoding::{encoded_text, is_query_safe_text};
use crate::query::{
    after_first, before_first, free_of, lemma_cut_at_first, lemma_parse_query_text, pair_text,
    parse_query, query_text,
};

verus! {

/// The HTTP method of a request. The speech service is only ever posted to.
#[derive(Clone, Copy, PartialEq, Eq, Structural, Debug)]
pub enum Method {
    Post,
}

/// A request to the speech service: where it goes and what it carries.
#[derive(Clone, Debug)]
pub struct SynthesisRequest {
    pub method: Method,
    pub url: String,
    pub body: String,
}

/// `hyper::Request`, the request as the HTTP library holds it. Nothing is
/// known here of what is inside one.
#[verifier::external_type_specification]
#[verifier::external_body]
#[verifier::reject_recursive_types(T)]
pub struct ExRequest<T>(hyper::Request<T>);

/// `hyper::Body`, the body of a request or response as the HTTP library
/// holds it.
#[verifier::external_type_specification]
#[verifier::external_body]
pub struct ExBody(hyper::Body);

/// `hyper::http::Error`, what the HTTP library's request builder fails
/// with.
#[verifier::external_type_specification]
#[verifier::external_body]
pub struct ExHttpError(hyper::http::Error);

/// Whether the HTTP library takes a text as the target of a request, which
/// it decides by its own reading of the URI grammar.
pub uninterp spec fn is_request_target(url: Seq<char>) -> bool;

/// How a flag is written in a query.
pub open spec fn flag_text(flag: bool) -> Seq<char> {
    if flag {
        "true"@
    } else {
        "false"@
    }
}

/// The URL of every request made under these settings.
pub open spec fn url_text(config: &MimicConfig) -> Seq<char> {
    config.host@ + "/api/tts?voice="@ + config.voice@ + "&noiseScale="@ + config.noise@
        + "&lengthScale="@ + config.length@ + "&ssml="@ + flag_text(config.ssml)
        + "&audioTarget=client"@
}

/// The body sent for an utterance: the text as it is, or, for SSML, the text
/// between `<speak>` and `</speak>` with nothing in it escaped.
pub open spec fn body_text(ssml: bool, utterance: Seq<char>) -> Seq<char> {
    if ssml {
        "<speak>"@ + utterance + "</speak>"@
    } else {
        utterance
    }
}

/// The parameters of the query, in the order in which they are written.
pub open spec fn query_pairs(config: &MimicConfig) -> Seq<(Seq<char>, Seq<char>)> {
    seq![
        ("voice"@, config.voice@),
        ("noiseScale"@, config.noise@),
        ("lengthScale"@, config.length@),
        ("ssml"@, flag_text(config.ssml)),
        ("audioTarget"@, "client"@),
    ]
}

/// Writes the URL of the speech service's synthesis endpoint with the
/// session's settings as its query.
pub fn build_url(config: &MimicConfig) -> (url: String)
    ensures
        url@ == url_text(config),
{
    let mut url = String::new();
    url.append(config.host.as_str());
    url.append("/api/tts?voice=");
    url.append(config.voice.as_str());
    url.append("&noiseScale=");
    url.append(config.noise.as_str());
    url.append("&lengthScale=");
    url.append(config.length.as_str());
    url.append("&ssml=");
    if config.ssml {
        url.append("true");
    } else {
        url.append("false");
    }
    url.append("&audioTarget=client");
    assert(url@ =~= url_text(config));
    url
}

/// Writes the body for an utterance.
pub fn build_body(ssml: bool, utterance: &str) -> (body: String)
    ensures
        body@ == body_text(ssml, utterance@),
{
    let mut body = String::new();
    if ssml {
        body.append("<speak>");
        body.append(utterance);
        body.append("</speak>");
    } else {
        body.append(utterance);
    }
    assert(body@ =~= body_text(ssml, utterance@));
    body
}

/// Builds the request for one utterance. Nothing is sent.
pub fn build_request(config: &MimicConfig, utterance: &str) -> (request: SynthesisRequest)
    ensures
        request.method == Method::Post,
        request.url@ == url_text(config),
        request.body@ == body_text(config.ssml, utterance@),
{
    SynthesisRequest {
        method: Method::Post,
        url: build_url(config),
        body: build_body(config.ssml, utterance),
    }
}

/// Makes the request as the HTTP library holds it, through
/// `hyper::Request::builder` with its `method`, `uri` and `body`.
///
/// Trusted: the builder fails only where it does not take the URL as a
/// target, and whether it does depends on the URL's text alone. That the
/// request made carries the method, URL and body given is not stated here.
#[verifier::external_body]
fn assemble(method: Method, url: &str, body: &str) -> (assembled: Result<
    hyper::Request<hyper::Body>,
    hyper::http::Error,
>)
    ensures
        assembled is Ok <==> is_request_target(url@),
{
    let method = match method {
        Method::Post => hyper::Method::POST,
    };
    hyper::Request::builder().method(method).uri(url).body(hyper::Body::from(body.to_owned()))
}

/// Makes the request for one utterance in the form in which it is sent, or
/// says that the URL is no target of a request. Nothing is sent.
pub fn outbound_request(request: &SynthesisRequest) -> (outbound: Option<
    hyper::Request<hyper::Body>,
>)
    ensures
        outbound is Some <==> is_request_target(request.url@),
{
    match assemble(request.method, request.url.as_str(), request.body.as_str()) {
        Ok(outbound) => Some(outbound),
        Err(_) => None,
    }
}

/// Without SSML the body is the utterance, character for character.
pub proof fn lemma_plain_body_is_utterance(utterance: Seq<char>)
    ensures
        body_text(false, utterance) == utterance,
{
}

/// With SSML the body is `<speak>`, the utterance and `</speak>`, and the
/// utterance stands in it unchanged behind the seven characters of the
/// opening tag.
pub proof fn lemma_ssml_body_wraps_utterance(utterance: Seq<char>)
    ensures
        body_text(true, utterance) == "<speak>"@ + utterance + "</speak>"@,
        body_text(true, utterance).len() == utterance.len() + 15,
        body_text(true, utterance).subrange(7, 7 + utterance.len() as int) == utterance,
{
    reveal_strlit("<speak>");
    reveal_strlit("</speak>");
    assert(body_text(true, utterance).subrange(7, 7 + utterance.len() as int) =~= utterance);
}

/// The URL is the host, the endpoint's path, `?` and the query's five
/// parameters as they are written.
pub proof fn lemma_url_is_host_path_query(config: &MimicConfig)
    ensures
        url_text(config) == config.host@ + "/api/tts"@ + seq!['?'] + query_text(
            query_pairs(config),
        ),
{
    reveal_strlit("/api/tts?voice=");
    reveal_strlit("&noiseScale=");
    reveal_strlit("&lengthScale=");
    reveal_strlit("&ssml=");
    reveal_strlit("&audioTarget=client");
    reveal_strlit("/api/tts");
    reveal_strlit("voice");
    reveal_strlit("noiseScale");
    reveal_strlit("lengthScale");
    reveal_strlit("ssml");
    reveal_strlit("audioTarget");
    reveal_strlit("client");
    let pairs = query_pairs(config);
    let p4 = pairs.drop_last();
    let p3 = p4.drop_last();
    let p2 = p3.drop_last();
    let p1 = p2.drop_last();
    assert(query_text(p1) == pair_text(pairs[0]));
    assert(query_text(p2) == query_text(p1) + seq!['&'] + pair_text(pairs[1]));
    assert(query_text(p3) == query_text(p2) + seq!['&'] + pair_text(pairs[2]));
    assert(query_text(p4) == query_text(p3) + seq!['&'] + pair_text(pairs[3]));
    assert(query_text(pairs) == query_text(p4) + seq!['&'] + pair_text(pairs[4]));
    assert(url_text(config) =~= config.host@ + "/api/tts"@ + seq!['?'] + query_text(pairs));
}

/// The query names each of `voice`, `noiseScale`, `lengthScale`, `ssml` and
/// `audioTarget` once and nothing else, and `audioTarget` is `client`.
pub proof fn lemma_query_names_each_parameter_once(config: &MimicConfig)
    ensures
        query_pairs(config).len() == 5,
        query_pairs(config)[0].0 == "voice"@,
        query_pairs(config)[1].0 == "noiseScale"@,
        query_pairs(config)[2].0 == "lengthScale"@,
        query_pairs(config)[3].0 == "ssml"@,
        query_pairs(config)[4] == ("audioTarget"@, "client"@),
        forall|i: int, j: int|
            0 <= i < j < 5 ==> query_pairs(config)[i].0 != query_pairs(config)[j].0,
{
    reveal_strlit("voice");
    reveal_strlit("noiseScale");
    reveal_strlit("lengthScale");
    reveal_strlit("ssml");
    reveal_strlit("audioTarget");
    let pairs = query_pairs(config);
    assert(pairs[0].0.len() == 5);
    assert(pairs[1].0.len() == 10);
    assert(pairs[2].0.len() == 11);
    assert(pairs[3].0.len() == 4);
    assert(pairs[4].0.len() == 11);
    assert(pairs[2].0[0] == 'l');
    assert(pairs[4].0[0] == 'a');
}

/// Read back, the URL's query holds the five parameters and no other, each
/// once and with the value the settings give it: what stands behind the
/// first `?` of the URL parses to the list of `voice`, `noiseScale`,
/// `lengthScale`, `ssml` and `audioTarget`.
///
/// This holds where the host holds no `?` and the voice and the two scales
/// hold none of `&`, `=`, `?` and `#`, as an encoded voice and a decimal
/// number never do.
pub proof fn lemma_url_query_reads_back(config: &MimicConfig)
    requires
        free_of(config.host@, '?'),
        is_query_safe_text(config.voice@),
        is_query_safe_text(config.noise@),
        is_query_safe_text(config.length@),
    ensures
        before_first(url_text(config), '?') == config.host@ + "/api/tts"@,
        parse_query(after_first(url_text(config), '?')) == query_pairs(config),
{
    reveal_strlit("/api/tts");
    reveal_strlit("voice");
    reveal_strlit("noiseScale");
    reveal_strlit("lengthScale");
    reveal_strlit("ssml");
    reveal_strlit("audioTarget");
    reveal_strlit("client");
    reveal_strlit("true");
    reveal_strlit("false");
    let pairs = query_pairs(config);
    let base = config.host@ + "/api/tts"@;
    lemma_url_is_host_path_query(config);
    assert(free_of(base, '?')) by {
        assert forall|i: int| 0 <= i < base.len() implies base[i] != '?' by {
            if i < config.host@.len() {
                assert(base[i] == config.host@[i]);
            } else {
                assert(base[i] == "/api/tts"@[i - config.host@.len()]);
            }
        }
    }
    lemma_cut_at_first(base, query_text(pairs), '?');
    assert forall|i: int| 0 <= i < pairs.len() implies {
        &&& free_of((#[trigger] pairs[i]).0, '&')
        &&& free_of(pairs[i].0, '=')
        &&& free_of(pairs[i].1, '&')
    } by {
        assert(is_query_safe_text(pairs[i].0));
        assert(is_query_safe_text(pairs[i].1));
    }
    lemma_parse_query_text(pairs);
}

/// The voice in the query is the percent-encoded form of the identifier the
/// settings were made from, and the URL is the same for every utterance.
pub proof fn lemma_voice_is_encoded_once(
    config: &MimicConfig,
    voice: Seq<char>,
    first: Seq<char>,
    second: Seq<char>,
)
    requires
        config.voice@ == encoded_text(voice),
    ensures
        query_pairs(config)[0] == ("voice"@, encoded_text(voice)),
        request_text(config, first).0 == request_text(config, second).0,
{
}

/// The URL and the body that `build_request` gives for an utterance.
pub open spec fn request_text(config: &MimicConfig, utterance: Seq<char>) -> (Seq<char>, Seq<char>) {
    (url_text(config), body_text(config.ssml, utterance))
}

} // verus!
