use vstd::prelude::*;
use vstd::string::StringExecFns;
use crate::contract::{Response, check_response, response_well_formed};
use crate::error::{SanitizeError, contains, message_of, lemma_contains_suffix};

verus! {

/// How many bytes of unparseable engine output a decode error keeps.
pub const MAX_EXCERPT_BYTES: usize = 4096;

/// The text that `String::from_utf8_lossy` makes of `b`.
pub uninterp spec fn utf8_lossy_of(b: Seq<u8>) -> Seq<char>;

/// Relies on String::from_utf8_lossy: decodes UTF-8, putting U+FFFD for each
/// invalid sequence; the text depends on the bytes alone and no bytes give no
/// text.
#[verifier::external_body]
fn lossy_text(b: &[u8]) -> (r: String)
    ensures
        r@ == utf8_lossy_of(b@),
        b@.len() == 0 ==> r@.len() == 0,
{
    String::from_utf8_lossy(b).into_owned()
}

/// The part of the engine's output that a decode error keeps.
pub open spec fn excerpt_of(raw: Seq<u8>) -> Seq<u8> {
    if raw.len() <= MAX_EXCERPT_BYTES {
        raw
    } else {
        raw.take(MAX_EXCERPT_BYTES as int)
    }
}

/// Decides on the engine's exit. On a success status the result is the output
/// channel's text, to be parsed as a response; on a failure status it is an
/// engine failure carrying the error channel's text, and the output is not
/// looked at.
pub fn exit_verdict(success: bool, stdout: &Vec<u8>, stderr: &Vec<u8>) -> (r: Result<
    String,
    SanitizeError,
>)
    ensures
        success ==> (r matches Ok(t) && t@ == utf8_lossy_of(stdout@)),
        !success ==> (r matches Err(SanitizeError::EngineFailure { stderr: e }) && e@
            == utf8_lossy_of(stderr@)),
{
    if success {
        Ok(lossy_text(stdout.as_slice()))
    } else {
        Err(SanitizeError::EngineFailure { stderr: lossy_text(stderr.as_slice()) })
    }
}

/// The decode error for output `raw` that did not parse, for the reason
/// `cause`; it keeps at most `MAX_EXCERPT_BYTES` bytes of the output.
pub fn decode_failure(cause: String, raw: &Vec<u8>) -> (e: SanitizeError)
    ensures
        (e matches SanitizeError::Decode { cause: c, raw: t } && c == cause && t@ == utf8_lossy_of(
            excerpt_of(raw@),
        )),
{
    let n: usize = if raw.len() <= MAX_EXCERPT_BYTES {
        raw.len()
    } else {
        MAX_EXCERPT_BYTES
    };
    let mut kept: Vec<u8> = Vec::new();
    let mut i: usize = 0;
    while i < n
        invariant
            n <= raw@.len(),
            i <= n,
            kept@ == raw@.take(i as int),
        decreases n - i,
    {
        kept.push(raw[i]);
        i = i + 1;
        assert(kept@ =~= raw@.take(i as int));
    }
    assert(kept@ =~= excerpt_of(raw@));
    SanitizeError::Decode { cause, raw: lossy_text(kept.as_slice()) }
}

/// The cause a decode error gives for a response that parsed but is not well
/// formed against the request's text.
pub open spec fn malformed_cause() -> Seq<char> {
    "响应与数据约定不一致：发现项或统计数据有误"@
}

/// Finishes a round trip once the output text has been parsed. The request's
/// text is `source_len` units long. A parsed response that is well formed
/// against it is returned unchanged; one that is not, and a parse failure,
/// become a decode error that shows the output.
pub fn decode_outcome(parsed: Result<Response, String>, source_len: usize, raw: &Vec<u8>) -> (r:
    Result<Response, SanitizeError>)
    ensures
        parsed matches Ok(resp) ==> (r is Ok <==> response_well_formed(resp, source_len as nat)),
        parsed matches Ok(resp) ==> (r matches Ok(x) ==> x == resp),
        parsed matches Ok(resp) ==> (r is Err ==> (r matches Err(
            SanitizeError::Decode { cause: c, raw: t },
        ) && c@ == malformed_cause() && t@ == utf8_lossy_of(excerpt_of(raw@)))),
        parsed matches Err(cause) ==> (r matches Err(SanitizeError::Decode { cause: c, raw: t })
            && c == cause && t@ == utf8_lossy_of(excerpt_of(raw@))),
{
    match parsed {
        Ok(resp) => if check_response(&resp, source_len) {
            Ok(resp)
        } else {
            let cause = String::from_str(
                "响应与数据约定不一致：发现项或统计数据有误",
            );
            Err(decode_failure(cause, raw))
        },
        Err(cause) => Err(decode_failure(cause, raw)),
    }
}

/// The file-selection dialog: it has no host integration and always fails.
pub fn open_file_dialog() -> (r: Result<Option<String>, SanitizeError>)
    ensures
        (r matches Err(SanitizeError::NotConfigured)),
{
    Err(SanitizeError::NotConfigured)
}

/// The message of an engine failure shows the engine's error channel.
pub proof fn law_engine_failure_shows_stderr(stderr: String)
    ensures
        contains(message_of(SanitizeError::EngineFailure { stderr }), stderr@),
{
    lemma_contains_suffix("Go 引擎执行失败: "@, stderr@);
}

/// The message of a decode error shows the kept output.
pub proof fn law_decode_failure_shows_output(cause: String, raw: String)
    ensures
        contains(message_of(SanitizeError::Decode { cause, raw }), raw@),
{
    lemma_contains_suffix("解析响应失败: "@ + cause@ + ". 输出: "@, raw@);
}

/// Output no longer than the excerpt bound is kept whole.
pub proof fn law_short_output_kept_whole(raw: Seq<u8>)
    requires
        raw.len() <= MAX_EXCERPT_BYTES,
    ensures
        excerpt_of(raw) == raw,
{
}

} // verus!
