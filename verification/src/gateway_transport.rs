//! The transport rules of the model gateway's HTTP calls: request and
//! response size limits, the accepted response content types, the bounded
//! reading of a response body, the error a transport failure is reported
//! with, and the summary of a request's payload.
use vstd::prelude::*;
use vstd::utf8::{decode_utf8, valid_utf8};
use crate::domain::ModelInputImage;
use crate::errors::{app_error, concat, AppError, AppErrorCode};
use crate::model_text::{find, find_chars};
use crate::text::{chars_of, decimal, decimal_string, lower_seq, lower_str};

verus! {

/// The default cap on a model response body: 32 MiB.
pub const DEFAULT_MAX_RESPONSE_BODY_BYTES: u64 = 32 * 1024 * 1024;

/// The default cap on a serialized model request: 128 MiB.
pub const DEFAULT_MAX_REQUEST_BODY_BYTES: u64 = 128 * 1024 * 1024;

/// Bounded transport limits for model gateway HTTP calls; the timeouts are
/// in milliseconds.
#[derive(Clone, Copy, Debug)]
pub struct GatewayLimits {
    pub max_response_body_bytes: u64,
    pub max_request_body_bytes: u64,
    pub connect_timeout_millis: u64,
    pub first_byte_timeout_millis: u64,
    pub idle_chunk_timeout_millis: u64,
}

impl Default for GatewayLimits {
    /// 32 MiB responses, 128 MiB requests, a 10 s connect timeout and 30 s
    /// for the first byte and between chunks.
    fn default() -> (r: Self)
        ensures
            r.max_response_body_bytes == DEFAULT_MAX_RESPONSE_BODY_BYTES,
            r.max_request_body_bytes == DEFAULT_MAX_REQUEST_BODY_BYTES,
            r.connect_timeout_millis == 10_000,
            r.first_byte_timeout_millis == 30_000,
            r.idle_chunk_timeout_millis == 30_000,
    {
        GatewayLimits {
            max_response_body_bytes: DEFAULT_MAX_RESPONSE_BODY_BYTES,
            max_request_body_bytes: DEFAULT_MAX_REQUEST_BODY_BYTES,
            connect_timeout_millis: 10_000,
            first_byte_timeout_millis: 30_000,
            idle_chunk_timeout_millis: 30_000,
        }
    }
}

/// Refuses a serialized request larger than the limit, before any network
/// operation.
pub fn check_request_size(request_bytes: u64, limits: &GatewayLimits) -> (r: Result<(), AppError>)
    ensures
        r is Err <==> request_bytes > limits.max_request_body_bytes,
        r matches Err(e) ==> e.code == AppErrorCode::ModelRequestTooLarge,
{
    if request_bytes > limits.max_request_body_bytes {
        let mut details = concat("request_bytes=", decimal_string(request_bytes).as_str());
        details.append(" limit_bytes=");
        details.append(decimal_string(limits.max_request_body_bytes).as_str());
        return Err(
            app_error(
                AppErrorCode::ModelRequestTooLarge,
                "Model isteği çok büyük.",
                Some(details),
                Some("Daha az sayıda belge veya görselle yeniden deneyin.".to_owned()),
            ),
        );
    }
    Ok(())
}

/// A response content type the gateway reads (compared in ASCII lower
/// case): JSON, plain text, an octet stream, a wildcard, or none given.
pub open spec fn content_type_safe(value: Seq<char>) -> bool {
    let v = lower_seq(value);
    ||| find(v, "json"@) >= 0
    ||| find(v, "text/plain"@) >= 0
    ||| find(v, "application/octet-stream"@) >= 0
    ||| find(v, "*/*"@) >= 0
    ||| v.len() == 0
}

fn contains_chars(v: &Vec<char>, pat: &str) -> (r: bool)
    requires
        pat@.len() > 0,
    ensures
        r == (find(v@, pat@) >= 0),
{
    let p = chars_of(pat);
    find_chars(v, &p, 0).is_some()
}

/// Refuses a response whose declared content type the gateway does not
/// read; a response without the header is read.
pub fn check_content_type(status: u16, content_type: Option<&str>) -> (r: Result<(), AppError>)
    ensures
        r is Err <==> (content_type matches Some(v) && !content_type_safe(v@)),
        r matches Err(e) ==> e.code == AppErrorCode::ModelResponseInvalidContentType,
{
    let value = match content_type {
        Some(v) => v,
        None => {
            return Ok(());
        },
    };
    let lowered = lower_str(value);
    let v = chars_of(lowered.as_str());
    proof {
        reveal_strlit("json");
        reveal_strlit("text/plain");
        reveal_strlit("application/octet-stream");
        reveal_strlit("*/*");
    }
    let safe = contains_chars(&v, "json") || contains_chars(&v, "text/plain") || contains_chars(
        &v,
        "application/octet-stream",
    ) || contains_chars(&v, "*/*") || v.len() == 0;
    if !safe {
        let mut details = concat("status=", decimal_string(status as u64).as_str());
        details.append(" content_type=");
        details.append(lowered.as_str());
        return Err(
            app_error(
                AppErrorCode::ModelResponseInvalidContentType,
                "Model yanıtı beklenen biçimde değil.",
                Some(details),
                Some("Model sürümünü kontrol edip yeniden deneyin.".to_owned()),
            ),
        );
    }
    Ok(())
}

/// `String::from_utf8`: the text the bytes encode, or an error when they
/// are not UTF-8.
#[verifier::external_body]
fn string_from_utf8(bytes: Vec<u8>) -> (r: Option<String>)
    ensures
        r is Some <==> valid_utf8(bytes@),
        r matches Some(s) ==> s@ == decode_utf8(bytes@),
{
    String::from_utf8(bytes).ok()
}

/// A response body read chunk by chunk under a byte cap.
pub struct BoundedBody {
    bytes: Vec<u8>,
    limit: u64,
}

impl BoundedBody {
    /// The bytes received so far.
    pub closed spec fn received(&self) -> Seq<u8> {
        self.bytes@
    }

    pub closed spec fn cap(&self) -> u64 {
        self.limit
    }

    /// The body never holds more bytes than its cap.
    pub closed spec fn wf(&self) -> bool {
        self.bytes@.len() <= self.limit
    }

    pub fn new(limit: u64) -> (b: Self)
        ensures
            b.wf(),
            b.received() == Seq::<u8>::empty(),
            b.cap() == limit,
    {
        BoundedBody { bytes: Vec::new(), limit }
    }

    /// The number of bytes received so far.
    pub fn len(&self) -> (n: u64)
        requires
            self.wf(),
        ensures
            n == self.received().len(),
    {
        self.bytes.len() as u64
    }

    /// Takes the next chunk; a chunk that would carry the body past its cap
    /// is refused and nothing of it is kept.
    pub fn push_chunk(&mut self, chunk: &[u8]) -> (r: Result<(), AppError>)
        requires
            old(self).wf(),
        ensures
            final(self).wf(),
            final(self).cap() == old(self).cap(),
            old(self).received().len() + chunk@.len() > old(self).cap() ==> (r matches Err(e) && e.code
                == AppErrorCode::ModelResponseTooLarge && final(self).received() == old(self).received()),
            old(self).received().len() + chunk@.len() <= old(self).cap() ==> (r is Ok && final(self).received()
                == old(self).received() + chunk@),
    {
        let have = self.bytes.len() as u64;
        let room = self.limit - have;
        if chunk.len() as u64 > room {
            let total: u128 = have as u128 + chunk.len() as u128;
            let mut details = "received_bytes=".to_owned();
            if total <= u64::MAX as u128 {
                details.append(decimal_string(total as u64).as_str());
            } else {
                details.append(decimal_string(u64::MAX).as_str());
            }
            details.append(" limit_bytes=");
            details.append(decimal_string(self.limit).as_str());
            return Err(
                app_error(
                    AppErrorCode::ModelResponseTooLarge,
                    "Model yanıtı çok büyük.",
                    Some(details),
                    Some("Model çıktı ayarlarını küçültüp yeniden deneyin.".to_owned()),
                ),
            );
        }
        let mut i: usize = 0;
        let ghost start = self.bytes@;
        while i < chunk.len()
            invariant
                i <= chunk@.len(),
                self.limit == old(self).limit,
                start == old(self).bytes@,
                self.bytes@ == start + chunk@.subrange(0, i as int),
                start.len() + chunk@.len() <= self.limit,
            decreases chunk.len() - i,
        {
            self.bytes.push(chunk[i]);
            assert(chunk@.subrange(0, i + 1) =~= chunk@.subrange(0, i as int).push(chunk@[i as int]));
            i = i + 1;
        }
        assert(chunk@.subrange(0, chunk@.len() as int) =~= chunk@);
        Ok(())
    }

    /// The text of the whole body, or an error when it is not UTF-8.
    pub fn finish(self) -> (r: Result<String, AppError>)
        ensures
            valid_utf8(self.received()) ==> (r matches Ok(s) && s@ == decode_utf8(self.received())),
            !valid_utf8(self.received()) ==> (r matches Err(e) && e.code == AppErrorCode::ModelResponseInvalidJson),
    {
        match string_from_utf8(self.bytes) {
            Some(s) => Ok(s),
            None => Err(
                app_error(
                    AppErrorCode::ModelResponseInvalidJson,
                    "Model yanıtı geçerli metin değil.",
                    Some("model response is not valid UTF-8".to_owned()),
                    Some("Model çıktı biçimini kontrol edin.".to_owned()),
                ),
            ),
        }
    }
}

/// The code of a transport failure: a timeout, a refused connection, a
/// reset connection (as the failure's text says), or a failed health.
pub open spec fn spec_transport_code(is_timeout: bool, is_connect: bool, text: Seq<char>) -> AppErrorCode {
    if is_timeout {
        AppErrorCode::ModelTimeout
    } else if is_connect {
        AppErrorCode::ModelServerNotRunning
    } else if find(text, "connection reset"@) >= 0 || find(text, "Connection reset"@) >= 0 {
        AppErrorCode::ModelConnectionReset
    } else {
        AppErrorCode::ModelHealthFailed
    }
}

/// The error a failed HTTP exchange with `url` is reported with.
pub fn transport_error(is_timeout: bool, is_connect: bool, error_text: &str, url: &str) -> (e: AppError)
    ensures
        e.code == spec_transport_code(is_timeout, is_connect, error_text@),
        e.technical_details matches Some(d) && d@ == url@ + ": "@ + error_text@,
{
    let text = chars_of(error_text);
    proof {
        reveal_strlit("connection reset");
        reveal_strlit("Connection reset");
        reveal_strlit(": ");
    }
    let code = if is_timeout {
        AppErrorCode::ModelTimeout
    } else if is_connect {
        AppErrorCode::ModelServerNotRunning
    } else if contains_chars(&text, "connection reset") || contains_chars(&text, "Connection reset") {
        AppErrorCode::ModelConnectionReset
    } else {
        AppErrorCode::ModelHealthFailed
    };
    let mut details = concat(url, ": ");
    details.append(error_text);
    app_error(
        code,
        "Model sunucusuna erişilemedi.",
        Some(details),
        Some("llama-server durumunu kontrol edin.".to_owned()),
    )
}

/// The size facts of a model request.
#[derive(Debug)]
pub struct ModelRequestPayloadSummary {
    pub prompt_length: u32,
    pub image_count: u32,
    pub image_total_bytes: u64,
    pub base64_approx_total_bytes: u64,
    pub model_input_images: Vec<ModelInputImage>,
    pub timeout_seconds: u64,
    pub max_tokens: Option<u32>,
}

pub open spec fn sum_output_bytes(images: Seq<ModelInputImage>) -> int
    decreases images.len(),
{
    if images.len() == 0 {
        0
    } else {
        sum_output_bytes(images.drop_last()) + images.last().output_bytes
    }
}

pub open spec fn sum_base64_bytes(images: Seq<ModelInputImage>) -> int
    decreases images.len(),
{
    if images.len() == 0 {
        0
    } else {
        sum_base64_bytes(images.drop_last()) + images.last().base64_approx_bytes
    }
}

/// The base64 size of `n` bytes: four characters per started group of
/// three.
pub open spec fn base64_len(n: int) -> int {
    (n + 2) / 3 * 4
}

proof fn lemma_sums_grow(images: Seq<ModelInputImage>, i: int)
    requires
        0 <= i <= images.len(),
    ensures
        sum_output_bytes(images.take(i)) <= sum_output_bytes(images),
        sum_base64_bytes(images.take(i)) <= sum_base64_bytes(images),
        sum_output_bytes(images.take(i)) >= 0,
        sum_base64_bytes(images.take(i)) >= 0,
    decreases images.len() - i,
{
    if i < images.len() {
        lemma_sums_grow(images, i + 1);
        assert(images.take(i + 1).drop_last() =~= images.take(i));
    } else {
        assert(images.take(i) =~= images);
    }
    lemma_sums_nonneg(images.take(i));
}

proof fn lemma_sums_nonneg(images: Seq<ModelInputImage>)
    ensures
        sum_output_bytes(images) >= 0,
        sum_base64_bytes(images) >= 0,
    decreases images.len(),
{
    if images.len() > 0 {
        lemma_sums_nonneg(images.drop_last());
    }
}

/// Summarizes a request's payload: with prepared model input images their
/// count and summed sizes; without them, one image of the fallback size
/// (its base64 size computed) when one is given, or none.
pub fn build_payload_summary(
    prompt_length: u32,
    timeout_seconds: u64,
    model_input_images: Option<Vec<ModelInputImage>>,
    fallback_image_bytes: Option<u64>,
    max_tokens: Option<u32>,
) -> (s: ModelRequestPayloadSummary)
    requires
        model_input_images matches Some(v) ==> v@.len() <= u32::MAX && sum_output_bytes(v@) <= u64::MAX
            && sum_base64_bytes(v@) <= u64::MAX,
        fallback_image_bytes matches Some(b) ==> base64_len(b as int) <= u64::MAX,
    ensures
        s.prompt_length == prompt_length,
        s.timeout_seconds == timeout_seconds,
        s.max_tokens == max_tokens,
        ({
            let images = match model_input_images {
                Some(v) => v@,
                None => Seq::<ModelInputImage>::empty(),
            };
            &&& s.model_input_images@ == images
            &&& images.len() > 0 ==> s.image_count == images.len() && s.image_total_bytes == sum_output_bytes(images)
                && s.base64_approx_total_bytes == sum_base64_bytes(images)
            &&& images.len() == 0 ==> match fallback_image_bytes {
                Some(b) => s.image_count == 1 && s.image_total_bytes == b && s.base64_approx_total_bytes
                    == base64_len(b as int),
                None => s.image_count == 0 && s.image_total_bytes == 0 && s.base64_approx_total_bytes == 0,
            }
        }),
{
    let images: Vec<ModelInputImage> = match model_input_images {
        Some(v) => v,
        None => Vec::new(),
    };
    if images.len() == 0 {
        let (count, total, b64): (u32, u64, u64) = match fallback_image_bytes {
            Some(b) => {
                let groups: u64 = b / 3 + if b % 3 == 0 {
                    0
                } else {
                    1
                };
                assert(groups == (b + 2) / 3);
                (1, b, groups * 4)
            },
            None => (0, 0, 0),
        };
        return ModelRequestPayloadSummary {
            prompt_length,
            image_count: count,
            image_total_bytes: total,
            base64_approx_total_bytes: b64,
            model_input_images: images,
            timeout_seconds,
            max_tokens,
        };
    }
    let mut total: u64 = 0;
    let mut b64: u64 = 0;
    let mut i: usize = 0;
    while i < images.len()
        invariant
            i <= images@.len(),
            sum_output_bytes(images@) <= u64::MAX,
            sum_base64_bytes(images@) <= u64::MAX,
            total == sum_output_bytes(images@.take(i as int)),
            b64 == sum_base64_bytes(images@.take(i as int)),
        decreases images@.len() - i,
    {
        proof {
            lemma_sums_grow(images@, i + 1);
            assert(images@.take(i + 1).drop_last() =~= images@.take(i as int));
        }
        total = total + images[i].output_bytes;
        b64 = b64 + images[i].base64_approx_bytes;
        i = i + 1;
    }
    assert(images@.take(images@.len() as int) =~= images@);
    ModelRequestPayloadSummary {
        prompt_length,
        image_count: images.len() as u32,
        image_total_bytes: total,
        base64_approx_total_bytes: b64,
        model_input_images: images,
        timeout_seconds,
        max_tokens,
    }
}

} // verus!
