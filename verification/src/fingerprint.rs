//! Content fingerprints of model and runtime definitions (SHA-256, lower-case
//! hex).
use sha2::Digest;
use vstd::prelude::*;
use vstd::utf8::encode_utf8;
use crate::domain::{ModelCapabilities, ModelDefinition, ModelDefinitionView, PrivacyMode, RuntimeDefinition};
use crate::text::decimal;

verus! {

/// The SHA-256 digest of a byte sequence, as `sha2` computes it.
pub uninterp spec fn spec_sha256(data: Seq<u8>) -> Seq<u8>;

/// `sha2::Sha256::digest`: the 32-byte SHA-256 digest of `data`.
#[verifier::external_body]
pub(crate) fn sha256_digest(data: &[u8]) -> (r: Vec<u8>)
    ensures
        r@ == spec_sha256(data@),
        r@.len() == 32,
{
    sha2::Sha256::digest(data).to_vec()
}

pub open spec fn hex_digit(d: u8) -> char {
    if d < 10 {
        ((('0' as u8) + d) as u8) as char
    } else {
        ((('a' as u8) + d - 10) as u8) as char
    }
}

/// Lower-case hexadecimal rendering, two characters per byte, high nibble
/// first.
pub open spec fn hex_lower(data: Seq<u8>) -> Seq<char>
    decreases data.len(),
{
    if data.len() == 0 {
        Seq::empty()
    } else {
        seq![hex_digit(data[0] / 16), hex_digit(data[0] % 16)] + hex_lower(data.drop_first())
    }
}

/// `hex::encode`: lower-case hex, two characters per byte.
#[verifier::external_body]
pub(crate) fn hex_encode(data: &[u8]) -> (r: String)
    ensures
        r@ == hex_lower(data@),
{
    hex::encode(data)
}

/// Lower-case hex SHA-256 of the UTF-8 bytes of `s`.
pub open spec fn sha256_hex(s: Seq<char>) -> Seq<char> {
    hex_lower(spec_sha256(encode_utf8(s)))
}

pub fn sha256_hex_of(s: &String) -> (r: String)
    ensures
        r@ == sha256_hex(s@),
{
    let bytes = s.as_str().as_bytes();
    let digest = sha256_digest(bytes);
    hex_encode(digest.as_slice())
}

pub open spec fn privacy_token(p: PrivacyMode) -> Seq<char> {
    match p {
        PrivacyMode::StrictLocal => "strict_local"@,
        PrivacyMode::ExplicitExternal => "explicit_external"@,
    }
}

pub open spec fn bool_token(b: bool) -> Seq<char> {
    if b {
        "1"@
    } else {
        "0"@
    }
}

/// The launch-relevant fields of a runtime, joined by `|`.
pub open spec fn runtime_material(r: RuntimeDefinition) -> Seq<char> {
    "llama_cpp|"@ + bool_token(r.managed) + "|"@ + r.server_path@ + "|"@ + r.host@ + "|"@
        + decimal(r.port as nat) + "|"@ + privacy_token(r.privacy_mode)
}

pub open spec fn spec_runtime_fingerprint(r: RuntimeDefinition) -> Seq<char> {
    sha256_hex(runtime_material(r))
}

fn push_str(s: &mut String, t: &str)
    ensures
        final(s)@ == old(s)@ + t@,
{
    s.append(t);
}

fn bool_str(b: bool) -> (r: &'static str)
    ensures
        r@ == bool_token(b),
{
    if b {
        "1"
    } else {
        "0"
    }
}

fn privacy_str(p: PrivacyMode) -> (r: &'static str)
    ensures
        r@ == privacy_token(p),
{
    match p {
        PrivacyMode::StrictLocal => "strict_local",
        PrivacyMode::ExplicitExternal => "explicit_external",
    }
}

/// Fingerprint of a runtime definition's launch configuration.
pub fn fingerprint_runtime_definition(r: &RuntimeDefinition) -> (f: String)
    ensures
        f@ == spec_runtime_fingerprint(*r),
{
    let mut m = String::from_str("llama_cpp|");
    push_str(&mut m, bool_str(r.managed));
    push_str(&mut m, "|");
    push_str(&mut m, r.server_path.as_str());
    push_str(&mut m, "|");
    push_str(&mut m, r.host.as_str());
    push_str(&mut m, "|");
    let port = crate::text::decimal_string(r.port as u64);
    push_str(&mut m, port.as_str());
    push_str(&mut m, "|");
    push_str(&mut m, privacy_str(r.privacy_mode));
    sha256_hex_of(&m)
}

pub open spec fn opt_token(o: Option<String>) -> Seq<char> {
    match o {
        Some(s) => s@,
        None => Seq::empty(),
    }
}

pub open spec fn capabilities_token(c: ModelCapabilities) -> Seq<char> {
    bool_token(c.text) + bool_token(c.vision) + bool_token(c.structured_json) + bool_token(
        c.json_schema,
    ) + bool_token(c.thinking_control) + bool_token(c.multimodal_projector_required)
}

/// The identifying fields of a model definition, joined by `|`.
pub open spec fn model_material(m: ModelDefinitionView) -> Seq<char> {
    "gguf|"@ + m.id@ + "|"@ + m.family@ + "|"@ + m.model_path@ + "|"@ + opt_token(m.mmproj_path)
        + "|"@ + opt_token(m.quantization) + "|"@ + capabilities_token(m.capabilities) + "|"@
        + m.model_fingerprint@
}

pub open spec fn spec_model_fingerprint(m: ModelDefinitionView) -> Seq<char> {
    sha256_hex(model_material(m))
}

fn opt_str(o: &Option<String>) -> (r: &str)
    ensures
        r@ == opt_token(*o),
{
    match o {
        Some(s) => s.as_str(),
        None => {
            proof {
                reveal_strlit("");
            }
            ""
        },
    }
}

fn capabilities_string(c: ModelCapabilities) -> (r: String)
    ensures
        r@ == capabilities_token(c),
{
    let mut s = String::from_str(bool_str(c.text));
    push_str(&mut s, bool_str(c.vision));
    push_str(&mut s, bool_str(c.structured_json));
    push_str(&mut s, bool_str(c.json_schema));
    push_str(&mut s, bool_str(c.thinking_control));
    push_str(&mut s, bool_str(c.multimodal_projector_required));
    s
}

/// Fingerprint of a model definition (recorded under `definitionFingerprint`).
pub fn fingerprint_model_definition(m: &ModelDefinition) -> (f: String)
    ensures
        f@ == spec_model_fingerprint(m@),
{
    let mut s = String::from_str("gguf|");
    push_str(&mut s, m.id.as_str());
    push_str(&mut s, "|");
    push_str(&mut s, m.family.as_str());
    push_str(&mut s, "|");
    push_str(&mut s, m.model_path.as_str());
    push_str(&mut s, "|");
    push_str(&mut s, opt_str(&m.mmproj_path));
    push_str(&mut s, "|");
    push_str(&mut s, opt_str(&m.quantization));
    push_str(&mut s, "|");
    let caps = capabilities_string(m.capabilities);
    push_str(&mut s, caps.as_str());
    push_str(&mut s, "|");
    push_str(&mut s, m.model_fingerprint.as_str());
    sha256_hex_of(&s)
}

/// Bytes sampled from each end of a model file.
pub const FINGERPRINT_SAMPLE_BYTES: u64 = 1048576;

/// How many bytes to read from the start and from the end of a model file of
/// `len` bytes: up to one sample from the start, and one sample from the end
/// when the file is longer than a sample.
pub fn fingerprint_sample_plan(len: u64) -> (r: (u64, u64))
    ensures
        r.0 == (if len < FINGERPRINT_SAMPLE_BYTES { len } else { FINGERPRINT_SAMPLE_BYTES }),
        r.1 == (if len > FINGERPRINT_SAMPLE_BYTES { FINGERPRINT_SAMPLE_BYTES } else { 0 }),
{
    let head = if len < FINGERPRINT_SAMPLE_BYTES { len } else { FINGERPRINT_SAMPLE_BYTES };
    let tail = if len > FINGERPRINT_SAMPLE_BYTES { FINGERPRINT_SAMPLE_BYTES } else { 0 };
    (head, tail)
}

/// `n` as `width` little-endian bytes (`to_le_bytes`).
pub open spec fn le_bytes(n: nat, width: nat) -> Seq<u8>
    decreases width,
{
    if width == 0 {
        Seq::empty()
    } else {
        seq![(n % 256) as u8] + le_bytes(n / 256, (width - 1) as nat)
    }
}

fn push_le_bytes(out: &mut Vec<u8>, n: u128, width: usize)
    ensures
        final(out)@ == old(out)@ + le_bytes(n as nat, width as nat),
    decreases width,
{
    if width > 0 {
        out.push((n % 256) as u8);
        push_le_bytes(out, n / 256, width - 1);
        assert(final(out)@ =~= old(out)@ + le_bytes(n as nat, width as nat));
    } else {
        assert(out@ =~= old(out)@ + le_bytes(n as nat, width as nat));
    }
}

/// The bytes hashed into a model file fingerprint: the path, the length, the
/// modification time when known, and the sampled head and tail bytes.
pub open spec fn model_file_material(
    path: Seq<char>,
    len: u64,
    modified_nanos: Option<u128>,
    head: Seq<u8>,
    tail: Seq<u8>,
) -> Seq<u8> {
    encode_utf8(path) + le_bytes(len as nat, 8) + match modified_nanos {
        Some(t) => le_bytes(t as nat, 16),
        None => Seq::empty(),
    } + head + tail
}

/// Fingerprint of a model file from its identity signals and sampled bytes
/// (lower-case hex SHA-256 of `model_file_material`).
pub fn model_file_fingerprint(
    path: &str,
    len: u64,
    modified_nanos: Option<u128>,
    head: &[u8],
    tail: &[u8],
) -> (f: String)
    ensures
        f@ == hex_lower(spec_sha256(model_file_material(path@, len, modified_nanos, head@, tail@))),
{
    let mut material: Vec<u8> = Vec::new();
    let path_bytes = path.as_bytes();
    let mut i: usize = 0;
    while i < path_bytes.len()
        invariant
            i <= path_bytes@.len(),
            material@ == path_bytes@.subrange(0, i as int),
        decreases path_bytes@.len() - i,
    {
        material.push(path_bytes[i]);
        assert(path_bytes@.subrange(0, i + 1) == path_bytes@.subrange(0, i as int).push(
            path_bytes@[i as int],
        ));
        i = i + 1;
    }
    assert(path_bytes@.subrange(0, path_bytes@.len() as int) == path_bytes@);
    push_le_bytes(&mut material, len as u128, 8);
    match modified_nanos {
        Some(t) => push_le_bytes(&mut material, t, 16),
        None => {},
    }
    let ghost before_head = material@;
    let mut j: usize = 0;
    while j < head.len()
        invariant
            j <= head@.len(),
            material@ == before_head + head@.subrange(0, j as int),
        decreases head@.len() - j,
    {
        material.push(head[j]);
        assert(head@.subrange(0, j + 1) == head@.subrange(0, j as int).push(head@[j as int]));
        j = j + 1;
    }
    assert(head@.subrange(0, head@.len() as int) == head@);
    let ghost before_tail = material@;
    let mut k: usize = 0;
    while k < tail.len()
        invariant
            k <= tail@.len(),
            material@ == before_tail + tail@.subrange(0, k as int),
        decreases tail@.len() - k,
    {
        material.push(tail[k]);
        assert(tail@.subrange(0, k + 1) == tail@.subrange(0, k as int).push(tail@[k as int]));
        k = k + 1;
    }
    assert(tail@.subrange(0, tail@.len() as int) == tail@);
    assert(material@ =~= model_file_material(path@, len, modified_nanos, head@, tail@));
    let digest = sha256_digest(material.as_slice());
    hex_encode(digest.as_slice())
}

} // verus!
