//! Model input images: the JPEG settings of the input service, the cache
//! options and batch metadata it records, and the layout of its cache.
use vstd::prelude::*;
use crate::domain::{ModelInputImage, ModelInputImageKind};
use crate::errors::{concat3, AppError};
use crate::fingerprint::{sha256_hex, sha256_hex_of};
use crate::text::{decimal, push_decimal, string_from_chars};
use crate::text::{chars_of, lemma_text_lt_irreflexive_total, lemma_text_lt_transitive, text_less, text_lt};

verus! {

/// Longest edge, in pixels, of a prepared model input by default.
pub const DEFAULT_LONG_EDGE_MAX: u32 = 1800;

/// JPEG quality of a prepared model input by default.
pub const DEFAULT_JPEG_QUALITY: u8 = 88;

/// Version of the model input cache layout.
pub const MODEL_INPUT_CACHE_SCHEMA_VERSION: u32 = 1;

/// The resize policy recorded in cache keys.
pub fn resize_policy_version() -> (r: &'static str)
    ensures
        r@ == "no_upscale_lanczos3_v1"@,
{
    "no_upscale_lanczos3_v1"
}

/// The JPEG encoder version recorded in cache keys.
pub fn jpeg_encoder_version() -> (r: &'static str)
    ensures
        r@ == "image-rs-jpeg-0.25-v1"@,
{
    "image-rs-jpeg-0.25-v1"
}

/// The JPEG settings with which model inputs are prepared.
#[derive(Debug, Clone, Copy)]
pub struct ModelInputImageService {
    long_edge_max: u32,
    jpeg_quality: u8,
}

impl ModelInputImageService {
    pub closed spec fn spec_long_edge_max(&self) -> u32 {
        self.long_edge_max
    }

    pub closed spec fn spec_jpeg_quality(&self) -> u8 {
        self.jpeg_quality
    }

    pub fn new(long_edge_max: u32, jpeg_quality: u8) -> (s: Self)
        ensures
            s.spec_long_edge_max() == long_edge_max,
            s.spec_jpeg_quality() == jpeg_quality,
    {
        ModelInputImageService { long_edge_max, jpeg_quality }
    }

    /// The settings for question-text inputs: the defaults.
    pub fn default_question_text() -> (s: Self)
        ensures
            s.spec_long_edge_max() == DEFAULT_LONG_EDGE_MAX,
            s.spec_jpeg_quality() == DEFAULT_JPEG_QUALITY,
    {
        Self::default()
    }

    pub fn long_edge_max(&self) -> (r: u32)
        ensures
            r == self.spec_long_edge_max(),
    {
        self.long_edge_max
    }

    pub fn jpeg_quality(&self) -> (r: u8)
        ensures
            r == self.spec_jpeg_quality(),
    {
        self.jpeg_quality
    }
}

impl Default for ModelInputImageService {
    fn default() -> (s: Self)
        ensures
            s.spec_long_edge_max() == DEFAULT_LONG_EDGE_MAX,
            s.spec_jpeg_quality() == DEFAULT_JPEG_QUALITY,
    {
        Self::new(DEFAULT_LONG_EDGE_MAX, DEFAULT_JPEG_QUALITY)
    }
}

/// A crop region of a cached input, in source pixels.
#[derive(PartialEq, Eq, Structural, Clone, Copy, Debug)]
pub struct ModelInputCacheRegion {
    pub x: u32,
    pub y: u32,
    pub width: u32,
    pub height: u32,
}

/// What besides the source image a cached input depends on.
#[derive(Debug)]
pub struct ModelInputCacheOptions {
    pub crop_regions: Vec<ModelInputCacheRegion>,
    pub alignment_transform: String,
    pub preprocess_mode: String,
    pub resize_policy_version: String,
}

impl Default for ModelInputCacheOptions {
    /// No crops, the identity alignment, the source image, the current
    /// resize policy.
    fn default() -> (o: Self)
        ensures
            o.crop_regions@.len() == 0,
            o.alignment_transform@ == "identity_v1"@,
            o.preprocess_mode@ == "source"@,
            o.resize_policy_version@ == "no_upscale_lanczos3_v1"@,
    {
        ModelInputCacheOptions {
            crop_regions: Vec::new(),
            alignment_transform: "identity_v1".to_owned(),
            preprocess_mode: "source".to_owned(),
            resize_policy_version: resize_policy_version().to_owned(),
        }
    }
}

/// The manifest of one prepared batch of model inputs.
#[derive(Debug)]
pub struct ModelInputBatchMetadata {
    pub kind: ModelInputImageKind,
    pub document_id: String,
    pub created_at: String,
    pub long_edge_max: u32,
    pub jpeg_quality: u8,
    pub cache_schema_version: u32,
    pub transaction_id: String,
    pub resize_policy_version: String,
    pub encoder_version: String,
    pub total_source_bytes: u64,
    pub total_output_bytes: u64,
    pub total_base64_approx_bytes: u64,
    pub images: Vec<ModelInputImage>,
}

/// The size of the base64 encoding of `bytes` bytes (padding included).
pub open spec fn spec_base64_len(bytes: u64) -> int {
    if bytes == 0 {
        0
    } else {
        ((bytes + 2) / 3) * 4
    }
}

/// The size of the base64 encoding of `bytes` bytes.
pub fn base64_approx_bytes(bytes: u64) -> (r: u64)
    requires
        spec_base64_len(bytes) <= u64::MAX,
    ensures
        r == spec_base64_len(bytes),
{
    if bytes == 0 {
        return 0;
    }
    let groups = bytes / 3 + if bytes % 3 == 0 { 0 } else { 1 };
    assert(groups == (bytes + 2) / 3);
    groups * 4
}

pub open spec fn spec_kind_folder(kind: ModelInputImageKind) -> Seq<char> {
    match kind {
        ModelInputImageKind::QuestionText => "question_text"@,
        ModelInputImageKind::Rubric => "rubric"@,
        ModelInputImageKind::StudentOcr => "student_ocr"@,
        ModelInputImageKind::StudentIdentityOcr => "student_identity_ocr"@,
        ModelInputImageKind::StudentAnswerOcrIssueCorrection => "student_ocr_issue_correction"@,
    }
}

/// The cache folder of an input kind.
pub fn kind_folder(kind: &ModelInputImageKind) -> (r: &'static str)
    ensures
        r@ == spec_kind_folder(*kind),
{
    match kind {
        ModelInputImageKind::QuestionText => "question_text",
        ModelInputImageKind::Rubric => "rubric",
        ModelInputImageKind::StudentOcr => "student_ocr",
        ModelInputImageKind::StudentIdentityOcr => "student_identity_ocr",
        ModelInputImageKind::StudentAnswerOcrIssueCorrection => "student_ocr_issue_correction",
    }
}

/// The project-relative cache directory of a document's inputs of one kind.
pub fn model_inputs_relative_dir(kind: &ModelInputImageKind, document_id: &str) -> (r: String)
    ensures
        r@ == "cache/model_inputs/"@ + spec_kind_folder(*kind) + "/"@ + document_id@,
{
    let mut r = concat3("cache/model_inputs/", kind_folder(kind), "/");
    r.append(document_id);
    r
}

/// The project-relative path of the manifest of a document's inputs of one
/// kind.
pub fn manifest_relative_path(kind: &ModelInputImageKind, document_id: &str) -> (r: String)
    ensures
        r@ == "cache/model_inputs/"@ + spec_kind_folder(*kind) + "/"@ + document_id@
            + "/model_inputs.json"@,
{
    let mut r = model_inputs_relative_dir(kind, document_id);
    r.append("/model_inputs.json");
    r
}

/// The image paths a manifest refers to, in the order they are checked:
/// each image's source, then its output.
pub open spec fn manifest_paths_spec(images: Seq<ModelInputImage>) -> Seq<Seq<char>>
    decreases images.len(),
{
    if images.len() == 0 {
        Seq::empty()
    } else {
        manifest_paths_spec(images.drop_last()).push(images.last().source_image_path@).push(
            images.last().output_image_path@,
        )
    }
}

/// The image paths a manifest refers to, in the order they are checked.
pub fn manifest_image_paths(manifest: &ModelInputBatchMetadata) -> (r: Vec<String>)
    ensures
        r@.map_values(|s: String| s@) == manifest_paths_spec(manifest.images@),
{
    let mut r: Vec<String> = Vec::new();
    let mut i: usize = 0;
    while i < manifest.images.len()
        invariant
            i <= manifest.images@.len(),
            r@.map_values(|s: String| s@) == manifest_paths_spec(manifest.images@.take(i as int)),
        decreases manifest.images@.len() - i,
    {
        let ghost before = r@.map_values(|s: String| s@);
        r.push(manifest.images[i].source_image_path.clone());
        r.push(manifest.images[i].output_image_path.clone());
        proof {
            let t = manifest.images@.take(i + 1);
            assert(t.drop_last() =~= manifest.images@.take(i as int));
            assert(r@.map_values(|s: String| s@) =~= before.push(t.last().source_image_path@).push(
                t.last().output_image_path@,
            ));
        }
        i = i + 1;
    }
    assert(manifest.images@.take(manifest.images@.len() as int) =~= manifest.images@);
    r
}

/// `n` in decimal, padded with leading zeros to at least `width` digits
/// (`format!("{n:0width$}")`).
pub open spec fn zero_padded(n: nat, width: nat) -> Seq<char> {
    let d = crate::text::decimal(n);
    if d.len() < width {
        Seq::new((width - d.len()) as nat, |i: int| '0') + d
    } else {
        d
    }
}

/// The file name of a prepared page input: `page_`, the page number padded
/// to three digits, `_`, the cache key and `.jpg`.
pub fn model_input_file_name(page_number: u32, cache_key: &str) -> (r: String)
    ensures
        r@ == "page_"@ + zero_padded(page_number as nat, 3) + "_"@ + cache_key@ + ".jpg"@,
{
    let digits = crate::text::decimal_string(page_number as u64);
    let mut r = "page_".to_owned();
    let n = digits.as_str().unicode_len();
    let mut k: usize = n;
    while k < 3
        invariant
            n == digits@.len(),
            n <= k <= 3 || (n > 3 && k == n),
            r@ == "page_"@ + Seq::new((k - n) as nat, |i: int| '0'),
        decreases 3 - k,
    {
        crate::text::string_push(&mut r, '0');
        assert(Seq::new((k + 1 - n) as nat, |i: int| '0') =~= Seq::new((k - n) as nat, |i: int| '0').push('0'));
        k = k + 1;
    }
    proof {
        reveal_strlit("page_");
        reveal_strlit("_");
        reveal_strlit(".jpg");
        if n >= 3 {
            assert(Seq::new((k - n) as nat, |i: int| '0') =~= Seq::<char>::empty());
        } else {
            assert(k == 3);
        }
    }
    r.append(digits.as_str());
    r.append("_");
    r.append(cache_key);
    r.append(".jpg");
    proof {
        let d = crate::text::decimal(page_number as nat);
        if d.len() < 3 {
            assert(Seq::new((k - n) as nat, |i: int| '0') =~= Seq::new((3 - d.len()) as nat, |i: int| '0'));
        }
        assert(r@ =~= "page_"@ + zero_padded(page_number as nat, 3) + "_"@ + cache_key@ + ".jpg"@);
    }
    r
}

pub open spec fn sum_source_bytes(images: Seq<ModelInputImage>) -> int
    decreases images.len(),
{
    if images.len() == 0 {
        0
    } else {
        sum_source_bytes(images.drop_last()) + images.last().source_bytes
    }
}

proof fn lemma_source_sum_grows(images: Seq<ModelInputImage>, i: int)
    requires
        0 <= i <= images.len(),
    ensures
        0 <= sum_source_bytes(images.take(i)) <= sum_source_bytes(images),
        0 <= crate::gateway_transport::sum_output_bytes(images.take(i)) <= crate::gateway_transport::sum_output_bytes(images),
        0 <= crate::gateway_transport::sum_base64_bytes(images.take(i)) <= crate::gateway_transport::sum_base64_bytes(images),
    decreases images.len() - i,
{
    lemma_sums_nonneg(images.take(i));
    if i < images.len() {
        lemma_source_sum_grows(images, i + 1);
        assert(images.take(i + 1).drop_last() =~= images.take(i));
    } else {
        assert(images.take(i) =~= images);
    }
}

proof fn lemma_sums_nonneg(images: Seq<ModelInputImage>)
    ensures
        sum_source_bytes(images) >= 0,
        crate::gateway_transport::sum_output_bytes(images) >= 0,
        crate::gateway_transport::sum_base64_bytes(images) >= 0,
    decreases images.len(),
{
    if images.len() > 0 {
        lemma_sums_nonneg(images.drop_last());
    }
}

/// The manifest of a prepared batch: the service's settings, the batch's
/// identity and the summed sizes of its images.
pub fn batch_manifest(
    service: &ModelInputImageService,
    kind: ModelInputImageKind,
    document_id: &str,
    created_at: String,
    transaction_id: String,
    options: &ModelInputCacheOptions,
    images: Vec<ModelInputImage>,
) -> (m: ModelInputBatchMetadata)
    requires
        sum_source_bytes(images@) <= u64::MAX,
        crate::gateway_transport::sum_output_bytes(images@) <= u64::MAX,
        crate::gateway_transport::sum_base64_bytes(images@) <= u64::MAX,
    ensures
        m.kind == kind,
        m.document_id@ == document_id@,
        m.created_at == created_at,
        m.transaction_id == transaction_id,
        m.long_edge_max == service.spec_long_edge_max(),
        m.jpeg_quality == service.spec_jpeg_quality(),
        m.cache_schema_version == MODEL_INPUT_CACHE_SCHEMA_VERSION,
        m.resize_policy_version == options.resize_policy_version,
        m.encoder_version@ == "image-rs-jpeg-0.25-v1"@,
        m.total_source_bytes == sum_source_bytes(images@),
        m.total_output_bytes == crate::gateway_transport::sum_output_bytes(images@),
        m.total_base64_approx_bytes == crate::gateway_transport::sum_base64_bytes(images@),
        m.images@ == images@,
{
    let mut total_source: u64 = 0;
    let mut total_output: u64 = 0;
    let mut total_b64: u64 = 0;
    let mut i: usize = 0;
    while i < images.len()
        invariant
            i <= images@.len(),
            sum_source_bytes(images@) <= u64::MAX,
            crate::gateway_transport::sum_output_bytes(images@) <= u64::MAX,
            crate::gateway_transport::sum_base64_bytes(images@) <= u64::MAX,
            total_source == sum_source_bytes(images@.take(i as int)),
            total_output == crate::gateway_transport::sum_output_bytes(images@.take(i as int)),
            total_b64 == crate::gateway_transport::sum_base64_bytes(images@.take(i as int)),
        decreases images@.len() - i,
    {
        proof {
            lemma_source_sum_grows(images@, i + 1);
            assert(images@.take(i + 1).drop_last() =~= images@.take(i as int));
        }
        total_source = total_source + images[i].source_bytes;
        total_output = total_output + images[i].output_bytes;
        total_b64 = total_b64 + images[i].base64_approx_bytes;
        i = i + 1;
    }
    assert(images@.take(images@.len() as int) =~= images@);
    ModelInputBatchMetadata {
        kind,
        document_id: document_id.to_owned(),
        created_at,
        long_edge_max: service.long_edge_max(),
        jpeg_quality: service.jpeg_quality(),
        cache_schema_version: MODEL_INPUT_CACHE_SCHEMA_VERSION,
        transaction_id,
        resize_policy_version: options.resize_policy_version.clone(),
        encoder_version: jpeg_encoder_version().to_owned(),
        total_source_bytes: total_source,
        total_output_bytes: total_output,
        total_base64_approx_bytes: total_b64,
        images,
    }
}

// ---------------------------------------------------------------------------
// Ordering manifests
// ---------------------------------------------------------------------------
/// Manifest `x` is listed before manifest `y`: by document id, then by
/// creation time.
pub open spec fn manifest_before(x: ModelInputBatchMetadata, y: ModelInputBatchMetadata) -> bool {
    text_lt(x.document_id@, y.document_id@) || (x.document_id@ == y.document_id@ && text_lt(
        x.created_at@,
        y.created_at@,
    ))
}

proof fn lemma_before_transitive(x: ModelInputBatchMetadata, y: ModelInputBatchMetadata, z: ModelInputBatchMetadata)
    requires
        manifest_before(x, y),
        manifest_before(y, z),
    ensures
        manifest_before(x, z),
{
    if text_lt(x.document_id@, y.document_id@) && text_lt(y.document_id@, z.document_id@) {
        lemma_text_lt_transitive(x.document_id@, y.document_id@, z.document_id@);
    } else if x.document_id@ == y.document_id@ && y.document_id@ == z.document_id@ {
        lemma_text_lt_transitive(x.created_at@, y.created_at@, z.created_at@);
    }
}

/// No manifest is listed after one that follows it.
pub open spec fn manifests_sorted(s: Seq<ModelInputBatchMetadata>) -> bool {
    forall|i: int, j: int| 0 <= i < j < s.len() ==> !manifest_before(#[trigger] s[j], #[trigger] s[i])
}

fn before(x: &ModelInputBatchMetadata, y: &ModelInputBatchMetadata) -> (r: bool)
    ensures
        r == manifest_before(*x, *y),
{
    text_less(x.document_id.as_str(), y.document_id.as_str()) || (crate::text::str_eq(
        x.document_id.as_str(),
        y.document_id.as_str(),
    ) && text_less(x.created_at.as_str(), y.created_at.as_str()))
}

proof fn lemma_insert_multiset<T>(s: Seq<T>, k: int, x: T)
    requires
        0 <= k <= s.len(),
    ensures
        s.insert(k, x).to_multiset() =~= s.to_multiset().insert(x),
{
    broadcast use vstd::seq_lib::group_to_multiset_ensures;
    let t = s.insert(k, x);
    assert(t.remove(k) =~= s);
    assert(t[k] == x);
    assert(t.remove(k).to_multiset() =~= t.to_multiset().remove(x));
    assert(t.to_multiset().count(x) > 0) by {
        assert(t.contains(x));
    }
}

/// Lists manifests by document id, then by creation time.
pub fn sort_manifests(manifests: Vec<ModelInputBatchMetadata>) -> (r: Vec<ModelInputBatchMetadata>)
    ensures
        manifests_sorted(r@),
        r@.to_multiset() =~= manifests@.to_multiset(),
{
    let mut rest = manifests;
    let mut sorted: Vec<ModelInputBatchMetadata> = Vec::new();
    let ghost original = rest@;
    proof {
        broadcast use vstd::seq_lib::group_to_multiset_ensures;
        assert(sorted@.to_multiset() =~= vstd::multiset::Multiset::empty());
    }
    while rest.len() > 0
        invariant
            manifests_sorted(sorted@),
            sorted@.to_multiset().add(rest@.to_multiset()) =~= original.to_multiset(),
        decreases rest@.len(),
    {
        let ghost before_rest = rest@;
        let x = rest.remove(0);
        let mut k: usize = 0;
        while k < sorted.len() && !before(&x, &sorted[k])
            invariant
                k <= sorted@.len(),
                forall|j: int| 0 <= j < k ==> !manifest_before(x, #[trigger] sorted@[j]),
            decreases sorted@.len() - k,
        {
            k = k + 1;
        }
        let ghost old_sorted = sorted@;
        proof {
            broadcast use vstd::seq_lib::group_to_multiset_ensures;
            lemma_insert_multiset(old_sorted, k as int, x);
            assert(before_rest.remove(0).to_multiset() =~= before_rest.to_multiset().remove(before_rest[0]));
        }
        sorted.insert(k, x);
        proof {
            let s = sorted@;
            assert forall|i: int, j: int| 0 <= i < j < s.len() implies !manifest_before(
                #[trigger] s[j],
                #[trigger] s[i],
            ) by {
                if j < k {
                    assert(s[i] == old_sorted[i] && s[j] == old_sorted[j]);
                } else if j == k {
                    assert(s[i] == old_sorted[i]);
                } else if i == k {
                    assert(s[j] == old_sorted[j - 1]);
                    if manifest_before(s[j], x) {
                        if k < old_sorted.len() {
                            assert(manifest_before(x, old_sorted[k as int]));
                            if j - 1 > k {
                                lemma_before_transitive(s[j], x, old_sorted[k as int]);
                            } else {
                                lemma_before_transitive(s[j], x, s[j]);
                                lemma_text_lt_irreflexive_total(s[j].document_id@, s[j].document_id@);
                                lemma_text_lt_irreflexive_total(s[j].created_at@, s[j].created_at@);
                            }
                        }
                    }
                } else if i < k {
                    assert(s[i] == old_sorted[i] && s[j] == old_sorted[j - 1]);
                } else {
                    assert(s[i] == old_sorted[i - 1] && s[j] == old_sorted[j - 1]);
                }
            }
            assert(sorted@.to_multiset().add(rest@.to_multiset()) =~= original.to_multiset());
        }
    }
    proof {
        broadcast use vstd::seq_lib::group_to_multiset_ensures;
        assert(rest@.to_multiset() =~= vstd::multiset::Multiset::empty());
    }
    sorted
}

// ---------------------------------------------------------------------------
// The cache key
// ---------------------------------------------------------------------------
/// A character as it stands inside a JSON string written by `serde_json`:
/// the quote and the backslash escaped, the control characters as their
/// short escapes or `\u00xx` (lower-case hex), everything else as it is.
pub open spec fn json_escape_char(c: char) -> Seq<char> {
    if c == '"' {
        seq!['\\', '"']
    } else if c == '\\' {
        seq!['\\', '\\']
    } else if c == '\u{8}' {
        seq!['\\', 'b']
    } else if c == '\u{c}' {
        seq!['\\', 'f']
    } else if c == '\n' {
        seq!['\\', 'n']
    } else if c == '\r' {
        seq!['\\', 'r']
    } else if c == '\t' {
        seq!['\\', 't']
    } else if (c as u32) < 0x20 {
        seq![
            '\\',
            'u',
            '0',
            '0',
            crate::fingerprint::hex_digit(((c as u32) / 16) as u8),
            crate::fingerprint::hex_digit(((c as u32) % 16) as u8),
        ]
    } else {
        seq![c]
    }
}

pub open spec fn json_escape(s: Seq<char>) -> Seq<char>
    decreases s.len(),
{
    if s.len() == 0 {
        Seq::empty()
    } else {
        json_escape(s.drop_last()) + json_escape_char(s.last())
    }
}

/// A JSON string literal of the text.
pub open spec fn json_string(s: Seq<char>) -> Seq<char> {
    seq!['"'] + json_escape(s) + seq!['"']
}

/// A crop region as a JSON object, its keys sorted.
pub open spec fn region_json(r: ModelInputCacheRegion) -> Seq<char> {
    "{\"height\":"@ + decimal(r.height as nat) + ",\"width\":"@ + decimal(r.width as nat) + ",\"x\":"@
        + decimal(r.x as nat) + ",\"y\":"@ + decimal(r.y as nat) + "}"@
}

/// The regions' objects separated by commas.
pub open spec fn regions_items(rs: Seq<ModelInputCacheRegion>) -> Seq<char>
    decreases rs.len(),
{
    if rs.len() == 0 {
        Seq::empty()
    } else if rs.len() == 1 {
        region_json(rs[0])
    } else {
        regions_items(rs.drop_last()) + ","@ + region_json(rs.last())
    }
}

/// What a cache key is the digest of: compact JSON of the source digest,
/// the crop regions in order, the alignment, preprocessing and resize
/// policy, the long edge, the JPEG quality and the encoder version, with
/// the keys of every object in sorted order (as `serde_json` writes a map).
pub open spec fn cache_key_material(
    source_sha256: Seq<char>,
    options: ModelInputCacheOptions,
    long_edge_max: u32,
    jpeg_quality: u8,
    encoder_version: Seq<char>,
) -> Seq<char> {
    "{\"alignmentTransform\":"@ + json_string(options.alignment_transform@) + ",\"encoderVersion\":"@
        + json_string(encoder_version) + ",\"jpegQuality\":"@ + decimal(jpeg_quality as nat)
        + ",\"longEdgeMax\":"@ + decimal(long_edge_max as nat) + ",\"orderedCropRegions\":["@
        + regions_items(options.crop_regions@) + "],\"preprocessMode\":"@ + json_string(
        options.preprocess_mode@,
    ) + ",\"resizePolicyVersion\":"@ + json_string(options.resize_policy_version@) + ",\"sourceSha256\":"@
        + json_string(source_sha256) + "}"@
}

fn push_all(out: &mut Vec<char>, s: &str)
    ensures
        final(out)@ == old(out)@ + s@,
{
    let cs = chars_of(s);
    let mut i: usize = 0;
    while i < cs.len()
        invariant
            i <= cs@.len(),
            cs@ == s@,
            out@ == old(out)@ + cs@.take(i as int),
        decreases cs@.len() - i,
    {
        out.push(cs[i]);
        assert(cs@.take(i + 1) =~= cs@.take(i as int).push(cs@[i as int]));
        i = i + 1;
    }
    assert(cs@.take(cs@.len() as int) =~= cs@);
}

fn hex_char(d: u32) -> (c: char)
    requires
        d < 16,
    ensures
        c == crate::fingerprint::hex_digit(d as u8),
{
    if d < 10 {
        let b: u8 = (48 + d) as u8;
        b as char
    } else {
        let b: u8 = (97 + d - 10) as u8;
        b as char
    }
}

fn push_escaped(out: &mut Vec<char>, s: &str)
    ensures
        final(out)@ == old(out)@ + json_escape(s@),
{
    let cs = chars_of(s);
    let mut i: usize = 0;
    while i < cs.len()
        invariant
            i <= cs@.len(),
            cs@ == s@,
            out@ == old(out)@ + json_escape(cs@.take(i as int)),
        decreases cs@.len() - i,
    {
        let c = cs[i];
        let ghost before = out@;
        if c == '"' {
            out.push('\\');
            out.push('"');
        } else if c == '\\' {
            out.push('\\');
            out.push('\\');
        } else if c == '\u{8}' {
            out.push('\\');
            out.push('b');
        } else if c == '\u{c}' {
            out.push('\\');
            out.push('f');
        } else if c == '\n' {
            out.push('\\');
            out.push('n');
        } else if c == '\r' {
            out.push('\\');
            out.push('r');
        } else if c == '\t' {
            out.push('\\');
            out.push('t');
        } else if (c as u32) < 0x20 {
            out.push('\\');
            out.push('u');
            out.push('0');
            out.push('0');
            out.push(hex_char((c as u32) / 16));
            out.push(hex_char((c as u32) % 16));
        } else {
            out.push(c);
        }
        assert(out@ =~= before + json_escape_char(c));
        assert(cs@.take(i + 1).drop_last() =~= cs@.take(i as int));
        assert(cs@.take(i + 1).last() == c);
        i = i + 1;
    }
    assert(cs@.take(cs@.len() as int) =~= cs@);
}

fn push_json_string(out: &mut Vec<char>, s: &str)
    ensures
        final(out)@ == old(out)@ + json_string(s@),
{
    out.push('"');
    push_escaped(out, s);
    out.push('"');
    assert(out@ =~= old(out)@ + json_string(s@));
}

fn push_region(out: &mut Vec<char>, r: &ModelInputCacheRegion)
    ensures
        final(out)@ == old(out)@ + region_json(*r),
{
    push_all(out, "{\"height\":");
    push_decimal(out, r.height as u64);
    push_all(out, ",\"width\":");
    push_decimal(out, r.width as u64);
    push_all(out, ",\"x\":");
    push_decimal(out, r.x as u64);
    push_all(out, ",\"y\":");
    push_decimal(out, r.y as u64);
    push_all(out, "}");
    assert(out@ =~= old(out)@ + region_json(*r));
}

/// The cache key of a prepared model input: the lower-case hex SHA-256 of
/// the UTF-8 bytes of its key material.
pub fn model_input_cache_key(
    source_sha256: &str,
    options: &ModelInputCacheOptions,
    long_edge_max: u32,
    jpeg_quality: u8,
) -> (r: Result<String, AppError>)
    ensures
        r matches Ok(k) && k@ == sha256_hex(
            cache_key_material(source_sha256@, *options, long_edge_max, jpeg_quality, "image-rs-jpeg-0.25-v1"@),
        ),
{
    let mut m: Vec<char> = Vec::new();
    push_all(&mut m, "{\"alignmentTransform\":");
    push_json_string(&mut m, options.alignment_transform.as_str());
    push_all(&mut m, ",\"encoderVersion\":");
    push_json_string(&mut m, jpeg_encoder_version());
    push_all(&mut m, ",\"jpegQuality\":");
    push_decimal(&mut m, jpeg_quality as u64);
    push_all(&mut m, ",\"longEdgeMax\":");
    push_decimal(&mut m, long_edge_max as u64);
    push_all(&mut m, ",\"orderedCropRegions\":[");
    let ghost head = m@;
    let mut i: usize = 0;
    while i < options.crop_regions.len()
        invariant
            i <= options.crop_regions@.len(),
            m@ == head + regions_items(options.crop_regions@.take(i as int)),
        decreases options.crop_regions@.len() - i,
    {
        let ghost rs = options.crop_regions@.take(i + 1);
        assert(rs.drop_last() =~= options.crop_regions@.take(i as int));
        assert(rs.last() == options.crop_regions@[i as int]);
        if i > 0 {
            push_all(&mut m, ",");
        } else {
            assert(options.crop_regions@.take(0) =~= Seq::<ModelInputCacheRegion>::empty());
        }
        push_region(&mut m, &options.crop_regions[i]);
        i = i + 1;
    }
    assert(options.crop_regions@.take(options.crop_regions@.len() as int) =~= options.crop_regions@);
    push_all(&mut m, "],\"preprocessMode\":");
    push_json_string(&mut m, options.preprocess_mode.as_str());
    push_all(&mut m, ",\"resizePolicyVersion\":");
    push_json_string(&mut m, options.resize_policy_version.as_str());
    push_all(&mut m, ",\"sourceSha256\":");
    push_json_string(&mut m, source_sha256);
    push_all(&mut m, "}");
    let material = string_from_chars(&m);
    assert(material@ =~= cache_key_material(
        source_sha256@,
        *options,
        long_edge_max,
        jpeg_quality,
        "image-rs-jpeg-0.25-v1"@,
    ));
    Ok(sha256_hex_of(&material))
}

} // verus!
