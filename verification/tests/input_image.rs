use sha2::Digest;
use rubrika_models::domain::{ModelInputImage, ModelInputImageKind};
use rubrika_models::input_image::{
    base64_approx_bytes, batch_manifest, kind_folder, manifest_image_paths, manifest_relative_path, model_input_file_name, sort_manifests,
    model_inputs_relative_dir, ModelInputBatchMetadata, ModelInputCacheOptions,
    ModelInputImageService, jpeg_encoder_version, model_input_cache_key, ModelInputCacheRegion,
};

#[test]
fn default_settings() {
    let service = ModelInputImageService::default_question_text();
    assert_eq!(service.long_edge_max(), 1800);
    assert_eq!(service.jpeg_quality(), 88);
    let custom = ModelInputImageService::new(2000, 92);
    assert_eq!(custom.long_edge_max(), 2000);
    assert_eq!(custom.jpeg_quality(), 92);
    let options = ModelInputCacheOptions::default();
    assert!(options.crop_regions.is_empty());
    assert_eq!(options.alignment_transform, "identity_v1");
    assert_eq!(options.preprocess_mode, "source");
    assert_eq!(options.resize_policy_version, "no_upscale_lanczos3_v1");
}

#[test]
fn base64_sizes() {
    assert_eq!(base64_approx_bytes(0), 0);
    assert_eq!(base64_approx_bytes(1), 4);
    assert_eq!(base64_approx_bytes(3), 4);
    assert_eq!(base64_approx_bytes(4), 8);
    assert_eq!(base64_approx_bytes(3000), 4000);
}

#[test]
fn cache_layout() {
    assert_eq!(kind_folder(&ModelInputImageKind::StudentAnswerOcrIssueCorrection), "student_ocr_issue_correction");
    assert_eq!(model_inputs_relative_dir(&ModelInputImageKind::Rubric, "doc-1"), "cache/model_inputs/rubric/doc-1");
    assert_eq!(
        manifest_relative_path(&ModelInputImageKind::QuestionText, "d"),
        "cache/model_inputs/question_text/d/model_inputs.json"
    );
}

fn image(page: u32) -> ModelInputImage {
    ModelInputImage {
        kind: ModelInputImageKind::StudentOcr,
        document_id: "d".to_string(),
        page_number: page,
        source_image_path: format!("src-{page}.png"),
        output_image_path: format!("out-{page}.jpg"),
        source_width: 10,
        source_height: 10,
        output_width: 10,
        output_height: 10,
        source_bytes: 1,
        output_bytes: 1,
        base64_approx_bytes: 4,
        long_edge_max: 1800,
        jpeg_quality: 88,
        created_at: "t".to_string(),
        source_sha256: None,
        output_sha256: None,
        cache_key: None,
        cache_transaction_id: None,
        cache_hit: false,
    }
}

#[test]
fn manifest_paths_are_listed_per_image() {
    let manifest = ModelInputBatchMetadata {
        kind: ModelInputImageKind::StudentOcr,
        document_id: "d".to_string(),
        created_at: "t".to_string(),
        long_edge_max: 1800,
        jpeg_quality: 88,
        cache_schema_version: 1,
        transaction_id: "x".to_string(),
        resize_policy_version: "no_upscale_lanczos3_v1".to_string(),
        encoder_version: "image-rs-jpeg-0.25-v1".to_string(),
        total_source_bytes: 2,
        total_output_bytes: 2,
        total_base64_approx_bytes: 8,
        images: vec![image(1), image(2)],
    };
    assert_eq!(
        manifest_image_paths(&manifest),
        vec!["src-1.png".to_string(), "out-1.jpg".to_string(), "src-2.png".to_string(), "out-2.jpg".to_string()]
    );
}

#[test]
fn page_input_file_names_pad_the_page_number() {
    assert_eq!(model_input_file_name(7, "abc"), "page_007_abc.jpg");
    assert_eq!(model_input_file_name(42, "k"), "page_042_k.jpg");
    assert_eq!(model_input_file_name(1234, "k"), "page_1234_k.jpg");
    assert_eq!(model_input_file_name(0, ""), "page_000_.jpg");
}

#[test]
fn batch_manifest_sums_its_images() {
    let service = ModelInputImageService::new(1600, 80);
    let mut second = image(2);
    second.source_bytes = 10;
    second.output_bytes = 7;
    second.base64_approx_bytes = 12;
    let manifest = batch_manifest(
        &service,
        ModelInputImageKind::Rubric,
        "doc",
        "2024-01-01T00:00:00Z".to_string(),
        "tx".to_string(),
        &ModelInputCacheOptions::default(),
        vec![image(1), second],
    );
    assert_eq!(manifest.document_id, "doc");
    assert_eq!(manifest.long_edge_max, 1600);
    assert_eq!(manifest.jpeg_quality, 80);
    assert_eq!(manifest.cache_schema_version, 1);
    assert_eq!(manifest.encoder_version, "image-rs-jpeg-0.25-v1");
    assert_eq!(manifest.resize_policy_version, "no_upscale_lanczos3_v1");
    assert_eq!(manifest.total_source_bytes, 11);
    assert_eq!(manifest.total_output_bytes, 8);
    assert_eq!(manifest.total_base64_approx_bytes, 16);
    assert_eq!(manifest.images.len(), 2);
}

fn manifest(document_id: &str, created_at: &str) -> ModelInputBatchMetadata {
    ModelInputBatchMetadata {
        kind: ModelInputImageKind::QuestionText,
        document_id: document_id.to_string(),
        created_at: created_at.to_string(),
        long_edge_max: 1800,
        jpeg_quality: 88,
        cache_schema_version: 1,
        transaction_id: format!("{document_id}-{created_at}"),
        resize_policy_version: "no_upscale_lanczos3_v1".to_string(),
        encoder_version: "image-rs-jpeg-0.25-v1".to_string(),
        total_source_bytes: 0,
        total_output_bytes: 0,
        total_base64_approx_bytes: 0,
        images: vec![],
    }
}

#[test]
fn manifests_are_listed_by_document_then_creation_time() {
    let sorted = sort_manifests(vec![
        manifest("b", "2024-01-02"),
        manifest("a", "2024-03-01"),
        manifest("a", "2024-01-01"),
        manifest("ab", "2023-01-01"),
        manifest("B", "2025-01-01"),
    ]);
    let order: Vec<(String, String)> =
        sorted.iter().map(|m| (m.document_id.clone(), m.created_at.clone())).collect();
    assert_eq!(
        order,
        vec![
            ("B".to_string(), "2025-01-01".to_string()),
            ("a".to_string(), "2024-01-01".to_string()),
            ("a".to_string(), "2024-03-01".to_string()),
            ("ab".to_string(), "2023-01-01".to_string()),
            ("b".to_string(), "2024-01-02".to_string()),
        ]
    );
    assert!(sort_manifests(vec![]).is_empty());
}

fn expected_cache_key(source: &str, options: &ModelInputCacheOptions, long_edge_max: u32, jpeg_quality: u8) -> String {
    let mut regions = Vec::new();
    for r in &options.crop_regions {
        let mut m = serde_json::Map::new();
        m.insert("x".to_string(), serde_json::Value::from(r.x));
        m.insert("y".to_string(), serde_json::Value::from(r.y));
        m.insert("width".to_string(), serde_json::Value::from(r.width));
        m.insert("height".to_string(), serde_json::Value::from(r.height));
        regions.push(serde_json::Value::Object(m));
    }
    let mut m = serde_json::Map::new();
    m.insert("sourceSha256".to_string(), serde_json::Value::from(source));
    m.insert("orderedCropRegions".to_string(), serde_json::Value::Array(regions));
    m.insert("alignmentTransform".to_string(), serde_json::Value::from(options.alignment_transform.clone()));
    m.insert("preprocessMode".to_string(), serde_json::Value::from(options.preprocess_mode.clone()));
    m.insert("resizePolicyVersion".to_string(), serde_json::Value::from(options.resize_policy_version.clone()));
    m.insert("longEdgeMax".to_string(), serde_json::Value::from(long_edge_max));
    m.insert("jpegQuality".to_string(), serde_json::Value::from(jpeg_quality));
    m.insert("encoderVersion".to_string(), serde_json::Value::from(jpeg_encoder_version()));
    let bytes = serde_json::to_vec(&serde_json::Value::Object(m)).unwrap();
    hex::encode(sha2::Sha256::digest(&bytes))
}

#[test]
fn cache_key_is_the_digest_of_the_sorted_key_material() {
    let options = ModelInputCacheOptions::default();
    let key = model_input_cache_key("abc", &options, 1800, 88).unwrap();
    assert_eq!(key.len(), 64);
    assert_eq!(key, expected_cache_key("abc", &options, 1800, 88));
    let mut options = ModelInputCacheOptions::default();
    options.crop_regions.push(ModelInputCacheRegion { x: 1, y: 2, width: 30, height: 40 });
    options.crop_regions.push(ModelInputCacheRegion { x: 0, y: 0, width: 5, height: 6 });
    options.preprocess_mode = "kontrast \"q\" \\ \u{1}\t\nç".to_string();
    let key = model_input_cache_key("def", &options, 1024, 75).unwrap();
    assert_eq!(key, expected_cache_key("def", &options, 1024, 75));
    assert_ne!(key, model_input_cache_key("def", &options, 1024, 76).unwrap());
}
