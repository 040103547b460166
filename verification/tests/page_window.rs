use rubrika_models::domain::{ModelInputImage, ModelInputImageKind};
use rubrika_models::page_window::{
    candidate_pages_for_question, estimated_page_for_question, expand_page_window,
    question_numbers_by_page, select_inputs_by_pages,
};
use std::collections::BTreeMap;

fn image(page_number: u32) -> ModelInputImage {
    ModelInputImage {
        kind: ModelInputImageKind::QuestionText,
        document_id: "d1".to_string(),
        page_number,
        source_image_path: format!("src-{page_number}.jpg"),
        output_image_path: format!("out-{page_number}.jpg"),
        source_width: 1,
        source_height: 1,
        output_width: 1,
        output_height: 1,
        source_bytes: 0,
        output_bytes: 0,
        base64_approx_bytes: 0,
        long_edge_max: 2000,
        jpeg_quality: 92,
        created_at: "now".to_string(),
        source_sha256: None,
        output_sha256: None,
        cache_key: None,
        cache_transaction_id: None,
        cache_hit: false,
    }
}

#[test]
fn question_numbers_by_page_splits_on_form_feed() {
    let raw = "Başlık\nS1. İlk soru.\n\u{c}S2. İkinci soru.\nS3. Üçüncü soru.\n\u{c}S4. Dördüncü soru.";
    let map = question_numbers_by_page(raw);
    assert_eq!(map.get(&1), Some(&vec![1]));
    assert_eq!(map.get(&2), Some(&vec![2, 3]));
    assert_eq!(map.get(&3), Some(&vec![4]));
}

#[test]
fn question_numbers_by_page_returns_empty_for_blank_text() {
    assert!(question_numbers_by_page("").is_empty());
    assert!(question_numbers_by_page("\u{c}\u{c}").is_empty());
}

#[test]
fn candidate_pages_prefers_detected_marker() {
    let mut page_questions = BTreeMap::new();
    page_questions.insert(1, vec![1]);
    page_questions.insert(2, vec![2, 3]);
    assert_eq!(candidate_pages_for_question(3, &page_questions, 4, 2), vec![2]);
}

#[test]
fn candidate_pages_falls_back_to_linear_estimate() {
    let page_questions = BTreeMap::new();
    // 5 questions over 5 pages: question 4 -> page 4.
    assert_eq!(candidate_pages_for_question(4, &page_questions, 5, 5), vec![4]);
    // 10 questions over 2 pages: question 1 -> page 1, question 10 -> page 2.
    assert_eq!(candidate_pages_for_question(1, &page_questions, 10, 2), vec![1]);
    assert_eq!(candidate_pages_for_question(10, &page_questions, 10, 2), vec![2]);
}

#[test]
fn candidate_pages_clamps_estimate_to_page_range() {
    let page_questions = BTreeMap::new();
    assert_eq!(candidate_pages_for_question(99, &page_questions, 10, 3), vec![3]);
    assert_eq!(candidate_pages_for_question(0, &page_questions, 10, 3), vec![1]);
}

#[test]
fn expand_page_window_clamps_to_document_range() {
    assert_eq!(expand_page_window(&[1], 5, 1), vec![1, 2]);
    assert_eq!(expand_page_window(&[5], 5, 1), vec![4, 5]);
    assert_eq!(expand_page_window(&[3], 5, 1), vec![2, 3, 4]);
    assert_eq!(expand_page_window(&[2, 4], 5, 1), vec![1, 2, 3, 4, 5]);
    assert_eq!(expand_page_window(&[1], 1, 1), vec![1]);
}

#[test]
fn select_inputs_by_pages_filters_and_keeps_order() {
    let inputs = vec![image(1), image(2), image(3), image(4)];
    let selected = select_inputs_by_pages(&inputs, &[3, 1]);
    assert_eq!(selected.iter().map(|i| i.page_number).collect::<Vec<_>>(), vec![1, 3]);
}

#[test]
fn select_inputs_by_pages_is_empty_for_no_match() {
    let inputs = vec![image(1), image(2)];
    assert!(select_inputs_by_pages(&inputs, &[9]).is_empty());
}

#[test]
fn estimated_page_handles_empty_documents_and_unknown_counts() {
    assert_eq!(estimated_page_for_question(3, 10, 0), 0);
    assert_eq!(estimated_page_for_question(3, 0, 7), 1);
    // 3 of 10 questions over 7 pages: ceil(21 / 10) = 3.
    assert_eq!(estimated_page_for_question(3, 10, 7), 3);
    assert_eq!(estimated_page_for_question(u32::MAX, 1, u32::MAX), u32::MAX);
}

#[test]
fn candidate_pages_is_empty_for_an_empty_document() {
    let page_questions = BTreeMap::new();
    assert!(candidate_pages_for_question(2, &page_questions, 4, 0).is_empty());
}

#[test]
fn candidate_pages_lists_every_marked_page_in_order() {
    let mut page_questions = BTreeMap::new();
    page_questions.insert(4, vec![7]);
    page_questions.insert(2, vec![5, 7]);
    page_questions.insert(3, vec![6]);
    assert_eq!(candidate_pages_for_question(7, &page_questions, 10, 4), vec![2, 4]);
}

#[test]
fn question_markers_accept_plain_numbers_and_parentheses() {
    let raw = "  3) Üçüncü\n12. On iki\nS0. yok\nS12345. çok uzun\n\u{c}Sonuç 5.";
    let map = question_numbers_by_page(raw);
    assert_eq!(map.get(&1), Some(&vec![3, 12]));
    assert_eq!(map.get(&2), None);
    assert_eq!(map.len(), 1);
}

#[test]
fn expand_page_window_handles_pages_beyond_the_document() {
    assert_eq!(expand_page_window(&[9], 5, 1), Vec::<u32>::new());
    assert_eq!(expand_page_window(&[2], 0, 0), Vec::<u32>::new());
    assert_eq!(expand_page_window(&[1], 0, 3), Vec::<u32>::new());
    assert_eq!(expand_page_window(&[1], 0, 2), Vec::<u32>::new());
    assert_eq!(expand_page_window(&[u32::MAX], u32::MAX, 3), vec![u32::MAX - 3, u32::MAX - 2, u32::MAX - 1, u32::MAX]);
}
