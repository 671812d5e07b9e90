use orion_ai::thread::recorder::summary_extractor::SummaryExtractor;

fn create_extractor() -> SummaryExtractor {
    let keywords = vec![
        "总结".to_string(),
        "总之".to_string(),
        "结论".to_string(),
        "summary".to_string(),
        "conclusion".to_string(),
    ];
    SummaryExtractor::new(&keywords)
}

#[test]
fn test_extract_with_summary_keyword() {
    let extractor = create_extractor();
    let content = "这是一个复杂的分析过程。\n需要考虑多个因素。\n总结：这个方案的优点是效率高，缺点是成本较大。";

    let result = extractor.extract_with_length_limits(content, 10, 50);
    assert!(result.contains("总结："));
    assert!(result.contains("效率高"));
}

#[test]
fn test_extract_without_summary_keyword() {
    let extractor = create_extractor();
    let content = "第一步是分析需求。\n第二步是设计方案。\n第三步是实施部署。\n最后，需要进行测试验证。";

    let result = extractor.extract_with_length_limits(content, 10, 50);
    assert!(result.contains("最后"));
    assert!(result.contains("测试验证"));
}

#[test]
fn test_truncate_to_length() {
    let extractor = create_extractor();
    let long_text = "这是一个很长的句子，包含很多内容，需要被截断到合适的长度。这是一个很长的句子，包含很多内容，需要被截断到合适的长度。";

    let result = extractor.truncate_to_length(long_text, 10, 30);
    assert!(result.len() <= 30);
}

#[test]
fn test_merge_paragraphs() {
    let extractor = create_extractor();
    let paragraphs = vec![
        "第一段：简短描述。".to_string(),
        "第二段：相对较长的描述内容。".to_string(),
        "第三段：最后的总结性内容。".to_string(),
    ];

    let result = extractor.merge_last_paragraphs(&paragraphs, 20, 100);
    assert!(result.contains("第三段"));
}

#[test]
fn test_english_keywords() {
    let extractor = create_extractor();
    let content = "This is a detailed analysis.\nMultiple factors need to be considered.\nIn summary, this approach is efficient but costly.";

    let result = extractor.extract_with_length_limits(content, 10, 50);
    assert!(result.contains("In summary"));
    assert!(result.contains("efficient"));
}

#[test]
fn test_empty_content() {
    let extractor = create_extractor();
    let result = extractor.extract_with_length_limits("", 10, 50);
    assert!(result.is_empty());
}

#[test]
fn test_sentence_boundary_truncation() {
    let extractor = create_extractor();
    let text = "这是第一句。这是第二句。这是第三句。这是第四句。";

    let result = extractor.truncate_at_sentence_boundary(text, 20);
    assert!(result.is_some());
    let result = result.unwrap();
    assert!(result.ends_with('。'));
    assert!(result.len() <= 20);
}

#[test]
fn test_min_length_respected() {
    let extractor = create_extractor();
    let short_text = "简短";

    let result = extractor.extract_with_length_limits(short_text, 10, 50);
    assert_eq!(result, "简短");
}

#[test]
fn test_max_length_respected() {
    let extractor = create_extractor();
    let long_text = "这是一个很长的文本，超过了最大长度限制，应该被截断。这是一个很长的文本，超过了最大长度限制，应该被截断。";

    let result = extractor.extract_with_length_limits(long_text, 10, 30);
    assert!(result.len() <= 30);
}

#[test]
fn summary_is_cut_behind_the_last_clause_within_the_limit() {
    let extractor = create_extractor();
    let result = extractor.extract_with_length_limits(
        "总结：这个方案的优点是效率高，缺点是成本较大。",
        10,
        50,
    );
    assert_eq!(result, "总结：这个方案的优点是效率高，");
    assert_eq!(
        extractor.truncate_at_sentence_boundary("这是第一句。这是第二句。", 20),
        Some("这是第一句。".to_string())
    );
    assert_eq!(extractor.truncate_at_sentence_boundary("abcdefghij", 4), None);
    assert_eq!(extractor.safe_char_truncate("abcdefghij", 4), "abcde");
    assert_eq!(extractor.safe_char_truncate("abc", 4), "abc");
    assert!(extractor.contains_summary_keyword("A SUMMARY follows"));
    assert!(!extractor.contains_summary_keyword("nothing of the kind"));
}

#[test]
fn last_paragraphs_are_joined_until_long_enough() {
    let extractor = create_extractor();
    let paragraphs = vec!["one".to_string(), "two".to_string(), "three".to_string()];
    assert_eq!(extractor.merge_last_paragraphs(&paragraphs, 8, 100), "two three");
    assert_eq!(extractor.merge_last_paragraphs(&paragraphs, 1, 100), "three");
    assert_eq!(extractor.merge_last_paragraphs(&paragraphs, 50, 100), "one two three");
    assert_eq!(extractor.merge_last_paragraphs(&paragraphs, 8, 6), "three");
    assert_eq!(extractor.merge_last_paragraphs(&paragraphs, 8, 4), "");
    assert_eq!(extractor.merge_last_paragraphs(&Vec::new(), 8, 100), "");
}
