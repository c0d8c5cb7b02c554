use kowalski_rlm::context_fold::{
    select_by_importance, select_by_sampling, ContextFoldConfig, ContextFolder, FoldingStats,
};
use kowalski_rlm::error::RLMError;

#[test]
fn test_token_estimation() {
    let text = "Hello world test";
    let tokens = ContextFolder::estimate_tokens(text);
    assert!(tokens > 0);
}

#[test]
fn test_should_fold_detection() {
    let config = ContextFoldConfig::new(100);
    let folder = ContextFolder::new(config);

    let small = "Hello world";
    assert!(!folder.should_fold(small));

    let large = "word ".repeat(200);
    assert!(folder.should_fold(&large));
}

#[test]
fn test_fold_small_context() {
    let config = ContextFoldConfig::new(100);
    let mut folder = ContextFolder::new(config);

    let small = "Hello world test";
    let result = folder.fold(small);

    assert!(result.is_ok());
    assert_eq!(result.unwrap(), small);
}

#[test]
fn test_fold_large_context() {
    // Set a low limit to trigger folding
    let config = ContextFoldConfig::new(50);
    let mut folder = ContextFolder::new(config);

    // Create content much larger than the limit
    let large = "This is a test line with some content. ".repeat(150);
    let result = folder.fold(&large);

    // Main assertions: folding succeeds and produces valid output
    assert!(result.is_ok(), "Folding should succeed");
    let folded = result.unwrap();
    assert!(!folded.is_empty(), "Folding should not produce empty result");

    // Verify it's still valid text
    assert!(folded.len() > 0, "Folded result should have content");
}

#[test]
fn test_compress_by_importance() {
    let config = ContextFoldConfig::new(100);
    let folder = ContextFolder::new(config);

    let lines: Vec<&str> = vec!["A", "B", "C", "D", "E", "F", "G", "H"];
    let result = folder.compress_by_importance(&lines, 3);

    assert!(!result.is_empty());
}

#[test]
fn test_compress_by_sampling() {
    let config = ContextFoldConfig::new(100);
    let folder = ContextFolder::new(config);

    let lines: Vec<&str> = vec!["A", "B", "C", "D", "E", "F", "G", "H"];
    let result = folder.compress_by_sampling(&lines, 4);

    assert!(!result.is_empty());
}

#[test]
fn test_stats_tracking() {
    let config = ContextFoldConfig::new(50);
    let mut folder = ContextFolder::new(config);

    let text = "word ".repeat(100);
    let _ = folder.fold(&text);

    let stats = folder.stats();
    assert!(stats.original_tokens > 0);
}

#[test]
fn test_context_folding_small() {
    let config = ContextFoldConfig::new(100);
    let mut folder = ContextFolder::new(config);

    let small_context = "Hello world test";
    let result = folder.fold(small_context);

    assert!(result.is_ok());
    assert_eq!(result.unwrap(), small_context);
}

#[test]
fn test_context_folding_multiple_iterations() {
    let config = ContextFoldConfig::new(50).with_compression_ratio(500);
    let mut folder = ContextFolder::new(config);

    let huge = "word ".repeat(1000);
    let result = folder.fold(&huge);

    assert!(result.is_ok());
    let stats = folder.stats();

    // Should require multiple iterations
    assert!(stats.iterations > 1);
}

#[test]
fn test_context_folding_stats_reset() {
    let config = ContextFoldConfig::new(100);
    let mut folder = ContextFolder::new(config);

    let text = "word ".repeat(200);
    let _ = folder.fold(&text);

    let stats1 = folder.stats();
    assert!(stats1.original_tokens > 0);

    folder.reset_stats();
    let stats2 = folder.stats();
    assert_eq!(stats2.original_tokens, 0);
}

#[test]
fn estimate_counts_words_and_half_the_punctuation() {
    assert_eq!(ContextFolder::estimate_tokens(""), 0);
    assert_eq!(ContextFolder::estimate_tokens("   \n\t "), 0);
    assert_eq!(ContextFolder::estimate_tokens("Hello, world! foo"), 4);
    assert_eq!(ContextFolder::estimate_tokens("a.b.c"), 2);
    assert_eq!(ContextFolder::estimate_tokens("one\u{00A0}two\u{3000}three"), 3);
    assert_eq!(ContextFolder::estimate_tokens("!!!"), 2);
}

#[test]
fn should_fold_is_strict() {
    let folder = ContextFolder::new(ContextFoldConfig::new(3));
    assert!(!folder.should_fold("a b c"));
    assert!(folder.should_fold("a b c d"));
}

#[test]
fn importance_keeps_head_middle_and_tail() {
    let folder = ContextFolder::new(ContextFoldConfig::new(100));
    let lines: Vec<&str> = vec!["A", "B", "C", "D", "E", "F", "G", "H"];
    assert_eq!(folder.compress_by_importance(&lines, 3), "A\nC\nH");
    assert_eq!(folder.compress_by_importance(&lines, 0), "");
    assert_eq!(folder.compress_by_importance(&lines, 1), "A");
    assert_eq!(folder.compress_by_importance(&["only"], 1), "only");
    assert_eq!(folder.compress_by_importance(&["only"], 5), "only\nonly");
    assert_eq!(folder.compress_by_importance(&[], 5), "");
    assert_eq!(select_by_importance(10, 7), vec![0, 1, 3, 5, 7, 8, 9]);
    assert_eq!(select_by_importance(2, 9), vec![0, 1, 0, 1]);
}

#[test]
fn sampling_keeps_every_nth_line() {
    let folder = ContextFolder::new(ContextFoldConfig::new(100));
    let lines: Vec<&str> = vec!["A", "B", "C", "D", "E", "F", "G", "H"];
    assert_eq!(folder.compress_by_sampling(&lines, 4), "A\nC\nE\nG");
    assert_eq!(folder.compress_by_sampling(&lines, 3), "A\nC\nE");
    assert_eq!(folder.compress_by_sampling(&lines, 100), "A\nB\nC\nD\nE\nF\nG\nH");
    assert_eq!(select_by_sampling(7, 4), vec![0, 1, 2, 3]);
    assert_eq!(select_by_sampling(0, 4), Vec::<usize>::new());
}

#[test]
fn summary_names_the_line_count() {
    let folder = ContextFolder::new(ContextFoldConfig::new(100));
    let lines: Vec<&str> = vec!["first", "second", "third"];
    assert_eq!(
        folder.compress_by_summary(&lines, 1),
        "[SUMMARY: 3 lines compressed to summary] first"
    );
    assert_eq!(folder.compress_by_summary(&[], 1), "");
}

#[test]
fn rounds_switch_strategy() {
    let folder = ContextFolder::new(ContextFoldConfig::new(1));
    let text = "A\nB\r\nC\nD\nE\nF\nG\nH\nI\nJ\n";
    assert_eq!(folder.compress_iteration(text, 0), "A\nB\nD\nF\nH\nI\nJ");
    assert_eq!(folder.compress_iteration(text, 1), "A\nB\nC\nD\nE\nF\nG");
    assert_eq!(
        folder.compress_iteration(text, 2),
        "[SUMMARY: 10 lines compressed to summary] A"
    );
    assert_eq!(
        folder.compress_iteration(text, 7),
        "[SUMMARY: 10 lines compressed to summary] A"
    );
    assert_eq!(folder.compress_iteration("", 0), "");
    let aggressive = ContextFolder::new(ContextFoldConfig::new(1).with_aggressive_folding());
    assert_eq!(aggressive.compress_iteration(text, 1), "A\nC\nE\nG\nI");
}

#[test]
fn fold_stops_as_soon_as_the_budget_is_met() {
    let mut text = String::new();
    for i in 0..10 {
        if i > 0 {
            text.push('\n');
        }
        text.push_str(&format!("w{} a b c", i));
    }
    let mut folder = ContextFolder::new(ContextFoldConfig::new(20));
    assert_eq!(ContextFolder::estimate_tokens(&text), 40);
    let folded = folder.fold(&text).unwrap();
    assert_eq!(folded, "w0 a b c\nw1 a b c\nw3 a b c\nw5 a b c");
    let stats = folder.stats();
    assert_eq!(stats.original_tokens, 40);
    assert_eq!(stats.compressed_tokens, 16);
    assert_eq!(stats.iterations, 2);
    assert_eq!(stats.compression_ratio, 400);
    assert_eq!(stats.actual_ratio(), 400);
}

#[test]
fn fold_fails_rather_than_return_nothing() {
    let config = ContextFoldConfig::new(2).with_compression_ratio(0);
    let mut folder = ContextFolder::new(config);
    let result = folder.fold("\na b c d e f");
    match result {
        Err(RLMError::ContextFoldingFailed(m)) => {
            assert_eq!(m, "Context folding resulted in empty content");
        }
        _ => panic!("expected ContextFoldingFailed"),
    }
    assert_eq!(folder.stats().original_tokens, 6);
    assert_eq!(folder.stats().iterations, 1);
}

#[test]
fn fold_without_rounds_returns_the_text() {
    let mut config = ContextFoldConfig::new(1);
    config.max_iterations = 0;
    let mut folder = ContextFolder::new(config);
    assert_eq!(folder.fold("a b c").unwrap(), "a b c");
    assert_eq!(folder.stats().iterations, 0);
    assert_eq!(folder.stats().compressed_tokens, 3);
    assert_eq!(folder.fold("").unwrap(), "");
}

#[test]
fn ratio_setter_and_statistics_defaults() {
    let config = ContextFoldConfig::new(7);
    assert_eq!(config.max_tokens, 7);
    assert_eq!(config.compression_ratio, 700);
    assert!(!config.aggressive);
    assert_eq!(config.max_iterations, 3);
    assert_eq!(config.with_compression_ratio(1500).compression_ratio, 1000);
    assert_eq!(config.with_compression_ratio(250).compression_ratio, 250);
    assert_eq!(ContextFoldConfig::default().max_tokens, 100_000);
    let stats = FoldingStats::default();
    assert_eq!(stats.actual_ratio(), 1000);
    let stats = FoldingStats { original_tokens: 3, compressed_tokens: 2, ..stats };
    assert_eq!(stats.actual_ratio(), 666);
}

#[test]
fn aggressive_fold_halves_the_lines() {
    let text = (0..8).map(|i| format!("l{} x", i)).collect::<Vec<_>>().join("\n");
    let mut folder = ContextFolder::new(ContextFoldConfig::new(9).with_aggressive_folding());
    let folded = folder.fold(&text).unwrap();
    assert_eq!(folded, "l0 x\nl2 x\nl6 x\nl7 x");
    assert_eq!(folder.stats().iterations, 1);
    assert_eq!(folder.stats().actual_ratio(), 500);
}
