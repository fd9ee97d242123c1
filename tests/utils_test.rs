use agio::utils::{base_of, retry_after_failure, truncated_tokens, BpeBase, RetryPlan, TokenizerKind};
use agio::{count_tokens, truncate_text_to_tokens, OpenAIAgentError};

#[test]
fn test_count_tokens() {
    let text = "Hello, world!";
    let result = count_tokens(text, "gpt-3.5-turbo");
    assert!(result.is_ok());
}

#[test]
fn test_truncate_text() {
    let text = "This is a long text that needs to be truncated to fit within token limits.";
    let result = truncate_text_to_tokens(text, 5, "gpt-3.5-turbo");
    assert!(result.is_ok());

    let truncated = result.unwrap();
    assert!(truncated.len() < text.len());
}

#[test]
fn count_tokens_of_short_greeting() {
    // cl100k_base splits "Hello, world!" into "Hello", ",", " world", "!".
    assert_eq!(count_tokens("Hello, world!", "gpt-3.5-turbo").unwrap(), 4);
    assert_eq!(count_tokens("", "gpt-4").unwrap(), 0);
}

#[test]
fn count_tokens_unknown_model_is_parse_error() {
    match count_tokens("hi", "no-such-model") {
        Err(OpenAIAgentError::Parse(m)) => assert_eq!(m, "Unknown model: no-such-model"),
        other => panic!("unexpected: {:?}", other),
    }
}

#[test]
fn truncate_keeps_text_that_fits() {
    let text = "short text";
    let r = truncate_text_to_tokens(text, 100, "gpt-4").unwrap();
    assert_eq!(r, text);
}

#[test]
fn truncate_cuts_to_token_prefix() {
    let r = truncate_text_to_tokens("Hello, world!", 2, "gpt-3.5-turbo").unwrap();
    assert_eq!(r, "Hello,");
    assert_eq!(count_tokens(&r, "gpt-3.5-turbo").unwrap(), 2);
}

#[test]
fn truncate_unknown_model_is_parse_error() {
    assert!(matches!(
        truncate_text_to_tokens("hi", 1, "no-such-model"),
        Err(OpenAIAgentError::Parse(_))
    ));
}

#[test]
fn truncated_tokens_cuts_only_when_longer() {
    assert_eq!(truncated_tokens(vec![1, 2, 3], 3), None);
    assert_eq!(truncated_tokens(vec![1, 2, 3], 5), None);
    assert_eq!(truncated_tokens(vec![1, 2, 3], 2), Some(vec![1, 2]));
    assert_eq!(truncated_tokens(vec![1, 2, 3], 0), Some(vec![]));
}

#[test]
fn gpt2_shares_p50k_encoding() {
    assert_eq!(base_of(TokenizerKind::Gpt2), BpeBase::P50kBase);
    assert_eq!(base_of(TokenizerKind::Cl100kBase), BpeBase::Cl100kBase);
}

#[test]
fn retries_only_transient_failures_with_doubling_delay() {
    assert_eq!(
        retry_after_failure(0, 3, true, 100),
        Some(RetryPlan { sleep_ms: 100, retries: 1, next_delay_ms: 200 })
    );
    assert_eq!(retry_after_failure(3, 3, true, 100), None);
    assert_eq!(retry_after_failure(0, 3, false, 100), None);
    assert_eq!(retry_after_failure(1, 2, true, u64::MAX).unwrap().next_delay_ms, u64::MAX);
}
