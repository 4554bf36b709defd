use taunote_llm::config::default_config;
use taunote_llm::config::default_llama;
use taunote_llm::config::server_args;
use taunote_llm::prompts::email_prompt;
use taunote_llm::prompts::lecture_notes_prompt;
use taunote_llm::prompts::summary_prompt;
use taunote_llm::prompts::truncate;
use taunote_llm::prompts::EMAIL_MAX_TOKENS;
use taunote_llm::prompts::LECTURE_NOTES_MAX_TOKENS;
use taunote_llm::prompts::SUMMARY_MAX_TOKENS;
use taunote_llm::prompts::TRANSCRIPT_BYTE_LIMIT;

#[test]
fn truncate_keeps_short_text() {
    assert_eq!(truncate("abc", 5), "abc");
    assert_eq!(truncate("abc", 3), "abc");
}

#[test]
fn truncate_cuts_long_text() {
    assert_eq!(truncate("abcdef", 3), "abc");
    assert_eq!(truncate("abcdef", 0), "");
}

#[test]
fn truncate_cuts_at_a_byte_budget() {
    // "\u{e9}" is two bytes of UTF-8: "h\u{e9}" already needs three bytes.
    assert_eq!(truncate("h\u{e9}llo", 2), "h");
    assert_eq!(truncate("\u{e9}a", 2), "\u{e9}");
    assert_eq!(truncate("\u{e9}a", 3), "\u{e9}a");
}

#[test]
fn truncate_rounds_down_to_a_character_boundary() {
    // A budget landing inside a character keeps only what precedes it.
    assert_eq!(truncate("\u{e9}a", 1), "");
    assert_eq!(truncate("a\u{1F600}b", 4), "a");
    assert_eq!(truncate("a\u{1F600}b", 5), "a\u{1F600}");
    assert_eq!(truncate("\u{65E5}\u{672C}\u{8A9E}", 5), "\u{65E5}");
    assert_eq!(truncate("\u{65E5}\u{672C}\u{8A9E}", 6), "\u{65E5}\u{672C}");
}

#[test]
fn token_budgets_match_the_tasks() {
    assert_eq!(SUMMARY_MAX_TOKENS, 512);
    assert_eq!(EMAIL_MAX_TOKENS, 512);
    assert_eq!(LECTURE_NOTES_MAX_TOKENS, 600);
    assert_eq!(TRANSCRIPT_BYTE_LIMIT, 3000);
}

#[test]
fn summary_prompt_uses_its_template() {
    assert_eq!(
        summary_prompt("the meeting text"),
        "Summarize the following transcript:\nthe meeting text"
    );
}

#[test]
fn email_prompt_uses_its_template() {
    assert_eq!(
        email_prompt("the meeting text"),
        "Write a professional follow-up email based on this meeting:\nthe meeting text"
    );
}

#[test]
fn lecture_notes_prompt_uses_its_template() {
    assert_eq!(
        lecture_notes_prompt("the meeting text"),
        "Write clear and concise lecture notes with bullet points and sections from this transcript:\nthe meeting text"
    );
}

#[test]
fn prompts_cut_transcripts_at_the_limit() {
    let long = "x".repeat(4000);
    let p = summary_prompt(&long);
    let expected_tail = "x".repeat(3000);
    assert_eq!(
        p,
        format!("Summarize the following transcript:\n{}", expected_tail)
    );
}

#[test]
fn default_llama_gives_the_stock_paths() {
    let (server, model, host, port) = default_llama(8081);
    assert_eq!(server, "/home/andrea/llama.cpp/build/bin/llama-server");
    assert_eq!(
        model,
        "/home/andrea/taunote/models/llama/Meta-Llama-3.1-8B-Instruct-Q6_K_L.gguf"
    );
    assert_eq!(host, "127.0.0.1");
    assert_eq!(port, 8081);
}

#[test]
fn server_args_list_every_launch_flag() {
    let c = default_config(8081);
    assert_eq!(c.gpu_layers, 35);
    assert_eq!(c.ctx_size, 4096);
    let args = server_args(&c);
    assert_eq!(
        args,
        vec![
            "--model".to_string(),
            "/home/andrea/taunote/models/llama/Meta-Llama-3.1-8B-Instruct-Q6_K_L.gguf".to_string(),
            "--port".to_string(),
            "8081".to_string(),
            "--n-gpu-layers".to_string(),
            "35".to_string(),
            "--ctx-size".to_string(),
            "4096".to_string(),
            "--no-warmup".to_string(),
        ]
    );
}
