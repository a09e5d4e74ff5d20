use anda_bot::answer::{decide_post_answer, decide_tweet_answer, Completion, Refusal};
use anda_bot::seen::{is_seen, recent_seen, trim_seen, MAX_SEEN_TWEET_IDS};
use anda_bot::text::{
    compose_chat_line, compose_conversation, compose_tweet_prompt, is_declined, is_same_handle,
    remove_quotes, stack_lines, write_chat_line, write_tweet_prompt, POST_PROMPT,
};

fn strings(items: &[&str]) -> Vec<String> {
    items.iter().map(|s| s.to_string()).collect()
}

fn ids(from: usize, to: usize) -> Vec<String> {
    (from..to).map(|n| n.to_string()).collect()
}

fn said(content: &str) -> Completion {
    Completion { content: content.to_string(), failed_reason: None }
}

fn failed(content: &str, reason: &str) -> Completion {
    Completion { content: content.to_string(), failed_reason: Some(reason.to_string()) }
}

#[test]
fn quotes_are_removed_in_pairs() {
    assert_eq!(remove_quotes("\"hello\"".to_string()), "hello");
    assert_eq!(remove_quotes("hello".to_string()), "hello");
    assert_eq!(remove_quotes("\"hello".to_string()), "\"hello");
    assert_eq!(remove_quotes("hello\"".to_string()), "hello\"");
    assert_eq!(remove_quotes("say \"hi\"".to_string()), "say \"hi\"");
    assert_eq!(remove_quotes("\"\"twice\"\"".to_string()), "\"twice\"");
}

#[test]
fn quotes_at_the_edges() {
    assert_eq!(remove_quotes("".to_string()), "");
    assert_eq!(remove_quotes("\"".to_string()), "\"");
    assert_eq!(remove_quotes("\"\"".to_string()), "");
    assert_eq!(remove_quotes("\"x\"".to_string()), "x");
    assert_eq!(remove_quotes("\"\u{1F43C} panda \u{1F43C}\"".to_string()), "\u{1F43C} panda \u{1F43C}");
    assert_eq!(remove_quotes("\u{201C}curly\u{201D}".to_string()), "\u{201C}curly\u{201D}");
}

#[test]
fn removing_quotes_undoes_enclosing() {
    for text in ["", "a", "\"", "a \"b\" c", "\u{1F43C}"] {
        let enclosed: String = format!("\"{}\"", text);
        assert_eq!(remove_quotes(enclosed), text);
    }
}

#[test]
fn declined_answers() {
    assert!(is_declined(""));
    assert!(is_declined("IGNORE"));
    assert!(is_declined("I would IGNORE this."));
    assert!(is_declined("xxIGNORExx"));
    assert!(is_declined("IGNIGNORE"));
    assert!(is_declined("\u{1F43C} IGNORE \u{1F43C}"));
    assert!(!is_declined("ignore"));
    assert!(!is_declined("IGNOR"));
    assert!(!is_declined("IGN ORE"));
    assert!(!is_declined("hello"));
    assert!(!is_declined(" "));
}

#[test]
fn handles_are_compared_without_letter_case() {
    assert!(is_same_handle("ICPandaDAO", "icpandadao"));
    assert!(is_same_handle("\u{00C4}nda", "\u{00E4}NDA"));
    assert!(is_same_handle("", ""));
    assert!(!is_same_handle("ICPandaDAO", "ICPandaDA0"));
    assert!(!is_same_handle("anda", "anda_bot"));
}

#[test]
fn chat_lines() {
    assert_eq!(compose_chat_line("anda", "\"hi\""), "anda: \"hi\"");
    assert_eq!(write_chat_line("anda", "hi"), "anda: \"hi\"");
    assert_eq!(write_chat_line("", "a\nb \"c\""), ": \"a\\nb \\\"c\\\"\"");
}

#[test]
fn lines_are_stacked() {
    assert_eq!(stack_lines(&strings(&[])), "");
    assert_eq!(stack_lines(&strings(&["one"])), "one");
    assert_eq!(stack_lines(&strings(&["one", "", "three"])), "one\n\nthree");
}

#[test]
fn lone_mention_speaks_for_itself() {
    assert_eq!(compose_conversation("hi".to_string(), &strings(&[])), "hi");
    assert_eq!(compose_conversation("hi".to_string(), &strings(&["a: \"hi\""])), "hi");
    assert_eq!(
        compose_conversation("hi".to_string(), &strings(&["b: \"yo\"", "a: \"hi\""])),
        "b: \"yo\"\na: \"hi\""
    );
}

#[test]
fn prompts() {
    assert_eq!(
        write_tweet_prompt("Anda ICP", "gm \"all\""),
        "Respond the tweet AS **Anda ICP** would - only reply if your persona deems it necessary. When engaging:\n1. Use your character's unique voice and communication style naturally\n2. Keep responses to one authentic-sentence without hashtags\n3. Return IGNORE if your persona wouldn't respond to this tweet\n\n## Tweet Content:\n\"gm \\\"all\\\"\""
    );
    assert_eq!(compose_tweet_prompt("A", "\"gm\""), write_tweet_prompt("A", "gm"));
    assert_eq!(
        POST_PROMPT,
        "\
                Share a single brief thought or observation in one short sentence.\
                Be direct and concise. No questions, hashtags, or emojis.\
                "
    );
}

#[test]
fn answers_to_tweets() {
    assert_eq!(decide_tweet_answer(said("\"gm\"")), Ok("gm".to_string()));
    assert_eq!(decide_tweet_answer(said("gm")), Ok("gm".to_string()));
    assert_eq!(decide_tweet_answer(said("")), Err(Refusal::Ignored));
    assert_eq!(decide_tweet_answer(said("\"\"")), Err(Refusal::Ignored));
    assert_eq!(decide_tweet_answer(said("\"IGNORE\"")), Err(Refusal::Ignored));
    assert_eq!(
        decide_tweet_answer(failed("gm", "no quota")),
        Err(Refusal::Generation { reason: "no quota".to_string() })
    );
}

#[test]
fn answers_that_are_tweets() {
    assert_eq!(decide_post_answer(said("\"gm\"")), Ok("\"gm\"".to_string()));
    assert_eq!(decide_post_answer(said("IGNORE")), Ok("IGNORE".to_string()));
    assert_eq!(decide_post_answer(said("")), Ok("".to_string()));
    assert_eq!(
        decide_post_answer(failed("gm", "down")),
        Err(Refusal::Generation { reason: "down".to_string() })
    );
}

#[test]
fn refusals_are_reported() {
    assert_eq!(Refusal::Ignored.message(), "Ignore this tweet");
    assert_eq!(
        Refusal::Generation { reason: "no quota".to_string() }.message(),
        "Failed to generate response for tweet: no quota"
    );
}

#[test]
fn seen_ids_are_trimmed_at_the_limit() {
    let mut below: Vec<String> = ids(0, MAX_SEEN_TWEET_IDS - 1);
    trim_seen(&mut below);
    assert_eq!(below.len(), 9999);

    let mut full: Vec<String> = ids(0, MAX_SEEN_TWEET_IDS);
    let newest: Vec<String> = recent_seen(&full);
    trim_seen(&mut full);
    assert_eq!(full, ids(5000, 10000));
    assert_eq!(recent_seen(&full), newest);

    let mut over: Vec<String> = ids(0, 15001);
    trim_seen(&mut over);
    assert_eq!(over, ids(5000, 15001));
}

#[test]
fn recent_ids_are_the_last_ones() {
    assert_eq!(recent_seen(&ids(0, 0)), ids(0, 0));
    assert_eq!(recent_seen(&ids(0, 42)), ids(0, 42));
    assert_eq!(recent_seen(&ids(0, 43)), ids(1, 43));
    assert_eq!(recent_seen(&ids(0, 100)), ids(58, 100));
}

#[test]
fn seen_ids_are_found() {
    let seen: Vec<String> = strings(&["1", "22", "333"]);
    assert!(is_seen(&seen, &"22".to_string()));
    assert!(is_seen(&seen, &"333".to_string()));
    assert!(!is_seen(&seen, &"2".to_string()));
    assert!(!is_seen(&Vec::new(), &"".to_string()));
}
