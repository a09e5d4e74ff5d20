use anda_bot::answer::{Completion, Refusal, Request};
use anda_bot::chance::{draw_up_to, Pause};
use anda_bot::daemon::TwitterDaemon;
use anda_bot::post::PostStep;
use anda_bot::round::{RunStep, ServiceStatus};
use anda_bot::text::POST_PROMPT;
use anda_bot::tweet::Tweet;

fn bot(min_interval_secs: u64) -> TwitterDaemon {
    TwitterDaemon::new(
        "ICPandaDAO".to_string(),
        "Anda ICP".to_string(),
        "anda".to_string(),
        min_interval_secs,
    )
}

fn tweet(id: &str) -> Tweet {
    Tweet { id: Some(id.to_string()), text: None, username: None, in_reply_to_status_id: None }
}

#[test]
fn interval_is_a_minute_at_least() {
    assert_eq!(bot(0).min_interval_secs(), 60);
    assert_eq!(bot(59).min_interval_secs(), 60);
    assert_eq!(bot(60).min_interval_secs(), 60);
    assert_eq!(bot(61).min_interval_secs(), 61);
    assert_eq!(bot(300).handle(), "ICPandaDAO");
    assert_eq!(bot(300).name(), "Anda ICP");
    assert_eq!(bot(300).engine_name(), "anda");
}

#[test]
fn run_prepares_first() {
    let bot = bot(60);
    assert_eq!(bot.run(), RunStep::Open);
    assert_eq!(bot.session_opened(true), RunStep::SetUp { seen: Vec::new() });
    assert_eq!(bot.session_opened(false), RunStep::Fail);
    assert_eq!(bot.ids_set_up(true), RunStep::Load);
    assert_eq!(bot.ids_set_up(false), RunStep::Fail);
    assert_eq!(bot.ids_loaded(true), RunStep::ReadStatus);
    assert_eq!(bot.ids_loaded(false), RunStep::Fail);
}

#[test]
fn stopped_bot_only_waits() {
    let bot = bot(60);
    assert_eq!(bot.status_read(ServiceStatus::Stopped), RunStep::Idle { secs: 60 });
    assert_eq!(bot.idled(false), RunStep::ReadStatus);
    assert_eq!(bot.idled(true), RunStep::Finish);
}

#[test]
fn running_bot_searches_for_its_mentions() {
    assert_eq!(
        bot(60).status_read(ServiceStatus::Running),
        RunStep::Search { query: "@ICPandaDAO".to_string(), limit: 20 }
    );
}

#[test]
fn mentions_are_taken_up_in_order() {
    let bot = bot(60);
    let mut handled: Vec<Tweet> = Vec::new();
    let mut step = bot.mentions_found(Some(vec![tweet("1"), tweet("2"), tweet("3")]));
    loop {
        step = match step {
            RunStep::HandleMention { tweet, later } => {
                handled.push(tweet);
                bot.mention_handled(later)
            }
            RunStep::RestAfterMention { pause, later } => {
                assert_eq!(pause, Pause::between(3, 10));
                bot.mention_rested(later, false)
            }
            other => {
                assert_eq!(other, RunStep::RollTimeline { highest: 10 });
                break;
            }
        }
    }
    assert_eq!(handled, vec![tweet("1"), tweet("2"), tweet("3")]);
    assert_eq!(bot.mention_rested(vec![tweet("2")], true), RunStep::Finish);
}

#[test]
fn failed_search_skips_the_mentions() {
    assert_eq!(bot(60).mentions_found(None), RunStep::RollTimeline { highest: 10 });
    assert_eq!(bot(60).mentions_found(Some(Vec::new())), RunStep::RollTimeline { highest: 10 });
}

#[test]
fn tasks_are_drawn() {
    let bot = bot(100);
    let rest = || RunStep::RestAfterRound { pause: Pause::between(100, 500) };
    assert_eq!(bot.timeline_rolled(0), RunStep::HandleTimeline);
    assert_eq!(bot.timeline_rolled(1), RunStep::RollPost { highest: 20 });
    assert_eq!(bot.timeline_rolled(10), RunStep::RollPost { highest: 20 });
    assert_eq!(bot.timeline_handled(), RunStep::RollPost { highest: 20 });
    assert_eq!(bot.post_rolled(0), RunStep::Post);
    assert_eq!(bot.post_rolled(20), rest());
    assert_eq!(bot.post_handled(), rest());
    let mut timelines: usize = 0;
    let mut posts: usize = 0;
    for _ in 0..2000 {
        match bot.timeline_rolled(draw_up_to(10)) {
            RunStep::HandleTimeline => timelines += 1,
            other => assert_eq!(other, RunStep::RollPost { highest: 20 }),
        }
        match bot.post_rolled(draw_up_to(20)) {
            RunStep::Post => posts += 1,
            other => assert_eq!(other, rest()),
        }
    }
    assert!(0 < timelines && timelines < 2000);
    assert!(0 < posts && posts < 2000);
}

#[test]
fn drawn_post_needs_no_rest_yet() {
    assert_eq!(bot(u64::MAX).post_rolled(0), RunStep::Post);
}

#[test]
fn round_ends_with_a_rest() {
    assert_eq!(
        bot(0).post_handled(),
        RunStep::RestAfterRound { pause: Pause::between(60, 300) }
    );
    assert_eq!(bot(60).round_rested(false), RunStep::ReadStatus);
    assert_eq!(bot(60).round_rested(true), RunStep::Finish);
    let longest: u64 = u64::MAX / 5;
    assert_eq!(
        bot(longest).post_handled(),
        RunStep::RestAfterRound { pause: Pause::between(longest, 5 * longest) }
    );
}

#[test]
fn post_needs_knowledge() {
    let bot = bot(60);
    assert_eq!(bot.post_new_tweet(), PostStep::LookUp { last_seconds: 60 * 30, limit: 3 });
    assert_eq!(bot.knowledge_found(Some(0)), PostStep::Skip);
    assert_eq!(bot.knowledge_found(Some(1)), PostStep::Open { user: "anda".to_string() });
    assert_eq!(bot.knowledge_found(Some(3)), PostStep::Open { user: "anda".to_string() });
    assert_eq!(
        bot.post_opened(true),
        PostStep::Complete {
            request: Request {
                prompt: POST_PROMPT.to_string(),
                prompter_name: Some("anda".to_string())
            }
        }
    );
}

#[test]
fn post_is_published_as_it_is() {
    let bot = bot(60);
    let said = |content: &str| Completion { content: content.to_string(), failed_reason: None };
    assert_eq!(
        bot.post_completed(Some(said("\"gm\""))),
        PostStep::Publish { content: "\"gm\"".to_string() }
    );
    let failed = Completion { content: "gm".to_string(), failed_reason: Some("down".to_string()) };
    assert_eq!(
        bot.post_completed(Some(failed)),
        PostStep::Refuse { refusal: Refusal::Generation { reason: "down".to_string() } }
    );
}

// What the outside says in the course of a tweet of the bot's own.
struct Outside {
    found: Option<usize>,
    opened: bool,
    output: Option<Completion>,
    sent: bool,
}

// Goes through a tweet of the bot's own; gives back what was published, and the last step.
fn post(bot: &TwitterDaemon, outside: Outside) -> (Vec<String>, PostStep) {
    let mut published: Vec<String> = Vec::new();
    let mut output = outside.output;
    let mut step = bot.post_new_tweet();
    loop {
        step = match step {
            PostStep::LookUp { .. } => bot.knowledge_found(outside.found),
            PostStep::Open { .. } => bot.post_opened(outside.opened),
            PostStep::Complete { .. } => bot.post_completed(output.take()),
            PostStep::Publish { content } => {
                published.push(content);
                bot.post_published(outside.sent)
            }
            end => return (published, end),
        }
    }
}

#[test]
fn post_is_out_when_every_call_goes_through() {
    let said =
        || Some(Completion { content: "gm".to_string(), failed_reason: None });
    let outside = |found: Option<usize>, opened: bool, output: Option<Completion>, sent: bool| {
        Outside { found, opened, output, sent }
    };
    let gm = || vec!["gm".to_string()];
    let bot = bot(60);
    assert_eq!(post(&bot, outside(Some(1), true, said(), true)), (gm(), PostStep::Done));
    assert_eq!(post(&bot, outside(Some(0), false, None, false)), (Vec::new(), PostStep::Skip));
    assert_eq!(post(&bot, outside(None, true, said(), true)), (Vec::new(), PostStep::Fail));
    assert_eq!(post(&bot, outside(Some(1), false, said(), true)), (Vec::new(), PostStep::Fail));
    assert_eq!(post(&bot, outside(Some(1), true, None, true)), (Vec::new(), PostStep::Fail));
    assert_eq!(post(&bot, outside(Some(1), true, said(), false)), (gm(), PostStep::Fail));
    let down = Completion { content: "gm".to_string(), failed_reason: Some("down".to_string()) };
    assert_eq!(
        post(&bot, outside(Some(1), true, Some(down), true)),
        (
            Vec::new(),
            PostStep::Refuse { refusal: Refusal::Generation { reason: "down".to_string() } }
        )
    );
}
