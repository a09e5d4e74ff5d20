use anda_bot::answer::{Completion, Refusal};
use anda_bot::chance::{draw_up_to, Pause};
use anda_bot::daemon::TwitterDaemon;
use anda_bot::engage::{EngageStep, Engaged, Failure, Mode};
use anda_bot::mention::{Mention, MentionStep};
use anda_bot::text::write_tweet_prompt;
use anda_bot::thread::{build_conversation_thread, ThreadStep};
use anda_bot::timeline::{is_wanted, Candidate, Tally, TimelineStep};
use anda_bot::tweet::{read_timeline, TimelineTweet, Tweet};
use serde_json::Value;

fn bot() -> TwitterDaemon {
    TwitterDaemon::new("ICPandaDAO".to_string(), "Anda ICP".to_string(), "anda".to_string(), 300)
}

fn strings(items: &[&str]) -> Vec<String> {
    items.iter().map(|s| s.to_string()).collect()
}

fn timeline_tweet(user: &str, content: &str, id: &str) -> TimelineTweet {
    TimelineTweet { user: user.to_string(), content: content.to_string(), id: id.to_string() }
}

fn tweet(id: &str, user: &str, text: Option<&str>, parent: Option<&str>) -> Tweet {
    Tweet {
        id: Some(id.to_string()),
        text: text.map(|s| s.to_string()),
        username: Some(user.to_string()),
        in_reply_to_status_id: parent.map(|s| s.to_string()),
    }
}

fn said(content: &str) -> Completion {
    Completion { content: content.to_string(), failed_reason: None }
}

fn failed(reason: &str) -> Completion {
    Completion { content: "".to_string(), failed_reason: Some(reason.to_string()) }
}

fn json(text: &str) -> Value {
    serde_json::from_str::<Value>(text).unwrap()
}

// Follows a conversation among the tweets that can be found by id; gives back the ids looked up too.
fn conversation(start: Tweet, found: &[Tweet]) -> (Vec<Tweet>, Vec<String>) {
    let mut looked_up: Vec<String> = Vec::new();
    let mut step = build_conversation_thread(start);
    loop {
        step = match step {
            ThreadStep::Finished { thread } => return (thread, looked_up),
            ThreadStep::Rest { pause, builder } => {
                assert_eq!(pause, Pause::between(1, 3));
                builder.rested()
            }
            ThreadStep::LookUp { id, lookup } => {
                let tweet = found.iter().find(|t| t.id.as_deref() == Some(id.as_str()));
                looked_up.push(id);
                lookup.resume(tweet.map(copy))
            }
        }
    }
}

fn copy(tweet: &Tweet) -> Tweet {
    Tweet {
        id: tweet.id.as_ref().map(|s| s.to_string()),
        text: tweet.text.as_ref().map(|s| s.to_string()),
        username: tweet.username.as_ref().map(|s| s.to_string()),
        in_reply_to_status_id: tweet.in_reply_to_status_id.as_ref().map(|s| s.to_string()),
    }
}

#[test]
fn timeline_entries_are_read() {
    let entries = vec![
        json(r#"{"core":{"user_results":{"result":{"legacy":{"screen_name":"panda"}}}},"legacy":{"user_id_str":"7","full_text":"gm","id_str":"100"}}"#),
        json(r#"{"core":{"user_results":{}},"legacy":{"user_id_str":"7","full_text":"gn","id_str":"101"}}"#),
        json(r#"{"core":{"user_results":{"result":{"legacy":{"screen_name":5}}}},"legacy":{"full_text":"x"}}"#),
        json(r#"{"core":"none","legacy":[1,2]}"#),
        json("null"),
        json(r#"{"core":{"user_results":{"result":{"legacy":{"screen_name":""}}}},"legacy":{"user_id_str":"7"}}"#),
    ];
    assert_eq!(
        read_timeline(&entries),
        vec![
            timeline_tweet("panda", "gm", "100"),
            timeline_tweet("7", "gn", "101"),
            timeline_tweet("", "x", ""),
            timeline_tweet("", "", ""),
            timeline_tweet("", "", ""),
            timeline_tweet("", "", ""),
        ]
    );
    assert_eq!(
        TimelineTweet::from_texts(None, Some("7"), None, Some("1")),
        timeline_tweet("7", "", "1")
    );
    assert_eq!(
        TimelineTweet::from_texts(Some("a"), Some("7"), Some("t"), None),
        timeline_tweet("a", "t", "")
    );
}

#[test]
fn lone_tweet_is_its_own_conversation() {
    let (thread, looked_up) = conversation(tweet("1", "a", Some("hi"), None), &[]);
    assert_eq!(thread, vec![tweet("1", "a", Some("hi"), None)]);
    assert_eq!(looked_up, strings(&[]));
}

#[test]
fn conversation_runs_from_oldest_to_newest() {
    let found = [
        tweet("1", "c", Some("first"), None),
        tweet("2", "b", None, Some("1")),
        tweet("9", "d", Some("elsewhere"), Some("3")),
    ];
    let (thread, looked_up) = conversation(tweet("3", "a", Some("last"), Some("2")), &found);
    assert_eq!(
        thread,
        vec![tweet("1", "c", Some("first"), None), tweet("3", "a", Some("last"), Some("2"))]
    );
    assert_eq!(looked_up, strings(&["2", "1"]));
}

#[test]
fn conversation_ends_where_a_tweet_cannot_be_found() {
    let found = [tweet("2", "b", Some("middle"), Some("1"))];
    let (thread, looked_up) = conversation(tweet("3", "a", Some("last"), Some("2")), &found);
    assert_eq!(
        thread,
        vec![tweet("2", "b", Some("middle"), Some("1")), tweet("3", "a", Some("last"), Some("2"))]
    );
    assert_eq!(looked_up, strings(&["2", "1"]));
}

// Tweets that answer one another: each one that with the number before, and the first one none.
fn chain(len: usize) -> Vec<Tweet> {
    (0..len)
        .map(|n| {
            let parent: Option<String> = if n > 0 { Some((n - 1).to_string()) } else { None };
            tweet(&n.to_string(), "b", Some("x"), parent.as_deref())
        })
        .collect()
}

#[test]
fn conversation_of_a_reply_extends_that_of_its_parent() {
    let tweets = chain(22);
    let (of_parent, _) = conversation(copy(&tweets[20]), &tweets);
    let (mut of_reply, looked_up) = conversation(copy(&tweets[21]), &tweets);
    assert_eq!(looked_up.len(), 21);
    assert_eq!(of_reply.pop(), Some(copy(&tweets[21])));
    assert_eq!(of_reply, of_parent);
}

#[test]
fn conversation_depth_is_limited() {
    let tweets = chain(41);
    let (thread, looked_up) = conversation(copy(&tweets[40]), &tweets);
    assert_eq!(looked_up.len(), 21);
    assert_eq!(looked_up[0], "39");
    assert_eq!(looked_up[20], "19");
    assert_eq!(thread.len(), 22);
    assert_eq!(thread[0].id, Some("19".to_string()));
    assert_eq!(thread[21].id, Some("40".to_string()));
}

#[test]
fn engagement_can_end_with_a_quote() {
    let bot = bot();
    let t = || timeline_tweet("b", "gm", "9");
    assert_eq!(bot.engage(t()), EngageStep::AskLike { tweet: t() });
    assert_eq!(bot.handle_like(t(), true), EngageStep::Like { tweet: t() });
    assert_eq!(bot.like_sent(t(), true), EngageStep::AskQuote { tweet: t() });
    match bot.handle_quote(t(), true) {
        EngageStep::Complete { tweet, mode, request } => {
            assert_eq!(tweet, t());
            assert_eq!(mode, Mode::Quote);
            assert_eq!(request.prompt, write_tweet_prompt("Anda ICP", "gm"));
            assert_eq!(request.prompter_name, Some("anda".to_string()));
        }
        other => panic!("unexpected step {:?}", other),
    }
    assert_eq!(
        bot.completed(t(), Mode::Quote, Some(said("\"well said\""))),
        EngageStep::Publish { tweet: t(), mode: Mode::Quote, content: "well said".to_string() }
    );
    assert_eq!(
        bot.published(Mode::Quote, true),
        EngageStep::Finished {
            outcome: Engaged { liked: true, quoted: true, replied: false, failure: None }
        }
    );
}

#[test]
fn engagement_replies_where_it_does_not_quote() {
    let bot = bot();
    let t = || timeline_tweet("b", "gm", "9");
    assert_eq!(bot.handle_quote(t(), false), bot.handle_reply(t()));
    match bot.handle_reply(t()) {
        EngageStep::Complete { mode, .. } => assert_eq!(mode, Mode::Reply),
        other => panic!("unexpected step {:?}", other),
    }
    assert_eq!(
        bot.published(Mode::Reply, true),
        EngageStep::Finished {
            outcome: Engaged { liked: true, quoted: false, replied: true, failure: None }
        }
    );
}

#[test]
fn engagement_ends_early() {
    let bot = bot();
    let t = || timeline_tweet("b", "gm", "9");
    let end = |liked: bool, failure: Option<Failure>| EngageStep::Finished {
        outcome: Engaged { liked, quoted: false, replied: false, failure },
    };
    assert_eq!(bot.handle_like(t(), false), end(false, None));
    assert_eq!(bot.like_sent(t(), false), end(false, Some(Failure::Call)));
    assert_eq!(bot.completed(t(), Mode::Reply, None), end(true, Some(Failure::Call)));
    assert_eq!(
        bot.completed(t(), Mode::Reply, Some(failed("no quota"))),
        end(
            true,
            Some(Failure::Refused {
                refusal: Refusal::Generation { reason: "no quota".to_string() }
            })
        )
    );
    assert_eq!(
        bot.completed(t(), Mode::Quote, Some(said("IGNORE"))),
        end(true, Some(Failure::Refused { refusal: Refusal::Ignored }))
    );
    assert_eq!(bot.published(Mode::Quote, false), end(true, Some(Failure::Call)));
}

#[test]
fn timeline_tweets_are_screened() {
    let seen: Vec<String> = strings(&["1", "2"]);
    let candidate = |content: &str, id: &str, own: bool| Candidate {
        tweet: timeline_tweet("b", content, id),
        own,
    };
    assert!(is_wanted(&candidate("gm", "3", false), &seen));
    assert!(!is_wanted(&candidate("", "3", false), &seen));
    assert!(!is_wanted(&candidate("gm", "", false), &seen));
    assert!(!is_wanted(&candidate("gm", "3", true), &seen));
    assert!(!is_wanted(&candidate("gm", "2", false), &seen));
    match bot().timeline_screened(seen, vec![candidate("gm", "3", true), candidate("gn", "4", false)]) {
        TimelineStep::Engage { tweet, .. } => assert_eq!(tweet, timeline_tweet("b", "gn", "4")),
        other => panic!("unexpected step {:?}", other),
    }
}

// Goes over a timeline, with one outcome for every engagement.
fn pass(bot: &TwitterDaemon, start: TimelineStep, outcome: &Engaged) -> (Vec<String>, Vec<String>, Tally) {
    let mut engaged: Vec<String> = Vec::new();
    let mut step = start;
    loop {
        step = match step {
            TimelineStep::Engage { engaging, tweet } => {
                engaged.push(tweet.id);
                bot.timeline_engaged(engaging, outcome)
            }
            TimelineStep::Rest { pause, run } => {
                assert_eq!(pause, Pause::between(3, 10));
                bot.timeline_rested(run)
            }
            TimelineStep::Save { seen, tally } => return (engaged, seen, tally),
            other => panic!("unexpected step {:?}", other),
        }
    }
}

#[test]
fn timeline_pass_engages_the_fresh_tweets() {
    let bot = bot();
    assert_eq!(bot.handle_home_timeline(), TimelineStep::Open { user: "anda".to_string() });
    let tweets = || {
        vec![
            timeline_tweet("a", "one", "10"),
            timeline_tweet("icpandadao", "mine", "11"),
            timeline_tweet("b", "", "12"),
            timeline_tweet("c", "old", "5"),
            timeline_tweet("d", "two", "13"),
            timeline_tweet("e", "again", "10"),
        ]
    };
    let quoted = Engaged { liked: true, quoted: true, replied: false, failure: None };
    let start = bot.timeline_read(strings(&["5"]), tweets());
    let (engaged, seen, tally) = pass(&bot, start, &quoted);
    assert_eq!(engaged, strings(&["10", "13"]));
    assert_eq!(seen, strings(&["5", "10", "13"]));
    assert_eq!(tally, Tally { likes: 2, replys: 0, quotes: 2 });

    let replied = Engaged { liked: true, quoted: false, replied: true, failure: None };
    let start = bot.timeline_read(strings(&["5"]), tweets());
    let (_, _, tally) = pass(&bot, start, &replied);
    assert_eq!(tally, Tally { likes: 2, replys: 2, quotes: 0 });

    // Whatever comes of the engagements, the same tweets are remembered; a second pass is idle.
    let gave_up = Engaged { liked: false, quoted: false, replied: false, failure: Some(Failure::Call) };
    let start = bot.timeline_read(strings(&["5"]), tweets());
    let (engaged, seen, tally) = pass(&bot, start, &gave_up);
    assert_eq!(engaged, strings(&["10", "13"]));
    assert_eq!(seen, strings(&["5", "10", "13"]));
    assert_eq!(tally, Tally { likes: 0, replys: 0, quotes: 0 });
    let start = bot.timeline_read(seen, tweets());
    let (engaged, seen, _) = pass(&bot, start, &gave_up);
    assert_eq!(engaged, strings(&[]));
    assert_eq!(seen, strings(&["5", "10", "13"]));
}

#[test]
fn timeline_is_fetched_without_recent_tweets() {
    let bot = bot();
    let ids = |from: usize, to: usize| (from..to).map(|n| n.to_string()).collect::<Vec<String>>();
    assert_eq!(
        bot.timeline_opened(Some(ids(0, 10000))),
        TimelineStep::Fetch { count: 1, exclude: ids(9958, 10000), seen: ids(5000, 10000) }
    );
    assert_eq!(
        bot.timeline_opened(Some(ids(0, 2))),
        TimelineStep::Fetch { count: 1, exclude: ids(0, 2), seen: ids(0, 2) }
    );
}

#[test]
fn fetched_entries_are_passed_over_or_engaged() {
    let bot = bot();
    let entries = vec![
        json(r#"{"core":{"user_results":{"result":{"legacy":{"screen_name":"ICPANDADAO"}}}},"legacy":{"full_text":"gm","id_str":"1"}}"#),
        json(r#"{"core":{"user_results":{"result":{"legacy":{"screen_name":"b"}}}},"legacy":{"full_text":"gm","id_str":"2"}}"#),
    ];
    match bot.timeline_fetched(Vec::new(), Some(entries)) {
        TimelineStep::Engage { tweet, .. } => assert_eq!(tweet, timeline_tweet("b", "gm", "2")),
        other => panic!("unexpected step {:?}", other),
    }
    match bot.timeline_fetched(Vec::new(), Some(Vec::new())) {
        TimelineStep::Save { seen, tally } => {
            assert!(seen.is_empty());
            assert_eq!(tally, Tally { likes: 0, replys: 0, quotes: 0 });
        }
        other => panic!("unexpected step {:?}", other),
    }
}

#[test]
fn second_call_on_the_same_entries_is_idle() {
    let bot = bot();
    let entries = || {
        vec![
            json(r#"{"core":{"user_results":{"result":{"legacy":{"screen_name":"b"}}}},"legacy":{"full_text":"gm","id_str":"1"}}"#),
            json(r#"{"core":{"user_results":{"result":{"legacy":{"screen_name":"c"}}}},"legacy":{"full_text":"gn","id_str":"2"}}"#),
        ]
    };
    let call = |loaded: Vec<String>| match bot.timeline_opened(Some(loaded)) {
        TimelineStep::Fetch { seen, .. } => bot.timeline_fetched(seen, Some(entries())),
        other => panic!("unexpected step {:?}", other),
    };
    let quoted = Engaged { liked: true, quoted: true, replied: false, failure: None };
    let (engaged, stored, _) = pass(&bot, call(strings(&["0"])), &quoted);
    assert_eq!(engaged, strings(&["1", "2"]));
    assert_eq!(stored, strings(&["0", "1", "2"]));
    assert_eq!(
        call(stored),
        TimelineStep::Save {
            seen: strings(&["0", "1", "2"]),
            tally: Tally { likes: 0, replys: 0, quotes: 0 }
        }
    );
}

#[test]
fn timeline_that_cannot_be_read_fails() {
    let bot = bot();
    assert_eq!(bot.timeline_opened(None), TimelineStep::Fail);
    assert_eq!(bot.timeline_fetched(strings(&["1"]), None), TimelineStep::Fail);
    assert_eq!(bot.timeline_saved(), TimelineStep::Done);
}

#[test]
fn mentions_are_screened() {
    let bot = bot();
    let open = |t: Tweet, user: &str| MentionStep::Open { user: user.to_string(), tweet: t };
    let t = || tweet("1", "b", Some("hi"), None);
    assert_eq!(bot.handle_mention(t()), open(t(), "b"));
    assert_eq!(bot.handle_mention(tweet("1", "icpANDAdao", Some("hi"), None)), MentionStep::Skip);
    assert_eq!(bot.handle_mention(tweet("1", "", Some("hi"), None)), MentionStep::Skip);
    assert_eq!(bot.handle_mention(tweet("1", "b", Some(""), None)), MentionStep::Skip);
    assert_eq!(bot.handle_mention(tweet("1", "b", None, None)), MentionStep::Skip);
    let nobody = || Tweet { id: None, text: Some("hi".to_string()), username: None, in_reply_to_status_id: None };
    assert_eq!(bot.handle_mention(nobody()), MentionStep::Skip);
    assert_eq!(bot.mention_screened(t(), true), MentionStep::Skip);
    assert_eq!(bot.mention_screened(t(), false), open(t(), "b"));
}

#[test]
fn mention_dealt_with_before_is_skipped() {
    let bot = bot();
    assert_eq!(
        bot.mention_opened(tweet("1", "b", Some("hi"), None), Some(strings(&["0", "1"]))),
        MentionStep::Skip
    );
}

#[test]
fn mention_is_answered_and_remembered() {
    let bot = bot();
    let mention = || Mention {
        id: "2".to_string(),
        text: "hi".to_string(),
        seen: strings(&["1", "2"]),
    };
    let t = || tweet("2", "b", Some("hi"), None);
    assert_eq!(
        bot.mention_opened(t(), Some(strings(&["1"]))),
        MentionStep::Follow { mention: mention(), step: build_conversation_thread(t()) }
    );
    assert_eq!(
        bot.mention_followed(mention(), &vec![t()]),
        MentionStep::Ask { mention: mention(), prompt: "hi".to_string() }
    );
    assert_eq!(
        bot.mention_answered(mention(), Some(said("\"hello\""))),
        MentionStep::Reply {
            to: "2".to_string(),
            content: "hello".to_string(),
            seen: strings(&["1", "2"])
        }
    );
    assert_eq!(
        bot.mention_replied(strings(&["1", "2"]), true),
        MentionStep::Save { seen: strings(&["1", "2"]) }
    );
    assert_eq!(bot.mention_saved(), MentionStep::Done);
    assert_eq!(bot.mention_opened(t(), Some(strings(&["1", "2"]))), MentionStep::Skip);
}

#[test]
fn mention_is_asked_about_with_its_conversation() {
    let bot = bot();
    let mention = || Mention { id: "2".to_string(), text: "hi".to_string(), seen: Vec::new() };
    let thread = vec![
        Tweet {
            id: None,
            text: Some("say \"hi\"".to_string()),
            username: None,
            in_reply_to_status_id: None,
        },
        tweet("2", "b", Some("hi"), Some("1")),
    ];
    assert_eq!(
        bot.mention_followed(mention(), &thread),
        MentionStep::Ask {
            mention: mention(),
            prompt: ": \"say \\\"hi\\\"\"\nb: \"hi\"".to_string()
        }
    );
    assert_eq!(
        bot.mention_written(mention(), &strings(&["x", "y"])),
        MentionStep::Ask { mention: mention(), prompt: "x\ny".to_string() }
    );
}

#[test]
fn mention_that_fails_is_left_for_later() {
    let bot = bot();
    let mention =
        || Mention { id: "2".to_string(), text: "hi".to_string(), seen: strings(&["2"]) };
    assert_eq!(bot.mention_opened(tweet("2", "b", Some("hi"), None), None), MentionStep::Fail);
    assert_eq!(bot.mention_answered(mention(), None), MentionStep::Fail);
    assert_eq!(bot.mention_replied(strings(&["2"]), false), MentionStep::Fail);
    assert_eq!(
        bot.mention_answered(mention(), Some(failed("no quota"))),
        MentionStep::Save { seen: strings(&["2"]) }
    );
}

#[test]
fn draws_stay_in_their_range() {
    let pause = Pause::between(3, 10);
    for _ in 0..200 {
        let secs: u64 = pause.draw_secs();
        assert!(3 <= secs && secs <= 10);
        assert!(draw_up_to(2) <= 2);
    }
    assert_eq!(Pause::between(7, 7).draw_secs(), 7);
    assert_eq!(draw_up_to(0), 0);
    let drawn: Vec<u64> = (0..200).map(|_| draw_up_to(10)).collect();
    assert!(drawn.iter().any(|n| *n != drawn[0]));
}
