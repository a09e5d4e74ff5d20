//! Tweets as the bot reads them: from a search, from a conversation, and from the home timeline.

use serde_json::Value;
use vstd::prelude::*;

verus! {

/// A text that may be missing, read as empty when it is.
pub open spec fn or_empty(text: Option<Seq<char>>) -> Seq<char> {
    match text {
        Some(s) => s,
        None => Seq::empty(),
    }
}

// ---------------------------------------------------------------------------------------------
// Mentions and conversations
// ---------------------------------------------------------------------------------------------

/// A tweet found by a search or fetched by its id.
#[derive(Debug, PartialEq, Eq)]
pub struct Tweet {
    pub id: Option<String>,
    pub text: Option<String>,
    pub username: Option<String>,
    pub in_reply_to_status_id: Option<String>,
}

/// What a `Tweet` says.
pub struct TweetView {
    pub id: Option<Seq<char>>,
    pub text: Option<Seq<char>>,
    pub username: Option<Seq<char>>,
    pub in_reply_to_status_id: Option<Seq<char>>,
}

impl View for Tweet {
    type V = TweetView;

    open spec fn view(&self) -> TweetView {
        TweetView {
            id: self.id.deep_view(),
            text: self.text.deep_view(),
            username: self.username.deep_view(),
            in_reply_to_status_id: self.in_reply_to_status_id.deep_view(),
        }
    }
}

impl DeepView for Tweet {
    type V = TweetView;

    open spec fn deep_view(&self) -> TweetView {
        self@
    }
}

/// Copies a text that may be missing, as an empty text when it is.
pub fn text_or_empty(text: &Option<String>) -> (r: String)
    ensures
        r@ == or_empty(text.deep_view()),
{
    match text {
        Some(s) => s.clone(),
        None => String::new(),
    }
}

// ---------------------------------------------------------------------------------------------
// Home timeline
// ---------------------------------------------------------------------------------------------

/// A tweet of the home timeline.
#[derive(Debug, PartialEq, Eq)]
pub struct TimelineTweet {
    pub user: String,
    pub content: String,
    pub id: String,
}

/// What a `TimelineTweet` says.
pub struct TimelineTweetView {
    pub user: Seq<char>,
    pub content: Seq<char>,
    pub id: Seq<char>,
}

impl View for TimelineTweet {
    type V = TimelineTweetView;

    open spec fn view(&self) -> TimelineTweetView {
        TimelineTweetView { user: self.user@, content: self.content@, id: self.id@ }
    }
}

impl DeepView for TimelineTweet {
    type V = TimelineTweetView;

    open spec fn deep_view(&self) -> TimelineTweetView {
        self@
    }
}

/// A JSON value of serde_json.
#[verifier::external_type_specification]
#[verifier::external_body]
pub struct ExValue(serde_json::Value);

/// The members of a JSON object, by key; no member for a value of any other kind.
pub uninterp spec fn json_members(value: serde_json::Value) -> Map<Seq<char>, serde_json::Value>;

/// The text of a JSON string; none for a value of any other kind.
pub uninterp spec fn json_text(value: serde_json::Value) -> Option<Seq<char>>;

/// The text found by following `path` from `value`, if every key is there and the last one leads
/// to a string.
pub open spec fn text_at(value: Value, path: Seq<Seq<char>>) -> Option<Seq<char>>
    decreases path.len(),
{
    if path.len() == 0 {
        json_text(value)
    } else if json_members(value).contains_key(path[0]) {
        text_at(json_members(value)[path[0]], path.skip(1))
    } else {
        None
    }
}

/// The tweet made of the four texts that a timeline entry may hold.
pub open spec fn timeline_tweet(
    screen_name: Option<Seq<char>>,
    user_id: Option<Seq<char>>,
    full_text: Option<Seq<char>>,
    id: Option<Seq<char>>,
) -> TimelineTweetView {
    TimelineTweetView {
        user: if screen_name is Some {
            screen_name->0
        } else {
            or_empty(user_id)
        },
        content: or_empty(full_text),
        id: or_empty(id),
    }
}

/// The tweet that a timeline entry stands for.
pub open spec fn timeline_entry(entry: Value) -> TimelineTweetView {
    timeline_tweet(
        text_at(
            entry,
            seq!["core"@, "user_results"@, "result"@, "legacy"@, "screen_name"@],
        ),
        text_at(entry, seq!["legacy"@, "user_id_str"@]),
        text_at(entry, seq!["legacy"@, "full_text"@]),
        text_at(entry, seq!["legacy"@, "id_str"@]),
    )
}

/// `serde_json::Value::as_str`. Trusted: it gives the text of a JSON string, and nothing for a
/// value of any other kind.
pub assume_specification[ serde_json::Value::as_str ](value: &serde_json::Value) -> (text: Option<
    &str,
>)
    ensures
        text is Some == json_text(*value) is Some,
        text is Some ==> text->0@ == json_text(*value)->0,
;

/// Indexes a JSON value by a key, as `serde_json::Value`'s `Index` does. Trusted: the result is
/// the member of that key where `value` is an object that has it, else the JSON null, which has
/// neither members nor a text.
#[verifier::external_body]
fn member<'a>(value: &'a Value, key: &str) -> (r: &'a Value)
    ensures
        json_members(*value).contains_key(key@) ==> *r == json_members(*value)[key@],
        !json_members(*value).contains_key(key@) ==> json_text(*r) is None && json_members(*r).is_empty(),
{
    &value[key]
}

/// Follows a path of keys to a text.
fn read_text<'a>(value: &'a Value, path: &Vec<&str>) -> (r: Option<&'a str>)
    ensures
        r.deep_view() == text_at(*value, path.deep_view()),
{
    let ghost keys = path.deep_view();
    let mut at: &Value = value;
    let mut i: usize = 0;
    assert(keys.skip(0) =~= keys);
    while i < path.len()
        invariant
            i <= path.len(),
            keys == path.deep_view(),
            text_at(*value, keys) == text_at(*at, keys.skip(i as int)),
        decreases path.len() - i,
    {
        let next: &Value = member(at, path[i]);
        assert(keys.skip(i as int).skip(1) =~= keys.skip(i + 1));
        assert(text_at(*at, keys.skip(i as int)) == text_at(*next, keys.skip(i + 1)));
        at = next;
        i = i + 1;
    }
    at.as_str()
}

/// Copies a borrowed text that may be missing, as an empty text when it is.
fn owned_or_empty(text: Option<&str>) -> (r: String)
    ensures
        r@ == or_empty(text.deep_view()),
{
    match text {
        Some(s) => s.to_owned(),
        None => String::new(),
    }
}

impl TimelineTweet {
    /// Makes a tweet of the four texts that a timeline entry may hold.
    pub fn from_texts(
        screen_name: Option<&str>,
        user_id: Option<&str>,
        full_text: Option<&str>,
        id: Option<&str>,
    ) -> (r: TimelineTweet)
        ensures
            r@ == timeline_tweet(
                screen_name.deep_view(),
                user_id.deep_view(),
                full_text.deep_view(),
                id.deep_view(),
            ),
    {
        let user: String = match screen_name {
            Some(s) => s.to_owned(),
            None => owned_or_empty(user_id),
        };
        TimelineTweet { user, content: owned_or_empty(full_text), id: owned_or_empty(id) }
    }

    /// Reads a timeline entry.
    pub fn from_entry(entry: &Value) -> (r: TimelineTweet)
        ensures
            r@ == timeline_entry(*entry),
    {
        let name_path: Vec<&str> = vec!["core", "user_results", "result", "legacy", "screen_name"];
        let user_path: Vec<&str> = vec!["legacy", "user_id_str"];
        let text_path: Vec<&str> = vec!["legacy", "full_text"];
        let id_path: Vec<&str> = vec!["legacy", "id_str"];
        proof {
            assert(name_path.deep_view() =~= seq![
                "core"@,
                "user_results"@,
                "result"@,
                "legacy"@,
                "screen_name"@,
            ]);
            assert(user_path.deep_view() =~= seq!["legacy"@, "user_id_str"@]);
            assert(text_path.deep_view() =~= seq!["legacy"@, "full_text"@]);
            assert(id_path.deep_view() =~= seq!["legacy"@, "id_str"@]);
        }
        TimelineTweet::from_texts(
            read_text(entry, &name_path),
            read_text(entry, &user_path),
            read_text(entry, &text_path),
            read_text(entry, &id_path),
        )
    }
}

/// Reads every entry of a timeline, in order.
pub fn read_timeline(entries: &Vec<Value>) -> (r: Vec<TimelineTweet>)
    ensures
        r.deep_view() == entries@.map_values(|entry: Value| timeline_entry(entry)),
{
    let mut tweets: Vec<TimelineTweet> = Vec::new();
    let mut i: usize = 0;
    while i < entries.len()
        invariant
            i <= entries.len(),
            tweets.len() == i,
            forall|j: int| 0 <= j < i ==> (#[trigger] tweets[j])@ == timeline_entry(entries[j]),
        decreases entries.len() - i,
    {
        tweets.push(TimelineTweet::from_entry(&entries[i]));
        i = i + 1;
    }
    tweets
}

// ---------------------------------------------------------------------------------------------
// Laws
// ---------------------------------------------------------------------------------------------

/// A text that is there is read as it is, of whatever length; a missing one has no characters.
pub proof fn law_missing_text_is_empty(text: Option<Seq<char>>, s: Seq<char>)
    ensures
        or_empty(Some(s)) == s,
        text is None ==> or_empty(text).len() == 0,
{
}

/// The author of a timeline tweet is its screen name where there is one, even an empty one, and the
/// id of the user else. Each of the other two texts depends on its own source alone.
pub proof fn law_timeline_tweet(
    screen_name: Option<Seq<char>>,
    user_id: Option<Seq<char>>,
    full_text: Option<Seq<char>>,
    id: Option<Seq<char>>,
)
    ensures
        ({
            let tweet = timeline_tweet(screen_name, user_id, full_text, id);
            &&& screen_name matches Some(name) ==> tweet.user == name
            &&& screen_name is None ==> (user_id matches Some(user) ==> tweet.user == user)
            &&& screen_name is None && user_id is None ==> tweet.user.len() == 0
            &&& full_text matches Some(text) ==> tweet.content == text
            &&& full_text is None ==> tweet.content.len() == 0
            &&& id matches Some(id) ==> tweet.id == id
            &&& id is None ==> tweet.id.len() == 0
        }),
{
}

/// The member of a JSON value under a key, where it has one.
pub open spec fn member_of(value: Option<Value>, key: Seq<char>) -> Option<Value> {
    match value {
        Some(value) => if json_members(value).contains_key(key) {
            Some(json_members(value)[key])
        } else {
            None
        },
        None => None,
    }
}

/// The text of a JSON value that may be missing.
pub open spec fn text_of(value: Option<Value>) -> Option<Seq<char>> {
    match value {
        Some(value) => json_text(value),
        None => None,
    }
}

/// A timeline entry is read member by member. The content is the string `full_text` of the member
/// `legacy`, the id its string `id_str`. The author is the string `screen_name` of the member
/// `legacy` of `result` of `user_results` of `core`, and where one of these is missing, the string
/// `user_id_str` of the entry's own `legacy`. What is missing or no string is empty.
pub proof fn law_timeline_entry(entry: Value)
    ensures
        ({
            let tweet = timeline_entry(entry);
            let legacy = member_of(Some(entry), "legacy"@);
            let results = member_of(member_of(Some(entry), "core"@), "user_results"@);
            let author = member_of(member_of(results, "result"@), "legacy"@);
            let name = text_of(member_of(author, "screen_name"@));
            let number = text_of(member_of(legacy, "user_id_str"@));
            let text = text_of(member_of(legacy, "full_text"@));
            let id = text_of(member_of(legacy, "id_str"@));
            &&& name is Some ==> tweet.user == name->0
            &&& name is None && number is Some ==> tweet.user == number->0
            &&& name is None && number is None ==> tweet.user.len() == 0
            &&& text is Some ==> tweet.content == text->0
            &&& text is None ==> tweet.content.len() == 0
            &&& id is Some ==> tweet.id == id->0
            &&& id is None ==> tweet.id.len() == 0
        }),
{
    reveal_with_fuel(text_at, 6);
    let name_path = seq!["core"@, "user_results"@, "result"@, "legacy"@, "screen_name"@];
    assert(name_path.skip(1) =~= seq!["user_results"@, "result"@, "legacy"@, "screen_name"@]);
    assert(name_path.skip(1).skip(1) =~= seq!["result"@, "legacy"@, "screen_name"@]);
    assert(name_path.skip(1).skip(1).skip(1) =~= seq!["legacy"@, "screen_name"@]);
    assert(name_path.skip(1).skip(1).skip(1).skip(1) =~= seq!["screen_name"@]);
    assert(seq!["legacy"@, "user_id_str"@].skip(1) =~= seq!["user_id_str"@]);
    assert(seq!["legacy"@, "full_text"@].skip(1) =~= seq!["full_text"@]);
    assert(seq!["legacy"@, "id_str"@].skip(1) =~= seq!["id_str"@]);
}

/// A path of keys leads to the text that is found by going from member to member, and to nothing
/// where a key is missing on the way or what it ends at is no string.
pub proof fn law_text_at(value: Value, key: Seq<char>, path: Seq<Seq<char>>)
    ensures
        text_at(value, Seq::empty()) == json_text(value),
        json_members(value).contains_key(key) ==> text_at(value, seq![key] + path) == text_at(
            json_members(value)[key],
            path,
        ),
        !json_members(value).contains_key(key) ==> text_at(value, seq![key] + path) is None,
{
    assert((seq![key] + path).skip(1) =~= path);
}

/// What a tweet says is what its fields hold, with a text that is there but empty told apart from a
/// missing one.
pub proof fn law_tweet_says_what_it_holds(tweet: Tweet)
    ensures
        tweet.id matches Some(s) ==> tweet@.id == Some(s@),
        tweet.id is None ==> tweet@.id is None,
        tweet.text matches Some(s) ==> tweet@.text == Some(s@),
        tweet.text is None ==> tweet@.text is None,
        tweet.username matches Some(s) ==> tweet@.username == Some(s@),
        tweet.username is None ==> tweet@.username is None,
        tweet.in_reply_to_status_id matches Some(s) ==> tweet@.in_reply_to_status_id == Some(s@),
        tweet.in_reply_to_status_id is None ==> tweet@.in_reply_to_status_id is None,
        tweet.deep_view() == tweet@,
{
}

/// What a tweet of the home timeline says is what its fields hold.
pub proof fn law_timeline_tweet_says_what_it_holds(tweet: TimelineTweet)
    ensures
        tweet@.user == tweet.user@,
        tweet@.content == tweet.content@,
        tweet@.id == tweet.id@,
        tweet.deep_view() == tweet@,
{
}

} // verus!
