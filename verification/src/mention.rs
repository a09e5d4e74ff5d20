//! Mentions: whom the bot answers, what it asks the model, and when it counts a mention as dealt
//! with.

use crate::answer::Completion;
use crate::answer::CompletionView;
use crate::daemon::DaemonView;
use crate::daemon::TwitterDaemon;
use crate::seen::is_seen;
use crate::text::chat_line;
use crate::text::compose_conversation;
use crate::text::conversation;
use crate::text::debug_form;
use crate::text::holds_lines;
use crate::text::is_same_handle;
use crate::text::law_conversation_holds_every_line;
use crate::text::law_quotes_come_off_in_pairs;
use crate::text::lowercase;
use crate::text::remove_quotes;
use crate::text::same_handle;
use crate::text::unquoted;
use crate::text::write_chat_line;
use crate::thread::ThreadStep;
use crate::thread::ThreadStepView;
use crate::thread::build_conversation_thread;
use crate::thread::finished_thread;
use crate::thread::first_thread_step;
use crate::thread::law_thread_is_the_reply_chain;
use crate::thread::parent_of;
use crate::thread::reply_chain;
use crate::thread::thread_of;
use crate::thread::with_text;
use crate::tweet::Tweet;
use crate::tweet::TweetView;
use crate::tweet::or_empty;
use crate::tweet::text_or_empty;
use vstd::prelude::*;

verus! {

/// A mention that is being dealt with.
#[derive(Debug, PartialEq, Eq)]
pub struct Mention {
    pub id: String,
    pub text: String,
    /// The ids of the tweets dealt with, this one among them.
    pub seen: Vec<String>,
}

/// What a `Mention` says.
pub struct MentionView {
    pub id: Seq<char>,
    pub text: Seq<char>,
    pub seen: Seq<Seq<char>>,
}

impl View for Mention {
    type V = MentionView;

    open spec fn view(&self) -> MentionView {
        MentionView { id: self.id@, text: self.text@, seen: self.seen.deep_view() }
    }
}

/// What to do next about a mention.
#[derive(Debug, PartialEq, Eq)]
pub enum MentionStep {
    /// Leave the mention alone: end, with success.
    Skip,
    /// Open a session in the name of `user` and load the ids of the tweets dealt with, then go on
    /// with `mention_opened`.
    Open { user: String, tweet: Tweet },
    /// Follow the conversation that the mention ends, then go on with `mention_followed`.
    Follow { mention: Mention, step: ThreadStep },
    /// Ask the bot's character, then go on with `mention_answered`.
    Ask { mention: Mention, prompt: String },
    /// Reply to the tweet `to`, then go on with `mention_replied`.
    Reply { to: String, content: String, seen: Vec<String> },
    /// Store the ids, then go on with `mention_saved`.
    Save { seen: Vec<String> },
    /// The mention has been dealt with: end, with success.
    Done,
    /// Give up on the mention, which then does not count as dealt with: end, with the error that
    /// came up.
    Fail,
}

/// What a `MentionStep` says.
pub enum MentionStepView {
    Skip,
    Open { user: Seq<char>, tweet: TweetView },
    Follow { mention: MentionView, step: ThreadStepView },
    Ask { mention: MentionView, prompt: Seq<char> },
    Reply { to: Seq<char>, content: Seq<char>, seen: Seq<Seq<char>> },
    Save { seen: Seq<Seq<char>> },
    Done,
    Fail,
}

impl View for MentionStep {
    type V = MentionStepView;

    open spec fn view(&self) -> MentionStepView {
        match self {
            MentionStep::Skip => MentionStepView::Skip,
            MentionStep::Open { user, tweet } => MentionStepView::Open {
                user: user@,
                tweet: tweet@,
            },
            MentionStep::Follow { mention, step } => MentionStepView::Follow {
                mention: mention@,
                step: step@,
            },
            MentionStep::Ask { mention, prompt } => MentionStepView::Ask {
                mention: mention@,
                prompt: prompt@,
            },
            MentionStep::Reply { to, content, seen } => MentionStepView::Reply {
                to: to@,
                content: content@,
                seen: seen.deep_view(),
            },
            MentionStep::Save { seen } => MentionStepView::Save { seen: seen.deep_view() },
            MentionStep::Done => MentionStepView::Done,
            MentionStep::Fail => MentionStepView::Fail,
        }
    }
}

/// The bot answers a mention that has a text and an author, unless it is its own.
pub open spec fn answerable(tweet: TweetView, own: bool) -> bool {
    or_empty(tweet.text).len() > 0 && or_empty(tweet.username).len() > 0 && !own
}

/// `answerable`, for a bot with the given handle.
pub open spec fn answerable_by(handle: Seq<char>, tweet: TweetView) -> bool {
    answerable(tweet, same_handle(or_empty(tweet.username), handle))
}

/// The first step about a mention, given whether it is the bot's own.
pub open spec fn first_mention_step(tweet: TweetView, own: bool) -> MentionStepView {
    if answerable(tweet, own) {
        MentionStepView::Open { user: or_empty(tweet.username), tweet }
    } else {
        MentionStepView::Skip
    }
}

/// The step after the attempt to open a session and to load the ids of the tweets dealt with; no
/// ids where it failed.
pub open spec fn after_mention_opened(
    tweet: TweetView,
    seen: Option<Seq<Seq<char>>>,
) -> MentionStepView {
    match seen {
        None => MentionStepView::Fail,
        Some(seen) => if seen.contains(or_empty(tweet.id)) {
            MentionStepView::Skip
        } else {
            MentionStepView::Follow {
                mention: MentionView {
                    id: or_empty(tweet.id),
                    text: or_empty(tweet.text),
                    seen: seen.push(or_empty(tweet.id)),
                },
                step: first_thread_step(tweet),
            }
        },
    }
}

/// The line that a tweet adds to a conversation.
pub open spec fn line_of(tweet: TweetView) -> Seq<char> {
    chat_line(or_empty(tweet.username), debug_form(or_empty(tweet.text)))
}

/// The lines of a conversation.
pub open spec fn lines_of(thread: Seq<TweetView>) -> Seq<Seq<char>> {
    thread.map_values(|tweet: TweetView| line_of(tweet))
}

/// The step after the lines of the conversation are known.
pub open spec fn after_mention_written(
    mention: MentionView,
    lines: Seq<Seq<char>>,
) -> MentionStepView {
    MentionStepView::Ask { mention, prompt: conversation(mention.text, lines) }
}

/// The step after the character was asked; no output where the call failed.
pub open spec fn after_mention_answered(
    mention: MentionView,
    output: Option<CompletionView>,
) -> MentionStepView {
    match output {
        None => MentionStepView::Fail,
        Some(output) => if output.failed_reason is Some {
            MentionStepView::Save { seen: mention.seen }
        } else {
            MentionStepView::Reply {
                to: mention.id,
                content: unquoted(output.content),
                seen: mention.seen,
            }
        },
    }
}

/// The step after the attempt to reply.
pub open spec fn after_mention_replied(seen: Seq<Seq<char>>, sent: bool) -> MentionStepView {
    if sent {
        MentionStepView::Save { seen }
    } else {
        MentionStepView::Fail
    }
}

/// Writes the lines of a conversation.
fn write_lines(thread: &Vec<Tweet>) -> (r: Vec<String>)
    ensures
        r.deep_view() == lines_of(thread.deep_view()),
{
    let mut lines: Vec<String> = Vec::new();
    let mut i: usize = 0;
    while i < thread.len()
        invariant
            i <= thread.len(),
            lines.len() == i,
            forall|j: int| 0 <= j < i ==> (#[trigger] lines[j])@ == line_of(thread[j]@),
        decreases thread.len() - i,
    {
        let username: String = text_or_empty(&thread[i].username);
        let said: String = text_or_empty(&thread[i].text);
        lines.push(write_chat_line(username.as_str(), said.as_str()));
        i = i + 1;
    }
    lines
}

impl TwitterDaemon {
    /// Starts to deal with a mention.
    pub fn handle_mention(&self, tweet: Tweet) -> (r: MentionStep)
        ensures
            r@ == first_mention_step(
                tweet@,
                same_handle(or_empty(tweet@.username), self@.handle),
            ),
    {
        let user: String = text_or_empty(&tweet.username);
        let own: bool = is_same_handle(user.as_str(), self.handle());
        self.mention_screened(tweet, own)
    }

    /// Goes on once it is known whether the mention is the bot's own.
    pub fn mention_screened(&self, tweet: Tweet, own: bool) -> (r: MentionStep)
        ensures
            r@ == first_mention_step(tweet@, own),
    {
        let text: String = text_or_empty(&tweet.text);
        let user: String = text_or_empty(&tweet.username);
        if text.as_str().is_empty() || user.as_str().is_empty() || own {
            MentionStep::Skip
        } else {
            MentionStep::Open { user, tweet }
        }
    }

    /// Goes on with the ids of the tweets dealt with, with nothing where the session could not be
    /// opened or the ids could not be loaded.
    pub fn mention_opened(&self, tweet: Tweet, seen: Option<Vec<String>>) -> (r: MentionStep)
        ensures
            r@ == after_mention_opened(tweet@, seen.deep_view()),
    {
        match seen {
            None => MentionStep::Fail,
            Some(seen) => {
                let id: String = text_or_empty(&tweet.id);
                if is_seen(&seen, &id) {
                    return MentionStep::Skip;
                }
                let ghost before = seen.deep_view();
                let mut seen = seen;
                seen.push(id.clone());
                assert(seen.deep_view() =~= before.push(id@));
                let text: String = text_or_empty(&tweet.text);
                MentionStep::Follow {
                    mention: Mention { id, text, seen },
                    step: build_conversation_thread(tweet),
                }
            },
        }
    }

    /// Goes on with the conversation that the mention ends.
    pub fn mention_followed(&self, mention: Mention, thread: &Vec<Tweet>) -> (r: MentionStep)
        ensures
            r@ == after_mention_written(mention@, lines_of(thread.deep_view())),
    {
        let lines: Vec<String> = write_lines(thread);
        self.mention_written(mention, &lines)
    }

    /// Goes on with the lines of the conversation.
    pub fn mention_written(&self, mention: Mention, lines: &Vec<String>) -> (r: MentionStep)
        ensures
            r@ == after_mention_written(mention@, lines.deep_view()),
    {
        let prompt: String = compose_conversation(mention.text.clone(), lines);
        MentionStep::Ask { mention, prompt }
    }

    /// Goes on after the character was asked; no output where the call failed.
    pub fn mention_answered(&self, mention: Mention, output: Option<Completion>) -> (r: MentionStep)
        ensures
            r@ == after_mention_answered(mention@, output.deep_view()),
    {
        match output {
            None => MentionStep::Fail,
            Some(output) => if output.failed_reason.is_some() {
                MentionStep::Save { seen: mention.seen }
            } else {
                MentionStep::Reply {
                    to: mention.id,
                    content: remove_quotes(output.content),
                    seen: mention.seen,
                }
            },
        }
    }

    /// Goes on after the attempt to reply.
    pub fn mention_replied(&self, seen: Vec<String>, sent: bool) -> (r: MentionStep)
        ensures
            r@ == after_mention_replied(seen.deep_view(), sent),
    {
        if sent {
            MentionStep::Save { seen }
        } else {
            MentionStep::Fail
        }
    }

    /// Goes on after the attempt to store the ids, whatever came of it.
    pub fn mention_saved(&self) -> (r: MentionStep)
        ensures
            r@ == MentionStepView::Done,
    {
        MentionStep::Done
    }
}

// ---------------------------------------------------------------------------------------------
// Laws
// ---------------------------------------------------------------------------------------------

/// Everything the outside may say while a mention is dealt with.
pub struct MentionWorld {
    /// The ids of the tweets dealt with; none where the session could not be opened or they could
    /// not be loaded.
    pub seen: Option<Seq<Seq<char>>>,
    /// The tweets that can be found, by id.
    pub look_up: spec_fn(Seq<char>) -> Option<TweetView>,
    /// What the character said; none where the call failed.
    pub output: Option<CompletionView>,
    /// Whether a reply goes through.
    pub sent: bool,
}

/// The step that follows `step` in a given world.
pub open spec fn next_mention_step(step: MentionStepView, world: MentionWorld) -> MentionStepView {
    match step {
        MentionStepView::Open { tweet, .. } => after_mention_opened(tweet, world.seen),
        MentionStepView::Follow { mention, step } => after_mention_written(
            mention,
            lines_of(finished_thread(step, world.look_up)),
        ),
        MentionStepView::Ask { mention, .. } => after_mention_answered(mention, world.output),
        MentionStepView::Reply { seen, .. } => after_mention_replied(seen, world.sent),
        MentionStepView::Save { .. } => MentionStepView::Done,
        _ => step,
    }
}

/// The step that is reached after `n` steps in a given world.
pub open spec fn mention_step_number(
    daemon: DaemonView,
    tweet: TweetView,
    world: MentionWorld,
    n: nat,
) -> MentionStepView
    decreases n,
{
    if n == 0 {
        first_mention_step(tweet, same_handle(or_empty(tweet.username), daemon.handle))
    } else {
        next_mention_step(mention_step_number(daemon, tweet, world, (n - 1) as nat), world)
    }
}

/// The mention is one the bot answers, and it had not been dealt with.
pub open spec fn taken_up(daemon: DaemonView, tweet: TweetView, world: MentionWorld) -> bool {
    &&& answerable_by(daemon.handle, tweet)
    &&& world.seen is Some && !world.seen->0.contains(or_empty(tweet.id))
}

/// The mention was taken up, the character was heard, and the reply, if the character gave one,
/// went through.
pub open spec fn dealt_with(daemon: DaemonView, tweet: TweetView, world: MentionWorld) -> bool {
    &&& taken_up(daemon, tweet, world)
    &&& world.output is Some
    &&& world.output->0.failed_reason is Some || world.sent
}

/// A mention takes five steps at most. It ends with success when it has been dealt with or is to
/// be left alone, and with an error exactly when the session, the ids, the character or the reply
/// failed.
pub proof fn law_mention_outcome(daemon: DaemonView, tweet: TweetView, world: MentionWorld)
    ensures
        ({
            let last = mention_step_number(daemon, tweet, world, 5);
            let answered = answerable_by(daemon.handle, tweet);
            &&& last is Skip || last is Done || last is Fail
            &&& last is Done == dealt_with(daemon, tweet, world)
            &&& last is Skip == (!answered || (world.seen is Some && world.seen->0.contains(
                or_empty(tweet.id),
            )))
            &&& last is Fail == (answered && (world.seen is None || (taken_up(daemon, tweet, world)
                && (world.output is None || (world.output->0.failed_reason is None
                && !world.sent)))))
        }),
{
    reveal_with_fuel(mention_step_number, 6);
}

/// The ids that are stored about a mention, where it comes to that.
pub open spec fn stored_ids(daemon: DaemonView, tweet: TweetView, world: MentionWorld) -> Option<
    Seq<Seq<char>>,
> {
    match mention_step_number(daemon, tweet, world, 3) {
        MentionStepView::Save { seen } => Some(seen),
        _ => match mention_step_number(daemon, tweet, world, 4) {
            MentionStepView::Save { seen } => Some(seen),
            _ => None,
        },
    }
}

/// Ids are stored exactly when the mention has been dealt with, and once. They are those that were
/// there, with that of the mention added. A mention on which something failed is left for a later
/// round.
pub proof fn law_mention_is_stored(
    daemon: DaemonView,
    tweet: TweetView,
    world: MentionWorld,
    n: nat,
)
    ensures
        stored_ids(daemon, tweet, world) is Some == dealt_with(daemon, tweet, world),
        stored_ids(daemon, tweet, world) matches Some(seen) ==> seen == world.seen->0.push(
            or_empty(tweet.id),
        ),
        mention_step_number(daemon, tweet, world, n) matches MentionStepView::Save { seen } ==> {
            &&& stored_ids(daemon, tweet, world) == Some(seen)
            &&& n == 4 || (n == 3 && !(mention_step_number(daemon, tweet, world, 4) is Save))
        },
        n >= 5 ==> mention_step_number(daemon, tweet, world, n) == mention_step_number(
            daemon,
            tweet,
            world,
            5,
        ),
    decreases n,
{
    reveal_with_fuel(mention_step_number, 6);
    if n > 5 {
        law_mention_is_stored(daemon, tweet, world, (n - 1) as nat);
        law_mention_outcome(daemon, tweet, world);
    }
}

/// A reply goes to the mention itself and says what the character said, without its quotes. It is
/// attempted exactly when the mention was taken up and the character did not fail.
pub proof fn law_mention_reply(daemon: DaemonView, tweet: TweetView, world: MentionWorld)
    ensures
        ({
            let step = mention_step_number(daemon, tweet, world, 3);
            &&& step is Reply == (taken_up(daemon, tweet, world) && world.output is Some
                && world.output->0.failed_reason is None)
            &&& step is Reply ==> step->Reply_to == or_empty(tweet.id) && step->Reply_content
                == unquoted(world.output->0.content)
        }),
{
    reveal_with_fuel(mention_step_number, 4);
}

/// The ids stay free of duplicates when a mention is dealt with.
pub proof fn law_mention_keeps_ids_distinct(
    daemon: DaemonView,
    tweet: TweetView,
    world: MentionWorld,
)
    requires
        world.seen is Some,
        world.seen->0.no_duplicates(),
    ensures
        stored_ids(daemon, tweet, world) matches Some(seen) ==> seen.no_duplicates(),
{
    law_mention_is_stored(daemon, tweet, world, 0);
}

/// The ids that are in the store after a mention, where what is stored gets there.
pub open spec fn ids_after(daemon: DaemonView, tweet: TweetView, world: MentionWorld) -> Option<
    Seq<Seq<char>>,
> {
    match stored_ids(daemon, tweet, world) {
        Some(seen) => Some(seen),
        None => world.seen,
    }
}

/// A mention that ended with success, dealt with or left alone, is left alone when it is found
/// again: nothing is asked, sent or stored about it.
pub proof fn law_mention_is_dealt_with_once(
    daemon: DaemonView,
    tweet: TweetView,
    world: MentionWorld,
    again: MentionWorld,
    n: nat,
)
    requires
        !(mention_step_number(daemon, tweet, world, 5) is Fail),
        again.seen == ids_after(daemon, tweet, world),
    ensures
        ({
            let step = mention_step_number(daemon, tweet, again, n);
            step is Skip || (n == 0 && step is Open)
        }),
    decreases n,
{
    law_mention_outcome(daemon, tweet, world);
    law_mention_is_stored(daemon, tweet, world, 0);
    if dealt_with(daemon, tweet, world) {
        assert(again.seen->0.last() == or_empty(tweet.id));
    }
    if n > 0 {
        law_mention_is_dealt_with_once(daemon, tweet, world, again, (n - 1) as nat);
    }
}

/// The bot never answers itself: a mention whose author differs from the bot's handle in letter
/// case at most is left alone.
pub proof fn law_own_mention_is_skipped(daemon: DaemonView, tweet: TweetView, world: MentionWorld)
    requires
        same_handle(or_empty(tweet.username), daemon.handle),
    ensures
        mention_step_number(daemon, tweet, world, 0) is Skip,
{
}

/// What the character is asked about a mention that it takes up: the lines of the conversation,
/// or the text of the mention where it stands alone.
pub proof fn law_mention_prompt(daemon: DaemonView, tweet: TweetView, world: MentionWorld)
    requires
        taken_up(daemon, tweet, world),
    ensures
        ({
            let step = mention_step_number(daemon, tweet, world, 2);
            let chain = reply_chain(tweet, world.look_up);
            &&& step is Ask
            &&& step->Ask_prompt == conversation(
                or_empty(tweet.text),
                lines_of(with_text(chain).reverse()),
            )
            &&& parent_of(tweet, world.look_up) is None ==> step->Ask_prompt == or_empty(tweet.text)
        }),
{
    reveal_with_fuel(mention_step_number, 3);
    law_thread_is_the_reply_chain(tweet, world.look_up);
    if parent_of(tweet, world.look_up) is None {
        reveal(Seq::filter);
        let chain = reply_chain(tweet, world.look_up);
        assert(chain =~= seq![tweet]);
        assert(chain.drop_last() =~= Seq::empty());
        assert(with_text(chain).len() <= 1);
    }
}

/// The bot never answers itself, whatever its handle: a mention whose author is the handle, or has
/// the same lowercase form, is left alone for good.
pub proof fn law_bot_never_answers_itself(
    daemon: DaemonView,
    tweet: TweetView,
    world: MentionWorld,
    n: nat,
)
    requires
        tweet.username matches Some(author) && (author == daemon.handle || lowercase(author)
            == lowercase(daemon.handle)),
    ensures
        mention_step_number(daemon, tweet, world, n) is Skip,
    decreases n,
{
    if n > 0 {
        law_bot_never_answers_itself(daemon, tweet, world, (n - 1) as nat);
    }
}

/// A mention without an author or without a text is left alone for good.
pub proof fn law_empty_mention_is_skipped(
    daemon: DaemonView,
    tweet: TweetView,
    world: MentionWorld,
    n: nat,
)
    requires
        tweet.username is None || tweet.username->0.len() == 0 || tweet.text is None
            || tweet.text->0.len() == 0,
    ensures
        mention_step_number(daemon, tweet, world, n) is Skip,
    decreases n,
{
    if n > 0 {
        law_empty_mention_is_skipped(daemon, tweet, world, (n - 1) as nat);
    }
}

/// The mention has a text and an author of any length, and the author is not the bot.
pub open spec fn is_by_another(daemon: DaemonView, tweet: TweetView) -> bool {
    &&& tweet.text is Some && tweet.text->0.len() > 0
    &&& tweet.username is Some && tweet.username->0.len() > 0
    &&& lowercase(tweet.username->0) != lowercase(daemon.handle)
}

/// `id` is the id of the tweet, or empty where it has none.
pub open spec fn is_id_of(id: Seq<char>, tweet: TweetView) -> bool {
    match tweet.id {
        Some(given) => id == given,
        None => id.len() == 0,
    }
}

/// Every mention by another account is taken up in the name of its author, unless its id is among
/// those loaded. The bot then follows the conversation that ends in that very tweet, and its id
/// comes after all of those loaded.
pub proof fn law_mention_by_another_is_taken_up(
    daemon: DaemonView,
    tweet: TweetView,
    world: MentionWorld,
    id: Seq<char>,
)
    requires
        is_by_another(daemon, tweet),
        is_id_of(id, tweet),
    ensures
        mention_step_number(daemon, tweet, world, 0) == (MentionStepView::Open {
            user: tweet.username->0,
            tweet,
        }),
        ({
            let step = mention_step_number(daemon, tweet, world, 1);
            match world.seen {
                None => step == MentionStepView::Fail,
                Some(seen) => {
                    &&& seen.contains(id) ==> step == MentionStepView::Skip
                    &&& !seen.contains(id) ==> step == (MentionStepView::Follow {
                        mention: MentionView { id, text: tweet.text->0, seen: seen + seq![id] },
                        step: first_thread_step(tweet),
                    })
                },
            }
        }),
{
    reveal_with_fuel(mention_step_number, 2);
    if tweet.id is None {
        assert(id =~= Seq::empty());
    }
    if let Some(seen) = world.seen {
        assert(seen.push(id) =~= seen + seq![id]);
    }
}

/// The line of a tweet in a conversation: its author, a colon, a space, and its text in the quoted
/// form, where an author or a text that is missing counts as empty.
pub open spec fn spoken(tweet: TweetView) -> Seq<char> {
    let author = match tweet.username {
        Some(author) => author,
        None => Seq::empty(),
    };
    let said = match tweet.text {
        Some(text) => debug_form(text),
        None => debug_form(Seq::empty()),
    };
    author + seq![':', ' '] + said
}

/// What the character is asked about a mention that is taken up. Where two or more tweets of the
/// conversation have a text, the prompt holds the line of each of them, whole and in order, one
/// below the other, and nothing else. Where the mention stands alone it is the mention's text.
pub proof fn law_character_reads_the_whole_thread(
    daemon: DaemonView,
    tweet: TweetView,
    world: MentionWorld,
    id: Seq<char>,
)
    requires
        is_by_another(daemon, tweet),
        is_id_of(id, tweet),
        world.seen is Some,
        !world.seen->0.contains(id),
    ensures
        ({
            let step = mention_step_number(daemon, tweet, world, 2);
            let thread = thread_of(tweet, world.look_up);
            let lines = Seq::new(thread.len(), |i: int| spoken(thread[i]));
            &&& step is Ask
            &&& step->Ask_mention == (MentionView {
                id,
                text: tweet.text->0,
                seen: world.seen->0 + seq![id],
            })
            &&& thread.len() >= 2 ==> holds_lines(step->Ask_prompt, lines)
            &&& thread.len() < 2 ==> step->Ask_prompt == tweet.text->0
        }),
{
    reveal_with_fuel(mention_step_number, 3);
    reveal_strlit(": ");
    law_mention_by_another_is_taken_up(daemon, tweet, world, id);
    let thread = thread_of(tweet, world.look_up);
    let lines = Seq::new(thread.len(), |i: int| spoken(thread[i]));
    assert(": "@ =~= seq![':', ' ']);
    assert forall|i: int| 0 <= i < thread.len() implies #[trigger] lines[i] == lines_of(
        thread,
    )[i] by {
        assert(lines[i] == spoken(thread[i]));
        assert(lines_of(thread)[i] == line_of(thread[i]));
    }
    assert(lines =~= lines_of(thread));
    law_conversation_holds_every_line(tweet.text->0, lines);
}

/// What comes of the character's word on a mention that is taken up. A call that failed leaves the
/// mention for later. A character that failed counts as an answer, and the ids are stored. Every
/// other text, of whatever length, is sent as a reply to the mention, as it is or, where it is
/// enclosed in quotes, what is between them; the ids are stored where it goes through.
pub proof fn law_character_has_its_say(
    daemon: DaemonView,
    tweet: TweetView,
    world: MentionWorld,
    id: Seq<char>,
    said: Seq<char>,
)
    requires
        is_by_another(daemon, tweet),
        is_id_of(id, tweet),
        world.seen is Some,
        !world.seen->0.contains(id),
    ensures
        ({
            let step = mention_step_number(daemon, tweet, world, 3);
            let next = mention_step_number(daemon, tweet, world, 4);
            let last = mention_step_number(daemon, tweet, world, 5);
            let save = MentionStepView::Save { seen: world.seen->0 + seq![id] };
            match world.output {
                None => step == MentionStepView::Fail && last == MentionStepView::Fail,
                Some(output) => {
                    let bare = output.content == said && (said.len() < 2 || said[0] != '"'
                        || said[said.len() - 1] != '"');
                    let enclosed = output.content == seq!['"'] + said + seq!['"'];
                    &&& output.failed_reason is Some ==> step == save && last
                        == MentionStepView::Done
                    &&& output.failed_reason is None && (bare || enclosed) ==> {
                        &&& step == (MentionStepView::Reply {
                            to: id,
                            content: said,
                            seen: world.seen->0 + seq![id],
                        })
                        &&& world.sent ==> next == save && last == MentionStepView::Done
                        &&& !world.sent ==> next == MentionStepView::Fail && last
                            == MentionStepView::Fail
                    }
                },
            }
        }),
{
    reveal_with_fuel(mention_step_number, 6);
    law_mention_by_another_is_taken_up(daemon, tweet, world, id);
    if let Some(output) = world.output {
        law_quotes_come_off_in_pairs(output.content);
        law_quotes_come_off_in_pairs(said);
    }
}

/// What a mention says is what its fields hold.
pub proof fn law_mention_says_what_it_holds(mention: Mention)
    ensures
        mention@.id == mention.id@,
        mention@.text == mention.text@,
        mention@.seen == mention.seen.deep_view(),
{
}

/// A step about a mention is told by what it holds.
pub proof fn law_mention_step_says_what_it_holds(step: MentionStep)
    ensures
        match step {
            MentionStep::Skip => step@ is Skip,
            MentionStep::Open { user, tweet } => step@ == (MentionStepView::Open {
                user: user@,
                tweet: tweet@,
            }),
            MentionStep::Follow { mention, step: thread } => step@ == (MentionStepView::Follow {
                mention: mention@,
                step: thread@,
            }),
            MentionStep::Ask { mention, prompt } => step@ == (MentionStepView::Ask {
                mention: mention@,
                prompt: prompt@,
            }),
            MentionStep::Reply { to, content, seen } => step@ == (MentionStepView::Reply {
                to: to@,
                content: content@,
                seen: seen.deep_view(),
            }),
            MentionStep::Save { seen } => step@ == (MentionStepView::Save {
                seen: seen.deep_view(),
            }),
            MentionStep::Done => step@ is Done,
            MentionStep::Fail => step@ is Fail,
        },
{
}

} // verus!
