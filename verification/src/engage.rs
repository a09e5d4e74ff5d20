//! How the bot engages with a tweet of its home timeline: like it, then quote it or reply to it.

use crate::answer::Completion;
use crate::answer::CompletionView;
use crate::answer::Refusal;
use crate::answer::RefusalView;
use crate::answer::Request;
use crate::answer::RequestView;
use crate::answer::decide_tweet_answer;
use crate::answer::law_published_answer;
use crate::answer::law_tweet_answer;
use crate::answer::tweet_answer;
use crate::daemon::DaemonView;
use crate::daemon::TwitterDaemon;
use crate::text::debug_form;
use crate::text::declines;
use crate::text::spells_ignore;
use crate::text::tweet_prompt;
use crate::text::unquoted;
use crate::text::write_tweet_prompt;
use crate::tweet::TimelineTweet;
use crate::tweet::TimelineTweetView;
use vstd::prelude::*;

verus! {

/// What an answer to a tweet counts as. It goes out in the same way either way: as a reply to the
/// tweet.
#[derive(Clone, Copy, Debug, PartialEq, Eq, Structural)]
pub enum Mode {
    Quote,
    Reply,
}

/// Why an engagement ended before an answer was published.
#[derive(Debug, PartialEq, Eq)]
pub enum Failure {
    /// A call to the outside failed.
    Call,
    /// The model gave no answer that can be published.
    Refused { refusal: Refusal },
}

/// What a `Failure` says.
pub enum FailureView {
    Call,
    Refused { refusal: RefusalView },
}

impl View for Failure {
    type V = FailureView;

    open spec fn view(&self) -> FailureView {
        match self {
            Failure::Call => FailureView::Call,
            Failure::Refused { refusal } => FailureView::Refused { refusal: refusal@ },
        }
    }
}

impl DeepView for Failure {
    type V = FailureView;

    open spec fn deep_view(&self) -> FailureView {
        self@
    }
}

/// What came of an engagement.
#[derive(Debug, PartialEq, Eq)]
pub struct Engaged {
    pub liked: bool,
    pub quoted: bool,
    pub replied: bool,
    pub failure: Option<Failure>,
}

/// What an `Engaged` says.
pub struct EngagedView {
    pub liked: bool,
    pub quoted: bool,
    pub replied: bool,
    pub failure: Option<FailureView>,
}

impl View for Engaged {
    type V = EngagedView;

    open spec fn view(&self) -> EngagedView {
        EngagedView {
            liked: self.liked,
            quoted: self.quoted,
            replied: self.replied,
            failure: self.failure.deep_view(),
        }
    }
}

/// What to do next about a tweet.
#[derive(Debug, PartialEq, Eq)]
pub enum EngageStep {
    /// Ask whether to like the tweet, then go on with `handle_like`.
    AskLike { tweet: TimelineTweet },
    /// Like the tweet, then go on with `like_sent`.
    Like { tweet: TimelineTweet },
    /// Ask whether to quote the tweet, then go on with `handle_quote`.
    AskQuote { tweet: TimelineTweet },
    /// Ask the model for an answer, then go on with `completed`.
    Complete { tweet: TimelineTweet, mode: Mode, request: Request },
    /// Send `content` as a reply to the tweet with the id `tweet.id`, in either mode, then go on with
    /// `published`.
    Publish { tweet: TimelineTweet, mode: Mode, content: String },
    /// The engagement is over.
    Finished { outcome: Engaged },
}

/// What an `EngageStep` says.
pub enum EngageStepView {
    AskLike { tweet: TimelineTweetView },
    Like { tweet: TimelineTweetView },
    AskQuote { tweet: TimelineTweetView },
    Complete { tweet: TimelineTweetView, mode: Mode, request: RequestView },
    Publish { tweet: TimelineTweetView, mode: Mode, content: Seq<char> },
    Finished { outcome: EngagedView },
}

impl View for EngageStep {
    type V = EngageStepView;

    open spec fn view(&self) -> EngageStepView {
        match self {
            EngageStep::AskLike { tweet } => EngageStepView::AskLike { tweet: tweet@ },
            EngageStep::Like { tweet } => EngageStepView::Like { tweet: tweet@ },
            EngageStep::AskQuote { tweet } => EngageStepView::AskQuote { tweet: tweet@ },
            EngageStep::Complete { tweet, mode, request } => EngageStepView::Complete {
                tweet: tweet@,
                mode: *mode,
                request: request@,
            },
            EngageStep::Publish { tweet, mode, content } => EngageStepView::Publish {
                tweet: tweet@,
                mode: *mode,
                content: content@,
            },
            EngageStep::Finished { outcome } => EngageStepView::Finished { outcome: outcome@ },
        }
    }
}

/// The end of an engagement in which nothing was published.
pub open spec fn ended(liked: bool, failure: Option<FailureView>) -> EngageStepView {
    EngageStepView::Finished {
        outcome: EngagedView { liked, quoted: false, replied: false, failure },
    }
}

/// The step after it is known whether to like the tweet.
pub open spec fn after_like_asked(tweet: TimelineTweetView, like: bool) -> EngageStepView {
    if like {
        EngageStepView::Like { tweet }
    } else {
        ended(false, None)
    }
}

/// The step after the attempt to like the tweet.
pub open spec fn after_like_sent(tweet: TimelineTweetView, sent: bool) -> EngageStepView {
    if sent {
        EngageStepView::AskQuote { tweet }
    } else {
        ended(false, Some(FailureView::Call))
    }
}

/// The step after it is known whether to quote the tweet: the model is asked for an answer either
/// way.
pub open spec fn after_quote_asked(
    daemon: DaemonView,
    tweet: TimelineTweetView,
    quote: bool,
) -> EngageStepView {
    EngageStepView::Complete {
        tweet,
        mode: if quote {
            Mode::Quote
        } else {
            Mode::Reply
        },
        request: RequestView {
            prompt: tweet_prompt(daemon.name, debug_form(tweet.content)),
            prompter_name: Some(daemon.engine_name),
        },
    }
}

/// The step after the model was asked; no output where the call failed.
pub open spec fn after_completion(
    tweet: TimelineTweetView,
    mode: Mode,
    output: Option<CompletionView>,
) -> EngageStepView {
    match output {
        None => ended(true, Some(FailureView::Call)),
        Some(output) => match tweet_answer(output) {
            Ok(content) => EngageStepView::Publish { tweet, mode, content },
            Err(refusal) => ended(true, Some(FailureView::Refused { refusal })),
        },
    }
}

/// The step after the attempt to publish an answer.
pub open spec fn after_publish(mode: Mode, sent: bool) -> EngageStepView {
    if sent {
        EngageStepView::Finished {
            outcome: EngagedView {
                liked: true,
                quoted: mode == Mode::Quote,
                replied: mode == Mode::Reply,
                failure: None,
            },
        }
    } else {
        ended(true, Some(FailureView::Call))
    }
}

/// Ends an engagement in which nothing was published.
fn end(liked: bool, failure: Option<Failure>) -> (r: EngageStep)
    ensures
        r@ == ended(liked, failure.deep_view()),
{
    EngageStep::Finished { outcome: Engaged { liked, quoted: false, replied: false, failure } }
}

impl TwitterDaemon {
    /// Starts to engage with a tweet.
    pub fn engage(&self, tweet: TimelineTweet) -> (r: EngageStep)
        ensures
            r@ == (EngageStepView::AskLike { tweet: tweet@ }),
    {
        EngageStep::AskLike { tweet }
    }

    /// Goes on once it is known whether to like the tweet.
    pub fn handle_like(&self, tweet: TimelineTweet, like: bool) -> (r: EngageStep)
        ensures
            r@ == after_like_asked(tweet@, like),
    {
        if like {
            EngageStep::Like { tweet }
        } else {
            end(false, None)
        }
    }

    /// Goes on after the attempt to like the tweet.
    pub fn like_sent(&self, tweet: TimelineTweet, sent: bool) -> (r: EngageStep)
        ensures
            r@ == after_like_sent(tweet@, sent),
    {
        if sent {
            EngageStep::AskQuote { tweet }
        } else {
            end(false, Some(Failure::Call))
        }
    }

    /// Writes what the model is asked about the tweet.
    fn tweet_request(&self, tweet: &TimelineTweet) -> (r: Request)
        ensures
            r@ == (RequestView {
                prompt: tweet_prompt(self@.name, debug_form(tweet@.content)),
                prompter_name: Some(self@.engine_name),
            }),
    {
        Request {
            prompt: write_tweet_prompt(self.name(), tweet.content.as_str()),
            prompter_name: Some(self.engine_name().to_owned()),
        }
    }

    /// Goes on once it is known whether to quote the tweet; an answer counts as a reply where it is
    /// not quoted.
    pub fn handle_quote(&self, tweet: TimelineTweet, quote: bool) -> (r: EngageStep)
        ensures
            r@ == after_quote_asked(self@, tweet@, quote),
    {
        if quote {
            let request: Request = self.tweet_request(&tweet);
            EngageStep::Complete { tweet, mode: Mode::Quote, request }
        } else {
            self.handle_reply(tweet)
        }
    }

    /// Starts a reply to the tweet.
    pub fn handle_reply(&self, tweet: TimelineTweet) -> (r: EngageStep)
        ensures
            r@ == after_quote_asked(self@, tweet@, false),
    {
        let request: Request = self.tweet_request(&tweet);
        EngageStep::Complete { tweet, mode: Mode::Reply, request }
    }

    /// Goes on after the model was asked; no output where the call failed.
    pub fn completed(&self, tweet: TimelineTweet, mode: Mode, output: Option<Completion>) -> (r:
        EngageStep)
        ensures
            r@ == after_completion(tweet@, mode, output.deep_view()),
    {
        match output {
            None => end(true, Some(Failure::Call)),
            Some(output) => match decide_tweet_answer(output) {
                Ok(content) => EngageStep::Publish { tweet, mode, content },
                Err(refusal) => end(true, Some(Failure::Refused { refusal })),
            },
        }
    }

    /// Goes on after the attempt to publish an answer.
    pub fn published(&self, mode: Mode, sent: bool) -> (r: EngageStep)
        ensures
            r@ == after_publish(mode, sent),
    {
        if sent {
            EngageStep::Finished {
                outcome: Engaged {
                    liked: true,
                    quoted: mode == Mode::Quote,
                    replied: mode == Mode::Reply,
                    failure: None,
                },
            }
        } else {
            end(true, Some(Failure::Call))
        }
    }
}

// ---------------------------------------------------------------------------------------------
// Laws
// ---------------------------------------------------------------------------------------------

/// Everything the outside may say in the course of an engagement.
pub struct World {
    pub like: bool,
    pub like_sent: bool,
    pub quote: bool,
    pub output: Option<CompletionView>,
    pub published: bool,
}

/// The step that follows `step` in a given world.
pub open spec fn next_step(
    daemon: DaemonView,
    step: EngageStepView,
    world: World,
) -> EngageStepView {
    match step {
        EngageStepView::AskLike { tweet } => after_like_asked(tweet, world.like),
        EngageStepView::Like { tweet } => after_like_sent(tweet, world.like_sent),
        EngageStepView::AskQuote { tweet } => after_quote_asked(daemon, tweet, world.quote),
        EngageStepView::Complete { tweet, mode, .. } => after_completion(
            tweet,
            mode,
            world.output,
        ),
        EngageStepView::Publish { mode, .. } => after_publish(mode, world.published),
        EngageStepView::Finished { .. } => step,
    }
}

/// The step that is reached from the start of an engagement after `n` steps in a given world.
pub open spec fn step_number(
    daemon: DaemonView,
    tweet: TimelineTweetView,
    world: World,
    n: nat,
) -> EngageStepView
    decreases n,
{
    if n == 0 {
        EngageStepView::AskLike { tweet }
    } else {
        next_step(daemon, step_number(daemon, tweet, world, (n - 1) as nat), world)
    }
}

/// An answer is published in this world.
pub open spec fn answers(world: World) -> bool {
    &&& world.like && world.like_sent
    &&& world.output is Some && tweet_answer(world.output->0) is Ok
    &&& world.published
}

/// An engagement takes five steps at most, and its outcome is what the world allows: a like where
/// one was wanted and went through, and after it one answer, which counts as a quote where one was
/// wanted and as a reply where not.
pub proof fn law_engagement_outcome(daemon: DaemonView, tweet: TimelineTweetView, world: World)
    ensures
        step_number(daemon, tweet, world, 5) is Finished,
        ({
            let outcome = step_number(daemon, tweet, world, 5)->outcome;
            &&& outcome.liked == (world.like && world.like_sent)
            &&& outcome.quoted == (answers(world) && world.quote)
            &&& outcome.replied == (answers(world) && !world.quote)
            &&& outcome.failure is None == (!world.like || answers(world))
        }),
{
    reveal_with_fuel(step_number, 6);
}

/// `outcome` is what an engagement can come to.
pub open spec fn is_outcome(outcome: EngagedView) -> bool {
    exists|daemon: DaemonView, tweet: TimelineTweetView, world: World|
        #[trigger] step_number(daemon, tweet, world, 5) == (EngageStepView::Finished { outcome })
}

/// No tweet is answered that was not liked, and none is both quoted and replied to.
pub proof fn law_one_answer_after_a_like(outcome: EngagedView)
    requires
        is_outcome(outcome),
    ensures
        outcome.quoted || outcome.replied ==> outcome.liked,
        !(outcome.quoted && outcome.replied),
{
    let (daemon, tweet, world) = choose|
        daemon: DaemonView,
        tweet: TimelineTweetView,
        world: World,
    | #[trigger]
        step_number(daemon, tweet, world, 5) == (EngageStepView::Finished { outcome });
    law_engagement_outcome(daemon, tweet, world);
}

/// What is published is the model's answer without its quotes, to the tweet that was liked; it is
/// never empty and never holds the ignore command.
pub proof fn law_published_content(
    daemon: DaemonView,
    tweet: TimelineTweetView,
    world: World,
    n: nat,
)
    requires
        step_number(daemon, tweet, world, n) is Publish,
    ensures
        ({
            let step = step_number(daemon, tweet, world, n);
            &&& world.like && world.like_sent && world.output is Some
            &&& step->Publish_tweet == tweet
            &&& step->Publish_mode == if world.quote {
                Mode::Quote
            } else {
                Mode::Reply
            }
            &&& step->Publish_content == unquoted(world.output->0.content)
            &&& !declines(step->Publish_content)
        }),
{
    lemma_steps(daemon, tweet, world, n);
}

/// Every step is one of the first five.
proof fn lemma_steps(daemon: DaemonView, tweet: TimelineTweetView, world: World, n: nat)
    ensures
        n >= 5 ==> step_number(daemon, tweet, world, n) == step_number(daemon, tweet, world, 5),
        step_number(daemon, tweet, world, 5) is Finished,
        n < 4 ==> !(step_number(daemon, tweet, world, n) is Publish),
        n == 4 && step_number(daemon, tweet, world, n) is Publish ==> {
            &&& world.like && world.like_sent && world.output is Some
            &&& tweet_answer(world.output->0) == Ok::<Seq<char>, RefusalView>(
                step_number(daemon, tweet, world, n)->Publish_content,
            )
            &&& step_number(daemon, tweet, world, n)->Publish_tweet == tweet
            &&& step_number(daemon, tweet, world, n)->Publish_mode == if world.quote {
                Mode::Quote
            } else {
                Mode::Reply
            }
        },
    decreases n,
{
    reveal_with_fuel(step_number, 6);
    if n > 5 {
        lemma_steps(daemon, tweet, world, (n - 1) as nat);
    }
}

/// An engagement up to the question to the model. A tweet that is not to be liked is left at that,
/// and so is one on which the like fails. Every other one is put to the model whole, in the
/// character's name, whatever its length, and asked for by the engine.
pub proof fn law_engagement_up_to_the_model(
    daemon: DaemonView,
    tweet: TimelineTweetView,
    world: World,
)
    ensures
        !world.like ==> step_number(daemon, tweet, world, 1) == (EngageStepView::Finished {
            outcome: EngagedView { liked: false, quoted: false, replied: false, failure: None },
        }),
        world.like ==> step_number(daemon, tweet, world, 1) == (EngageStepView::Like { tweet }),
        world.like && !world.like_sent ==> step_number(daemon, tweet, world, 2) == (
        EngageStepView::Finished {
            outcome: EngagedView {
                liked: false,
                quoted: false,
                replied: false,
                failure: Some(FailureView::Call),
            },
        }),
        world.like && world.like_sent ==> {
            let question = step_number(daemon, tweet, world, 3);
            &&& step_number(daemon, tweet, world, 2) == (EngageStepView::AskQuote { tweet })
            &&& question is Complete
            &&& question->Complete_tweet == tweet
            &&& question->Complete_mode == Mode::Quote <==> world.quote
            &&& question->request.prompter_name == Some(daemon.engine_name)
            &&& question->request.prompt == tweet_prompt(daemon.name, debug_form(tweet.content))
        },
{
    reveal_with_fuel(step_number, 4);
}

/// What is published in an engagement is never empty, and at no place in it, however long it is,
/// do the letters I, G, N, O, R, E follow one another.
pub proof fn law_ignore_is_never_published(
    daemon: DaemonView,
    tweet: TimelineTweetView,
    world: World,
    n: nat,
)
    ensures
        step_number(daemon, tweet, world, n) matches EngageStepView::Publish { content, .. } ==> {
            &&& content.len() > 0
            &&& forall|at: int| !#[trigger] spells_ignore(content, at)
            &&& forall|at: int|
                0 <= at && at + 6 <= content.len() ==> !(#[trigger] content[at] == 'I'
                    && content[at + 1] == 'G' && content[at + 2] == 'N' && content[at + 3] == 'O'
                    && content[at + 4] == 'R' && content[at + 5] == 'E')
        },
{
    lemma_steps(daemon, tweet, world, n);
    if let EngageStepView::Publish { content, .. } = step_number(daemon, tweet, world, n) {
        law_published_answer(world.output->0);
        assert forall|at: int| 0 <= at && at + 6 <= content.len() implies !(#[trigger] content[at]
            == 'I' && content[at + 1] == 'G' && content[at + 2] == 'N' && content[at + 3] == 'O'
            && content[at + 4] == 'R' && content[at + 5] == 'E') by {
            assert(!spells_ignore(content, at));
        }
    }
}

/// What comes of the model's word on a tweet that was liked. A call that failed and a model that
/// failed end the engagement, each with its own failure, and so does a text that is empty or spells
/// the ignore command at some place `at`. Every other text is published whole, as an answer to that
/// very tweet: `said` is the text as it is or, where it is enclosed in quotes, what is between them.
pub proof fn law_model_has_its_say(
    daemon: DaemonView,
    tweet: TimelineTweetView,
    world: World,
    said: Seq<char>,
    at: int,
)
    requires
        world.like,
        world.like_sent,
    ensures
        ({
            let step = step_number(daemon, tweet, world, 4);
            let mode = if world.quote {
                Mode::Quote
            } else {
                Mode::Reply
            };
            let liked = EngagedView { liked: true, quoted: false, replied: false, failure: None };
            match world.output {
                None => step == (EngageStepView::Finished {
                    outcome: EngagedView { failure: Some(FailureView::Call), ..liked },
                }),
                Some(output) => match output.failed_reason {
                    Some(reason) => step == (EngageStepView::Finished {
                        outcome: EngagedView {
                            failure: Some(
                                FailureView::Refused {
                                    refusal: RefusalView::Generation { reason },
                                },
                            ),
                            ..liked
                        },
                    }),
                    None => {
                        let bare = output.content == said && (said.len() < 2 || said[0] != '"'
                            || said[said.len() - 1] != '"');
                        let enclosed = output.content == seq!['"'] + said + seq!['"'];
                        bare || enclosed ==> {
                            &&& said.len() == 0 || spells_ignore(said, at) ==> step == (
                            EngageStepView::Finished {
                                outcome: EngagedView {
                                    failure: Some(
                                        FailureView::Refused { refusal: RefusalView::Ignored },
                                    ),
                                    ..liked
                                },
                            })
                            &&& said.len() > 0 && (forall|i: int|
                                !#[trigger] spells_ignore(said, i)) ==> {
                                &&& step == (EngageStepView::Publish { tweet, mode, content: said })
                                &&& world.published ==> step_number(daemon, tweet, world, 5) == (
                                EngageStepView::Finished {
                                    outcome: EngagedView {
                                        quoted: world.quote,
                                        replied: !world.quote,
                                        ..liked
                                    },
                                })
                                &&& !world.published ==> step_number(daemon, tweet, world, 5) == (
                                EngageStepView::Finished {
                                    outcome: EngagedView {
                                        failure: Some(FailureView::Call),
                                        ..liked
                                    },
                                })
                            }
                        }
                    },
                },
            }
        }),
{
    reveal_with_fuel(step_number, 6);
    if world.output is Some {
        law_tweet_answer(world.output->0, said, at);
    }
}

/// What came of an engagement is what the fields hold.
pub proof fn law_outcome_says_what_it_holds(outcome: Engaged)
    ensures
        outcome@.liked == outcome.liked,
        outcome@.quoted == outcome.quoted,
        outcome@.replied == outcome.replied,
        match outcome.failure {
            None => outcome@.failure is None,
            Some(Failure::Call) => outcome@.failure == Some(FailureView::Call),
            Some(Failure::Refused { refusal }) => outcome@.failure == Some(
                FailureView::Refused { refusal: refusal@ },
            ),
        },
{
}

/// A step about a tweet is told by what it holds.
pub proof fn law_engage_step_says_what_it_holds(step: EngageStep)
    ensures
        match step {
            EngageStep::AskLike { tweet } => step@ == (EngageStepView::AskLike { tweet: tweet@ }),
            EngageStep::Like { tweet } => step@ == (EngageStepView::Like { tweet: tweet@ }),
            EngageStep::AskQuote { tweet } => step@ == (EngageStepView::AskQuote { tweet: tweet@ }),
            EngageStep::Complete { tweet, mode, request } => step@ is Complete
                && step@->Complete_tweet == tweet@ && step@->Complete_mode == mode && step@->request
                == request@,
            EngageStep::Publish { tweet, mode, content } => step@ is Publish
                && step@->Publish_tweet == tweet@ && step@->Publish_mode == mode
                && step@->Publish_content == content@,
            EngageStep::Finished { outcome } => step@ == (EngageStepView::Finished {
                outcome: outcome@,
            }),
        },
{
}

} // verus!
