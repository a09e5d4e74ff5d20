//! Tweets of the bot's own, written from what it learned lately.

use crate::answer::Completion;
use crate::answer::CompletionView;
use crate::answer::Refusal;
use crate::answer::RefusalView;
use crate::answer::Request;
use crate::answer::RequestView;
use crate::answer::decide_post_answer;
use crate::answer::post_answer;
use crate::daemon::DaemonView;
use crate::daemon::TwitterDaemon;
use crate::text::POST_PROMPT;
use vstd::prelude::*;

verus! {

/// How far back knowledge is looked up, in seconds: half an hour.
pub const KNOWLEDGE_SECONDS: u32 = 1800;

/// How many pieces of knowledge are looked up at most.
pub const KNOWLEDGE_LIMIT: usize = 3;

/// What to do next about a tweet of the bot's own.
#[derive(Debug, PartialEq, Eq)]
pub enum PostStep {
    /// Look up at most `limit` pieces of knowledge of the last `last_seconds`, from any user, then
    /// go on with `knowledge_found`.
    LookUp { last_seconds: u32, limit: usize },
    /// There is nothing to write about: end, with success.
    Skip,
    /// Open a session in the name of `user`, then go on with `post_opened`.
    Open { user: String },
    /// Ask the model, with the knowledge at hand, then go on with `post_completed`.
    Complete { request: Request },
    /// Publish a tweet that answers no other, then go on with `post_published`.
    Publish { content: String },
    /// The tweet is out: end, with success.
    Done,
    /// The model gave nothing to publish: end, with its refusal as the error.
    Refuse { refusal: Refusal },
    /// A call to the outside failed: end, with the error that came up.
    Fail,
}

/// What a `PostStep` says.
pub enum PostStepView {
    LookUp { last_seconds: u32, limit: usize },
    Skip,
    Open { user: Seq<char> },
    Complete { request: RequestView },
    Publish { content: Seq<char> },
    Done,
    Refuse { refusal: RefusalView },
    Fail,
}

impl View for PostStep {
    type V = PostStepView;

    open spec fn view(&self) -> PostStepView {
        match self {
            PostStep::LookUp { last_seconds, limit } => PostStepView::LookUp {
                last_seconds: *last_seconds,
                limit: *limit,
            },
            PostStep::Skip => PostStepView::Skip,
            PostStep::Open { user } => PostStepView::Open { user: user@ },
            PostStep::Complete { request } => PostStepView::Complete { request: request@ },
            PostStep::Publish { content } => PostStepView::Publish { content: content@ },
            PostStep::Done => PostStepView::Done,
            PostStep::Refuse { refusal } => PostStepView::Refuse { refusal: refusal@ },
            PostStep::Fail => PostStepView::Fail,
        }
    }
}

/// The first step about a tweet of the bot's own.
pub open spec fn first_post_step() -> PostStepView {
    PostStepView::LookUp { last_seconds: KNOWLEDGE_SECONDS, limit: KNOWLEDGE_LIMIT }
}

/// The step after it is known how many pieces of knowledge there are; no number where the look-up
/// failed.
pub open spec fn after_look_up(daemon: DaemonView, found: Option<usize>) -> PostStepView {
    match found {
        None => PostStepView::Fail,
        Some(n) => if n == 0 {
            PostStepView::Skip
        } else {
            PostStepView::Open { user: daemon.engine_name }
        },
    }
}

/// The step after the attempt to open a session.
pub open spec fn after_post_opened(daemon: DaemonView, opened: bool) -> PostStepView {
    if opened {
        PostStepView::Complete {
            request: RequestView {
                prompt: POST_PROMPT@,
                prompter_name: Some(daemon.engine_name),
            },
        }
    } else {
        PostStepView::Fail
    }
}

/// The step after the model was asked; no output where the call failed.
pub open spec fn after_post_completed(output: Option<CompletionView>) -> PostStepView {
    match output {
        None => PostStepView::Fail,
        Some(output) => match post_answer(output) {
            Ok(content) => PostStepView::Publish { content },
            Err(refusal) => PostStepView::Refuse { refusal },
        },
    }
}

/// The step after the attempt to publish.
pub open spec fn after_post_published(sent: bool) -> PostStepView {
    if sent {
        PostStepView::Done
    } else {
        PostStepView::Fail
    }
}

impl TwitterDaemon {
    /// Starts a tweet of the bot's own.
    pub fn post_new_tweet(&self) -> (r: PostStep)
        ensures
            r@ == first_post_step(),
    {
        PostStep::LookUp { last_seconds: KNOWLEDGE_SECONDS, limit: KNOWLEDGE_LIMIT }
    }

    /// Goes on once it is known how many pieces of knowledge there are, with nothing where the
    /// look-up failed.
    pub fn knowledge_found(&self, found: Option<usize>) -> (r: PostStep)
        ensures
            r@ == after_look_up(self@, found),
    {
        match found {
            None => PostStep::Fail,
            Some(n) => if n == 0 {
                PostStep::Skip
            } else {
                PostStep::Open { user: self.engine_name().to_owned() }
            },
        }
    }

    /// Goes on after the attempt to open a session.
    pub fn post_opened(&self, opened: bool) -> (r: PostStep)
        ensures
            r@ == after_post_opened(self@, opened),
    {
        if opened {
            PostStep::Complete {
                request: Request {
                    prompt: POST_PROMPT.to_owned(),
                    prompter_name: Some(self.engine_name().to_owned()),
                },
            }
        } else {
            PostStep::Fail
        }
    }

    /// Goes on after the model was asked; no output where the call failed.
    pub fn post_completed(&self, output: Option<Completion>) -> (r: PostStep)
        ensures
            r@ == after_post_completed(output.deep_view()),
    {
        match output {
            None => PostStep::Fail,
            Some(output) => match decide_post_answer(output) {
                Ok(content) => PostStep::Publish { content },
                Err(refusal) => PostStep::Refuse { refusal },
            },
        }
    }

    /// Goes on after the attempt to publish.
    pub fn post_published(&self, sent: bool) -> (r: PostStep)
        ensures
            r@ == after_post_published(sent),
    {
        if sent {
            PostStep::Done
        } else {
            PostStep::Fail
        }
    }
}

// ---------------------------------------------------------------------------------------------
// Laws
// ---------------------------------------------------------------------------------------------

/// Everything the outside may say in the course of a tweet of the bot's own.
pub struct PostWorld {
    /// How many pieces of knowledge there are; none where the look-up fails.
    pub found: Option<usize>,
    /// Whether a session can be opened.
    pub opened: bool,
    /// What the model says; none where the call fails.
    pub output: Option<CompletionView>,
    /// Whether the tweet goes out.
    pub sent: bool,
}

/// The step that follows `step` in a given world.
pub open spec fn next_post_step(
    daemon: DaemonView,
    step: PostStepView,
    world: PostWorld,
) -> PostStepView {
    match step {
        PostStepView::LookUp { .. } => after_look_up(daemon, world.found),
        PostStepView::Open { .. } => after_post_opened(daemon, world.opened),
        PostStepView::Complete { .. } => after_post_completed(world.output),
        PostStepView::Publish { .. } => after_post_published(world.sent),
        _ => step,
    }
}

/// The step that is reached after `n` steps in a given world.
pub open spec fn post_step_number(daemon: DaemonView, world: PostWorld, n: nat) -> PostStepView
    decreases n,
{
    if n == 0 {
        first_post_step()
    } else {
        next_post_step(daemon, post_step_number(daemon, world, (n - 1) as nat), world)
    }
}

/// There is something to write about.
pub open spec fn has_knowledge(world: PostWorld) -> bool {
    world.found is Some && world.found->0 > 0
}

/// The model gives a tweet to publish.
pub open spec fn has_tweet(world: PostWorld) -> bool {
    &&& has_knowledge(world)
    &&& world.opened
    &&& world.output is Some && world.output->0.failed_reason is None
}

/// A tweet of the bot's own takes four steps at most. It ends with an error exactly when the
/// look-up fails or, where there is something to write about, the session, the model or the
/// publication does. It is out exactly when its publication went through, and nothing is done
/// where there is nothing to write about.
pub proof fn law_post_outcome(daemon: DaemonView, world: PostWorld)
    ensures
        ({
            let last = post_step_number(daemon, world, 4);
            &&& last is Done || last is Skip || last is Refuse || last is Fail
            &&& last is Done == (has_tweet(world) && world.sent)
            &&& last is Skip == (world.found == Some(0usize))
            &&& last is Refuse == (has_knowledge(world) && world.opened && world.output is Some
                && world.output->0.failed_reason is Some)
            &&& last is Refuse ==> last->refusal == (RefusalView::Generation {
                reason: world.output->0.failed_reason->0,
            })
            &&& last is Fail == (world.found is None || (has_knowledge(world) && (!world.opened
                || world.output is None || (has_tweet(world) && !world.sent))))
        }),
{
    reveal_with_fuel(post_step_number, 5);
}

/// At most one attempt to publish is made, after every other call went through, and it publishes
/// what the model said as it is.
pub proof fn law_post_is_published_once(daemon: DaemonView, world: PostWorld, n: nat)
    ensures
        post_step_number(daemon, world, n) is Publish == (n == 3 && has_tweet(world)),
        post_step_number(daemon, world, n) is Publish ==> post_step_number(
            daemon,
            world,
            n,
        )->content == world.output->0.content,
        n >= 4 ==> post_step_number(daemon, world, n) == post_step_number(daemon, world, 4),
    decreases n,
{
    reveal_with_fuel(post_step_number, 5);
    if n > 4 {
        law_post_is_published_once(daemon, world, (n - 1) as nat);
        law_post_outcome(daemon, world);
    }
}

/// What is asked for a tweet of the bot's own: at most three pieces of knowledge of the last half
/// hour and, where there are any, however many, one text by the engine's name in a session of the
/// engine's name. Without any, nothing is asked.
pub proof fn law_post_is_asked_for(daemon: DaemonView, world: PostWorld)
    ensures
        post_step_number(daemon, world, 0) == (PostStepView::LookUp {
            last_seconds: 1800,
            limit: 3,
        }),
        world.found == Some(0usize) ==> post_step_number(daemon, world, 1) == PostStepView::Skip,
        world.found matches Some(n) ==> {
            &&& n > 0 ==> post_step_number(daemon, world, 1) == (PostStepView::Open {
                user: daemon.engine_name,
            })
            &&& n > 0 && world.opened ==> {
                let step = post_step_number(daemon, world, 2);
                &&& step is Complete
                &&& step->request.prompt == POST_PROMPT@
                &&& step->request.prompter_name == Some(daemon.engine_name)
            }
            &&& n > 0 && !world.opened ==> post_step_number(daemon, world, 2) == PostStepView::Fail
        },
        world.found is None ==> post_step_number(daemon, world, 1) == PostStepView::Fail,
{
    reveal_with_fuel(post_step_number, 3);
}

/// What comes of the model's text: it is published whole and as it is, of whatever length, where
/// the model did not fail, and else the model's reason is the refusal.
pub proof fn law_post_is_the_whole_text(daemon: DaemonView, world: PostWorld)
    requires
        world.found is Some,
        world.found->0 > 0,
        world.opened,
    ensures
        ({
            let step = post_step_number(daemon, world, 3);
            match world.output {
                None => step == PostStepView::Fail,
                Some(output) => match output.failed_reason {
                    None => {
                        &&& step == (PostStepView::Publish { content: output.content })
                        &&& world.sent ==> post_step_number(daemon, world, 4) == PostStepView::Done
                        &&& !world.sent ==> post_step_number(daemon, world, 4)
                            == PostStepView::Fail
                    },
                    Some(reason) => step == (PostStepView::Refuse {
                        refusal: RefusalView::Generation { reason },
                    }),
                },
            }
        }),
{
    reveal_with_fuel(post_step_number, 5);
}

/// A step about a tweet of the bot's own is told by what it holds.
pub proof fn law_post_step_says_what_it_holds(step: PostStep)
    ensures
        match step {
            PostStep::LookUp { last_seconds, limit } => step@ == (PostStepView::LookUp {
                last_seconds,
                limit,
            }),
            PostStep::Skip => step@ is Skip,
            PostStep::Open { user } => step@ == (PostStepView::Open { user: user@ }),
            PostStep::Complete { request } => step@ == (PostStepView::Complete {
                request: request@,
            }),
            PostStep::Publish { content } => step@ == (PostStepView::Publish {
                content: content@,
            }),
            PostStep::Done => step@ is Done,
            PostStep::Refuse { refusal } => step@ == (PostStepView::Refuse { refusal: refusal@ }),
            PostStep::Fail => step@ is Fail,
        },
{
}

} // verus!
