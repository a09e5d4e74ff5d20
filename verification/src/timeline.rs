//! The home timeline: which tweets the bot engages with, and what it remembers of them.

use crate::chance::Pause;
use crate::chance::PauseView;
use crate::daemon::DaemonView;
use crate::daemon::TwitterDaemon;
use crate::engage::Engaged;
use crate::engage::EngagedView;
use crate::engage::is_outcome;
use crate::engage::law_one_answer_after_a_like;
use crate::seen::MAX_SEEN_TWEET_IDS;
use crate::seen::is_seen;
use crate::seen::law_only_the_oldest_are_forgotten;
use crate::seen::law_recent_are_the_last;
use crate::seen::recent;
use crate::seen::recent_seen;
use crate::seen::trim_seen;
use crate::seen::trimmed;
use crate::text::is_same_handle;
use crate::text::law_same_handle;
use crate::text::lowercase;
use crate::text::same_handle;
use crate::tweet::TimelineTweet;
use crate::tweet::TimelineTweetView;
use crate::tweet::read_timeline;
use crate::tweet::timeline_entry;
use serde_json::Value;
use vstd::prelude::*;

verus! {

/// How many tweets the home timeline is asked for.
pub const TIMELINE_COUNT: i32 = 1;

/// How often the bot liked, replied and quoted.
#[derive(Clone, Copy, Debug, PartialEq, Eq, Structural)]
pub struct Tally {
    pub likes: usize,
    pub replys: usize,
    pub quotes: usize,
}

/// What a `Tally` counts.
pub struct TallyView {
    pub likes: int,
    pub replys: int,
    pub quotes: int,
}

impl View for Tally {
    type V = TallyView;

    open spec fn view(&self) -> TallyView {
        TallyView {
            likes: self.likes as int,
            replys: self.replys as int,
            quotes: self.quotes as int,
        }
    }
}

/// A tweet of the home timeline, and whether it is the bot's own.
#[derive(Debug, PartialEq, Eq)]
pub struct Candidate {
    pub tweet: TimelineTweet,
    pub own: bool,
}

/// What a `Candidate` says.
pub struct CandidateView {
    pub tweet: TimelineTweetView,
    pub own: bool,
}

impl View for Candidate {
    type V = CandidateView;

    open spec fn view(&self) -> CandidateView {
        CandidateView { tweet: self.tweet@, own: self.own }
    }
}

impl DeepView for Candidate {
    type V = CandidateView;

    open spec fn deep_view(&self) -> CandidateView {
        self@
    }
}

/// A pass over the home timeline that is ready to go on.
#[derive(Debug, PartialEq, Eq)]
pub struct TimelineRun {
    seen: Vec<String>,
    candidates: Vec<Candidate>,
    at: usize,
    tally: Tally,
}

/// A pass over the home timeline while the bot engages with a tweet.
#[derive(Debug, PartialEq, Eq)]
pub struct EngagingRun {
    run: TimelineRun,
}

/// Where a pass over the home timeline stands.
pub struct RunView {
    /// The ids dealt with so far.
    pub seen: Seq<Seq<char>>,
    /// The tweets still to come.
    pub ahead: Seq<CandidateView>,
    pub tally: TallyView,
}

impl View for TimelineRun {
    type V = RunView;

    closed spec fn view(&self) -> RunView {
        RunView {
            seen: self.seen.deep_view(),
            ahead: self.candidates.deep_view().skip(self.at as int),
            tally: self.tally@,
        }
    }
}

impl View for EngagingRun {
    type V = RunView;

    closed spec fn view(&self) -> RunView {
        self.run@
    }
}

impl TimelineRun {
    #[verifier::type_invariant]
    spec fn counts_visited(self) -> bool {
        &&& self.tally.likes <= self.at <= self.candidates.len()
        &&& self.tally.replys <= self.at
        &&& self.tally.quotes <= self.at
    }
}

impl EngagingRun {
    #[verifier::type_invariant]
    spec fn counts_before_current(self) -> bool {
        &&& self.run.tally.likes < self.run.at <= self.run.candidates.len()
        &&& self.run.tally.replys < self.run.at
        &&& self.run.tally.quotes < self.run.at
    }
}

/// What to do next about the home timeline.
#[derive(Debug, PartialEq, Eq)]
pub enum TimelineStep {
    /// Open a session in the name of `user` and load the ids of the tweets dealt with, then go on
    /// with `timeline_opened`.
    Open { user: String },
    /// Fetch the home timeline without the tweets `exclude`, then go on with `timeline_fetched`.
    Fetch { count: i32, exclude: Vec<String>, seen: Vec<String> },
    /// Engage with a tweet, then go on with `timeline_engaged`.
    Engage { engaging: EngagingRun, tweet: TimelineTweet },
    /// Rest before the next tweet, then go on with `timeline_rested`.
    Rest { pause: Pause, run: TimelineRun },
    /// Store the ids, then go on with `timeline_saved`.
    Save { seen: Vec<String>, tally: Tally },
    /// The pass is over: end, with success.
    Done,
    /// There is no timeline to go over: end, with the error that came up.
    Fail,
}

/// What a `TimelineStep` says.
pub enum TimelineStepView {
    Open { user: Seq<char> },
    Fetch { count: i32, exclude: Seq<Seq<char>>, seen: Seq<Seq<char>> },
    Engage { run: RunView, tweet: TimelineTweetView },
    Rest { pause: PauseView, run: RunView },
    Save { seen: Seq<Seq<char>>, tally: TallyView },
    Done,
    Fail,
}

impl View for TimelineStep {
    type V = TimelineStepView;

    open spec fn view(&self) -> TimelineStepView {
        match self {
            TimelineStep::Open { user } => TimelineStepView::Open { user: user@ },
            TimelineStep::Fetch { count, exclude, seen } => TimelineStepView::Fetch {
                count: *count,
                exclude: exclude.deep_view(),
                seen: seen.deep_view(),
            },
            TimelineStep::Engage { engaging, tweet } => TimelineStepView::Engage {
                run: engaging@,
                tweet: tweet@,
            },
            TimelineStep::Rest { pause, run } => TimelineStepView::Rest { pause: pause@, run: run@ },
            TimelineStep::Save { seen, tally } => TimelineStepView::Save {
                seen: seen.deep_view(),
                tally: tally@,
            },
            TimelineStep::Done => TimelineStepView::Done,
            TimelineStep::Fail => TimelineStepView::Fail,
        }
    }
}

/// A tweet to engage with: it has a content and an id, is not the bot's own, and has not been
/// dealt with.
pub open spec fn wanted(candidate: CandidateView, seen: Seq<Seq<char>>) -> bool {
    &&& candidate.tweet.content.len() > 0
    &&& candidate.tweet.id.len() > 0
    &&& !candidate.own
    &&& !seen.contains(candidate.tweet.id)
}

/// Tweets, each with whether it is by the account `handle`.
pub open spec fn screened(
    handle: Seq<char>,
    tweets: Seq<TimelineTweetView>,
) -> Seq<CandidateView> {
    tweets.map_values(
        |tweet: TimelineTweetView|
            CandidateView { tweet, own: same_handle(tweet.user, handle) },
    )
}

/// How many tweets are passed over until the next one to engage with, or until the end.
pub open spec fn passed_over(seen: Seq<Seq<char>>, ahead: Seq<CandidateView>) -> int
    decreases ahead.len(),
{
    if ahead.len() == 0 || wanted(ahead[0], seen) {
        0
    } else {
        1 + passed_over(seen, ahead.skip(1))
    }
}

/// The step that goes on to the next tweet to engage with, which counts as dealt with from then
/// on, or ends the pass where there is none.
pub open spec fn to_next_tweet(run: RunView) -> TimelineStepView {
    let n = passed_over(run.seen, run.ahead);
    if n < run.ahead.len() {
        TimelineStepView::Engage {
            run: RunView {
                seen: run.seen.push(run.ahead[n].tweet.id),
                ahead: run.ahead.skip(n + 1),
                tally: run.tally,
            },
            tweet: run.ahead[n].tweet,
        }
    } else {
        TimelineStepView::Save { seen: run.seen, tally: run.tally }
    }
}

/// A tally with the outcome of one more engagement.
pub open spec fn tallied(tally: TallyView, outcome: EngagedView) -> TallyView {
    TallyView {
        likes: tally.likes + if outcome.liked { 1int } else { 0 },
        replys: tally.replys + if outcome.replied { 1int } else { 0 },
        quotes: tally.quotes + if outcome.quoted { 1int } else { 0 },
    }
}

/// Where a pass stands after one more engagement.
pub open spec fn after_engagement(run: RunView, outcome: EngagedView) -> RunView {
    RunView { tally: tallied(run.tally, outcome), ..run }
}

/// The start of a pass over `candidates`.
pub open spec fn first_run(seen: Seq<Seq<char>>, candidates: Seq<CandidateView>) -> RunView {
    RunView { seen, ahead: candidates, tally: TallyView { likes: 0, replys: 0, quotes: 0 } }
}

/// The step after the attempt to open a session and to load the ids of the tweets dealt with; no
/// ids where it failed.
pub open spec fn after_timeline_opened(seen: Option<Seq<Seq<char>>>) -> TimelineStepView {
    match seen {
        None => TimelineStepView::Fail,
        Some(seen) => TimelineStepView::Fetch {
            count: TIMELINE_COUNT,
            exclude: recent(trimmed(seen)),
            seen: trimmed(seen),
        },
    }
}

/// The tweets that the entries of a home timeline stand for.
pub open spec fn tweets_of(entries: Seq<Value>) -> Seq<TimelineTweetView> {
    entries.map_values(|entry: Value| timeline_entry(entry))
}

/// The step after the attempt to fetch the home timeline; no entries where it failed.
pub open spec fn after_timeline_fetched(
    daemon: DaemonView,
    seen: Seq<Seq<char>>,
    entries: Option<Seq<Value>>,
) -> TimelineStepView {
    match entries {
        None => TimelineStepView::Fail,
        Some(entries) => to_next_tweet(
            first_run(seen, screened(daemon.handle, tweets_of(entries))),
        ),
    }
}

/// The step after an engagement.
pub open spec fn after_timeline_engaged(run: RunView, outcome: EngagedView) -> TimelineStepView {
    TimelineStepView::Rest {
        pause: PauseView { shortest: 3, longest: 10 },
        run: after_engagement(run, outcome),
    }
}

/// Tells whether to engage with a tweet.
pub fn is_wanted(candidate: &Candidate, seen: &Vec<String>) -> (r: bool)
    ensures
        r == wanted(candidate@, seen.deep_view()),
{
    !candidate.tweet.content.as_str().is_empty() && !candidate.tweet.id.as_str().is_empty()
        && !candidate.own && !is_seen(seen, &candidate.tweet.id)
}

impl TwitterDaemon {
    /// Starts a pass over the home timeline.
    pub fn handle_home_timeline(&self) -> (r: TimelineStep)
        ensures
            r@ == (TimelineStepView::Open { user: self@.engine_name }),
    {
        TimelineStep::Open { user: self.engine_name().to_owned() }
    }

    /// Goes on with the ids of the tweets dealt with, with nothing where the session could not be
    /// opened or the ids could not be loaded.
    pub fn timeline_opened(&self, seen: Option<Vec<String>>) -> (r: TimelineStep)
        ensures
            r@ == after_timeline_opened(seen.deep_view()),
    {
        match seen {
            None => TimelineStep::Fail,
            Some(seen) => {
                let mut seen = seen;
                trim_seen(&mut seen);
                let exclude: Vec<String> = recent_seen(&seen);
                TimelineStep::Fetch { count: TIMELINE_COUNT, exclude, seen }
            },
        }
    }

    /// Finds out which tweets are the bot's own.
    fn screen(&self, tweets: Vec<TimelineTweet>) -> (r: Vec<Candidate>)
        ensures
            r.deep_view() == screened(self@.handle, tweets.deep_view()),
    {
        let ghost all = tweets.deep_view();
        let mut candidates: Vec<Candidate> = Vec::new();
        for tweet in iter: tweets
            invariant
                candidates.len() == iter.index(),
                iter.seq().len() == all.len(),
                forall|j: int| 0 <= j < all.len() ==> (#[trigger] iter.seq()[j])@ == all[j],
                forall|j: int|
                    0 <= j < candidates.len() ==> (#[trigger] candidates[j])@ == screened(
                        self@.handle,
                        all,
                    )[j],
        {
            let own: bool = is_same_handle(tweet.user.as_str(), self.handle());
            candidates.push(Candidate { tweet, own });
        }
        candidates
    }

    /// Goes on with the entries of the home timeline, with nothing where it could not be fetched.
    pub fn timeline_fetched(&self, seen: Vec<String>, entries: Option<Vec<Value>>) -> (r:
        TimelineStep)
        ensures
            r@ == after_timeline_fetched(
                self@,
                seen.deep_view(),
                match entries {
                    Some(entries) => Some(entries@),
                    None => None,
                },
            ),
    {
        match entries {
            None => TimelineStep::Fail,
            Some(entries) => self.timeline_read(seen, read_timeline(&entries)),
        }
    }

    /// Goes on with the tweets of the home timeline.
    pub fn timeline_read(&self, seen: Vec<String>, tweets: Vec<TimelineTweet>) -> (r: TimelineStep)
        ensures
            r@ == to_next_tweet(
                first_run(seen.deep_view(), screened(self@.handle, tweets.deep_view())),
            ),
    {
        let candidates: Vec<Candidate> = self.screen(tweets);
        self.timeline_screened(seen, candidates)
    }

    /// Goes on once it is known which tweets of the home timeline are the bot's own.
    pub fn timeline_screened(&self, seen: Vec<String>, candidates: Vec<Candidate>) -> (r:
        TimelineStep)
        ensures
            r@ == to_next_tweet(first_run(seen.deep_view(), candidates.deep_view())),
    {
        let run = TimelineRun {
            seen,
            candidates,
            at: 0,
            tally: Tally { likes: 0, replys: 0, quotes: 0 },
        };
        assert(run@.ahead =~= candidates.deep_view());
        self.timeline_rested(run)
    }

    /// Goes on after a rest.
    pub fn timeline_rested(&self, run: TimelineRun) -> (r: TimelineStep)
        ensures
            r@ == to_next_tweet(run@),
    {
        proof {
            use_type_invariant(&run);
        }
        let ghost all = run.candidates.deep_view();
        let ghost ahead = run@.ahead;
        let ghost ids = run.seen.deep_view();
        let mut at: usize = run.at;
        while at < run.candidates.len()
            invariant
                run.at <= at <= run.candidates.len(),
                run.tally.likes <= run.at,
                run.tally.replys <= run.at,
                run.tally.quotes <= run.at,
                all == run.candidates.deep_view(),
                ahead == all.skip(run.at as int),
                ahead == run@.ahead,
                ids == run.seen.deep_view(),
                passed_over(ids, ahead) == at - run.at + passed_over(ids, all.skip(at as int)),
            decreases run.candidates.len() - at,
        {
            assert(all.skip(at as int)[0] == run.candidates[at as int]@);
            assert(all.skip(at as int).skip(1) =~= all.skip(at + 1));
            if is_wanted(&run.candidates[at], &run.seen) {
                let tweet = TimelineTweet {
                    user: run.candidates[at].tweet.user.clone(),
                    content: run.candidates[at].tweet.content.clone(),
                    id: run.candidates[at].tweet.id.clone(),
                };
                let mut seen: Vec<String> = run.seen;
                seen.push(tweet.id.clone());
                assert(seen.deep_view() =~= ids.push(tweet@.id));
                assert(ahead[at - run.at].tweet == tweet@);
                assert(all.skip(at + 1) =~= ahead.skip(at - run.at + 1));
                let run = TimelineRun {
                    seen,
                    candidates: run.candidates,
                    at: at + 1,
                    tally: run.tally,
                };
                return TimelineStep::Engage { engaging: EngagingRun { run }, tweet };
            }
            at = at + 1;
        }
        TimelineStep::Save { seen: run.seen, tally: run.tally }
    }

    /// Goes on after an engagement.
    pub fn timeline_engaged(&self, run: EngagingRun, outcome: &Engaged) -> (r: TimelineStep)
        ensures
            r@ == after_timeline_engaged(run@, outcome@),
    {
        proof {
            use_type_invariant(&run);
        }
        let run = run.run;
        let tally = Tally {
            likes: if outcome.liked { run.tally.likes + 1 } else { run.tally.likes },
            replys: if outcome.replied { run.tally.replys + 1 } else { run.tally.replys },
            quotes: if outcome.quoted { run.tally.quotes + 1 } else { run.tally.quotes },
        };
        TimelineStep::Rest {
            pause: Pause::between(3, 10),
            run: TimelineRun { seen: run.seen, candidates: run.candidates, at: run.at, tally },
        }
    }

    /// Goes on after the attempt to store the ids, whatever came of it.
    pub fn timeline_saved(&self) -> (r: TimelineStep)
        ensures
            r@ == TimelineStepView::Done,
    {
        TimelineStep::Done
    }
}

// ---------------------------------------------------------------------------------------------
// Laws
// ---------------------------------------------------------------------------------------------

/// The tweets of a timeline that are engaged with, in order: each one that is wanted when its turn
/// comes, with the ids of those before it dealt with.
pub open spec fn fresh(
    seen: Seq<Seq<char>>,
    candidates: Seq<CandidateView>,
) -> Seq<TimelineTweetView>
    decreases candidates.len(),
{
    if candidates.len() == 0 {
        Seq::empty()
    } else if wanted(candidates[0], seen) {
        seq![candidates[0].tweet] + fresh(
            seen.push(candidates[0].tweet.id),
            candidates.skip(1),
        )
    } else {
        fresh(seen, candidates.skip(1))
    }
}

/// The ids of some tweets.
pub open spec fn ids_of(tweets: Seq<TimelineTweetView>) -> Seq<Seq<char>> {
    tweets.map_values(|tweet: TimelineTweetView| tweet.id)
}

/// What a whole pass over the home timeline did.
pub struct Pass {
    pub engaged: Seq<TimelineTweetView>,
    pub seen: Seq<Seq<char>>,
    pub tally: TallyView,
}

/// The pass that starts at `step`, with `outcomes` the outcomes of its engagements; none where
/// there are more or fewer outcomes than engagements.
pub open spec fn pass_from(step: TimelineStepView, outcomes: Seq<EngagedView>) -> Option<Pass>
    decreases outcomes.len(),
{
    match step {
        TimelineStepView::Save { seen, tally } => if outcomes.len() == 0 {
            Some(Pass { engaged: Seq::empty(), seen, tally })
        } else {
            None
        },
        TimelineStepView::Engage { run, tweet } => if outcomes.len() == 0 {
            None
        } else {
            match pass_from(to_next_tweet(after_engagement(run, outcomes[0])), outcomes.skip(1)) {
                Some(rest) => Some(Pass { engaged: seq![tweet] + rest.engaged, ..rest }),
                None => None,
            }
        },
        _ => None,
    }
}

/// How many of the outcomes have a property.
pub open spec fn count(outcomes: Seq<EngagedView>, has: spec_fn(EngagedView) -> bool) -> int {
    outcomes.filter(has).len() as int
}

proof fn lemma_count_first(outcomes: Seq<EngagedView>, has: spec_fn(EngagedView) -> bool)
    requires
        outcomes.len() > 0,
    ensures
        count(outcomes, has) == count(outcomes.skip(1), has) + if has(outcomes[0]) {
            1int
        } else {
            0
        },
    decreases outcomes.len(),
{
    reveal(Seq::filter);
    let rest = outcomes.skip(1);
    if outcomes.len() == 1 {
        assert(outcomes.drop_last() =~= Seq::empty());
        assert(rest =~= Seq::empty());
    } else {
        assert(outcomes.drop_last().skip(1) =~= rest.drop_last());
        lemma_count_first(outcomes.drop_last(), has);
    }
}

/// Passing over tweets that are not wanted changes nothing about which ones are engaged with.
proof fn lemma_fresh_from_next(seen: Seq<Seq<char>>, candidates: Seq<CandidateView>)
    ensures
        ({
            let n = passed_over(seen, candidates);
            &&& 0 <= n <= candidates.len()
            &&& forall|i: int| 0 <= i < n ==> !wanted(#[trigger] candidates[i], seen)
            &&& n == candidates.len() ==> fresh(seen, candidates) == Seq::<
                TimelineTweetView,
            >::empty()
            &&& n < candidates.len() ==> {
                &&& wanted(candidates[n], seen)
                &&& fresh(seen, candidates) == seq![candidates[n].tweet] + fresh(
                    seen.push(candidates[n].tweet.id),
                    candidates.skip(n + 1),
                )
            }
        }),
    decreases candidates.len(),
{
    if candidates.len() > 0 && !wanted(candidates[0], seen) {
        let rest = candidates.skip(1);
        lemma_fresh_from_next(seen, rest);
        let n = passed_over(seen, rest);
        assert forall|i: int| 0 <= i < n + 1 implies !wanted(#[trigger] candidates[i], seen) by {
            if i > 0 {
                assert(rest[i - 1] == candidates[i]);
            }
        }
        if n < rest.len() {
            assert(rest.skip(n + 1) =~= candidates.skip(n + 2));
        }
    }
}

/// A pass over the home timeline engages with each fresh tweet exactly once and in order, whatever
/// comes of the engagements. It stores the ids it started with, followed by those of the fresh
/// tweets, and its tally counts the outcomes.
pub proof fn law_pass_engages_the_fresh(run: RunView, outcomes: Seq<EngagedView>)
    ensures
        pass_from(to_next_tweet(run), outcomes) is Some == (outcomes.len() == fresh(
            run.seen,
            run.ahead,
        ).len()),
        pass_from(to_next_tweet(run), outcomes) matches Some(pass) ==> {
            &&& pass.engaged == fresh(run.seen, run.ahead)
            &&& pass.seen == run.seen + ids_of(pass.engaged)
            &&& pass.tally.likes == run.tally.likes + count(outcomes, |o: EngagedView| o.liked)
            &&& pass.tally.replys == run.tally.replys + count(outcomes, |o: EngagedView| o.replied)
            &&& pass.tally.quotes == run.tally.quotes + count(outcomes, |o: EngagedView| o.quoted)
        },
    decreases outcomes.len(),
{
    reveal(Seq::filter);
    lemma_fresh_from_next(run.seen, run.ahead);
    let n = passed_over(run.seen, run.ahead);
    if n < run.ahead.len() {
        let tweet = run.ahead[n].tweet;
        if outcomes.len() > 0 {
            let rested = RunView {
                seen: run.seen.push(tweet.id),
                ahead: run.ahead.skip(n + 1),
                tally: tallied(run.tally, outcomes[0]),
            };
            law_pass_engages_the_fresh(rested, outcomes.skip(1));
            lemma_count_first(outcomes, |o: EngagedView| o.liked);
            lemma_count_first(outcomes, |o: EngagedView| o.replied);
            lemma_count_first(outcomes, |o: EngagedView| o.quoted);
            let rest = fresh(rested.seen, rested.ahead);
            assert(rested.seen + ids_of(rest) =~= run.seen + ids_of(seq![tweet] + rest));
        }
    } else {
        assert(run.seen + ids_of(Seq::empty()) =~= run.seen);
    }
}

/// In every pass the bot answers at most as many tweets as it likes.
pub proof fn law_answers_within_likes(
    seen: Seq<Seq<char>>,
    candidates: Seq<CandidateView>,
    outcomes: Seq<EngagedView>,
)
    requires
        forall|i: int| 0 <= i < outcomes.len() ==> is_outcome(#[trigger] outcomes[i]),
    ensures
        pass_from(to_next_tweet(first_run(seen, candidates)), outcomes) matches Some(pass) ==> 0
            <= pass.tally.replys + pass.tally.quotes <= pass.tally.likes <= candidates.len(),
{
    law_pass_engages_the_fresh(first_run(seen, candidates), outcomes);
    lemma_counts(outcomes);
    lemma_fresh_len(seen, candidates);
}

proof fn lemma_counts(outcomes: Seq<EngagedView>)
    requires
        forall|i: int| 0 <= i < outcomes.len() ==> is_outcome(#[trigger] outcomes[i]),
    ensures
        0 <= count(outcomes, |o: EngagedView| o.replied) + count(
            outcomes,
            |o: EngagedView| o.quoted,
        ) <= count(outcomes, |o: EngagedView| o.liked) <= outcomes.len(),
    decreases outcomes.len(),
{
    reveal(Seq::filter);
    if outcomes.len() > 0 {
        let rest = outcomes.skip(1);
        assert forall|i: int| 0 <= i < rest.len() implies is_outcome(#[trigger] rest[i]) by {
            assert(rest[i] == outcomes[i + 1]);
        }
        lemma_counts(rest);
        law_one_answer_after_a_like(outcomes[0]);
        lemma_count_first(outcomes, |o: EngagedView| o.liked);
        lemma_count_first(outcomes, |o: EngagedView| o.replied);
        lemma_count_first(outcomes, |o: EngagedView| o.quoted);
    }
}

proof fn lemma_fresh_len(seen: Seq<Seq<char>>, candidates: Seq<CandidateView>)
    ensures
        fresh(seen, candidates).len() <= candidates.len(),
    decreases candidates.len(),
{
    if candidates.len() > 0 {
        lemma_fresh_len(seen, candidates.skip(1));
        lemma_fresh_len(seen.push(candidates[0].tweet.id), candidates.skip(1));
    }
}

/// The bot engages only with tweets of the timeline that have a content and an id, that are not
/// its own, and that it had not dealt with.
pub proof fn law_fresh_are_wanted(
    handle: Seq<char>,
    seen: Seq<Seq<char>>,
    tweets: Seq<TimelineTweetView>,
)
    ensures
        forall|i: int|
            0 <= i < fresh(seen, screened(handle, tweets)).len() ==> {
                let tweet = #[trigger] fresh(seen, screened(handle, tweets))[i];
                &&& tweets.contains(tweet)
                &&& tweet.content.len() > 0 && tweet.id.len() > 0
                &&& !same_handle(tweet.user, handle)
                &&& !seen.contains(tweet.id)
            },
    decreases tweets.len(),
{
    let candidates = screened(handle, tweets);
    if tweets.len() > 0 {
        let rest = tweets.skip(1);
        let wants_first = wanted(candidates[0], seen);
        let later = if wants_first {
            seen.push(tweets[0].id)
        } else {
            seen
        };
        assert(candidates.skip(1) =~= screened(handle, rest));
        law_fresh_are_wanted(handle, later, rest);
        let all = fresh(seen, candidates);
        assert forall|i: int| 0 <= i < all.len() implies {
            let tweet = #[trigger] all[i];
            &&& tweets.contains(tweet)
            &&& tweet.content.len() > 0 && tweet.id.len() > 0
            &&& !same_handle(tweet.user, handle)
            &&& !seen.contains(tweet.id)
        } by {
            if wants_first && i == 0 {
                assert(tweets[0] == all[i]);
            } else {
                let from = if wants_first {
                    i - 1
                } else {
                    i
                };
                assert(all[i] == fresh(later, screened(handle, rest))[from]);
                let k = choose|k: int| 0 <= k < rest.len() && rest[k] == all[i];
                assert(tweets[k + 1] == all[i]);
                if seen.contains(all[i].id) {
                    let j = choose|j: int| 0 <= j < seen.len() && seen[j] == all[i].id;
                    assert(later[j] == all[i].id);
                }
            }
        }
    }
}

/// No id is remembered twice: a pass over the home timeline keeps the ids free of duplicates.
pub proof fn law_pass_keeps_ids_distinct(seen: Seq<Seq<char>>, candidates: Seq<CandidateView>)
    requires
        seen.no_duplicates(),
    ensures
        (seen + ids_of(fresh(seen, candidates))).no_duplicates(),
    decreases candidates.len(),
{
    if candidates.len() == 0 {
        assert(seen + ids_of(fresh(seen, candidates)) =~= seen);
    } else if wanted(candidates[0], seen) {
        let tweet = candidates[0].tweet;
        let later = seen.push(tweet.id);
        let rest = fresh(later, candidates.skip(1));
        law_pass_keeps_ids_distinct(later, candidates.skip(1));
        assert(later + ids_of(rest) =~= seen + ids_of(seq![tweet] + rest));
    } else {
        law_pass_keeps_ids_distinct(seen, candidates.skip(1));
    }
}

/// Over candidates that a pass has gone over, none is fresh any more.
proof fn lemma_none_stays_fresh(seen: Seq<Seq<char>>, candidates: Seq<CandidateView>)
    ensures
        ({
            let after = seen + ids_of(fresh(seen, candidates));
            passed_over(after, candidates) == candidates.len()
        }),
{
    let after = seen + ids_of(fresh(seen, candidates));
    assert forall|i: int| 0 <= i < candidates.len() implies !wanted(
        #[trigger] candidates[i],
        after,
    ) by {
        lemma_wanted_become_seen(seen, candidates, i);
    }
    lemma_fresh_from_next(after, candidates);
}

proof fn lemma_wanted_become_seen(seen: Seq<Seq<char>>, candidates: Seq<CandidateView>, i: int)
    requires
        0 <= i < candidates.len(),
    ensures
        !wanted(candidates[i], seen + ids_of(fresh(seen, candidates))),
    decreases candidates.len(),
{
    let rest = candidates.skip(1);
    let after = seen + ids_of(fresh(seen, candidates));
    if wanted(candidates[0], seen) {
        let later = seen.push(candidates[0].tweet.id);
        assert(after =~= later + ids_of(fresh(later, rest)));
        if i == 0 {
            assert(after[seen.len() as int] == candidates[0].tweet.id);
        } else {
            lemma_wanted_become_seen(later, rest, i - 1);
        }
    } else if i == 0 {
        if seen.contains(candidates[0].tweet.id) {
            let j = choose|j: int| 0 <= j < seen.len() && seen[j] == candidates[0].tweet.id;
            assert(after[j] == candidates[0].tweet.id);
        }
    } else {
        lemma_wanted_become_seen(seen, rest, i - 1);
    }
}

/// What the outside reports about a step.
pub enum TimelineEvent {
    /// The ids were loaded; none where the session could not be opened or they could not be loaded.
    Opened { seen: Option<Seq<Seq<char>>> },
    /// The home timeline was fetched; no entries where that failed.
    Fetched { entries: Option<Seq<Value>> },
    /// An engagement is over.
    Engaged { outcome: EngagedView },
    /// A rest is over.
    Rested,
    /// The ids were stored, or could not be.
    Saved { stored: bool },
}

/// The step that follows `step` when `event` is reported; none where the event is no report about
/// that step.
pub open spec fn follow_timeline(
    daemon: DaemonView,
    step: TimelineStepView,
    event: TimelineEvent,
) -> Option<TimelineStepView> {
    match (step, event) {
        (TimelineStepView::Open { .. }, TimelineEvent::Opened { seen }) => Some(
            after_timeline_opened(seen),
        ),
        (TimelineStepView::Fetch { seen, .. }, TimelineEvent::Fetched { entries }) => Some(
            after_timeline_fetched(daemon, seen, entries),
        ),
        (TimelineStepView::Engage { run, .. }, TimelineEvent::Engaged { outcome }) => Some(
            after_timeline_engaged(run, outcome),
        ),
        (TimelineStepView::Rest { run, .. }, TimelineEvent::Rested) => Some(to_next_tweet(run)),
        (TimelineStepView::Save { .. }, TimelineEvent::Saved { .. }) => Some(
            TimelineStepView::Done,
        ),
        _ => None,
    }
}

/// The step that a pass reaches when `events` are reported, one about each step; none where one of
/// them is no report about its step.
pub open spec fn timeline_reached(daemon: DaemonView, events: Seq<TimelineEvent>) -> Option<
    TimelineStepView,
>
    decreases events.len(),
{
    if events.len() == 0 {
        Some(TimelineStepView::Open { user: daemon.engine_name })
    } else {
        match timeline_reached(daemon, events.drop_last()) {
            Some(step) => follow_timeline(daemon, step, events.last()),
            None => None,
        }
    }
}

/// The session cannot be opened or the ids cannot be loaded, or else the home timeline cannot be
/// fetched.
pub open spec fn has_no_timeline(events: Seq<TimelineEvent>) -> bool {
    ||| events.len() == 1 && events[0] == (TimelineEvent::Opened { seen: None })
    ||| events.len() == 2 && (events[0] matches TimelineEvent::Opened { seen } && seen is Some)
        && events[1] == (TimelineEvent::Fetched { entries: None })
}

/// A pass ends with an error exactly when there is no timeline to go over, and before that nothing
/// is engaged with and nothing is stored.
pub proof fn law_timeline_failure(daemon: DaemonView, events: Seq<TimelineEvent>)
    ensures
        timeline_reached(daemon, events) == Some(TimelineStepView::Fail) <==> has_no_timeline(
            events,
        ),
        has_no_timeline(events) ==> forall|k: int|
            0 <= k < events.len() ==> match #[trigger] timeline_reached(daemon, events.take(k)) {
                Some(step) => step is Open || step is Fetch,
                None => false,
            },
{
    reveal_with_fuel(timeline_reached, 3);
    let n = events.len() as int;
    if n > 0 {
        lemma_timeline_starts(daemon, events.drop_last());
        if n == 2 {
            assert(events.take(1).drop_last() =~= Seq::empty());
            assert(events.drop_last() =~= events.take(1));
        }
        assert(events.take(0) =~= Seq::empty());
    }
}

/// A pass is at its first step when nothing was reported yet, and at its second when only the ids
/// were.
proof fn lemma_timeline_starts(daemon: DaemonView, events: Seq<TimelineEvent>)
    ensures
        timeline_reached(daemon, events) matches Some(step) ==> {
            &&& step is Open <==> events.len() == 0
            &&& step is Fetch <==> events.len() == 1 && (events[0] matches TimelineEvent::Opened {
                seen,
            } && seen is Some)
        },
    decreases events.len(),
{
    if events.len() > 0 {
        lemma_timeline_starts(daemon, events.drop_last());
    }
}

/// The ids that a pass stores in the end, seen from where it stands.
pub open spec fn stored_in_the_end(run: RunView) -> Seq<Seq<char>> {
    run.seen + ids_of(fresh(run.seen, run.ahead))
}

proof fn lemma_next_tweet_keeps_the_end(run: RunView)
    ensures
        match to_next_tweet(run) {
            TimelineStepView::Engage { run: next, .. } => stored_in_the_end(next)
                == stored_in_the_end(run),
            TimelineStepView::Save { seen, .. } => seen == stored_in_the_end(run),
            _ => false,
        },
{
    lemma_fresh_from_next(run.seen, run.ahead);
    let n = passed_over(run.seen, run.ahead);
    if n < run.ahead.len() {
        let tweet = run.ahead[n].tweet;
        let later = run.seen.push(tweet.id);
        let rest = fresh(later, run.ahead.skip(n + 1));
        assert(later + ids_of(rest) =~= run.seen + ids_of(seq![tweet] + rest));
    } else {
        assert(stored_in_the_end(run) =~= run.seen);
    }
}

/// The start of the pass over a timeline that could be fetched.
pub open spec fn fetched_run(daemon: DaemonView, events: Seq<TimelineEvent>) -> Option<RunView> {
    if events.len() < 2 {
        None
    } else {
        match (events[0], events[1]) {
            (
                TimelineEvent::Opened { seen: Some(seen) },
                TimelineEvent::Fetched { entries: Some(entries) },
            ) => Some(first_run(trimmed(seen), screened(daemon.handle, tweets_of(entries)))),
            _ => None,
        }
    }
}

/// A pass that has a timeline to go over stores the ids that were loaded, shortened where there
/// were too many, followed by those of the fresh tweets, whatever comes of the engagements.
pub proof fn law_timeline_stores_the_fresh(daemon: DaemonView, events: Seq<TimelineEvent>)
    ensures
        timeline_reached(daemon, events) matches Some(TimelineStepView::Save { seen, .. }) ==> {
            &&& fetched_run(daemon, events) is Some
            &&& seen == stored_in_the_end(fetched_run(daemon, events)->0)
        },
{
    lemma_timeline_keeps_the_end(daemon, events);
}

proof fn lemma_timeline_keeps_the_end(daemon: DaemonView, events: Seq<TimelineEvent>)
    ensures
        match timeline_reached(daemon, events) {
            Some(TimelineStepView::Engage { run, .. })
            | Some(TimelineStepView::Rest { run, .. }) => fetched_run(daemon, events) is Some
                && stored_in_the_end(run) == stored_in_the_end(fetched_run(daemon, events)->0),
            Some(TimelineStepView::Save { seen, .. }) => fetched_run(daemon, events) is Some
                && seen == stored_in_the_end(fetched_run(daemon, events)->0),
            _ => true,
        },
    decreases events.len(),
{
    if events.len() > 0 {
        let before = events.drop_last();
        lemma_timeline_keeps_the_end(daemon, before);
        lemma_timeline_starts(daemon, before);
        match timeline_reached(daemon, before) {
            Some(TimelineStepView::Fetch { seen, .. }) => {
                assert(timeline_reached(daemon, before.drop_last()) is Some);
                lemma_timeline_starts(daemon, before.drop_last());
                if let TimelineEvent::Fetched { entries: Some(entries) } = events.last() {
                    lemma_next_tweet_keeps_the_end(
                        first_run(seen, screened(daemon.handle, tweets_of(entries))),
                    );
                }
            },
            Some(TimelineStepView::Rest { run, .. }) => {
                lemma_next_tweet_keeps_the_end(run);
            },
            _ => {},
        }
    }
}

/// A pass ends with success exactly when it came to store the ids, whether or not they could be
/// stored.
pub proof fn law_timeline_success(daemon: DaemonView, events: Seq<TimelineEvent>)
    ensures
        timeline_reached(daemon, events) == Some(TimelineStepView::Done) <==> events.len() > 0
            && events.last() is Saved && (timeline_reached(
            daemon,
            events.drop_last(),
        ) matches Some(TimelineStepView::Save { .. })),
        forall|stored: bool|
            timeline_reached(daemon, events) matches Some(TimelineStepView::Save { .. })
                ==> #[trigger] timeline_reached(
                daemon,
                events.push(TimelineEvent::Saved { stored }),
            ) == Some(TimelineStepView::Done),
{
    assert forall|stored: bool|
        timeline_reached(daemon, events) matches Some(
            TimelineStepView::Save { .. },
        ) implies #[trigger] timeline_reached(
        daemon,
        events.push(TimelineEvent::Saved { stored }),
    ) == Some(TimelineStepView::Done) by {
        assert(events.push(TimelineEvent::Saved { stored }).drop_last() =~= events);
    }
}

/// A second call that finds the same entries and the ids that the first one stored engages with
/// none of them, and comes at once to store the same ids again. This holds while the ids are few
/// enough to be kept whole.
pub proof fn law_second_pass_is_idle(
    daemon: DaemonView,
    events: Seq<TimelineEvent>,
    stored: Seq<Seq<char>>,
    again: Seq<TimelineEvent>,
)
    requires
        timeline_reached(daemon, events) matches Some(TimelineStepView::Save { seen, .. })
            && seen == stored,
        stored.len() < MAX_SEEN_TWEET_IDS,
        again == seq![TimelineEvent::Opened { seen: Some(stored) }, events[1]],
    ensures
        timeline_reached(daemon, again) == Some(
            TimelineStepView::Save {
                seen: stored,
                tally: TallyView { likes: 0, replys: 0, quotes: 0 },
            },
        ),
{
    law_timeline_stores_the_fresh(daemon, events);
    let run = fetched_run(daemon, events)->0;
    lemma_none_stays_fresh(run.seen, run.ahead);
    reveal_with_fuel(timeline_reached, 3);
    assert(again.drop_last() =~= seq![TimelineEvent::Opened { seen: Some(stored) }]);
    assert(again.drop_last().drop_last() =~= Seq::empty());
}

/// The tweets that a pass has engaged with so far, in order.
pub open spec fn engaged_in(daemon: DaemonView, events: Seq<TimelineEvent>) -> Seq<
    TimelineTweetView,
>
    decreases events.len(),
{
    if events.len() == 0 {
        Seq::empty()
    } else {
        match timeline_reached(daemon, events) {
            Some(TimelineStepView::Engage { tweet, .. }) => engaged_in(
                daemon,
                events.drop_last(),
            ).push(tweet),
            _ => engaged_in(daemon, events.drop_last()),
        }
    }
}

/// How many of the engagements that were reported have a property.
pub open spec fn reported(events: Seq<TimelineEvent>, has: spec_fn(EngagedView) -> bool) -> int
    decreases events.len(),
{
    if events.len() == 0 {
        0
    } else {
        reported(events.drop_last(), has) + match events.last() {
            TimelineEvent::Engaged { outcome } => if has(outcome) {
                1int
            } else {
                0
            },
            _ => 0,
        }
    }
}

/// The tally counts the engagements that were reported: likes, replies and quotes each by itself.
pub open spec fn counts_reported(tally: TallyView, events: Seq<TimelineEvent>) -> bool {
    &&& tally.likes == reported(events, |o: EngagedView| o.liked)
    &&& tally.replys == reported(events, |o: EngagedView| o.replied)
    &&& tally.quotes == reported(events, |o: EngagedView| o.quoted)
}

/// A pass that stands at `run` has engaged with `done`, and with what is still fresh it will have
/// engaged with all that was fresh at the start.
spec fn is_on_course(start: RunView, done: Seq<TimelineTweetView>, run: RunView) -> bool {
    &&& done + fresh(run.seen, run.ahead) == fresh(start.seen, start.ahead)
    &&& run.seen == start.seen + ids_of(done)
}

proof fn lemma_next_tweet_stays_on_course(
    start: RunView,
    done: Seq<TimelineTweetView>,
    run: RunView,
)
    requires
        is_on_course(start, done, run),
    ensures
        match to_next_tweet(run) {
            TimelineStepView::Engage { run: next, tweet } => is_on_course(
                start,
                done.push(tweet),
                next,
            ) && next.tally == run.tally,
            TimelineStepView::Save { seen, tally } => done == fresh(start.seen, start.ahead)
                && seen == start.seen + ids_of(done) && tally == run.tally,
            _ => false,
        },
{
    lemma_fresh_from_next(run.seen, run.ahead);
    let n = passed_over(run.seen, run.ahead);
    if n < run.ahead.len() {
        let tweet = run.ahead[n].tweet;
        let later = run.seen.push(tweet.id);
        let rest = fresh(later, run.ahead.skip(n + 1));
        assert(done.push(tweet) + rest =~= done + (seq![tweet] + rest));
        assert(later =~= start.seen + ids_of(done.push(tweet)));
    } else {
        assert(done + fresh(run.seen, run.ahead) =~= done);
    }
}

proof fn lemma_pass_stays_on_course(daemon: DaemonView, events: Seq<TimelineEvent>)
    ensures
        match timeline_reached(daemon, events) {
            Some(TimelineStepView::Engage { run, .. })
            | Some(TimelineStepView::Rest { run, .. }) => {
                &&& fetched_run(daemon, events) is Some
                &&& is_on_course(fetched_run(daemon, events)->0, engaged_in(daemon, events), run)
                &&& counts_reported(run.tally, events)
            },
            Some(TimelineStepView::Save { seen, tally }) => {
                let start = fetched_run(daemon, events)->0;
                &&& fetched_run(daemon, events) is Some
                &&& engaged_in(daemon, events) == fresh(start.seen, start.ahead)
                &&& seen == start.seen + ids_of(engaged_in(daemon, events))
                &&& counts_reported(tally, events)
            },
            Some(TimelineStepView::Open { .. })
            | Some(TimelineStepView::Fetch { .. }) => engaged_in(daemon, events).len() == 0
                && counts_reported(TallyView { likes: 0, replys: 0, quotes: 0 }, events),
            _ => true,
        },
    decreases events.len(),
{
    if events.len() > 0 {
        let before = events.drop_last();
        lemma_pass_stays_on_course(daemon, before);
        lemma_timeline_starts(daemon, before);
        match timeline_reached(daemon, before) {
            Some(TimelineStepView::Fetch { seen, .. }) => {
                assert(timeline_reached(daemon, before.drop_last()) is Some);
                lemma_timeline_starts(daemon, before.drop_last());
                if let TimelineEvent::Fetched { entries: Some(entries) } = events.last() {
                    let start = first_run(seen, screened(daemon.handle, tweets_of(entries)));
                    let done = engaged_in(daemon, before);
                    assert(done =~= Seq::empty());
                    assert(done + fresh(start.seen, start.ahead) =~= fresh(
                        start.seen,
                        start.ahead,
                    ));
                    assert(start.seen + ids_of(done) =~= start.seen);
                    lemma_next_tweet_stays_on_course(start, done, start);
                }
            },
            Some(TimelineStepView::Rest { run, .. }) => {
                lemma_next_tweet_stays_on_course(
                    fetched_run(daemon, before)->0,
                    engaged_in(daemon, before),
                    run,
                );
            },
            _ => {},
        }
    }
}

/// The ids of those loaded that a pass goes by: all of them where they are fewer than ten thousand,
/// and all but the five thousand oldest else.
pub open spec fn kept(loaded: Seq<Seq<char>>) -> Seq<Seq<char>> {
    if loaded.len() < 10000 {
        loaded
    } else {
        loaded.skip(5000)
    }
}

/// The tweet of a timeline entry is one to engage with, of whatever length its texts are: it has a
/// content and an id, and the lowercase form of its author is not that of the bot's handle.
pub open spec fn is_by_another(daemon: DaemonView, entry: Value) -> bool {
    let tweet = timeline_entry(entry);
    &&& tweet.content.len() > 0
    &&& tweet.id.len() > 0
    &&& lowercase(tweet.user) != lowercase(daemon.handle)
}

/// A pass came to store `stored` after it loaded `loaded` and fetched `entries`.
pub open spec fn is_whole_pass(
    daemon: DaemonView,
    events: Seq<TimelineEvent>,
    loaded: Seq<Seq<char>>,
    entries: Seq<Value>,
    stored: Seq<Seq<char>>,
) -> bool {
    &&& events.len() >= 2
    &&& events[0] == (TimelineEvent::Opened { seen: Some(loaded) })
    &&& events[1] == (TimelineEvent::Fetched { entries: Some(entries) })
    &&& timeline_reached(daemon, events) matches Some(TimelineStepView::Save { seen, .. }) && seen
        == stored
}

/// What a pass stores and counts. It stores the ids it went by, followed by that of every tweet it
/// engaged with, in order and whatever came of it, and it counts what was reported.
pub proof fn law_pass_stores_what_it_engaged_with(
    daemon: DaemonView,
    events: Seq<TimelineEvent>,
    loaded: Seq<Seq<char>>,
    entries: Seq<Value>,
    stored: Seq<Seq<char>>,
)
    requires
        is_whole_pass(daemon, events, loaded, entries, stored),
    ensures
        ({
            let engaged = engaged_in(daemon, events);
            &&& stored.len() == kept(loaded).len() + engaged.len()
            &&& stored.take(kept(loaded).len() as int) == kept(loaded)
            &&& forall|j: int|
                0 <= j < engaged.len() ==> stored[kept(loaded).len() + j] == (
                #[trigger] engaged[j]).id
        }),
        timeline_reached(daemon, events) matches Some(TimelineStepView::Save { tally, .. })
            && counts_reported(tally, events),
{
    lemma_pass_stays_on_course(daemon, events);
    law_only_the_oldest_are_forgotten(loaded);
    assert(trimmed(loaded) =~= kept(loaded));
    let engaged = engaged_in(daemon, events);
    assert(stored == kept(loaded) + ids_of(engaged));
    assert(stored.take(kept(loaded).len() as int) =~= kept(loaded));
    assert forall|j: int| 0 <= j < engaged.len() implies stored[kept(loaded).len() + j] == (
    #[trigger] engaged[j]).id by {
        assert(ids_of(engaged)[j] == engaged[j].id);
    }
}

/// A pass misses nothing: every entry of the timeline that is by another account, with a content
/// and an id of any length, and whose id is not among those loaded, has its id among those of the
/// tweets engaged with and among those stored.
pub proof fn law_pass_misses_nothing(
    daemon: DaemonView,
    events: Seq<TimelineEvent>,
    loaded: Seq<Seq<char>>,
    entries: Seq<Value>,
    stored: Seq<Seq<char>>,
    i: int,
)
    requires
        is_whole_pass(daemon, events, loaded, entries, stored),
        0 <= i < entries.len(),
        is_by_another(daemon, entries[i]),
        !kept(loaded).contains(timeline_entry(entries[i]).id),
    ensures
        stored.contains(timeline_entry(entries[i]).id),
        exists|j: int|
            0 <= j < engaged_in(daemon, events).len() && (#[trigger] engaged_in(
                daemon,
                events,
            )[j]).id == timeline_entry(entries[i]).id,
{
    let tweet = timeline_entry(entries[i]);
    let engaged = engaged_in(daemon, events);
    law_pass_stores_what_it_engaged_with(daemon, events, loaded, entries, stored);
    lemma_pass_stays_on_course(daemon, events);
    law_only_the_oldest_are_forgotten(loaded);
    assert(trimmed(loaded) =~= kept(loaded));
    let start = fetched_run(daemon, events)->0;
    assert(tweets_of(entries)[i] == tweet);
    assert(start.ahead[i] == (CandidateView { tweet, own: same_handle(tweet.user, daemon.handle) }));
    law_same_handle(tweet.user, daemon.handle);
    lemma_wanted_become_seen(start.seen, start.ahead, i);
    assert(stored.contains(tweet.id));
    let at = choose|at: int| 0 <= at < stored.len() && stored[at] == tweet.id;
    let n = kept(loaded).len() as int;
    if at < n {
        assert(kept(loaded)[at] == stored.take(n)[at]);
        assert(false);
    } else {
        assert(engaged[at - n].id == stored[n + (at - n)]);
    }
}

/// A pass engages with nothing else: every tweet it engages with stands for an entry of the
/// timeline that is by another account, with a content and an id, and its id is neither among those
/// it goes by nor that of a tweet engaged with before.
pub proof fn law_pass_engages_with_nothing_else(
    daemon: DaemonView,
    events: Seq<TimelineEvent>,
    loaded: Seq<Seq<char>>,
    entries: Seq<Value>,
    stored: Seq<Seq<char>>,
    j: int,
)
    requires
        is_whole_pass(daemon, events, loaded, entries, stored),
        0 <= j < engaged_in(daemon, events).len(),
    ensures
        ({
            let engaged = engaged_in(daemon, events);
            &&& exists|i: int|
                0 <= i < entries.len() && timeline_entry(#[trigger] entries[i]) == engaged[j]
                    && is_by_another(daemon, entries[i])
            &&& !kept(loaded).contains(engaged[j].id)
            &&& forall|k: int| 0 <= k < j ==> (#[trigger] engaged[k]).id != engaged[j].id
        }),
{
    let engaged = engaged_in(daemon, events);
    lemma_pass_stays_on_course(daemon, events);
    law_only_the_oldest_are_forgotten(loaded);
    assert(trimmed(loaded) =~= kept(loaded));
    let start = fetched_run(daemon, events)->0;
    law_fresh_are_wanted(daemon.handle, start.seen, tweets_of(entries));
    let tweet = fresh(start.seen, start.ahead)[j];
    assert(tweet == engaged[j]);
    let i = choose|i: int| 0 <= i < tweets_of(entries).len() && tweets_of(entries)[i] == tweet;
    assert(timeline_entry(entries[i]) == tweet);
    law_same_handle(tweet.user, daemon.handle);
    assert forall|k: int| 0 <= k < j implies (#[trigger] engaged[k]).id != tweet.id by {
        lemma_fresh_ids_differ(start.seen, start.ahead, k, j);
    }
}

proof fn lemma_fresh_ids_differ(
    seen: Seq<Seq<char>>,
    candidates: Seq<CandidateView>,
    k: int,
    j: int,
)
    requires
        0 <= k < j < fresh(seen, candidates).len(),
    ensures
        fresh(seen, candidates)[k].id != fresh(seen, candidates)[j].id,
    decreases candidates.len(),
{
    let rest = candidates.skip(1);
    if wanted(candidates[0], seen) {
        let tweet = candidates[0].tweet;
        let later = seen.push(tweet.id);
        let others = fresh(later, rest);
        assert(fresh(seen, candidates) == seq![tweet] + others);
        if k > 0 {
            lemma_fresh_ids_differ(later, rest, k - 1, j - 1);
        } else {
            lemma_fresh_ids_are_new(later, rest, j - 1);
            assert(later[seen.len() as int] == tweet.id);
        }
    } else {
        lemma_fresh_ids_differ(seen, rest, k, j);
    }
}

proof fn lemma_fresh_ids_are_new(seen: Seq<Seq<char>>, candidates: Seq<CandidateView>, j: int)
    requires
        0 <= j < fresh(seen, candidates).len(),
    ensures
        !seen.contains(fresh(seen, candidates)[j].id),
    decreases candidates.len(),
{
    let rest = candidates.skip(1);
    if wanted(candidates[0], seen) {
        let tweet = candidates[0].tweet;
        let later = seen.push(tweet.id);
        assert(fresh(seen, candidates) == seq![tweet] + fresh(later, rest));
        if j > 0 {
            let id = fresh(later, rest)[j - 1].id;
            lemma_fresh_ids_are_new(later, rest, j - 1);
            if seen.contains(id) {
                let at = choose|at: int| 0 <= at < seen.len() && seen[at] == id;
                assert(later[at] == id);
            }
        }
    } else {
        lemma_fresh_ids_are_new(seen, rest, j);
    }
}

proof fn lemma_first_of_an_id_is_fresh(
    seen: Seq<Seq<char>>,
    candidates: Seq<CandidateView>,
    i: int,
)
    requires
        0 <= i < candidates.len(),
        wanted(candidates[i], seen),
        forall|h: int|
            0 <= h < i && wanted(#[trigger] candidates[h], seen) ==> candidates[h].tweet.id
                != candidates[i].tweet.id,
    ensures
        fresh(seen, candidates).contains(candidates[i].tweet),
    decreases candidates.len(),
{
    let rest = candidates.skip(1);
    let tweet = candidates[i].tweet;
    let later = if wanted(candidates[0], seen) {
        seen.push(candidates[0].tweet.id)
    } else {
        seen
    };
    let all = fresh(seen, candidates);
    if i == 0 {
        assert(all[0] == tweet);
    } else {
        assert(rest[i - 1] == candidates[i]);
        assert forall|h: int| 0 <= h < i - 1 && wanted(#[trigger] rest[h], later) implies rest[h].tweet.id
            != tweet.id by {
            assert(rest[h] == candidates[h + 1]);
            lemma_wanted_with_fewer_seen(candidates[h + 1], seen, later);
        }
        assert(later.contains(tweet.id) ==> seen.contains(tweet.id));
        lemma_first_of_an_id_is_fresh(later, rest, i - 1);
        let others = fresh(later, rest);
        let k = choose|k: int| 0 <= k < others.len() && others[k] == tweet;
        if wanted(candidates[0], seen) {
            assert(all[k + 1] == tweet);
        } else {
            assert(all[k] == tweet);
        }
    }
}

proof fn lemma_wanted_with_fewer_seen(
    candidate: CandidateView,
    fewer: Seq<Seq<char>>,
    more: Seq<Seq<char>>,
)
    requires
        wanted(candidate, more),
        forall|i: int| 0 <= i < fewer.len() ==> i < more.len() && more[i] == #[trigger] fewer[i],
    ensures
        wanted(candidate, fewer),
{
    if fewer.contains(candidate.tweet.id) {
        let i = choose|i: int| 0 <= i < fewer.len() && fewer[i] == candidate.tweet.id;
        assert(more[i] == candidate.tweet.id);
    }
}

/// Of several entries with one id the first by another account is the one engaged with: an entry
/// by another account whose id is not among those the pass goes by, nor that of an earlier entry by
/// another account, is itself engaged with.
pub proof fn law_first_of_an_id_is_engaged_with(
    daemon: DaemonView,
    events: Seq<TimelineEvent>,
    loaded: Seq<Seq<char>>,
    entries: Seq<Value>,
    stored: Seq<Seq<char>>,
    i: int,
)
    requires
        is_whole_pass(daemon, events, loaded, entries, stored),
        0 <= i < entries.len(),
        is_by_another(daemon, entries[i]),
        !kept(loaded).contains(timeline_entry(entries[i]).id),
        forall|h: int|
            0 <= h < i && is_by_another(daemon, #[trigger] entries[h]) ==> timeline_entry(
                entries[h],
            ).id != timeline_entry(entries[i]).id,
    ensures
        engaged_in(daemon, events).contains(timeline_entry(entries[i])),
{
    lemma_pass_stays_on_course(daemon, events);
    law_only_the_oldest_are_forgotten(loaded);
    assert(trimmed(loaded) =~= kept(loaded));
    let start = fetched_run(daemon, events)->0;
    assert forall|h: int| 0 <= h <= i implies (#[trigger] start.ahead[h]) == (CandidateView {
        tweet: timeline_entry(entries[h]),
        own: lowercase(timeline_entry(entries[h]).user) == lowercase(daemon.handle),
    }) by {
        let tweet = timeline_entry(entries[h]);
        assert(tweets_of(entries)[h] == tweet);
        law_same_handle(tweet.user, daemon.handle);
    }
    assert(start.ahead[i].tweet == timeline_entry(entries[i]));
    assert forall|h: int| 0 <= h < i && wanted(
        #[trigger] start.ahead[h],
        start.seen,
    ) implies start.ahead[h].tweet.id != start.ahead[i].tweet.id by {
        assert(is_by_another(daemon, entries[h]));
    }
    lemma_first_of_an_id_is_fresh(start.seen, start.ahead, i);
}

proof fn lemma_fresh_stands_in_line(seen: Seq<Seq<char>>, candidates: Seq<CandidateView>, j: int)
    requires
        0 <= j < fresh(seen, candidates).len(),
    ensures
        exists|b: int|
            0 <= b < candidates.len() && (#[trigger] candidates[b]).tweet == fresh(
                seen,
                candidates,
            )[j],
    decreases candidates.len(),
{
    let rest = candidates.skip(1);
    let all = fresh(seen, candidates);
    let takes_first = wanted(candidates[0], seen);
    if takes_first && j == 0 {
        assert(candidates[0].tweet == all[0]);
    } else {
        let later = if takes_first {
            seen.push(candidates[0].tweet.id)
        } else {
            seen
        };
        let from = if takes_first {
            j - 1
        } else {
            j
        };
        assert(all[j] == fresh(later, rest)[from]);
        lemma_fresh_stands_in_line(later, rest, from);
        let b = choose|b: int| 0 <= b < rest.len() && (#[trigger] rest[b]).tweet == all[j];
        assert(candidates[b + 1].tweet == all[j]);
    }
}

/// One candidate stands before another, and these are their tweets.
spec fn stand_in_order(
    candidates: Seq<CandidateView>,
    a: int,
    b: int,
    first: TimelineTweetView,
    second: TimelineTweetView,
) -> bool {
    &&& 0 <= a < b < candidates.len()
    &&& candidates[a].tweet == first
    &&& candidates[b].tweet == second
}

proof fn lemma_fresh_in_order(
    seen: Seq<Seq<char>>,
    candidates: Seq<CandidateView>,
    k: int,
    j: int,
)
    requires
        0 <= k < j < fresh(seen, candidates).len(),
    ensures
        exists|a: int, b: int|
            stand_in_order(
                candidates,
                a,
                b,
                fresh(seen, candidates)[k],
                fresh(seen, candidates)[j],
            ),
    decreases candidates.len(),
{
    let rest = candidates.skip(1);
    let all = fresh(seen, candidates);
    if wanted(candidates[0], seen) {
        let later = seen.push(candidates[0].tweet.id);
        let others = fresh(later, rest);
        assert(all == seq![candidates[0].tweet] + others);
        if k == 0 {
            lemma_fresh_stands_in_line(later, rest, j - 1);
            let b = choose|b: int|
                0 <= b < rest.len() && (#[trigger] rest[b]).tweet == others[j - 1];
            assert(candidates[b + 1] == rest[b]);
            assert(stand_in_order(candidates, 0, b + 1, all[k], all[j]));
        } else {
            lemma_fresh_in_order(later, rest, k - 1, j - 1);
            let first = others[k - 1];
            let second = others[j - 1];
            let (a, b) = choose|a: int, b: int| stand_in_order(rest, a, b, first, second);
            assert(candidates[a + 1] == rest[a] && candidates[b + 1] == rest[b]);
            assert(stand_in_order(candidates, a + 1, b + 1, all[k], all[j]));
        }
    } else {
        lemma_fresh_in_order(seen, rest, k, j);
        let (a, b) = choose|a: int, b: int| stand_in_order(rest, a, b, all[k], all[j]);
        assert(candidates[a + 1] == rest[a] && candidates[b + 1] == rest[b]);
        assert(stand_in_order(candidates, a + 1, b + 1, all[k], all[j]));
    }
}

/// One entry stands before another, and these are their tweets.
pub open spec fn entries_in_order(
    entries: Seq<Value>,
    a: int,
    b: int,
    first: TimelineTweetView,
    second: TimelineTweetView,
) -> bool {
    &&& 0 <= a < b < entries.len()
    &&& timeline_entry(entries[a]) == first
    &&& timeline_entry(entries[b]) == second
}

/// A pass goes over the timeline in order: of two tweets engaged with, the one engaged with earlier
/// stands earlier.
pub proof fn law_pass_keeps_the_order(
    daemon: DaemonView,
    events: Seq<TimelineEvent>,
    loaded: Seq<Seq<char>>,
    entries: Seq<Value>,
    stored: Seq<Seq<char>>,
    k: int,
    j: int,
)
    requires
        is_whole_pass(daemon, events, loaded, entries, stored),
        0 <= k < j < engaged_in(daemon, events).len(),
    ensures
        exists|a: int, b: int|
            entries_in_order(
                entries,
                a,
                b,
                engaged_in(daemon, events)[k],
                engaged_in(daemon, events)[j],
            ),
{
    lemma_pass_stays_on_course(daemon, events);
    let start = fetched_run(daemon, events)->0;
    let engaged = engaged_in(daemon, events);
    lemma_fresh_in_order(start.seen, start.ahead, k, j);
    let (a, b) = choose|a: int, b: int|
        stand_in_order(start.ahead, a, b, engaged[k], engaged[j]);
    assert(start.ahead[a].tweet == tweets_of(entries)[a]);
    assert(start.ahead[b].tweet == tweets_of(entries)[b]);
    assert(entries_in_order(entries, a, b, engaged[k], engaged[j]));
}

proof fn lemma_timeline_reached_push(
    daemon: DaemonView,
    events: Seq<TimelineEvent>,
    event: TimelineEvent,
)
    requires
        timeline_reached(daemon, events) is Some,
    ensures
        timeline_reached(daemon, events.push(event)) == follow_timeline(
            daemon,
            timeline_reached(daemon, events)->0,
            event,
        ),
{
    assert(events.push(event).drop_last() =~= events);
}

/// The home timeline is asked for one tweet, in the name of the engine, without the last forty-two
/// ids of those loaded, or without any of them where there are fewer.
pub proof fn law_timeline_is_asked_for(daemon: DaemonView, loaded: Seq<Seq<char>>)
    ensures
        timeline_reached(daemon, Seq::empty()) == Some(
            TimelineStepView::Open { user: daemon.engine_name },
        ),
        timeline_reached(
            daemon,
            seq![TimelineEvent::Opened { seen: Some(loaded) }],
        ) matches Some(TimelineStepView::Fetch { count, exclude, seen }) && {
            &&& count == 1
            &&& seen == kept(loaded)
            &&& loaded.len() <= 42 ==> exclude == loaded
            &&& loaded.len() > 42 ==> exclude == loaded.skip(loaded.len() - 42)
        },
{
    let opened = TimelineEvent::Opened { seen: Some(loaded) };
    let none = Seq::<TimelineEvent>::empty();
    lemma_timeline_reached_push(daemon, none, opened);
    assert(none.push(opened) =~= seq![opened]);
    law_only_the_oldest_are_forgotten(loaded);
    law_recent_are_the_last(trimmed(loaded));
    assert(trimmed(loaded) =~= kept(loaded));
    if loaded.len() > 42 {
        assert(recent(trimmed(loaded)) =~= loaded.skip(loaded.len() - 42));
    }
}

/// After every engagement, whatever came of it, there is a rest of three to ten seconds, and after
/// that the next engagement or the end of the pass.
pub proof fn law_pass_rests_after_each_engagement(
    daemon: DaemonView,
    events: Seq<TimelineEvent>,
    outcome: EngagedView,
)
    requires
        timeline_reached(daemon, events) matches Some(TimelineStepView::Engage { .. }),
    ensures
        ({
            let engaged = events.push(TimelineEvent::Engaged { outcome });
            let rested = engaged.push(TimelineEvent::Rested);
            &&& timeline_reached(daemon, engaged) matches Some(
                TimelineStepView::Rest { pause, .. },
            ) && pause.shortest == 3 && pause.longest == 10
            &&& match timeline_reached(daemon, rested) {
                Some(step) => step is Engage || step is Save,
                None => false,
            }
        }),
{
    let engaged = events.push(TimelineEvent::Engaged { outcome });
    lemma_timeline_reached_push(daemon, events, TimelineEvent::Engaged { outcome });
    lemma_timeline_reached_push(daemon, engaged, TimelineEvent::Rested);
}

/// What a tally counts and what a candidate says is what the fields hold.
pub proof fn law_tally_and_candidate_say_what_they_hold(tally: Tally, candidate: Candidate)
    ensures
        tally@.likes == tally.likes,
        tally@.replys == tally.replys,
        tally@.quotes == tally.quotes,
        candidate@.tweet == candidate.tweet@,
        candidate@.own == candidate.own,
        candidate.deep_view() == candidate@,
{
}

/// A step about the home timeline is told by what it holds.
pub proof fn law_timeline_step_says_what_it_holds(step: TimelineStep)
    ensures
        match step {
            TimelineStep::Open { user } => step@ == (TimelineStepView::Open { user: user@ }),
            TimelineStep::Fetch { count, exclude, seen } => step@ == (TimelineStepView::Fetch {
                count,
                exclude: exclude.deep_view(),
                seen: seen.deep_view(),
            }),
            TimelineStep::Engage { engaging, tweet } => step@ == (TimelineStepView::Engage {
                run: engaging@,
                tweet: tweet@,
            }),
            TimelineStep::Rest { pause, run } => step@ == (TimelineStepView::Rest {
                pause: pause@,
                run: run@,
            }),
            TimelineStep::Save { seen, tally } => step@ == (TimelineStepView::Save {
                seen: seen.deep_view(),
                tally: tally@,
            }),
            TimelineStep::Done => step@ is Done,
            TimelineStep::Fail => step@ is Fail,
        },
{
}

} // verus!
