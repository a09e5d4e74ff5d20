//! Answers of the model, and what becomes of them.

use crate::text::declines;
use crate::text::is_declined;
use crate::text::law_declined_answers;
use crate::text::law_quotes_come_off_in_pairs;
use crate::text::remove_quotes;
use crate::text::spells_ignore;
use crate::text::unquoted;
use vstd::prelude::*;

verus! {

/// What the model is asked, and in whose name.
#[derive(Debug, PartialEq, Eq)]
pub struct Request {
    pub prompt: String,
    pub prompter_name: Option<String>,
}

/// What a `Request` says.
pub struct RequestView {
    pub prompt: Seq<char>,
    pub prompter_name: Option<Seq<char>>,
}

impl View for Request {
    type V = RequestView;

    open spec fn view(&self) -> RequestView {
        RequestView { prompt: self.prompt@, prompter_name: self.prompter_name.deep_view() }
    }
}

/// What the model returned: a text, and a reason where it failed.
#[derive(Debug, PartialEq, Eq)]
pub struct Completion {
    pub content: String,
    pub failed_reason: Option<String>,
}

/// What a `Completion` says.
pub struct CompletionView {
    pub content: Seq<char>,
    pub failed_reason: Option<Seq<char>>,
}

impl View for Completion {
    type V = CompletionView;

    open spec fn view(&self) -> CompletionView {
        CompletionView {
            content: self.content@,
            failed_reason: self.failed_reason.deep_view(),
        }
    }
}

impl DeepView for Completion {
    type V = CompletionView;

    open spec fn deep_view(&self) -> CompletionView {
        self@
    }
}

/// Why an answer of the model is not published.
#[derive(Debug, PartialEq, Eq)]
pub enum Refusal {
    /// The model failed.
    Generation { reason: String },
    /// The model declined to answer.
    Ignored,
}

/// What a `Refusal` says.
pub enum RefusalView {
    Generation { reason: Seq<char> },
    Ignored,
}

impl View for Refusal {
    type V = RefusalView;

    open spec fn view(&self) -> RefusalView {
        match self {
            Refusal::Generation { reason } => RefusalView::Generation { reason: reason@ },
            Refusal::Ignored => RefusalView::Ignored,
        }
    }
}

/// The words in which a refusal is reported.
pub open spec fn refusal_message(refusal: RefusalView) -> Seq<char> {
    match refusal {
        RefusalView::Generation { reason } => "Failed to generate response for tweet: "@ + reason,
        RefusalView::Ignored => "Ignore this tweet"@,
    }
}

impl Refusal {
    /// The words in which the refusal is reported.
    pub fn message(&self) -> (r: String)
        ensures
            r@ == refusal_message(self@),
    {
        match self {
            Refusal::Generation { reason } => {
                let mut message: String = "Failed to generate response for tweet: ".to_owned();
                message.append(reason.as_str());
                message
            },
            Refusal::Ignored => "Ignore this tweet".to_owned(),
        }
    }
}

/// A decision about an answer, by what its texts say.
pub open spec fn decision_view(decision: Result<String, Refusal>) -> Result<
    Seq<char>,
    RefusalView,
> {
    match decision {
        Ok(text) => Ok(text@),
        Err(refusal) => Err(refusal@),
    }
}

/// What is published of an answer to a tweet.
pub open spec fn tweet_answer(output: CompletionView) -> Result<Seq<char>, RefusalView> {
    match output.failed_reason {
        Some(reason) => Err(RefusalView::Generation { reason }),
        None => if declines(unquoted(output.content)) {
            Err(RefusalView::Ignored)
        } else {
            Ok(unquoted(output.content))
        },
    }
}

/// What is published of an answer that is a tweet of its own: the text as it is.
pub open spec fn post_answer(output: CompletionView) -> Result<Seq<char>, RefusalView> {
    match output.failed_reason {
        Some(reason) => Err(RefusalView::Generation { reason }),
        None => Ok(output.content),
    }
}

/// Decides what is published of an answer to a tweet.
pub fn decide_tweet_answer(output: Completion) -> (r: Result<String, Refusal>)
    ensures
        decision_view(r) == tweet_answer(output@),
{
    match output.failed_reason {
        Some(reason) => Err(Refusal::Generation { reason }),
        None => {
            let content: String = remove_quotes(output.content);
            if is_declined(content.as_str()) {
                Err(Refusal::Ignored)
            } else {
                Ok(content)
            }
        },
    }
}

/// Decides what is published of an answer that is a tweet of its own.
pub fn decide_post_answer(output: Completion) -> (r: Result<String, Refusal>)
    ensures
        decision_view(r) == post_answer(output@),
{
    match output.failed_reason {
        Some(reason) => Err(Refusal::Generation { reason }),
        None => Ok(output.content),
    }
}

// ---------------------------------------------------------------------------------------------
// Laws
// ---------------------------------------------------------------------------------------------

/// A refusal is reported with the whole reason of the model at the end, after words that are the
/// same for every reason. A declined answer is reported in words of its own.
pub proof fn law_refusal_message(reason: Seq<char>, other: Seq<char>)
    ensures
        ({
            let message = refusal_message(RefusalView::Generation { reason });
            let unlike = refusal_message(RefusalView::Generation { reason: other });
            &&& message.len() == 39 + reason.len()
            &&& message.skip(39) == reason
            &&& message.take(39) == unlike.take(39)
        }),
        refusal_message(RefusalView::Ignored) == "Ignore this tweet"@,
{
    reveal_strlit("Failed to generate response for tweet: ");
    let words = "Failed to generate response for tweet: "@;
    assert((words + reason).skip(39) =~= reason);
    assert((words + reason).take(39) =~= words);
    assert((words + other).take(39) =~= words);
}

/// What becomes of an answer to a tweet. Where the model failed, its reason is the refusal. A text
/// without enclosing quotes, or the text between them, is published whole, whatever its length,
/// unless it is empty or spells the ignore command anywhere, in which case it is ignored.
pub proof fn law_tweet_answer(output: CompletionView, said: Seq<char>, at: int)
    ensures
        output.failed_reason matches Some(reason) ==> tweet_answer(output) == Err::<
            Seq<char>,
            RefusalView,
        >(RefusalView::Generation { reason }),
        ({
            let bare = output.content == said && (said.len() < 2 || said[0] != '"'
                || said[said.len() - 1] != '"');
            let enclosed = output.content == seq!['"'] + said + seq!['"'];
            let ignored = Err::<Seq<char>, RefusalView>(RefusalView::Ignored);
            output.failed_reason is None && (bare || enclosed) ==> {
                &&& said.len() == 0 ==> tweet_answer(output) == ignored
                &&& spells_ignore(said, at) ==> tweet_answer(output) == ignored
                &&& said.len() > 0 && (forall|i: int| !#[trigger] spells_ignore(said, i))
                    ==> tweet_answer(output) == Ok::<Seq<char>, RefusalView>(said)
            }
        }),
{
    law_quotes_come_off_in_pairs(output.content);
    law_quotes_come_off_in_pairs(said);
    law_declined_answers(said);
}

/// What is published of an answer to a tweet is never empty, spells the ignore command nowhere, and
/// is the model's whole text or that text between its two quotes.
pub proof fn law_published_answer(output: CompletionView)
    ensures
        tweet_answer(output) matches Ok(content) ==> {
            &&& output.failed_reason is None
            &&& content.len() > 0
            &&& forall|at: int| !#[trigger] spells_ignore(content, at)
            &&& content == output.content || seq!['"'] + content + seq!['"'] == output.content
        },
{
    law_quotes_come_off_in_pairs(output.content);
    law_declined_answers(unquoted(output.content));
    if unquoted(output.content) != output.content {
        assert(seq!['"'] + unquoted(output.content) + seq!['"'] =~= output.content);
    }
}

/// A tweet of its own is published whole and as it is, quotes and all, exactly when the model did
/// not fail.
pub proof fn law_post_answer(output: CompletionView)
    ensures
        output.failed_reason is None ==> post_answer(output) == Ok::<Seq<char>, RefusalView>(
            output.content,
        ),
        output.failed_reason matches Some(reason) ==> post_answer(output) == Err::<
            Seq<char>,
            RefusalView,
        >(RefusalView::Generation { reason }),
{
}

/// What a request says is what its fields hold.
pub proof fn law_request_says_what_it_holds(request: Request)
    ensures
        request@.prompt == request.prompt@,
        request.prompter_name matches Some(name) ==> request@.prompter_name == Some(name@),
        request.prompter_name is None ==> request@.prompter_name is None,
{
}

/// What the model returned is what the fields hold: it failed exactly where there is a reason, even
/// an empty one.
pub proof fn law_completion_says_what_it_holds(output: Completion)
    ensures
        output@.content == output.content@,
        output.failed_reason matches Some(reason) ==> output@.failed_reason == Some(reason@),
        output.failed_reason is None ==> output@.failed_reason is None,
        output.deep_view() == output@,
{
}

/// A refusal and a decision are told by what they hold.
pub proof fn law_decision_says_what_it_holds(decision: Result<String, Refusal>)
    ensures
        match decision {
            Ok(text) => decision_view(decision) == Ok::<Seq<char>, RefusalView>(text@),
            Err(Refusal::Ignored) => decision_view(decision) == Err::<Seq<char>, RefusalView>(
                RefusalView::Ignored,
            ),
            Err(Refusal::Generation { reason }) => decision_view(decision) == Err::<
                Seq<char>,
                RefusalView,
            >(RefusalView::Generation { reason: reason@ }),
        },
{
}

} // verus!
