//! Requests to the model, in the form in which the agent engine takes them.

use crate::answer::Request;
use anda_core::CompletionRequest;
use anda_core::Knowledge;
use anda_engine::extension::character::Character;
use vstd::prelude::*;

verus! {

/// The character of the agent engine that the bot speaks for.
#[verifier::external_type_specification]
#[verifier::external_body]
pub struct ExCharacter(anda_engine::extension::character::Character);

/// A request of the agent engine to its model.
#[verifier::external_type_specification]
#[verifier::external_body]
pub struct ExCompletionRequest(anda_core::CompletionRequest);

/// A piece of knowledge of the agent engine.
#[verifier::external_type_specification]
#[verifier::external_body]
pub struct ExKnowledge(anda_core::Knowledge);

/// A document that a request carries.
#[verifier::external_type_specification]
#[verifier::external_body]
pub struct ExDocument(anda_core::Document);

/// The prompt of a request.
pub uninterp spec fn prompt_of(request: anda_core::CompletionRequest) -> Seq<char>;

/// In whose name a request is put.
pub uninterp spec fn prompter_of(request: anda_core::CompletionRequest) -> Option<Seq<char>>;

/// The documents that a request carries.
pub uninterp spec fn documents_of(request: anda_core::CompletionRequest) -> Seq<
    anda_core::Document,
>;

/// The document that a piece of knowledge makes, as `Document::from` gives it.
pub uninterp spec fn document_of(piece: anda_core::Knowledge) -> anda_core::Document;

/// The request that puts `prompt` to the model in the voice of a character.
pub uninterp spec fn in_character(
    character: anda_engine::extension::character::Character,
    prompt: Seq<char>,
    prompter_name: Option<Seq<char>>,
) -> anda_core::CompletionRequest;

/// A request with pieces of knowledge added to it.
pub uninterp spec fn informed(
    request: anda_core::CompletionRequest,
    knowledge: Seq<anda_core::Knowledge>,
) -> anda_core::CompletionRequest;

/// Calls `Character::to_request`. Trusted: the result depends on the character, the prompt and
/// the prompter's name alone; it is named `in_character`. It holds the prompt and the name as they
/// are, and no documents. What the character adds to it is left to its name.
#[verifier::external_body]
fn to_request(character: &Character, prompt: String, prompter_name: Option<String>) -> (r:
    CompletionRequest)
    ensures
        r == in_character(*character, prompt@, prompter_name.deep_view()),
        prompt_of(r) == prompt@,
        prompter_of(r) == prompter_name.deep_view(),
        documents_of(r).len() == 0,
{
    character.to_request(prompt, prompter_name)
}

/// Calls `CompletionRequest::append_documents` with pieces of knowledge. Trusted: the result
/// depends on the request and the pieces alone; it is named `informed`. Its documents are those of
/// the request, followed by one for each piece, in order; the prompt and the prompter's name stay.
#[verifier::external_body]
fn append_documents(request: CompletionRequest, knowledge: Vec<Knowledge>) -> (r: CompletionRequest)
    ensures
        r == informed(request, knowledge@),
        prompt_of(r) == prompt_of(request),
        prompter_of(r) == prompter_of(request),
        documents_of(r) == documents_of(request) + knowledge@.map_values(
            |piece: Knowledge| document_of(piece),
        ),
{
    request.append_documents(knowledge.into())
}

/// Puts a request to the model in the voice of a character.
pub fn complete_request(character: &Character, request: Request) -> (r: CompletionRequest)
    ensures
        r == in_character(*character, request@.prompt, request@.prompter_name),
        prompt_of(r) == request@.prompt,
        prompter_of(r) == request@.prompter_name,
        documents_of(r).len() == 0,
{
    to_request(character, request.prompt, request.prompter_name)
}

/// Puts a request to the model in the voice of a character, with what the bot learned: one document
/// for each piece of knowledge, in order.
pub fn complete_informed_request(
    character: &Character,
    request: Request,
    knowledge: Vec<Knowledge>,
) -> (r: CompletionRequest)
    ensures
        r == informed(
            in_character(*character, request@.prompt, request@.prompter_name),
            knowledge@,
        ),
        prompt_of(r) == request@.prompt,
        prompter_of(r) == request@.prompter_name,
        documents_of(r) == knowledge@.map_values(|piece: Knowledge| document_of(piece)),
{
    append_documents(complete_request(character, request), knowledge)
}

} // verus!
