use anda_bot::answer::Request;
use anda_bot::completion::{complete_informed_request, complete_request};
use anda_core::Knowledge;
use anda_engine::extension::character::Character;

fn character() -> Character {
    Character {
        name: "Anda ICP".to_string(),
        username: "ICPandaDAO".to_string(),
        ..Default::default()
    }
}

fn request() -> Request {
    Request { prompt: "What now?".to_string(), prompter_name: Some("anda".to_string()) }
}

#[test]
fn request_is_put_in_the_voice_of_the_character() {
    let completion = complete_request(&character(), request());
    assert_eq!(completion.prompt, "What now?");
    assert_eq!(completion.prompter_name, Some("anda".to_string()));
    assert!(completion.system.unwrap().contains("You are **Anda ICP** (@ICPandaDAO)"));
    assert!(completion.documents.is_empty());
}

#[test]
fn request_carries_knowledge() {
    let knowledge = vec![Knowledge {
        id: "k1".to_string(),
        user: "b".to_string(),
        text: "pandas eat bamboo".to_string(),
        meta: Default::default(),
    }];
    let completion = complete_informed_request(&character(), request(), knowledge);
    assert_eq!(completion.prompt, "What now?");
    assert_eq!(completion.prompter_name, Some("anda".to_string()));
    assert_eq!(completion.documents.len(), 1);
    assert_eq!(completion.documents[0].id, "k1");
    assert_eq!(completion.documents[0].text, "pandas eat bamboo");
}
