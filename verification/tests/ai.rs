use rustpond::ai::{fallback_response, AIConfig, AIResponseGenerator, AiError, ChatRequest};
use rustpond::review::Review;
use rustpond::time::Timestamp;

fn review(rating: i32, title: Option<&str>, body: Option<&str>) -> Review {
    Review {
        id: "test".to_string(),
        rating,
        title: title.map(|t| t.to_string()),
        body: body.map(|b| b.to_string()),
        reviewer_nickname: "TestUser".to_string(),
        created_date: Timestamp { secs: 0, nanos: 0 },
        territory: "US".to_string(),
        version: Some("1.0".to_string()),
        response: None,
    }
}

fn generator() -> AIResponseGenerator {
    AIResponseGenerator::new(AIConfig::with_api_key("key-for-test".to_string())).unwrap()
}

#[test]
fn the_usual_setup_has_its_defaults() {
    let config = AIConfig::with_api_key("key-for-test".to_string());
    assert_eq!(config.openai_api_key, "key-for-test");
    assert_eq!(config.model, "gpt-4.1-nano");
    assert_eq!(config.keywords, vec!["relationships", "couples", "love", "partner", "connection"]);
    assert_eq!(config.support_email, "candleappteam@gmail.com");
    assert_eq!(
        config.custom_prompt,
        Some("Try to encourage users to join our Reddit at r/candleapp when possible.".to_string())
    );
    assert_eq!(config.supporting_info, None);
    assert_eq!(config.clone(), config);
}

#[test]
fn an_assistant_needs_a_key() {
    assert_eq!(AIResponseGenerator::new(AIConfig::with_api_key(String::new())), Err(AiError::MissingKey));
    assert_eq!(
        AiError::MissingKey.message(),
        "OpenAI API key is required. Set OPENAI_API_KEY environment variable"
    );
    assert_eq!(generator().api_key(), "key-for-test");
}

#[test]
fn the_system_prompt_names_what_is_set() {
    assert_eq!(
        generator().build_system_prompt(),
        "You are a professional app developer responding to App Store reviews. Your responses should be:\n- Professional, friendly, and appreciative\n- Acknowledge the user's specific feedback\n- Keep responses under 350 characters (App Store limit)\n- Thank users for their time and feedback\n- Naturally incorporate these keywords when relevant: relationships, couples, love, partner, connection\n- Encourage users to email candleappteam@gmail.com for additional feedback or feature requests\n- Additional instructions: Try to encourage users to join our Reddit at r/candleapp when possible.\n\nAlways be genuine and avoid overly promotional language."
    );
}

#[test]
fn the_system_prompt_leaves_out_what_is_not_set() {
    let config = AIConfig {
        openai_api_key: "k".to_string(),
        model: "m".to_string(),
        keywords: vec![],
        support_email: "help@example.com".to_string(),
        custom_prompt: None,
        supporting_info: Some("A game".to_string()),
    };
    assert_eq!(
        AIResponseGenerator::new(config).unwrap().build_system_prompt(),
        "You are a professional app developer responding to App Store reviews. Your responses should be:\n- Professional, friendly, and appreciative\n- Acknowledge the user's specific feedback\n- Keep responses under 350 characters (App Store limit)\n- Thank users for their time and feedback\n- Encourage users to email help@example.com for additional feedback or feature requests\n- Context about the app: A game\n\nAlways be genuine and avoid overly promotional language."
    );
    let one = AIConfig {
        openai_api_key: "k".to_string(),
        model: "m".to_string(),
        keywords: vec!["solo".to_string()],
        support_email: "e".to_string(),
        custom_prompt: None,
        supporting_info: None,
    };
    assert!(AIResponseGenerator::new(one)
        .unwrap()
        .build_system_prompt()
        .contains("\n- Naturally incorporate these keywords when relevant: solo\n- Encourage users to email e for"));
}

#[test]
fn the_user_prompt_introduces_the_review() {
    assert_eq!(
        generator().build_user_prompt(&review(5, Some("Great app!"), Some("I love this app, it works perfectly!"))),
        "This is a 5-star positive review.\n\nReview title: \"Great app!\"\nReview text: \"I love this app, it works perfectly!\"\n\nPlease generate a professional response to this review."
    );
    assert_eq!(
        generator().build_user_prompt(&review(2, None, None)),
        "This is a 2-star negative review.\n\nReview title: \"(No title)\"\nReview text: \"(No review text)\"\n\nPlease generate a professional response to this review."
    );
    for (rating, context) in [
        (4, "This is a 4-star mostly positive review."),
        (3, "This is a 3-star neutral review."),
        (1, "This is a 1-star very negative review."),
        (0, "This is a review."),
        (6, "This is a review."),
        (-1, "This is a review."),
    ] {
        assert!(generator().build_user_prompt(&review(rating, None, None)).starts_with(context));
    }
}

#[test]
fn the_request_carries_both_prompts() {
    let subject = review(4, Some("Good"), Some("Nice"));
    let request = generator().generate_response(&subject);
    assert_eq!(
        request,
        ChatRequest {
            model: "gpt-4.1-nano".to_string(),
            system_prompt: generator().build_system_prompt(),
            user_prompt: generator().build_user_prompt(&subject),
            max_tokens: 500,
            temperature_percent: 70,
        }
    );
}

#[test]
fn the_first_choice_is_the_response() {
    assert_eq!(
        AIResponseGenerator::response_content(&vec![Some("Thanks!".to_string()), Some("Other".to_string())]),
        Ok("Thanks!".to_string())
    );
    assert_eq!(AIResponseGenerator::response_content(&vec![]), Err(AiError::NoContent));
    assert_eq!(
        AIResponseGenerator::response_content(&vec![None, Some("late".to_string())]),
        Err(AiError::NoContent)
    );
    assert_eq!(AiError::NoContent.message(), "No response content from OpenAI");
}

#[test]
fn the_fallback_thanks_for_the_rating_and_title() {
    assert_eq!(
        fallback_response(Some(&review(5, Some("Great app!"), None))),
        "Thank you for your 5-star review about \"Great app!\"! We appreciate your feedback and are constantly working to improve our app."
    );
    assert_eq!(
        fallback_response(Some(&review(1, None, Some("bad")))),
        "Thank you for your 1-star review! We appreciate your feedback and are constantly working to improve our app."
    );
    assert_eq!(
        fallback_response(Some(&review(-3, Some(""), None))),
        "Thank you for your -3-star review about \"\"! We appreciate your feedback and are constantly working to improve our app."
    );
    assert_eq!(fallback_response(None), "Thank you for your feedback!");
}
