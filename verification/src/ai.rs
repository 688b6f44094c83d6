//! The assistant that drafts responses: its configuration, the prompts it
//! is given for a review, and what is taken from its answer.

use vstd::prelude::*;
use vstd::string::StringExecFns;
use crate::http::{join, join3};
use crate::review::{clone_text, Review, ReviewView};
use crate::text::{decimal, decimal_string};

verus! {

/// How the assistant is set up.
#[derive(Debug, PartialEq, Eq)]
pub struct AIConfig {
    pub openai_api_key: String,
    pub model: String,
    pub keywords: Vec<String>,
    pub support_email: String,
    pub custom_prompt: Option<String>,
    pub supporting_info: Option<String>,
}

/// What an `AIConfig` holds.
pub struct AIConfigView {
    pub openai_api_key: Seq<char>,
    pub model: Seq<char>,
    pub keywords: Seq<Seq<char>>,
    pub support_email: Seq<char>,
    pub custom_prompt: Option<Seq<char>>,
    pub supporting_info: Option<Seq<char>>,
}

impl View for AIConfig {
    type V = AIConfigView;

    open spec fn view(&self) -> AIConfigView {
        AIConfigView {
            openai_api_key: self.openai_api_key@,
            model: self.model@,
            keywords: self.keywords.deep_view(),
            support_email: self.support_email@,
            custom_prompt: self.custom_prompt.deep_view(),
            supporting_info: self.supporting_info.deep_view(),
        }
    }
}

/// The usual setup with the given API key.
pub open spec fn usual(openai_api_key: Seq<char>) -> AIConfigView {
    AIConfigView {
        openai_api_key,
        model: "gpt-4.1-nano"@,
        keywords: seq!["relationships"@, "couples"@, "love"@, "partner"@, "connection"@],
        support_email: "candleappteam@gmail.com"@,
        custom_prompt: Some("Try to encourage users to join our Reddit at r/candleapp when possible."@),
        supporting_info: None,
    }
}

impl AIConfig {
    /// The usual setup with the given API key.
    pub fn with_api_key(openai_api_key: String) -> (c: AIConfig)
        ensures
            c@ == usual(openai_api_key@),
    {
        let mut keywords: Vec<String> = Vec::new();
        keywords.push(String::from_str("relationships"));
        keywords.push(String::from_str("couples"));
        keywords.push(String::from_str("love"));
        keywords.push(String::from_str("partner"));
        keywords.push(String::from_str("connection"));
        assert(keywords.deep_view() =~= seq!["relationships"@, "couples"@, "love"@, "partner"@, "connection"@]);
        AIConfig {
            openai_api_key,
            model: String::from_str("gpt-4.1-nano"),
            keywords,
            support_email: String::from_str("candleappteam@gmail.com"),
            custom_prompt: Some(
                String::from_str("Try to encourage users to join our Reddit at r/candleapp when possible."),
            ),
            supporting_info: None,
        }
    }
}

impl Clone for AIConfig {
    fn clone(&self) -> (r: AIConfig)
        ensures
            r@ == self@,
    {
        let mut keywords: Vec<String> = Vec::new();
        let mut i: usize = 0;
        while i < self.keywords.len()
            invariant
                i <= self.keywords.len(),
                keywords.deep_view() == self.keywords.deep_view().take(i as int),
            decreases self.keywords.len() - i,
        {
            let ghost before = keywords.deep_view();
            let keyword = self.keywords[i].clone();
            assert(self.keywords.deep_view()[i as int] == self.keywords@[i as int]@);
            keywords.push(keyword);
            assert(keywords.deep_view() =~= before.push(keyword@));
            assert(keywords.deep_view() =~= self.keywords.deep_view().take(i + 1));
            i += 1;
        }
        assert(keywords.deep_view() =~= self.keywords.deep_view());
        AIConfig {
            openai_api_key: self.openai_api_key.clone(),
            model: self.model.clone(),
            keywords,
            support_email: self.support_email.clone(),
            custom_prompt: clone_text(&self.custom_prompt),
            supporting_info: clone_text(&self.supporting_info),
        }
    }
}

/// Why the assistant gave no response.
#[derive(Clone, Copy, Debug, PartialEq, Eq, Structural)]
pub enum AiError {
    /// No API key is configured.
    MissingKey,
    /// The answer holds no text.
    NoContent,
}

impl AiError {
    /// The message shown for this error.
    pub open spec fn text(self) -> Seq<char> {
        match self {
            AiError::MissingKey => "OpenAI API key is required. Set OPENAI_API_KEY environment variable"@,
            AiError::NoContent => "No response content from OpenAI"@,
        }
    }

    /// The message shown for this error.
    pub fn message(&self) -> (s: String)
        ensures
            s@ == self.text(),
    {
        match self {
            AiError::MissingKey => String::from_str(
                "OpenAI API key is required. Set OPENAI_API_KEY environment variable",
            ),
            AiError::NoContent => String::from_str("No response content from OpenAI"),
        }
    }
}

/// The first `upto` of `parts` with `", "` between them.
pub open spec fn listed(parts: Seq<Seq<char>>, upto: int) -> Seq<char>
    decreases upto,
{
    if upto <= 0 {
        Seq::empty()
    } else if upto == 1 {
        parts[0]
    } else {
        listed(parts, upto - 1) + ", "@ + parts[upto - 1]
    }
}

/// The line of the system prompt that names the keywords, if there are any.
pub open spec fn keywords_line(keywords: Seq<Seq<char>>) -> Seq<char> {
    if keywords.len() > 0 {
        "\n- Naturally incorporate these keywords when relevant: "@ + listed(keywords, keywords.len() as int)
    } else {
        Seq::empty()
    }
}

/// A line of the system prompt that is there only with its content.
pub open spec fn optional_line(lead: Seq<char>, content: Option<Seq<char>>) -> Seq<char> {
    match content {
        Some(text) => lead + text,
        None => Seq::empty(),
    }
}

/// The instructions that the assistant is given: the tone and length of a
/// response, then the keywords, the support address, the custom
/// instructions and the context of the app, as far as they are set.
pub open spec fn system_prompt(config: AIConfigView) -> Seq<char> {
    "You are a professional app developer responding to App Store reviews. Your responses should be:\n- Professional, friendly, and appreciative\n- Acknowledge the user's specific feedback\n- Keep responses under 350 characters (App Store limit)\n- Thank users for their time and feedback"@ + keywords_line(config.keywords) + ("\n- Encourage users to email "@ + config.support_email + " for additional feedback or feature requests"@) + optional_line(
        "\n- Additional instructions: "@,
        config.custom_prompt,
    ) + optional_line("\n- Context about the app: "@, config.supporting_info) + "\n\nAlways be genuine and avoid overly promotional language."@
}

/// How a rating is introduced to the assistant.
pub open spec fn rating_context(rating: i32) -> Seq<char> {
    if rating == 5 {
        "This is a 5-star positive review"@
    } else if rating == 4 {
        "This is a 4-star mostly positive review"@
    } else if rating == 3 {
        "This is a 3-star neutral review"@
    } else if rating == 2 {
        "This is a 2-star negative review"@
    } else if rating == 1 {
        "This is a 1-star very negative review"@
    } else {
        "This is a review"@
    }
}

/// `text`, or `fallback` where there is none.
pub open spec fn shown(text: Option<Seq<char>>, fallback: Seq<char>) -> Seq<char> {
    match text {
        Some(t) => t,
        None => fallback,
    }
}

/// The question that the assistant is asked about a review: its rating, its
/// title and its text.
pub open spec fn user_prompt(review: ReviewView) -> Seq<char> {
    rating_context(review.rating) + ".\n\nReview title: \""@ + shown(review.title, "(No title)"@) + "\"\nReview text: \""@ + shown(
        review.body,
        "(No review text)"@,
    ) + "\"\n\nPlease generate a professional response to this review."@
}

/// What the assistant is asked.
#[derive(Debug, PartialEq, Eq)]
pub struct ChatRequest {
    pub model: String,
    pub system_prompt: String,
    pub user_prompt: String,
    /// The most tokens that the answer may have.
    pub max_tokens: u32,
    /// The sampling temperature, in hundredths.
    pub temperature_percent: u8,
}

/// What a `ChatRequest` holds.
pub struct ChatRequestView {
    pub model: Seq<char>,
    pub system_prompt: Seq<char>,
    pub user_prompt: Seq<char>,
    pub max_tokens: u32,
    pub temperature_percent: u8,
}

impl View for ChatRequest {
    type V = ChatRequestView;

    open spec fn view(&self) -> ChatRequestView {
        ChatRequestView {
            model: self.model@,
            system_prompt: self.system_prompt@,
            user_prompt: self.user_prompt@,
            max_tokens: self.max_tokens,
            temperature_percent: self.temperature_percent,
        }
    }
}

/// The request for a response to `review`: at most 500 tokens, sampled at
/// temperature 0.7.
pub open spec fn chat_request(config: AIConfigView, review: ReviewView) -> ChatRequestView {
    ChatRequestView {
        model: config.model,
        system_prompt: system_prompt(config),
        user_prompt: user_prompt(review),
        max_tokens: 500,
        temperature_percent: 70,
    }
}

/// The text of the first of the assistant's choices.
pub open spec fn first_content(choices: Seq<Option<Seq<char>>>) -> Result<Seq<char>, AiError> {
    if choices.len() > 0 && choices[0] is Some {
        Ok(choices[0]->0)
    } else {
        Err(AiError::NoContent)
    }
}

/// The response drafted without the assistant: thanks for the rating and,
/// where the review has one, its title.
pub open spec fn fallback_text(review: Option<ReviewView>) -> Seq<char> {
    match review {
        None => "Thank you for your feedback!"@,
        Some(r) => "Thank you for your "@ + decimal(r.rating as int) + "-star review"@ + optional_line(
            " about \""@,
            match r.title {
                Some(title) => Some(title + "\""@),
                None => None,
            },
        ) + "! We appreciate your feedback and are constantly working to improve our app."@,
    }
}

/// The view of an optional reference to a review.
pub open spec fn review_ref_view(review: Option<&Review>) -> Option<ReviewView> {
    match review {
        Some(r) => Some(r@),
        None => None,
    }
}

/// Drafts a response without the assistant.
pub fn fallback_response(review: Option<&Review>) -> (s: String)
    ensures
        s@ == fallback_text(review_ref_view(review)),
{
    match review {
        None => String::from_str("Thank you for your feedback!"),
        Some(r) => {
            let mut s = join3("Thank you for your ", decimal_string(r.rating as i64).as_str(), "-star review");
            match &r.title {
                Some(title) => {
                    s.append(" about \"");
                    s.append(title.as_str());
                    s.append("\"");
                    assert(s@ == "Thank you for your "@ + decimal(r.rating as int) + "-star review"@ + (
                    " about \""@ + (title@ + "\""@)));
                },
                None => {
                    assert(s@ + Seq::<char>::empty() == s@);
                },
            }
            s.append("! We appreciate your feedback and are constantly working to improve our app.");
            s
        },
    }
}

/// The assistant, set up and ready to be asked.
#[derive(Debug, PartialEq, Eq)]
pub struct AIResponseGenerator {
    config: AIConfig,
}

impl View for AIResponseGenerator {
    type V = AIConfigView;

    closed spec fn view(&self) -> AIConfigView {
        self.config@
    }
}

impl AIResponseGenerator {
    /// The assistant with the given setup, which has to name an API key.
    pub fn new(config: AIConfig) -> (r: Result<AIResponseGenerator, AiError>)
        ensures
            config@.openai_api_key.len() > 0 ==> (r matches Ok(g) && g@ == config@),
            config@.openai_api_key.len() == 0 ==> r == Err::<AIResponseGenerator, AiError>(AiError::MissingKey),
    {
        if config.openai_api_key.as_str().is_empty() {
            return Err(AiError::MissingKey);
        }
        Ok(AIResponseGenerator { config })
    }

    /// The API key to authenticate with.
    pub fn api_key(&self) -> (key: &String)
        ensures
            key@ == self@.openai_api_key,
    {
        &self.config.openai_api_key
    }

    fn keywords_text(&self) -> (s: String)
        ensures
            s@ == keywords_line(self@.keywords),
    {
        let n = self.config.keywords.len();
        if n == 0 {
            return String::new();
        }
        let mut s = String::from_str("\n- Naturally incorporate these keywords when relevant: ");
        let ghost lead = s@;
        let mut i: usize = 0;
        while i < n
            invariant
                i <= n,
                n == self.config.keywords.len(),
                lead == "\n- Naturally incorporate these keywords when relevant: "@,
                s@ == lead + listed(self.config.keywords.deep_view(), i as int),
            decreases n - i,
        {
            assert(self.config.keywords.deep_view()[i as int] == self.config.keywords@[i as int]@);
            if i > 0 {
                s.append(", ");
            }
            s.append(self.config.keywords[i].as_str());
            assert(s@ =~= lead + listed(self.config.keywords.deep_view(), i + 1));
            i += 1;
        }
        s
    }

    /// The instructions that the assistant is given.
    pub fn build_system_prompt(&self) -> (s: String)
        ensures
            s@ == system_prompt(self@),
    {
        let mut s = String::from_str("You are a professional app developer responding to App Store reviews. Your responses should be:\n- Professional, friendly, and appreciative\n- Acknowledge the user's specific feedback\n- Keep responses under 350 characters (App Store limit)\n- Thank users for their time and feedback");
        s.append(self.keywords_text().as_str());
        let support = join3("\n- Encourage users to email ", self.config.support_email.as_str(), " for additional feedback or feature requests");
        s.append(support.as_str());
        match &self.config.custom_prompt {
            Some(custom) => {
                s.append(join("\n- Additional instructions: ", custom.as_str()).as_str());
            },
            None => {
                assert(s@ + Seq::<char>::empty() == s@);
            },
        }
        match &self.config.supporting_info {
            Some(info) => {
                s.append(join("\n- Context about the app: ", info.as_str()).as_str());
            },
            None => {
                assert(s@ + Seq::<char>::empty() == s@);
            },
        }
        s.append("\n\nAlways be genuine and avoid overly promotional language.");
        s
    }

    /// The question that the assistant is asked about `review`.
    pub fn build_user_prompt(&self, review: &Review) -> (s: String)
        ensures
            s@ == user_prompt(review@),
    {
        let context = if review.rating == 5 {
            "This is a 5-star positive review"
        } else if review.rating == 4 {
            "This is a 4-star mostly positive review"
        } else if review.rating == 3 {
            "This is a 3-star neutral review"
        } else if review.rating == 2 {
            "This is a 2-star negative review"
        } else if review.rating == 1 {
            "This is a 1-star very negative review"
        } else {
            "This is a review"
        };
        let mut s = join(context, ".\n\nReview title: \"");
        match &review.title {
            Some(title) => {
                s.append(title.as_str());
            },
            None => {
                s.append("(No title)");
            },
        }
        s.append("\"\nReview text: \"");
        match &review.body {
            Some(body) => {
                s.append(body.as_str());
            },
            None => {
                s.append("(No review text)");
            },
        }
        s.append("\"\n\nPlease generate a professional response to this review.");
        s
    }

    /// What to ask the assistant for a response to `review`.
    pub fn generate_response(&self, review: &Review) -> (r: ChatRequest)
        ensures
            r@ == chat_request(self@, review@),
    {
        ChatRequest {
            model: self.config.model.clone(),
            system_prompt: self.build_system_prompt(),
            user_prompt: self.build_user_prompt(review),
            max_tokens: 500,
            temperature_percent: 70,
        }
    }

    /// Takes the response out of the assistant's choices, each given by its
    /// text if it has one: the text of the first.
    pub fn response_content(choices: &Vec<Option<String>>) -> (r: Result<String, AiError>)
        ensures
            (match r {
                Ok(text) => Ok(text@),
                Err(e) => Err(e),
            }) == first_content(choices.deep_view()),
    {
        if choices.len() == 0 {
            return Err(AiError::NoContent);
        }
        assert(choices.deep_view()[0] == choices@[0].deep_view());
        match &choices[0] {
            Some(text) => Ok(text.clone()),
            None => Err(AiError::NoContent),
        }
    }
}

} // verus!
