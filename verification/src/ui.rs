//! The session controller: the reviews on screen, the selection, and the
//! state machine that turns key presses and the results of store operations
//! into the next state and the next thing to do.

use vstd::prelude::*;
use vstd::string::StringExecFns;
use crate::ai::{
    chat_request, fallback_response, fallback_text, usual, AIConfig, AIConfigView, AIResponseGenerator,
    ChatRequest, ChatRequestView,
};
use crate::config::{Config, ConfigView, Platform};
use crate::editor::{blank, capped, BufferView, CompositionBuffer};
use crate::http::{join, ApiError, ApiErrorView};
use crate::review::{
    lemma_ordered_is_stable, newest_first, ordered, sort_newest_first, Review, ReviewResponse,
    ReviewResponseView, ReviewView,
};

verus! {

/// What the session shows.
#[derive(Clone, Copy, Debug, PartialEq, Eq, Structural)]
pub enum AppState {
    ViewingReviews,
    WritingResponse,
    ConfirmingResponse,
    GeneratingAI,
}

/// Where the text under edit came from.
#[derive(Clone, Copy, Debug, PartialEq, Eq, Structural)]
pub enum InputMode {
    Manual,
    AI,
}

/// A key of the keyboard.
#[derive(Clone, Copy, Debug, PartialEq, Eq, Structural)]
pub enum KeyCode {
    Char(char),
    Enter,
    Esc,
    Up,
    Down,
    Left,
    Right,
    Home,
    End,
    Backspace,
    Delete,
    /// Any other key.
    Other,
}

/// A key press with the modifiers held.
#[derive(Clone, Copy, Debug, PartialEq, Eq, Structural)]
pub struct KeyEvent {
    pub code: KeyCode,
    pub control: bool,
    pub alt: bool,
}

/// The operation whose result the session waits for.
#[derive(Clone, Copy, Debug, PartialEq, Eq, Structural)]
pub enum Pending {
    Nothing,
    /// The response to the selected review, to write by hand.
    Opening,
    /// The response to the selected review, to draft with the assistant.
    Assisting,
    /// The assistant's draft.
    Generating,
    /// The posting of a response.
    Submitting,
    /// All reviews anew.
    Refreshing,
    /// More reviews.
    LoadingMore,
}

/// What the session asks of its caller.
#[derive(Debug, PartialEq, Eq)]
pub enum UIAction {
    /// End the session.
    Quit,
    /// Load all reviews anew and hand them to `reviews_refreshed`.
    Refresh,
    /// Load more reviews and hand them to `more_reviews_loaded`.
    LoadMore,
    /// Look up the response to this review and hand it to
    /// `response_fetched`.
    FetchResponse { review_id: String },
    /// Ask the assistant and hand its answer to `response_generated`.
    Generate { request: ChatRequest },
    /// Post this response and hand the result to `response_submitted`.
    Submit { review_id: String, response_body: String },
}

/// What a `UIAction` holds.
pub enum UiActionView {
    Quit,
    Refresh,
    LoadMore,
    FetchResponse { review_id: Seq<char> },
    Generate { request: ChatRequestView },
    Submit { review_id: Seq<char>, response_body: Seq<char> },
}

impl View for UIAction {
    type V = UiActionView;

    open spec fn view(&self) -> UiActionView {
        match self {
            UIAction::Quit => UiActionView::Quit,
            UIAction::Refresh => UiActionView::Refresh,
            UIAction::LoadMore => UiActionView::LoadMore,
            UIAction::FetchResponse { review_id } => UiActionView::FetchResponse { review_id: review_id@ },
            UIAction::Generate { request } => UiActionView::Generate { request: request@ },
            UIAction::Submit { review_id, response_body } => UiActionView::Submit {
                review_id: review_id@,
                response_body: response_body@,
            },
        }
    }
}

impl DeepView for UIAction {
    type V = UiActionView;

    open spec fn deep_view(&self) -> UiActionView {
        self@
    }
}

/// The most characters that a response may have on a platform, if the
/// platform sets a limit.
pub open spec fn character_limit(platform: Platform) -> Option<usize> {
    match platform {
        Platform::Android => Some(350usize),
        Platform::Ios => None,
    }
}

/// The assistant that a configuration allows for: the usual one, provided
/// an API key is set and not empty.
pub open spec fn assistant_for(config: ConfigView) -> Option<AIConfigView> {
    match config.openai_api_key {
        Some(key) => if key.len() > 0 {
            Some(usual(key))
        } else {
            None
        },
        None => None,
    }
}

/// What a key does to the text under edit.
pub open spec fn typed(b: BufferView, key: KeyEvent) -> BufferView {
    match key.code {
        KeyCode::Enter => b.insert('\n'),
        KeyCode::Char(c) => if c == 'b' && key.alt {
            b.word_left()
        } else if c == 'f' && key.alt {
            b.word_right()
        } else if c == 'w' && (key.alt || key.control) {
            b.delete_prev_word()
        } else if c == 'd' && key.alt {
            b.delete_next_word()
        } else if c == '\u{17}' {
            b.delete_prev_word()
        } else if c == '\u{7f}' && key.alt {
            b.delete_prev_word()
        } else {
            b.insert(c)
        },
        KeyCode::Left => if key.alt {
            b.word_left()
        } else if key.control {
            b.home()
        } else {
            b.left()
        },
        KeyCode::Right => if key.alt {
            b.word_right()
        } else if key.control {
            b.end()
        } else {
            b.right()
        },
        KeyCode::Home => b.home(),
        KeyCode::End => b.end(),
        KeyCode::Backspace => if key.alt {
            b.delete_prev_word()
        } else {
            b.backspace()
        },
        KeyCode::Delete => b.delete(),
        _ => b,
    }
}

/// `review` with `response` as its response.
pub open spec fn answered(review: ReviewView, response: Option<ReviewResponseView>) -> ReviewView {
    ReviewView { response, ..review }
}

/// The message that reports a failure: the lead and the failure's message.
pub open spec fn reported(lead: Seq<char>, error: ApiErrorView) -> Option<Seq<char>> {
    Some(lead + error.message)
}

/// What a session holds.
pub struct UiView {
    pub platform: Platform,
    pub assistant: Option<AIConfigView>,
    /// The reviews on screen, newest first.
    pub reviews: Seq<ReviewView>,
    /// The offset of the selected review.
    pub selected_review: Option<usize>,
    pub state: AppState,
    /// The response under edit.
    pub buffer: BufferView,
    pub input_mode: InputMode,
    pub ai_generated_response: Option<Seq<char>>,
    /// Whether a store operation is under way.
    pub loading: bool,
    /// The status message to show once.
    pub error_message: Option<Seq<char>>,
    pub pending: Pending,
}

impl UiView {
    /// The session is well formed: the selection names a review, the reviews
    /// are newest first, and the text under edit has a valid cursor, the
    /// platform's limit and no more characters than that limit.
    pub open spec fn wf(self) -> bool {
        &&& self.buffer.wf()
        &&& self.buffer.limit == character_limit(self.platform)
        &&& (self.selected_review matches Some(i) ==> i < self.reviews.len())
        &&& newest_first(self.reviews)
    }

    /// The session that starts with `reviews`: they are shown newest first,
    /// the first one selected.
    pub open spec fn started(config: ConfigView, reviews: Seq<ReviewView>) -> UiView {
        UiView {
            platform: config.platform,
            assistant: assistant_for(config),
            reviews: ordered(reviews),
            selected_review: if reviews.len() == 0 {
                None
            } else {
                Some(0usize)
            },
            state: AppState::ViewingReviews,
            buffer: BufferView::empty(character_limit(config.platform)),
            input_mode: InputMode::Manual,
            ai_generated_response: None,
            loading: false,
            error_message: None,
            pending: Pending::Nothing,
        }
    }

    /// The session back at the list with the text under edit discarded.
    pub open spec fn dismissed(self) -> UiView {
        UiView {
            state: AppState::ViewingReviews,
            buffer: self.buffer.cleared(),
            ai_generated_response: None,
            ..self
        }
    }

    /// The session waiting for `pending`.
    pub open spec fn waiting(self, pending: Pending) -> UiView {
        UiView { loading: true, pending, ..self }
    }

    /// The session no longer waiting, with `message` to show.
    pub open spec fn settled(self, message: Option<Seq<char>>) -> UiView {
        UiView { loading: false, pending: Pending::Nothing, error_message: message, ..self }
    }

    /// What a key does while the list of reviews is shown.
    pub open spec fn browse(self, key: KeyEvent, has_more: bool) -> (UiView, Option<UiActionView>) {
        match key.code {
            KeyCode::Char(c) => if c == 'q' {
                (self, Some(UiActionView::Quit))
            } else if c == 'r' {
                (self.waiting(Pending::Refreshing), Some(UiActionView::Refresh))
            } else if c == 'l' {
                if has_more {
                    (self.waiting(Pending::LoadingMore), Some(UiActionView::LoadMore))
                } else {
                    (self, None)
                }
            } else if c == 'a' {
                self.open(Pending::Assisting)
            } else {
                (self, None)
            },
            KeyCode::Up => match self.selected_review {
                Some(i) => if i > 0 {
                    (UiView { selected_review: Some((i - 1) as usize), ..self }, None)
                } else {
                    (self, None)
                },
                None => (self, None),
            },
            KeyCode::Down => match self.selected_review {
                Some(i) => if i + 1 < self.reviews.len() {
                    (UiView { selected_review: Some((i + 1) as usize), ..self }, None)
                } else {
                    (self, None)
                },
                None => (self, None),
            },
            KeyCode::Enter => self.open(Pending::Opening),
            _ => (self, None),
        }
    }

    /// Opening the selected review: its response is asked for first.
    pub open spec fn open(self, pending: Pending) -> (UiView, Option<UiActionView>) {
        match self.selected_review {
            Some(i) => if i < self.reviews.len() {
                (self.waiting(pending), Some(UiActionView::FetchResponse { review_id: self.reviews[i as int].id }))
            } else {
                (self, None)
            },
            None => (self, None),
        }
    }

    /// What a key does while a response is written: Escape discards the text
    /// and goes back to the list, Control-S asks to confirm a text that is
    /// not blank, any other key edits the text.
    pub open spec fn write(self, key: KeyEvent) -> UiView {
        if key.code == KeyCode::Esc {
            self.dismissed()
        } else if key.code == KeyCode::Char('s') && key.control {
            if blank(self.buffer.text) {
                self
            } else {
                UiView { state: AppState::ConfirmingResponse, ..self }
            }
        } else {
            UiView { buffer: typed(self.buffer, key), ..self }
        }
    }

    /// What a key does while a response awaits confirmation: `y` posts it
    /// and goes back to the list, `n` or Escape goes back to the text.
    pub open spec fn confirm(self, key: KeyEvent) -> (UiView, Option<UiActionView>) {
        match key.code {
            KeyCode::Char(c) => if c == 'y' || c == 'Y' {
                match self.selected_review {
                    Some(i) => if i < self.reviews.len() {
                        (
                            UiView { pending: Pending::Submitting, loading: true, ..self.dismissed() },
                            Some(
                                UiActionView::Submit {
                                    review_id: self.reviews[i as int].id,
                                    response_body: self.buffer.text,
                                },
                            ),
                        )
                    } else {
                        (self.dismissed(), None)
                    },
                    None => (self.dismissed(), None),
                }
            } else if c == 'n' || c == 'N' {
                (UiView { state: AppState::WritingResponse, ..self }, None)
            } else {
                (self, None)
            },
            KeyCode::Esc => (UiView { state: AppState::WritingResponse, ..self }, None),
            _ => (self, None),
        }
    }

    /// The session and what it asks for after a key press. Keys are ignored
    /// while a result is awaited and while the assistant drafts.
    pub open spec fn key(self, key: KeyEvent, has_more: bool) -> (UiView, Option<UiActionView>) {
        if self.pending != Pending::Nothing {
            (self, None)
        } else {
            match self.state {
                AppState::ViewingReviews => self.browse(key, has_more),
                AppState::WritingResponse => (self.write(key), None),
                AppState::ConfirmingResponse => self.confirm(key),
                AppState::GeneratingAI => (self, None),
            }
        }
    }

    /// The session with `text` as the draft to edit, cut to the platform's
    /// limit where it is longer, the cursor at its end.
    pub open spec fn drafted(self, text: Seq<char>) -> UiView {
        UiView {
            ai_generated_response: Some(self.buffer.filled(text).text),
            buffer: self.buffer.filled(text),
            state: AppState::WritingResponse,
            ..self.settled(None)
        }
    }

    /// The session with `response` recorded for the selected review.
    pub open spec fn recorded(self, response: Option<ReviewResponseView>) -> UiView {
        match self.selected_review {
            Some(i) => if i < self.reviews.len() {
                UiView { reviews: self.reviews.update(i as int, answered(self.reviews[i as int], response)), ..self }
            } else {
                self
            },
            None => self,
        }
    }

    /// The selected review.
    pub open spec fn selected(self) -> Option<ReviewView> {
        match self.selected_review {
            Some(i) => if i < self.reviews.len() {
                Some(self.reviews[i as int])
            } else {
                None
            },
            None => None,
        }
    }

    /// The session and what it asks for once the response to the selected
    /// review was looked up. The response is recorded with the review. To
    /// write by hand, the session shows an empty text; to draft, it asks the
    /// assistant, or drafts by itself where there is none. A failure is
    /// reported and leaves the list on screen.
    pub open spec fn fetched(self, result: Result<Option<ReviewResponseView>, ApiErrorView>) -> (
        UiView,
        Option<UiActionView>,
    ) {
        if self.pending != Pending::Opening && self.pending != Pending::Assisting {
            (self, None)
        } else {
            match result {
                Err(e) => (self.settled(reported("Failed to fetch response data: "@, e)), None),
                Ok(response) => {
                    let seen = self.recorded(response);
                    if self.pending == Pending::Opening {
                        (
                            UiView {
                                state: AppState::WritingResponse,
                                input_mode: InputMode::Manual,
                                buffer: self.buffer.cleared(),
                                ai_generated_response: None,
                                ..seen.settled(None)
                            },
                            None,
                        )
                    } else {
                        let asked = UiView { input_mode: InputMode::AI, ..seen };
                        match (self.assistant, seen.selected()) {
                            (Some(assistant), Some(review)) => (
                                UiView { state: AppState::GeneratingAI, pending: Pending::Generating, ..asked },
                                Some(UiActionView::Generate { request: chat_request(assistant, review) }),
                            ),
                            _ => (asked.drafted(fallback_text(seen.selected())), None),
                        }
                    }
                },
            }
        }
    }

    /// The session once the assistant answered: its draft is the text to
    /// edit. Where the assistant failed, the failure is reported and the
    /// session drafts by itself, so that there is a text to edit either way.
    pub open spec fn generated(self, result: Result<Seq<char>, Seq<char>>) -> UiView {
        if self.pending != Pending::Generating {
            self
        } else {
            match result {
                Ok(text) => self.drafted(text),
                Err(why) => UiView {
                    error_message: Some("Failed to generate AI response: "@ + why),
                    ..self.drafted(fallback_text(self.selected()))
                },
            }
        }
    }

    /// The session once a response was posted: the outcome is reported.
    pub open spec fn submitted(self, result: Result<(), ApiErrorView>) -> UiView {
        if self.pending != Pending::Submitting {
            self
        } else {
            match result {
                Ok(_) => self.settled(Some("Response submitted successfully!"@)),
                Err(e) => self.settled(reported("Failed to submit response: "@, e)),
            }
        }
    }

    /// The session once all reviews were loaded anew: they replace those on
    /// screen, newest first, the first one selected. A failure is reported
    /// and changes nothing else.
    pub open spec fn refreshed(self, result: Result<Seq<ReviewView>, ApiErrorView>) -> UiView {
        if self.pending != Pending::Refreshing {
            self
        } else {
            match result {
                Ok(reviews) => UiView {
                    reviews: ordered(reviews),
                    selected_review: if reviews.len() == 0 {
                        None
                    } else {
                        Some(0usize)
                    },
                    ..self.settled(None)
                },
                Err(e) => self.settled(reported("Failed to refresh reviews: "@, e)),
            }
        }
    }

    /// The session once more reviews were loaded: they join those on screen,
    /// all of them newest first. A failure is reported and changes nothing
    /// else.
    pub open spec fn extended(self, result: Result<Seq<ReviewView>, ApiErrorView>) -> UiView {
        if self.pending != Pending::LoadingMore {
            self
        } else {
            match result {
                Ok(reviews) => UiView { reviews: ordered(self.reviews + reviews), ..self.settled(None) },
                Err(e) => self.settled(reported("Failed to load more reviews: "@, e)),
            }
        }
    }
}

/// A key pressed while a response is written edits the text within the
/// limit, and leaves a well-formed session well formed.
pub proof fn lemma_typed_is_well_formed(b: BufferView, key: KeyEvent)
    requires
        b.wf(),
    ensures
        typed(b, key).wf(),
        typed(b, key).limit == b.limit,
        typed(b, key).within_limit(),
{
    crate::editor::lemma_word_boundaries_in_range(b.text, b.cursor);
}

/// A character typed without Alt or Control is inserted at the cursor, but
/// for U+0017, which terminals send for a word deletion and which deletes
/// the previous word.
pub proof fn lemma_plain_characters_are_inserted(b: BufferView, c: char)
    ensures
        ({
            let key = KeyEvent { code: KeyCode::Char(c), control: false, alt: false };
            &&& c != '\u{17}' ==> typed(b, key) == b.insert(c)
            &&& c == '\u{17}' ==> typed(b, key) == b.delete_prev_word()
        }),
{
}

/// A request to submit a blank response is refused: the session stays where
/// the response is written. A response that is not blank goes on to be
/// confirmed.
pub proof fn lemma_blank_response_is_not_submitted(ui: UiView, has_more: bool)
    requires
        ui.state == AppState::WritingResponse,
        ui.pending == Pending::Nothing,
    ensures
        ({
            let submit = KeyEvent { code: KeyCode::Char('s'), control: true, alt: false };
            &&& ui.key(submit, has_more).1 is None
            &&& blank(ui.buffer.text) ==> ui.key(submit, has_more).0 == ui
            &&& !blank(ui.buffer.text) ==> ui.key(submit, has_more).0 == (UiView {
                state: AppState::ConfirmingResponse,
                ..ui
            })
        }),
{
}

/// Drafting always ends where the response is written: whatever the
/// assistant answers, the session then shows a text to edit, the cursor at
/// its end, and waits for nothing.
pub proof fn lemma_drafting_ends_in_writing(ui: UiView, result: Result<Seq<char>, Seq<char>>)
    requires
        ui.pending == Pending::Generating,
    ensures
        ui.generated(result).state == AppState::WritingResponse,
        ui.generated(result).pending == Pending::Nothing,
        ui.generated(result).buffer.cursor == ui.generated(result).buffer.text.len(),
        ui.generated(result).ai_generated_response == Some(ui.generated(result).buffer.text),
        result matches Ok(text) ==> ui.generated(result).buffer.text == capped(text, ui.buffer.limit),
        ui.buffer.limit matches Some(l) ==> ui.generated(result).buffer.text.len() <= l,
{
}

/// Confirmation never traps the session: an affirmative answer leads back
/// to the list at once, and whatever comes of the posting, the session stays
/// at the list and reports it.
pub proof fn lemma_confirmation_leads_back(ui: UiView, has_more: bool, result: Result<(), ApiErrorView>)
    requires
        ui.state == AppState::ConfirmingResponse,
        ui.pending == Pending::Nothing,
    ensures
        ({
            let yes = KeyEvent { code: KeyCode::Char('y'), control: false, alt: false };
            let after = ui.key(yes, has_more).0;
            &&& after.state == AppState::ViewingReviews
            &&& after.submitted(result).state == AppState::ViewingReviews
            &&& after.pending == Pending::Submitting ==> after.submitted(result).error_message is Some
                && after.submitted(result).pending == Pending::Nothing
        }),
{
}

/// Looking up the response to a review again overwrites what was recorded
/// before: only the last response counts.
pub proof fn lemma_recorded_overwrites(
    ui: UiView,
    first: Option<ReviewResponseView>,
    second: Option<ReviewResponseView>,
)
    ensures
        ui.recorded(first).recorded(second) == ui.recorded(second),
        ui.recorded(second).recorded(second) == ui.recorded(second),
{
    if let Some(i) = ui.selected_review {
        if i < ui.reviews.len() {
            assert(ui.recorded(first).recorded(second).reviews =~= ui.recorded(second).reviews);
            assert(ui.recorded(second).recorded(second).reviews =~= ui.recorded(second).reviews);
        }
    }
}

/// Recording a response with a review leaves the reviews newest first.
pub proof fn lemma_recorded_keeps_order(ui: UiView, response: Option<ReviewResponseView>)
    requires
        ui.wf(),
    ensures
        ui.recorded(response).wf(),
{
    let after = ui.recorded(response).reviews;
    assert forall|i: int, j: int| 0 <= i < j < after.len() implies (#[trigger] after[j]).created_date.not_after(
        (#[trigger] after[i]).created_date,
    ) by {
        assert(after[i].created_date == ui.reviews[i].created_date);
        assert(after[j].created_date == ui.reviews[j].created_date);
    }
}

/// Every step of a session leaves it well formed: after any key and after
/// any result, the reviews are newest first, the selection names one of
/// them, and the cursor is within the text under edit.
pub proof fn lemma_steps_keep_well_formed(
    ui: UiView,
    key: KeyEvent,
    has_more: bool,
    response: Result<Option<ReviewResponseView>, ApiErrorView>,
    draft: Result<Seq<char>, Seq<char>>,
    posted: Result<(), ApiErrorView>,
    reviews: Result<Seq<ReviewView>, ApiErrorView>,
)
    requires
        ui.wf(),
    ensures
        ui.key(key, has_more).0.wf(),
        ui.fetched(response).0.wf(),
        ui.generated(draft).wf(),
        ui.submitted(posted).wf(),
        ui.refreshed(reviews).wf(),
        ui.extended(reviews).wf(),
{
    lemma_typed_is_well_formed(ui.buffer, key);
    crate::editor::lemma_operations_keep_well_formed(ui.buffer, ' ', Seq::empty());
    if let Ok(r) = response {
        lemma_recorded_keeps_order(ui, r);
    }
    if let Ok(rs) = reviews {
        lemma_ordered_is_stable(rs);
        lemma_ordered_is_stable(ui.reviews + rs);
    }
}

/// How a draft comes about.
#[derive(Debug, PartialEq, Eq)]
pub enum Draft {
    /// The assistant is to be asked this.
    Ask(ChatRequest),
    /// The draft is this text.
    Ready(String),
}

/// What a `Draft` holds.
pub enum DraftView {
    Ask(ChatRequestView),
    Ready(Seq<char>),
}

impl View for Draft {
    type V = DraftView;

    open spec fn view(&self) -> DraftView {
        match self {
            Draft::Ask(request) => DraftView::Ask(request@),
            Draft::Ready(text) => DraftView::Ready(text@),
        }
    }
}

impl UiView {
    /// How the draft of a response to the selected review comes about: the
    /// assistant is asked about the review, and where there is no assistant
    /// or no review the draft is a text of thanks.
    pub open spec fn draft(self) -> DraftView {
        match (self.assistant, self.selected()) {
            (Some(assistant), Some(review)) => DraftView::Ask(chat_request(assistant, review)),
            _ => DraftView::Ready(fallback_text(self.selected())),
        }
    }
}

/// The plain form of the result of a lookup.
pub open spec fn lookup_view(r: Result<Option<ReviewResponse>, ApiError>) -> Result<
    Option<ReviewResponseView>,
    ApiErrorView,
> {
    match r {
        Ok(response) => Ok(response.deep_view()),
        Err(e) => Err(e@),
    }
}

/// The plain form of the result of the assistant.
pub open spec fn draft_view(r: Result<String, String>) -> Result<Seq<char>, Seq<char>> {
    match r {
        Ok(text) => Ok(text@),
        Err(why) => Err(why@),
    }
}

/// Applies a key to the text under edit.
pub fn apply_key(buffer: &mut CompositionBuffer, key: KeyEvent)
    requires
        old(buffer)@.wf(),
    ensures
        final(buffer)@ == typed(old(buffer)@, key),
        final(buffer)@.wf(),
{
    proof {
        lemma_typed_is_well_formed(buffer@, key);
    }
    match key.code {
        KeyCode::Enter => buffer.insert_newline(),
        KeyCode::Char(c) => {
            if c == 'b' && key.alt {
                buffer.move_word_left();
            } else if c == 'f' && key.alt {
                buffer.move_word_right();
            } else if c == 'w' && (key.alt || key.control) {
                buffer.delete_prev_word();
            } else if c == 'd' && key.alt {
                buffer.delete_next_word();
            } else if c == '\u{17}' {
                buffer.delete_prev_word();
            } else if c == '\u{7f}' && key.alt {
                buffer.delete_prev_word();
            } else {
                buffer.insert_char(c);
            }
        },
        KeyCode::Left => {
            if key.alt {
                buffer.move_word_left();
            } else if key.control {
                buffer.move_home();
            } else {
                buffer.move_left();
            }
        },
        KeyCode::Right => {
            if key.alt {
                buffer.move_word_right();
            } else if key.control {
                buffer.move_end();
            } else {
                buffer.move_right();
            }
        },
        KeyCode::Home => buffer.move_home(),
        KeyCode::End => buffer.move_end(),
        KeyCode::Backspace => {
            if key.alt {
                buffer.delete_prev_word();
            } else {
                buffer.backspace();
            }
        },
        KeyCode::Delete => buffer.delete_forward(),
        _ => {},
    }
}

/// The session controller.
#[derive(Debug, PartialEq, Eq)]
pub struct ReviewUI {
    config: Config,
    ai_generator: Option<AIResponseGenerator>,
    reviews: Vec<Review>,
    selected_review: Option<usize>,
    state: AppState,
    buffer: CompositionBuffer,
    input_mode: InputMode,
    ai_generated_response: Option<String>,
    loading: bool,
    error_message: Option<String>,
    pending: Pending,
}

/// The view of an optional assistant.
pub open spec fn assistant_view(g: Option<AIResponseGenerator>) -> Option<AIConfigView> {
    match g {
        Some(generator) => Some(generator@),
        None => None,
    }
}

impl View for ReviewUI {
    type V = UiView;

    closed spec fn view(&self) -> UiView {
        UiView {
            platform: self.config.platform,
            assistant: assistant_view(self.ai_generator),
            reviews: self.reviews.deep_view(),
            selected_review: self.selected_review,
            state: self.state,
            buffer: self.buffer@,
            input_mode: self.input_mode,
            ai_generated_response: self.ai_generated_response.deep_view(),
            loading: self.loading,
            error_message: self.error_message.deep_view(),
            pending: self.pending,
        }
    }
}

fn limit_of(platform: Platform) -> (l: Option<usize>)
    ensures
        l == character_limit(platform),
{
    match platform {
        Platform::Android => Some(350),
        Platform::Ios => None,
    }
}

fn report(lead: &str, error: &ApiError) -> (m: Option<String>)
    ensures
        m.deep_view() == reported(lead@, error@),
{
    Some(join(lead, error.message.as_str()))
}

impl ReviewUI {
    /// A session that starts with the reviews first loaded.
    pub fn new(config: Config, reviews: Vec<Review>) -> (ui: ReviewUI)
        ensures
            ui@ == UiView::started(config@, reviews.deep_view()),
            ui@.wf(),
    {
        proof {
            lemma_ordered_is_stable(reviews.deep_view());
        }
        let ai_generator = match &config.openai_api_key {
            Some(key) => match AIResponseGenerator::new(AIConfig::with_api_key(key.clone())) {
                Ok(generator) => Some(generator),
                Err(_) => None,
            },
            None => None,
        };
        let selected_review = if reviews.len() == 0 {
            None
        } else {
            Some(0)
        };
        let buffer = CompositionBuffer::new(limit_of(config.platform));
        ReviewUI {
            ai_generator,
            reviews: sort_newest_first(reviews),
            selected_review,
            state: AppState::ViewingReviews,
            buffer,
            input_mode: InputMode::Manual,
            ai_generated_response: None,
            loading: false,
            error_message: None,
            pending: Pending::Nothing,
            config,
        }
    }

    /// The most characters that a response may have, if the platform sets a
    /// limit.
    pub fn get_character_limit(&self) -> (l: Option<usize>)
        ensures
            l == character_limit(self@.platform),
    {
        limit_of(self.config.platform)
    }

    /// What the session shows.
    pub fn state(&self) -> (s: AppState)
        ensures
            s == self@.state,
    {
        self.state
    }

    /// Where the text under edit came from.
    pub fn input_mode(&self) -> (m: InputMode)
        ensures
            m == self@.input_mode,
    {
        self.input_mode
    }

    /// The operation whose result the session waits for.
    pub fn pending(&self) -> (p: Pending)
        ensures
            p == self@.pending,
    {
        self.pending
    }

    /// Whether a store operation is under way.
    pub fn is_loading(&self) -> (l: bool)
        ensures
            l == self@.loading,
    {
        self.loading
    }

    /// The reviews on screen.
    pub fn reviews(&self) -> (r: &Vec<Review>)
        ensures
            r.deep_view() == self@.reviews,
    {
        &self.reviews
    }

    /// The offset of the selected review.
    pub fn selected_review(&self) -> (i: Option<usize>)
        ensures
            i == self@.selected_review,
    {
        self.selected_review
    }

    /// The text under edit.
    pub fn buffer(&self) -> (b: &CompositionBuffer)
        ensures
            b@ == self@.buffer,
    {
        &self.buffer
    }

    /// The text under edit with `marker` shown at the cursor.
    pub fn format_text_with_cursor(&self, marker: char) -> (s: String)
        requires
            self@.wf(),
        ensures
            s@ == self@.buffer.marked(marker),
    {
        self.buffer.format_text_with_cursor(marker)
    }

    /// The selected review.
    pub fn selected(&self) -> (r: Option<&Review>)
        ensures
            r.deep_view() == self@.selected(),
    {
        match self.selected_review {
            Some(i) => {
                if i < self.reviews.len() {
                    assert(self.reviews.deep_view()[i as int] == self.reviews@[i as int]@);
                    Some(&self.reviews[i])
                } else {
                    None
                }
            },
            None => None,
        }
    }

    /// The title of the input for the response under edit.
    pub fn input_title(&self) -> (s: String)
        ensures
            s@ == crate::screen::input_title(
                character_limit(self@.platform),
                self@.buffer.text.len() as usize,
                self@.input_mode,
                self@.selected() matches Some(r) && r.response is Some,
            ),
    {
        let has_response = match self.selected() {
            Some(r) => r.response.is_some(),
            None => false,
        };
        crate::screen::response_input_title(
            limit_of(self.config.platform),
            self.buffer.len(),
            self.input_mode,
            has_response,
        )
    }

    /// Hands out the status message, which is shown once.
    pub fn take_message(&mut self) -> (m: Option<String>)
        ensures
            m.deep_view() == old(self)@.error_message,
            final(self)@ == (UiView { error_message: None, ..old(self)@ }),
    {
        self.error_message.take()
    }

    fn wait_for(&mut self, pending: Pending)
        ensures
            final(self)@ == old(self)@.waiting(pending),
    {
        self.loading = true;
        self.pending = pending;
    }

    fn settle(&mut self, message: Option<String>)
        ensures
            final(self)@ == old(self)@.settled(message.deep_view()),
    {
        self.loading = false;
        self.pending = Pending::Nothing;
        self.error_message = message;
    }

    fn dismiss(&mut self)
        ensures
            final(self)@ == old(self)@.dismissed(),
    {
        self.state = AppState::ViewingReviews;
        self.buffer.clear();
        self.ai_generated_response = None;
    }

    fn open(&mut self, pending: Pending) -> (action: Option<UIAction>)
        ensures
            (final(self)@, action.deep_view()) == old(self)@.open(pending),
    {
        match self.selected_review {
            Some(i) => {
                if i < self.reviews.len() {
                    assert(self.reviews.deep_view()[i as int] == self.reviews@[i as int]@);
                    let review_id = self.reviews[i].id.clone();
                    self.wait_for(pending);
                    Some(UIAction::FetchResponse { review_id })
                } else {
                    None
                }
            },
            None => None,
        }
    }

    fn browse(&mut self, key: KeyEvent, has_more: bool) -> (action: Option<UIAction>)
        ensures
            (final(self)@, action.deep_view()) == old(self)@.browse(key, has_more),
    {
        match key.code {
            KeyCode::Char(c) => {
                if c == 'q' {
                    Some(UIAction::Quit)
                } else if c == 'r' {
                    self.wait_for(Pending::Refreshing);
                    Some(UIAction::Refresh)
                } else if c == 'l' {
                    if has_more {
                        self.wait_for(Pending::LoadingMore);
                        Some(UIAction::LoadMore)
                    } else {
                        None
                    }
                } else if c == 'a' {
                    self.open(Pending::Assisting)
                } else {
                    None
                }
            },
            KeyCode::Up => {
                match self.selected_review {
                    Some(i) => {
                        if i > 0 {
                            self.selected_review = Some(i - 1);
                        }
                    },
                    None => {},
                }
                None
            },
            KeyCode::Down => {
                match self.selected_review {
                    Some(i) => {
                        if i < self.reviews.len() && i + 1 < self.reviews.len() {
                            self.selected_review = Some(i + 1);
                        }
                    },
                    None => {},
                }
                None
            },
            KeyCode::Enter => self.open(Pending::Opening),
            _ => None,
        }
    }

    fn write(&mut self, key: KeyEvent)
        requires
            old(self)@.buffer.wf(),
        ensures
            final(self)@ == old(self)@.write(key),
    {
        match key.code {
            KeyCode::Esc => {
                self.dismiss();
                return ;
            },
            KeyCode::Char(c) => {
                if c == 's' && key.control {
                    if !self.buffer.is_blank() {
                        self.state = AppState::ConfirmingResponse;
                    }
                    return ;
                }
            },
            _ => {},
        }
        apply_key(&mut self.buffer, key);
    }

    fn confirm(&mut self, key: KeyEvent) -> (action: Option<UIAction>)
        ensures
            (final(self)@, action.deep_view()) == old(self)@.confirm(key),
    {
        match key.code {
            KeyCode::Char(c) => {
                if c == 'y' || c == 'Y' {
                    let action = match self.selected_review {
                        Some(i) => {
                            if i < self.reviews.len() {
                                assert(self.reviews.deep_view()[i as int] == self.reviews@[i as int]@);
                                Some(
                                    UIAction::Submit {
                                        review_id: self.reviews[i].id.clone(),
                                        response_body: self.buffer.text(),
                                    },
                                )
                            } else {
                                None
                            }
                        },
                        None => None,
                    };
                    self.dismiss();
                    if action.is_some() {
                        self.loading = true;
                        self.pending = Pending::Submitting;
                    }
                    action
                } else if c == 'n' || c == 'N' {
                    self.state = AppState::WritingResponse;
                    None
                } else {
                    None
                }
            },
            KeyCode::Esc => {
                self.state = AppState::WritingResponse;
                None
            },
            _ => None,
        }
    }

    /// Takes a key press and says what to do about it, if anything.
    pub fn handle_input(&mut self, key: KeyEvent, has_more: bool) -> (action: Option<UIAction>)
        requires
            old(self)@.wf(),
        ensures
            (final(self)@, action.deep_view()) == old(self)@.key(key, has_more),
            final(self)@.wf(),
    {
        proof {
            let e = ApiErrorView { kind: crate::http::ErrorKind::Protocol, message: Seq::empty() };
            lemma_steps_keep_well_formed(self@, key, has_more, Err(e), Err(e.message), Err(e), Err(e));
        }
        match self.pending {
            Pending::Nothing => {},
            _ => {
                return None;
            },
        }
        match self.state {
            AppState::ViewingReviews => self.browse(key, has_more),
            AppState::WritingResponse => {
                self.write(key);
                None
            },
            AppState::ConfirmingResponse => self.confirm(key),
            AppState::GeneratingAI => None,
        }
    }

    fn record(&mut self, response: Option<ReviewResponse>)
        ensures
            final(self)@ == old(self)@.recorded(response.deep_view()),
    {
        match self.selected_review {
            Some(i) => {
                if i < self.reviews.len() {
                    let ghost before = self.reviews.deep_view();
                    let mut review = self.reviews.remove(i);
                    assert(review@ == before[i as int]);
                    review.response = response;
                    self.reviews.insert(i, review);
                    assert(self.reviews.deep_view() =~= before.update(
                        i as int,
                        answered(before[i as int], response.deep_view()),
                    ));
                }
            },
            None => {},
        }
    }

    fn draft_with(&mut self, text: String)
        ensures
            final(self)@ == old(self)@.drafted(text@),
    {
        self.buffer.set_text(text.as_str());
        self.ai_generated_response = Some(self.buffer.text());
        self.state = AppState::WritingResponse;
        self.settle(None);
    }

    /// How the draft of a response to the selected review comes about.
    pub fn generate_ai_response(&self) -> (d: Draft)
        ensures
            d@ == self@.draft(),
    {
        let review = self.selected();
        match (&self.ai_generator, review) {
            (Some(generator), Some(r)) => Draft::Ask(generator.generate_response(r)),
            _ => Draft::Ready(fallback_response(review)),
        }
    }

    /// Takes the result of the lookup of the selected review's response.
    pub fn response_fetched(&mut self, result: Result<Option<ReviewResponse>, ApiError>) -> (action: Option<
        UIAction,
    >)
        requires
            old(self)@.wf(),
        ensures
            (final(self)@, action.deep_view()) == old(self)@.fetched(lookup_view(result)),
            final(self)@.wf(),
    {
        proof {
            let e = ApiErrorView { kind: crate::http::ErrorKind::Protocol, message: Seq::empty() };
            let key = KeyEvent { code: KeyCode::Other, control: false, alt: false };
            lemma_steps_keep_well_formed(self@, key, false, lookup_view(result), Err(e.message), Err(e), Err(e));
        }
        let assisted = match self.pending {
            Pending::Opening => false,
            Pending::Assisting => true,
            _ => {
                return None;
            },
        };
        match result {
            Err(e) => {
                self.settle(report("Failed to fetch response data: ", &e));
                None
            },
            Ok(response) => {
                self.record(response);
                if !assisted {
                    self.state = AppState::WritingResponse;
                    self.input_mode = InputMode::Manual;
                    self.buffer.clear();
                    self.ai_generated_response = None;
                    self.settle(None);
                    None
                } else {
                    self.input_mode = InputMode::AI;
                    match self.generate_ai_response() {
                        Draft::Ask(request) => {
                            self.state = AppState::GeneratingAI;
                            self.pending = Pending::Generating;
                            Some(UIAction::Generate { request })
                        },
                        Draft::Ready(text) => {
                            self.draft_with(text);
                            None
                        },
                    }
                }
            },
        }
    }

    /// Takes the assistant's answer, or the reason why there is none.
    pub fn response_generated(&mut self, result: Result<String, String>)
        requires
            old(self)@.wf(),
        ensures
            final(self)@ == old(self)@.generated(draft_view(result)),
            final(self)@.wf(),
    {
        proof {
            let e = ApiErrorView { kind: crate::http::ErrorKind::Protocol, message: Seq::empty() };
            let key = KeyEvent { code: KeyCode::Other, control: false, alt: false };
            lemma_steps_keep_well_formed(self@, key, false, Err(e), draft_view(result), Err(e), Err(e));
        }
        match self.pending {
            Pending::Generating => {},
            _ => {
                return ;
            },
        }
        match result {
            Ok(text) => self.draft_with(text),
            Err(why) => {
                let text = fallback_response(self.selected());
                self.draft_with(text);
                self.error_message = Some(join("Failed to generate AI response: ", why.as_str()));
            },
        }
    }

    /// Takes the result of the posting of a response.
    pub fn response_submitted(&mut self, result: Result<(), ApiError>)
        requires
            old(self)@.wf(),
        ensures
            final(self)@ == old(self)@.submitted(crate::replies::unit_view(result)),
            final(self)@.wf(),
    {
        match self.pending {
            Pending::Submitting => {},
            _ => {
                return ;
            },
        }
        match result {
            Ok(_) => self.settle(Some(String::from_str("Response submitted successfully!"))),
            Err(e) => self.settle(report("Failed to submit response: ", &e)),
        }
    }

    /// Takes the reviews loaded anew, or the failure to load them.
    pub fn reviews_refreshed(&mut self, result: Result<Vec<Review>, ApiError>)
        requires
            old(self)@.wf(),
        ensures
            final(self)@ == old(self)@.refreshed(crate::replies::reviews_view(result)),
            final(self)@.wf(),
    {
        proof {
            let e = ApiErrorView { kind: crate::http::ErrorKind::Protocol, message: Seq::empty() };
            let key = KeyEvent { code: KeyCode::Other, control: false, alt: false };
            lemma_steps_keep_well_formed(
                self@,
                key,
                false,
                Err(e),
                Err(e.message),
                Err(e),
                crate::replies::reviews_view(result),
            );
        }
        match self.pending {
            Pending::Refreshing => {},
            _ => {
                return ;
            },
        }
        match result {
            Ok(reviews) => {
                self.selected_review = if reviews.len() == 0 {
                    None
                } else {
                    Some(0)
                };
                self.reviews = sort_newest_first(reviews);
                self.settle(None);
            },
            Err(e) => self.settle(report("Failed to refresh reviews: ", &e)),
        }
    }

    /// Takes the further reviews loaded, or the failure to load them.
    pub fn more_reviews_loaded(&mut self, result: Result<Vec<Review>, ApiError>)
        requires
            old(self)@.wf(),
        ensures
            final(self)@ == old(self)@.extended(crate::replies::reviews_view(result)),
            final(self)@.wf(),
    {
        proof {
            let e = ApiErrorView { kind: crate::http::ErrorKind::Protocol, message: Seq::empty() };
            let key = KeyEvent { code: KeyCode::Other, control: false, alt: false };
            lemma_steps_keep_well_formed(
                self@,
                key,
                false,
                Err(e),
                Err(e.message),
                Err(e),
                crate::replies::reviews_view(result),
            );
        }
        match self.pending {
            Pending::LoadingMore => {},
            _ => {
                return ;
            },
        }
        match result {
            Ok(reviews) => {
                let mut more = reviews;
                let ghost before = self.reviews.deep_view();
                let ghost added = more.deep_view();
                let mut all: Vec<Review> = Vec::new();
                core::mem::swap(&mut self.reviews, &mut all);
                all.append(&mut more);
                assert(all.deep_view() =~= before + added);
                self.reviews = sort_newest_first(all);
                self.settle(None);
            },
            Err(e) => self.settle(report("Failed to load more reviews: ", &e)),
        }
    }
}

} // verus!
