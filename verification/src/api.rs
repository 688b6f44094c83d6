//! One client over both stores: the session asks for reviews and responses
//! and never learns which store answers.

use vstd::prelude::*;
use vstd::string::StringExecFns;
use crate::app_store::{AppStoreConnectClient, AppStoreView};
use crate::config::{Config, Platform};
use crate::google_play::{GooglePlayClient, GooglePlayView};
use crate::http::ApiErrorView;
use crate::protocol::{
    Action, ActionView, AssertionView, Call, CallView, Event, EventView, Input, InputView,
    OutcomeView, StageView,
};
use crate::time::Timestamp;
use crate::token::mintable;

verus! {

/// The client of the store that the configuration names.
#[derive(Debug, PartialEq, Eq)]
pub enum ApiClient {
    AppStore(AppStoreConnectClient),
    GooglePlay(GooglePlayClient),
}

/// What an `ApiClient` holds.
pub enum ApiClientView {
    AppStore(AppStoreView),
    GooglePlay(GooglePlayView),
}

impl View for ApiClient {
    type V = ApiClientView;

    open spec fn view(&self) -> ApiClientView {
        match self {
            ApiClient::AppStore(client) => ApiClientView::AppStore(client@),
            ApiClient::GooglePlay(client) => ApiClientView::GooglePlay(client@),
        }
    }
}

impl ApiClientView {
    /// The client and its action after `input` at `now`: those of the
    /// adapter behind it.
    pub open spec fn step(self, input: InputView, now: Timestamp) -> (ApiClientView, ActionView) {
        match self {
            ApiClientView::AppStore(client) => (
                ApiClientView::AppStore(client.step(input, now).0),
                client.step(input, now).1,
            ),
            ApiClientView::GooglePlay(client) => (
                ApiClientView::GooglePlay(client.step(input, now).0),
                client.step(input, now).1,
            ),
        }
    }

    /// What signing may give for the key file read, by the rules of the
    /// adapter behind the client.
    pub open spec fn signing_of(
        self,
        file: Result<Seq<char>, Seq<char>>,
        now: Timestamp,
        result: Result<AssertionView, ApiErrorView>,
    ) -> bool {
        match self {
            ApiClientView::AppStore(client) => crate::app_store::signing_of(client.config, file, now, result),
            ApiClientView::GooglePlay(_) => crate::google_play::signing_of(file, result),
        }
    }

    /// Whether the store has reviews that were not loaded yet: never for the
    /// App Store, which sends all of them at once.
    pub open spec fn has_more(self) -> bool {
        match self {
            ApiClientView::AppStore(_) => false,
            ApiClientView::GooglePlay(client) => client.has_more_pages,
        }
    }

    /// The client that a configuration gives, before anything was asked of
    /// it.
    pub open spec fn fresh(config: crate::config::ConfigView) -> ApiClientView {
        match config.platform {
            Platform::Ios => ApiClientView::AppStore(
                AppStoreView { config, credential: None, stage: StageView::Idle },
            ),
            Platform::Android => ApiClientView::GooglePlay(
                GooglePlayView {
                    config,
                    credential: None,
                    next_page_token: None,
                    has_more_pages: true,
                    stage: StageView::Idle,
                    collected: Seq::empty(),
                },
            ),
        }
    }
}

/// On the App Store there is never more to load: a load is over at once with
/// an empty batch, whatever the client was doing, and leaves it at rest.
pub proof fn lemma_app_store_has_one_page(client: AppStoreView, now: Timestamp)
    ensures
        !ApiClientView::AppStore(client).has_more(),
        ApiClientView::AppStore(client).step(InputView::Begin(CallView::LoadNextPage), now) == (
            ApiClientView::AppStore(client.idle()),
            ActionView::Done(OutcomeView::Reviews(Seq::empty())),
        ),
{
}

impl ApiClient {
    /// The client for the platform of `config`.
    pub fn new(config: Config) -> (client: ApiClient)
        ensures
            client@ == ApiClientView::fresh(config@),
    {
        match config.platform {
            Platform::Ios => ApiClient::AppStore(AppStoreConnectClient::new(config)),
            Platform::Android => ApiClient::GooglePlay(GooglePlayClient::new(config)),
        }
    }

    /// Whether the store has reviews that were not loaded yet.
    pub fn has_more_reviews(&self) -> (r: bool)
        ensures
            r == self@.has_more(),
    {
        match self {
            ApiClient::AppStore(_) => false,
            ApiClient::GooglePlay(client) => client.has_more_reviews(),
        }
    }

    /// Moves the client on by `input` and says what to do next.
    pub fn advance(&mut self, input: Input, now: &Timestamp) -> (a: Action)
        requires
            mintable(*now),
        ensures
            (final(self)@, a@) == old(self)@.step(input@, *now),
    {
        match self {
            ApiClient::AppStore(client) => client.advance(input, now),
            ApiClient::GooglePlay(client) => client.advance(input, now),
        }
    }

    /// Moves the client on by what the caller hands back after an action.
    pub fn resume(&mut self, event: Event, now: &Timestamp) -> (a: Action)
        requires
            mintable(*now),
        ensures
            match event@ {
                EventView::Reply(reply) => (final(self)@, a@) == old(self)@.step(InputView::Reply(reply), *now),
                EventView::File(file) => exists|result: Result<AssertionView, ApiErrorView>|
                    old(self)@.signing_of(file, *now, result) && (final(self)@, a@) == old(self)@.step(
                        InputView::Signed(result),
                        *now,
                    ),
            },
    {
        match self {
            ApiClient::AppStore(client) => {
                let ghost before = client@;
                let a = client.resume(event, now);
                proof {
                    if let EventView::File(file) = event@ {
                        let result = choose|result: Result<AssertionView, ApiErrorView>|
                            crate::app_store::signing_of(before.config, file, *now, result) && (client@, a@) == before.step(
                                InputView::Signed(result),
                                *now,
                            );
                        assert(old(self)@.signing_of(file, *now, result) && (self@, a@) == old(self)@.step(
                            InputView::Signed(result),
                            *now,
                        ));
                    }
                }
                a
            },
            ApiClient::GooglePlay(client) => {
                let ghost before = client@;
                let a = client.resume(event, now);
                proof {
                    if let EventView::File(file) = event@ {
                        let result = choose|result: Result<AssertionView, ApiErrorView>|
                            crate::google_play::signing_of(file, result) && (client@, a@) == before.step(
                                InputView::Signed(result),
                                *now,
                            );
                        assert(old(self)@.signing_of(file, *now, result) && (self@, a@) == old(self)@.step(
                            InputView::Signed(result),
                            *now,
                        ));
                    }
                }
                a
            },
        }
    }

    /// Starts fetching reviews: all of them from the App Store, the first
    /// page from Google Play.
    pub fn get_reviews(&mut self, now: &Timestamp) -> (a: Action)
        requires
            mintable(*now),
        ensures
            (final(self)@, a@) == old(self)@.step(InputView::Begin(CallView::GetReviews), *now),
    {
        self.advance(Input::Begin(Call::GetReviews), now)
    }

    /// Starts posting `response_body` as the response to a review.
    pub fn submit_response(&mut self, review_id: &str, response_body: &str, now: &Timestamp) -> (a: Action)
        requires
            mintable(*now),
        ensures
            (final(self)@, a@) == old(self)@.step(
                InputView::Begin(
                    CallView::SubmitResponse { review_id: review_id@, response_body: response_body@ },
                ),
                *now,
            ),
    {
        self.advance(
            Input::Begin(
                Call::SubmitResponse {
                    review_id: String::from_str(review_id),
                    response_body: String::from_str(response_body),
                },
            ),
            now,
        )
    }

    /// Starts looking up the response to a review.
    pub fn get_review_response(&mut self, review_id: &str, now: &Timestamp) -> (a: Action)
        requires
            mintable(*now),
        ensures
            (final(self)@, a@) == old(self)@.step(
                InputView::Begin(CallView::GetReviewResponse { review_id: review_id@ }),
                *now,
            ),
    {
        self.advance(Input::Begin(Call::GetReviewResponse { review_id: String::from_str(review_id) }), now)
    }

    /// Starts loading more reviews. Where the store has no more, the
    /// operation is over at once with an empty batch.
    pub fn load_more_reviews(&mut self, now: &Timestamp) -> (a: Action)
        requires
            mintable(*now),
        ensures
            (final(self)@, a@) == old(self)@.step(InputView::Begin(CallView::LoadNextPage), *now),
            !old(self)@.has_more() ==> a@ == ActionView::Done(OutcomeView::Reviews(Seq::empty())),
            !old(self)@.has_more() ==> !final(self)@.has_more(),
    {
        self.advance(Input::Begin(Call::LoadNextPage), now)
    }

    /// Starts loading all reviews anew.
    pub fn refresh_all_reviews(&mut self, now: &Timestamp) -> (a: Action)
        requires
            mintable(*now),
        ensures
            (final(self)@, a@) == old(self)@.step(InputView::Begin(CallView::RefreshAll), *now),
    {
        self.advance(Input::Begin(Call::RefreshAll), now)
    }
}

} // verus!
