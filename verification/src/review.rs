//! Reviews, developer responses and the shape of a store's review listing.

use vstd::prelude::*;
use crate::time::Timestamp;

verus! {

/// Whether a developer response is visible to end users yet.
#[derive(Clone, Copy, Debug, PartialEq, Eq, Structural)]
pub enum ResponseState {
    Published,
    Pending,
}

/// The developer's response to a review, as the store reports it.
#[derive(Debug, PartialEq, Eq)]
pub struct ReviewResponse {
    pub id: String,
    pub response_body: String,
    pub last_modified_date: Timestamp,
    pub state: ResponseState,
}

/// What a `ReviewResponse` holds.
pub struct ReviewResponseView {
    pub id: Seq<char>,
    pub response_body: Seq<char>,
    pub last_modified_date: Timestamp,
    pub state: ResponseState,
}

impl View for ReviewResponse {
    type V = ReviewResponseView;

    open spec fn view(&self) -> ReviewResponseView {
        ReviewResponseView {
            id: self.id@,
            response_body: self.response_body@,
            last_modified_date: self.last_modified_date,
            state: self.state,
        }
    }
}

impl DeepView for ReviewResponse {
    type V = ReviewResponseView;

    open spec fn deep_view(&self) -> ReviewResponseView {
        self@
    }
}

impl Clone for ReviewResponse {
    fn clone(&self) -> (r: ReviewResponse)
        ensures
            r@ == self@,
    {
        ReviewResponse {
            id: self.id.clone(),
            response_body: self.response_body.clone(),
            last_modified_date: self.last_modified_date,
            state: self.state,
        }
    }
}

/// A rating is a number of stars from one to five.
pub open spec fn valid_rating(stars: int) -> bool {
    1 <= stars <= 5
}

/// One end-user review.
#[derive(Debug, PartialEq, Eq)]
pub struct Review {
    pub id: String,
    pub rating: i32,
    pub title: Option<String>,
    pub body: Option<String>,
    pub reviewer_nickname: String,
    pub created_date: Timestamp,
    pub territory: String,
    pub version: Option<String>,
    pub response: Option<ReviewResponse>,
}

/// What a `Review` holds.
pub struct ReviewView {
    pub id: Seq<char>,
    pub rating: i32,
    pub title: Option<Seq<char>>,
    pub body: Option<Seq<char>>,
    pub reviewer_nickname: Seq<char>,
    pub created_date: Timestamp,
    pub territory: Seq<char>,
    pub version: Option<Seq<char>>,
    pub response: Option<ReviewResponseView>,
}

impl View for Review {
    type V = ReviewView;

    open spec fn view(&self) -> ReviewView {
        ReviewView {
            id: self.id@,
            rating: self.rating,
            title: self.title.deep_view(),
            body: self.body.deep_view(),
            reviewer_nickname: self.reviewer_nickname@,
            created_date: self.created_date,
            territory: self.territory@,
            version: self.version.deep_view(),
            response: self.response.deep_view(),
        }
    }
}

impl DeepView for Review {
    type V = ReviewView;

    open spec fn deep_view(&self) -> ReviewView {
        self@
    }
}

/// A copy of an optional string.
pub fn clone_text(text: &Option<String>) -> (r: Option<String>)
    ensures
        r.deep_view() == text.deep_view(),
{
    match text {
        Some(s) => Some(s.clone()),
        None => None,
    }
}

impl Clone for Review {
    fn clone(&self) -> (r: Review)
        ensures
            r@ == self@,
    {
        let response = match &self.response {
            Some(resp) => Some(resp.clone()),
            None => None,
        };
        Review {
            id: self.id.clone(),
            rating: self.rating,
            title: clone_text(&self.title),
            body: clone_text(&self.body),
            reviewer_nickname: self.reviewer_nickname.clone(),
            created_date: self.created_date,
            territory: self.territory.clone(),
            version: clone_text(&self.version),
            response,
        }
    }
}

/// The JSON:API type and identifier of a response resource.
#[derive(Debug, PartialEq, Eq)]
pub struct ResponseData {
    pub id: String,
    pub type_: String,
}

/// What a `ResponseData` holds.
pub struct ResponseDataView {
    pub id: Seq<char>,
    pub type_: Seq<char>,
}

impl View for ResponseData {
    type V = ResponseDataView;

    open spec fn view(&self) -> ResponseDataView {
        ResponseDataView { id: self.id@, type_: self.type_@ }
    }
}

impl DeepView for ResponseData {
    type V = ResponseDataView;

    open spec fn deep_view(&self) -> ResponseDataView {
        self@
    }
}

/// The link from a review to its response, if it has one.
#[derive(Debug, PartialEq, Eq)]
pub struct ResponseRelationship {
    pub data: Option<ResponseData>,
}

/// What a `ResponseRelationship` holds.
pub struct ResponseRelationshipView {
    pub data: Option<ResponseDataView>,
}

impl View for ResponseRelationship {
    type V = ResponseRelationshipView;

    open spec fn view(&self) -> ResponseRelationshipView {
        ResponseRelationshipView { data: self.data.deep_view() }
    }
}

impl DeepView for ResponseRelationship {
    type V = ResponseRelationshipView;

    open spec fn deep_view(&self) -> ResponseRelationshipView {
        self@
    }
}

/// The relationships of a review resource.
#[derive(Debug, PartialEq, Eq)]
pub struct ReviewRelationships {
    pub response: Option<ResponseRelationship>,
}

/// What a `ReviewRelationships` holds.
pub struct ReviewRelationshipsView {
    pub response: Option<ResponseRelationshipView>,
}

impl View for ReviewRelationships {
    type V = ReviewRelationshipsView;

    open spec fn view(&self) -> ReviewRelationshipsView {
        ReviewRelationshipsView { response: self.response.deep_view() }
    }
}

impl DeepView for ReviewRelationships {
    type V = ReviewRelationshipsView;

    open spec fn deep_view(&self) -> ReviewRelationshipsView {
        self@
    }
}

/// The attributes of a review resource.
#[derive(Debug, PartialEq, Eq)]
pub struct ReviewAttributes {
    pub rating: i32,
    pub title: Option<String>,
    pub body: Option<String>,
    pub reviewer_nickname: String,
    pub created_date: Timestamp,
    pub territory: String,
}

/// What a `ReviewAttributes` holds.
pub struct ReviewAttributesView {
    pub rating: i32,
    pub title: Option<Seq<char>>,
    pub body: Option<Seq<char>>,
    pub reviewer_nickname: Seq<char>,
    pub created_date: Timestamp,
    pub territory: Seq<char>,
}

impl View for ReviewAttributes {
    type V = ReviewAttributesView;

    open spec fn view(&self) -> ReviewAttributesView {
        ReviewAttributesView {
            rating: self.rating,
            title: self.title.deep_view(),
            body: self.body.deep_view(),
            reviewer_nickname: self.reviewer_nickname@,
            created_date: self.created_date,
            territory: self.territory@,
        }
    }
}

/// One review resource of a listing.
#[derive(Debug, PartialEq, Eq)]
pub struct ReviewData {
    pub id: String,
    pub type_: String,
    pub attributes: ReviewAttributes,
    pub relationships: Option<ReviewRelationships>,
}

/// What a `ReviewData` holds.
pub struct ReviewDataView {
    pub id: Seq<char>,
    pub type_: Seq<char>,
    pub attributes: ReviewAttributesView,
    pub relationships: Option<ReviewRelationshipsView>,
}

impl View for ReviewData {
    type V = ReviewDataView;

    open spec fn view(&self) -> ReviewDataView {
        ReviewDataView {
            id: self.id@,
            type_: self.type_@,
            attributes: self.attributes@,
            relationships: self.relationships.deep_view(),
        }
    }
}

impl DeepView for ReviewData {
    type V = ReviewDataView;

    open spec fn deep_view(&self) -> ReviewDataView {
        self@
    }
}

/// The links of a listing.
#[derive(Debug, PartialEq, Eq)]
pub struct Links {
    pub self_: Option<String>,
    pub next: Option<String>,
}

/// What a `Links` holds.
pub struct LinksView {
    pub self_: Option<Seq<char>>,
    pub next: Option<Seq<char>>,
}

impl View for Links {
    type V = LinksView;

    open spec fn view(&self) -> LinksView {
        LinksView { self_: self.self_.deep_view(), next: self.next.deep_view() }
    }
}

impl DeepView for Links {
    type V = LinksView;

    open spec fn deep_view(&self) -> LinksView {
        self@
    }
}

/// The paging figures of a listing.
#[derive(Clone, Copy, Debug, PartialEq, Eq, Structural)]
pub struct Paging {
    pub total: i32,
    pub limit: i32,
}

/// The metadata of a listing.
#[derive(Clone, Copy, Debug, PartialEq, Eq, Structural)]
pub struct Meta {
    pub paging: Option<Paging>,
}

/// A listing of reviews as the App Store sends it.
#[derive(Debug, PartialEq, Eq)]
pub struct ReviewsResponse {
    pub data: Vec<ReviewData>,
    pub links: Option<Links>,
    pub meta: Option<Meta>,
}

/// What a `ReviewsResponse` holds.
pub struct ReviewsResponseView {
    pub data: Seq<ReviewDataView>,
    pub links: Option<LinksView>,
    pub meta: Option<Meta>,
}

impl View for ReviewsResponse {
    type V = ReviewsResponseView;

    open spec fn view(&self) -> ReviewsResponseView {
        ReviewsResponseView { data: self.data.deep_view(), links: self.links.deep_view(), meta: self.meta }
    }
}

/// The review that a resource of a listing describes: its identifier and
/// attributes, no version and no response yet.
pub open spec fn review_of(data: ReviewDataView) -> ReviewView {
    ReviewView {
        id: data.id,
        rating: data.attributes.rating,
        title: data.attributes.title,
        body: data.attributes.body,
        reviewer_nickname: data.attributes.reviewer_nickname,
        created_date: data.attributes.created_date,
        territory: data.attributes.territory,
        version: None,
        response: None,
    }
}

impl vstd::std_specs::convert::FromSpecImpl<ReviewData> for Review {
    open spec fn obeys_from_spec() -> bool {
        true
    }

    open spec fn from_spec(data: ReviewData) -> Review {
        Review {
            id: data.id,
            rating: data.attributes.rating,
            title: data.attributes.title,
            body: data.attributes.body,
            reviewer_nickname: data.attributes.reviewer_nickname,
            created_date: data.attributes.created_date,
            territory: data.attributes.territory,
            version: None,
            response: None,
        }
    }
}

impl From<ReviewData> for Review {
    fn from(data: ReviewData) -> (r: Review) {
        Review {
            id: data.id,
            rating: data.attributes.rating,
            title: data.attributes.title,
            body: data.attributes.body,
            reviewer_nickname: data.attributes.reviewer_nickname,
            created_date: data.attributes.created_date,
            territory: data.attributes.territory,
            version: None,
            response: None,
        }
    }
}

/// The reviews of a listing, in its order.
pub fn reviews_of(listing: ReviewsResponse) -> (reviews: Vec<Review>)
    ensures
        reviews.deep_view() == listing@.data.map_values(|d: ReviewDataView| review_of(d)),
{
    let ghost all = listing@.data;
    let mut data = listing.data;
    let mut reversed: Vec<Review> = Vec::new();
    while data.len() > 0
        invariant
            data.deep_view() == all.take(data@.len() as int),
            data@.len() <= all.len(),
            reversed@.len() == all.len() - data@.len(),
            forall|i: int|
                0 <= i < reversed@.len() ==> (#[trigger] reversed@[i])@ == review_of(all[all.len() - 1 - i]),
        decreases data@.len(),
    {
        let ghost before = data.deep_view();
        let d = data.pop().unwrap();
        assert(d@ == before[before.len() - 1]);
        assert(data.deep_view() =~= all.take(data@.len() as int));
        reversed.push(Review::from(d));
    }
    let mut reviews: Vec<Review> = Vec::new();
    while reversed.len() > 0
        invariant
            reversed@.len() + reviews@.len() == all.len(),
            forall|i: int|
                0 <= i < reversed@.len() ==> (#[trigger] reversed@[i])@ == review_of(all[all.len() - 1 - i]),
            forall|i: int| 0 <= i < reviews@.len() ==> (#[trigger] reviews@[i])@ == review_of(all[i]),
        decreases reversed@.len(),
    {
        let r = reversed.pop().unwrap();
        reviews.push(r);
    }
    assert(reviews.deep_view() =~= all.map_values(|d: ReviewDataView| review_of(d)));
    reviews
}

/// Every review of `s` was created at or after all those that follow it; in
/// particular each one at or after its successor.
pub open spec fn newest_first(s: Seq<ReviewView>) -> bool {
    forall|i: int, j: int|
        0 <= i < j < s.len() ==> (#[trigger] s[j]).created_date.not_after((#[trigger] s[i]).created_date)
}

/// `out` holds the reviews of `input`, the one at `i` taken from offset
/// `p[i]`, each offset of `input` used once.
pub open spec fn rearranged(input: Seq<ReviewView>, out: Seq<ReviewView>, p: Seq<int>) -> bool {
    &&& p.len() == input.len()
    &&& out.len() == input.len()
    &&& forall|i: int| 0 <= i < p.len() ==> 0 <= #[trigger] p[i] < input.len() && out[i] == input[p[i]]
    &&& forall|i: int, j: int| 0 <= i < j < p.len() ==> #[trigger] p[i] != #[trigger] p[j]
}

/// `out` is `input` rearranged by `p` so that later reviews come first and
/// reviews created at the same instant keep the order they had in `input`.
pub open spec fn stably_ordered(input: Seq<ReviewView>, out: Seq<ReviewView>, p: Seq<int>) -> bool {
    &&& rearranged(input, out, p)
    &&& forall|i: int, j: int|
        0 <= i < j < p.len() ==> {
            ||| !(#[trigger] out[i]).created_date.not_after((#[trigger] out[j]).created_date)
            ||| (out[i].created_date == out[j].created_date && p[i] < p[j])
        }
}

/// `out` is the stable newest-first ordering of `input`.
pub open spec fn sorted_from(input: Seq<ReviewView>, out: Seq<ReviewView>) -> bool {
    exists|p: Seq<int>| stably_ordered(input, out, p)
}

/// The first offset from `from` on whose review was created at or before
/// `date`; the length of `s` where there is none.
pub open spec fn first_not_after(s: Seq<ReviewView>, date: Timestamp, from: int) -> int
    decreases s.len() - from,
{
    if from < 0 || from >= s.len() || s[from].created_date.not_after(date) {
        from
    } else {
        first_not_after(s, date, from + 1)
    }
}

/// The reviews of `s` newest first, those created at the same instant in the
/// order they have in `s`: the first review is put in among the others,
/// ordered, before the first that is no later than it.
pub open spec fn ordered(s: Seq<ReviewView>) -> Seq<ReviewView>
    decreases s.len(),
{
    if s.len() == 0 {
        s
    } else {
        let rest = ordered(s.skip(1));
        rest.insert(first_not_after(rest, s[0].created_date, 0), s[0])
    }
}

/// A stable ordering is newest first.
pub proof fn lemma_stably_ordered_is_newest_first(input: Seq<ReviewView>, out: Seq<ReviewView>, p: Seq<int>)
    requires
        stably_ordered(input, out, p),
    ensures
        newest_first(out),
{
    assert forall|i: int, j: int| 0 <= i < j < out.len() implies (#[trigger] out[j]).created_date.not_after(
        (#[trigger] out[i]).created_date,
    ) by {
        assert(!out[i].created_date.not_after(out[j].created_date) || (out[i].created_date
            == out[j].created_date && p[i] < p[j]));
    }
}

/// Orders reviews newest first; reviews created at the same instant keep
/// their relative order.
pub fn sort_newest_first(reviews: Vec<Review>) -> (sorted: Vec<Review>)
    ensures
        sorted.deep_view() == ordered(reviews.deep_view()),
        sorted_from(reviews.deep_view(), sorted.deep_view()),
        newest_first(sorted.deep_view()),
{
    let ghost input = reviews.deep_view();
    let mut rest = reviews;
    let mut out: Vec<Review> = Vec::new();
    let ghost mut p: Seq<int> = Seq::empty();
    assert(input.skip(input.len() as int) =~= Seq::empty());
    assert(out.deep_view() =~= Seq::empty());
    while rest.len() > 0
        invariant
            rest.deep_view() == input.take(rest@.len() as int),
            rest@.len() <= input.len(),
            out@.len() == input.len() - rest@.len(),
            out.deep_view() == ordered(input.skip(rest@.len() as int)),
            p.len() == out@.len(),
            forall|i: int|
                0 <= i < p.len() ==> rest@.len() <= #[trigger] p[i] < input.len() && out.deep_view()[i]
                    == input[p[i]],
            forall|i: int, j: int| 0 <= i < j < p.len() ==> #[trigger] p[i] != #[trigger] p[j],
            forall|i: int, j: int|
                0 <= i < j < p.len() ==> {
                    ||| !(#[trigger] out.deep_view()[i]).created_date.not_after(
                        (#[trigger] out.deep_view()[j]).created_date,
                    )
                    ||| (out.deep_view()[i].created_date == out.deep_view()[j].created_date && p[i] < p[j])
                },
        decreases rest@.len(),
    {
        let ghost k = rest@.len() - 1;
        let ghost remaining = rest.deep_view();
        let x = rest.pop().unwrap();
        assert(x@ == remaining[k]);
        assert(x@ == input[k]);
        assert(rest.deep_view() =~= input.take(k));
        let ghost before = out.deep_view();
        let mut pos: usize = 0;
        while pos < out.len() && !out[pos].created_date.at_or_before(&x.created_date)
            invariant
                pos <= out@.len(),
                before == out.deep_view(),
                first_not_after(before, x@.created_date, pos as int) == first_not_after(
                    before,
                    x@.created_date,
                    0,
                ),
                forall|i: int| 0 <= i < pos ==> !(#[trigger] before[i]).created_date.not_after(x@.created_date),
            decreases out@.len() - pos,
        {
            assert(before[pos as int] == out@[pos as int]@);
            pos += 1;
        }
        assert(pos < out@.len() ==> before[pos as int] == out@[pos as int]@);
        assert(pos == first_not_after(before, x@.created_date, 0));
        let ghost q = p;
        out.insert(pos, x);
        proof {
            let after = out.deep_view();
            assert(after =~= before.insert(pos as int, x@));
            assert(input.skip(k).skip(1) =~= input.skip(k + 1));
            assert(input.skip(k)[0] == input[k]);
            assert(after == ordered(input.skip(k)));
            p = q.insert(pos as int, k);
            assert forall|i: int| 0 <= i < p.len() implies rest@.len() <= #[trigger] p[i] < input.len()
                && after[i] == input[p[i]] by {
                if i < pos {
                    assert(p[i] == q[i]);
                    assert(after[i] == before[i]);
                } else if i > pos {
                    assert(p[i] == q[i - 1]);
                    assert(after[i] == before[i - 1]);
                }
            }
            assert forall|i: int, j: int| 0 <= i < j < p.len() implies #[trigger] p[i] != #[trigger] p[j] by {
                let a = if i < pos {
                    q[i]
                } else if i == pos {
                    k
                } else {
                    q[i - 1]
                };
                let b = if j < pos {
                    q[j]
                } else if j == pos {
                    k
                } else {
                    q[j - 1]
                };
                assert(p[i] == a && p[j] == b);
            }
            assert forall|i: int, j: int| 0 <= i < j < p.len() implies {
                ||| !(#[trigger] after[i]).created_date.not_after((#[trigger] after[j]).created_date)
                ||| (after[i].created_date == after[j].created_date && p[i] < p[j])
            } by {
                if j < pos {
                    assert(after[i] == before[i] && after[j] == before[j]);
                } else if j == pos {
                    assert(after[i] == before[i]);
                } else if i < pos {
                    assert(after[i] == before[i] && after[j] == before[j - 1]);
                    assert(p[i] == q[i] && p[j] == q[j - 1]);
                } else if i == pos {
                    assert(after[j] == before[j - 1] && p[j] == q[j - 1]);
                    assert(before[pos as int].created_date.not_after(x@.created_date));
                    if j - 1 > pos {
                        assert(!before[pos as int].created_date.not_after(before[j - 1].created_date) || (
                        before[pos as int].created_date == before[j - 1].created_date && q[pos as int] < q[j
                            - 1]));
                    }
                } else {
                    assert(after[i] == before[i - 1] && after[j] == before[j - 1]);
                    assert(p[i] == q[i - 1] && p[j] == q[j - 1]);
                }
            }
        }
    }
    proof {
        assert(input.skip(0) =~= input);
        assert(stably_ordered(input, out.deep_view(), p));
        lemma_stably_ordered_is_newest_first(input, out.deep_view(), p);
    }
    out
}

/// The ordering of any reviews is a stable newest-first ordering of them.
pub proof fn lemma_ordered_is_stable(s: Seq<ReviewView>)
    ensures
        sorted_from(s, ordered(s)),
        newest_first(ordered(s)),
        ordered(s).len() == s.len(),
    decreases s.len(),
{
    if s.len() == 0 {
        assert(stably_ordered(s, ordered(s), Seq::<int>::empty()));
    } else {
        let tail = s.skip(1);
        lemma_ordered_is_stable(tail);
        let before = ordered(tail);
        let q = choose|q: Seq<int>| stably_ordered(tail, before, q);
        let x = s[0];
        let pos = first_not_after(before, x.created_date, 0);
        lemma_first_not_after(before, x.created_date, 0);
        let after = before.insert(pos, x);
        let p = Seq::new(
            s.len(),
            |i: int|
                if i < pos {
                    q[i] + 1
                } else if i == pos {
                    0
                } else {
                    q[i - 1] + 1
                },
        );
        assert forall|i: int| 0 <= i < p.len() implies 0 <= #[trigger] p[i] < s.len() && after[i] == s[p[i]] by {
            if i < pos {
                assert(after[i] == before[i]);
                assert(before[i] == tail[q[i]]);
            } else if i > pos {
                assert(after[i] == before[i - 1]);
                assert(before[i - 1] == tail[q[i - 1]]);
            }
        }
        assert forall|i: int, j: int| 0 <= i < j < p.len() implies {
            ||| !(#[trigger] after[i]).created_date.not_after((#[trigger] after[j]).created_date)
            ||| (after[i].created_date == after[j].created_date && p[i] < p[j])
        } by {
            if j < pos {
                assert(after[i] == before[i] && after[j] == before[j]);
            } else if j == pos {
                assert(after[i] == before[i]);
            } else if i < pos {
                assert(after[i] == before[i] && after[j] == before[j - 1]);
            } else if i == pos {
                assert(after[j] == before[j - 1]);
                assert(before[pos].created_date.not_after(x.created_date));
                if j - 1 > pos {
                    assert(!before[pos].created_date.not_after(before[j - 1].created_date) || (
                    before[pos].created_date == before[j - 1].created_date && q[pos] < q[j - 1]));
                }
            } else {
                assert(after[i] == before[i - 1] && after[j] == before[j - 1]);
            }
        }
        assert forall|i: int, j: int| 0 <= i < j < p.len() implies #[trigger] p[i] != #[trigger] p[j] by {
            if i != pos && j != pos {
                let a = if i < pos {
                    i
                } else {
                    i - 1
                };
                let b = if j < pos {
                    j
                } else {
                    j - 1
                };
                assert(q[a] != q[b]);
            }
        }
        assert(stably_ordered(s, after, p));
        lemma_stably_ordered_is_newest_first(s, after, p);
    }
}

/// `first_not_after` lies at or behind `from`, all reviews between the two
/// are later than `date`, and the one it names is not.
pub proof fn lemma_first_not_after(s: Seq<ReviewView>, date: Timestamp, from: int)
    requires
        0 <= from <= s.len(),
    ensures
        from <= first_not_after(s, date, from) <= s.len(),
        forall|i: int|
            from <= i < first_not_after(s, date, from) ==> !(#[trigger] s[i]).created_date.not_after(date),
        first_not_after(s, date, from) < s.len() ==> s[first_not_after(s, date, from)].created_date.not_after(
            date,
        ),
    decreases s.len() - from,
{
    if from < s.len() && !s[from].created_date.not_after(date) {
        lemma_first_not_after(s, date, from + 1);
    }
}

} // verus!
