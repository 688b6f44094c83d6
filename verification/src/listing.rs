//! Reading an App Store review listing out of a JSON document.

use vstd::prelude::*;
use vstd::string::StringExecFns;
use crate::json::{Json, JsonView};
use crate::review::{
    valid_rating, Links, LinksView, Meta, Paging, ResponseData, ResponseDataView,
    ResponseRelationship, ResponseRelationshipView, ReviewAttributes, ReviewAttributesView,
    ReviewData, ReviewDataView, ReviewRelationships, ReviewRelationshipsView, ReviewsResponse,
    ReviewsResponseView,
};
use crate::shape::{
    is_object, member, optional_text, present, read_i32, read_optional_text, read_text,
    required_i32, required_text,
};
use crate::time::{instant_view, parse_relaxed, relaxed_instant};

verus! {

/// The plain form of the result of reading a value that has a view.
pub open spec fn shape_result<T: View>(r: Result<T, String>) -> Result<T::V, Seq<char>> {
    match r {
        Ok(v) => Ok(v@),
        Err(e) => Err(e@),
    }
}

/// The plain form of the result of reading an optional value.
pub open spec fn optional_shape<T: DeepView>(r: Result<Option<T>, String>) -> Result<Option<T::V>, Seq<char>> {
    match r {
        Ok(v) => Ok(v.deep_view()),
        Err(e) => Err(e@),
    }
}

/// The response resource that `doc` describes: its `id` and `type`.
pub open spec fn response_data_of(doc: JsonView) -> Result<ResponseDataView, Seq<char>> {
    match required_text(doc, "id"@) {
        Err(e) => Err(e),
        Ok(id) => match required_text(doc, "type"@) {
            Err(e) => Err(e),
            Ok(type_) => Ok(ResponseDataView { id, type_ }),
        },
    }
}

/// The link to a response that `doc` describes: an object whose `data`, if
/// it is there, is a response resource.
pub open spec fn response_relationship_of(doc: JsonView) -> Result<ResponseRelationshipView, Seq<char>> {
    if !(doc is Object) {
        Err("response"@)
    } else {
        match present(doc, "data"@) {
            None => Ok(ResponseRelationshipView { data: None }),
            Some(d) => match response_data_of(d) {
                Err(e) => Err(e),
                Ok(data) => Ok(ResponseRelationshipView { data: Some(data) }),
            },
        }
    }
}

/// The relationships that `doc` describes: an object whose `response`, if it
/// is there, is a link to a response.
pub open spec fn relationships_of(doc: JsonView) -> Result<ReviewRelationshipsView, Seq<char>> {
    if !(doc is Object) {
        Err("relationships"@)
    } else {
        match present(doc, "response"@) {
            None => Ok(ReviewRelationshipsView { response: None }),
            Some(r) => match response_relationship_of(r) {
                Err(e) => Err(e),
                Ok(response) => Ok(ReviewRelationshipsView { response: Some(response) }),
            },
        }
    }
}

/// The creation date that `doc` gives: its string `createdDate`, read as a
/// date and time.
pub open spec fn created_date_of(doc: JsonView) -> Result<crate::time::Timestamp, Seq<char>> {
    match required_text(doc, "createdDate"@) {
        Err(e) => Err(e),
        Ok(text) => match relaxed_instant(text) {
            Err(_) => Err("createdDate"@),
            Ok(t) => Ok(t),
        },
    }
}

/// The rating that `doc` gives: its integer `rating`, from one to five.
pub open spec fn rating_of(doc: JsonView) -> Result<i32, Seq<char>> {
    match doc.i64_at("rating"@) {
        Some(n) => if valid_rating(n as int) {
            Ok(n as i32)
        } else {
            Err("rating"@)
        },
        None => Err("rating"@),
    }
}

/// The review attributes that `doc` describes.
pub open spec fn attributes_of(doc: JsonView) -> Result<ReviewAttributesView, Seq<char>> {
    match rating_of(doc) {
        Err(e) => Err(e),
        Ok(rating) => match optional_text(doc, "title"@) {
            Err(e) => Err(e),
            Ok(title) => match optional_text(doc, "body"@) {
                Err(e) => Err(e),
                Ok(body) => match required_text(doc, "reviewerNickname"@) {
                    Err(e) => Err(e),
                    Ok(reviewer_nickname) => match created_date_of(doc) {
                        Err(e) => Err(e),
                        Ok(created_date) => match required_text(doc, "territory"@) {
                            Err(e) => Err(e),
                            Ok(territory) => Ok(
                                ReviewAttributesView {
                                    rating,
                                    title,
                                    body,
                                    reviewer_nickname,
                                    created_date,
                                    territory,
                                },
                            ),
                        },
                    },
                },
            },
        },
    }
}

/// The relationships of a review resource, if it has any.
pub open spec fn optional_relationships_of(doc: JsonView) -> Result<Option<ReviewRelationshipsView>, Seq<char>> {
    match present(doc, "relationships"@) {
        None => Ok(None),
        Some(r) => match relationships_of(r) {
            Err(e) => Err(e),
            Ok(rel) => Ok(Some(rel)),
        },
    }
}

/// The review resource that `doc` describes.
pub open spec fn review_data_of(doc: JsonView) -> Result<ReviewDataView, Seq<char>> {
    match required_text(doc, "id"@) {
        Err(e) => Err(e),
        Ok(id) => match required_text(doc, "type"@) {
            Err(e) => Err(e),
            Ok(type_) => match doc.get("attributes"@) {
                None => Err("attributes"@),
                Some(a) => match attributes_of(a) {
                    Err(e) => Err(e),
                    Ok(attributes) => match optional_relationships_of(doc) {
                        Err(e) => Err(e),
                        Ok(relationships) => Ok(ReviewDataView { id, type_, attributes, relationships }),
                    },
                },
            },
        },
    }
}

/// The review resources that the first `upto` elements of `items` describe,
/// or the failure of the first element that describes none.
pub open spec fn review_data_upto(items: Seq<JsonView>, upto: int) -> Result<Seq<ReviewDataView>, Seq<char>>
    decreases upto,
{
    if upto <= 0 {
        Ok(Seq::empty())
    } else {
        match review_data_upto(items, upto - 1) {
            Err(e) => Err(e),
            Ok(before) => match review_data_of(items[upto - 1]) {
                Err(e) => Err(e),
                Ok(d) => Ok(before.push(d)),
            },
        }
    }
}

/// The links that `doc` describes, if it has any: an object whose `self` and
/// `next`, where present, are strings.
pub open spec fn links_of(doc: JsonView) -> Result<Option<LinksView>, Seq<char>> {
    match present(doc, "links"@) {
        None => Ok(None),
        Some(l) => if !(l is Object) {
            Err("links"@)
        } else {
            match optional_text(l, "self"@) {
                Err(e) => Err(e),
                Ok(self_) => match optional_text(l, "next"@) {
                    Err(e) => Err(e),
                    Ok(next) => Ok(Some(LinksView { self_, next })),
                },
            }
        },
    }
}

/// The paging figures that `doc` describes, if it has any.
pub open spec fn paging_of(doc: JsonView) -> Result<Option<Paging>, Seq<char>> {
    match present(doc, "paging"@) {
        None => Ok(None),
        Some(p) => match required_i32(p, "total"@) {
            Err(e) => Err(e),
            Ok(total) => match required_i32(p, "limit"@) {
                Err(e) => Err(e),
                Ok(limit) => Ok(Some(Paging { total, limit })),
            },
        },
    }
}

/// The metadata that `doc` describes, if it has any.
pub open spec fn meta_of(doc: JsonView) -> Result<Option<Meta>, Seq<char>> {
    match present(doc, "meta"@) {
        None => Ok(None),
        Some(m) => if !(m is Object) {
            Err("meta"@)
        } else {
            match paging_of(m) {
                Err(e) => Err(e),
                Ok(paging) => Ok(Some(Meta { paging })),
            }
        },
    }
}

/// The listing that `doc` describes: an object whose `data` is an array of
/// review resources, with optional `links` and `meta`. A failure is the name
/// of the first member found missing or of another type than expected.
pub open spec fn listing_of(doc: JsonView) -> Result<ReviewsResponseView, Seq<char>> {
    match doc.get("data"@) {
        None => Err("data"@),
        Some(d) => match d.as_array() {
            None => Err("data"@),
            Some(items) => match review_data_upto(items, items.len() as int) {
                Err(e) => Err(e),
                Ok(data) => match links_of(doc) {
                    Err(e) => Err(e),
                    Ok(links) => match meta_of(doc) {
                        Err(e) => Err(e),
                        Ok(meta) => Ok(ReviewsResponseView { data, links, meta }),
                    },
                },
            },
        },
    }
}

fn read_response_data(doc: &Json) -> (r: Result<ResponseData, String>)
    ensures
        shape_result(r) == response_data_of(doc@),
{
    let id = read_text(doc, "id")?;
    let type_ = read_text(doc, "type")?;
    Ok(ResponseData { id, type_ })
}

fn read_response_relationship(doc: &Json) -> (r: Result<ResponseRelationship, String>)
    ensures
        shape_result(r) == response_relationship_of(doc@),
{
    if !is_object(doc) {
        return Err(String::from_str("response"));
    }
    match member(doc, "data") {
        None => Ok(ResponseRelationship { data: None }),
        Some(d) => {
            let data = read_response_data(d)?;
            Ok(ResponseRelationship { data: Some(data) })
        },
    }
}

fn read_relationships(doc: &Json) -> (r: Result<ReviewRelationships, String>)
    ensures
        shape_result(r) == relationships_of(doc@),
{
    if !is_object(doc) {
        return Err(String::from_str("relationships"));
    }
    match member(doc, "response") {
        None => Ok(ReviewRelationships { response: None }),
        Some(x) => {
            let response = read_response_relationship(x)?;
            Ok(ReviewRelationships { response: Some(response) })
        },
    }
}

fn read_created_date(doc: &Json) -> (r: Result<crate::time::Timestamp, String>)
    ensures
        instant_view(r) == created_date_of(doc@),
{
    let text = read_text(doc, "createdDate")?;
    match parse_relaxed(text.as_str()) {
        Ok(t) => Ok(t),
        Err(_) => Err(String::from_str("createdDate")),
    }
}

fn read_rating(doc: &Json) -> (r: Result<i32, String>)
    ensures
        crate::shape::i32_result(r) == rating_of(doc@),
{
    match doc.i64_at("rating") {
        Some(n) => if 1 <= n && n <= 5 {
            Ok(n as i32)
        } else {
            Err(String::from_str("rating"))
        },
        None => Err(String::from_str("rating")),
    }
}

fn read_attributes(doc: &Json) -> (r: Result<ReviewAttributes, String>)
    ensures
        shape_result(r) == attributes_of(doc@),
{
    let rating = read_rating(doc)?;
    let title = read_optional_text(doc, "title")?;
    let body = read_optional_text(doc, "body")?;
    let reviewer_nickname = read_text(doc, "reviewerNickname")?;
    let created_date = read_created_date(doc)?;
    let territory = read_text(doc, "territory")?;
    Ok(ReviewAttributes { rating, title, body, reviewer_nickname, created_date, territory })
}

fn read_optional_relationships(doc: &Json) -> (r: Result<Option<ReviewRelationships>, String>)
    ensures
        optional_shape(r) == optional_relationships_of(doc@),
{
    match member(doc, "relationships") {
        None => Ok(None),
        Some(x) => {
            let rel = read_relationships(x)?;
            Ok(Some(rel))
        },
    }
}

fn read_review_data(doc: &Json) -> (r: Result<ReviewData, String>)
    ensures
        shape_result(r) == review_data_of(doc@),
{
    let id = read_text(doc, "id")?;
    let type_ = read_text(doc, "type")?;
    let attributes = match doc.get("attributes") {
        None => {
            return Err(String::from_str("attributes"));
        },
        Some(a) => read_attributes(a)?,
    };
    let relationships = read_optional_relationships(doc)?;
    Ok(ReviewData { id, type_, attributes, relationships })
}

fn read_links(doc: &Json) -> (r: Result<Option<Links>, String>)
    ensures
        optional_shape(r) == links_of(doc@),
{
    match member(doc, "links") {
        None => Ok(None),
        Some(l) => {
            if !is_object(l) {
                return Err(String::from_str("links"));
            }
            let self_ = read_optional_text(l, "self")?;
            let next = read_optional_text(l, "next")?;
            Ok(Some(Links { self_, next }))
        },
    }
}

fn read_paging(doc: &Json) -> (r: Result<Option<Paging>, String>)
    ensures
        (match r {
            Ok(p) => Ok(p),
            Err(e) => Err(e@),
        }) == paging_of(doc@),
{
    match member(doc, "paging") {
        None => Ok(None),
        Some(p) => {
            let total = read_i32(p, "total")?;
            let limit = read_i32(p, "limit")?;
            Ok(Some(Paging { total, limit }))
        },
    }
}

fn read_meta(doc: &Json) -> (r: Result<Option<Meta>, String>)
    ensures
        (match r {
            Ok(m) => Ok(m),
            Err(e) => Err(e@),
        }) == meta_of(doc@),
{
    match member(doc, "meta") {
        None => Ok(None),
        Some(m) => {
            if !is_object(m) {
                return Err(String::from_str("meta"));
            }
            let paging = read_paging(m)?;
            Ok(Some(Meta { paging }))
        },
    }
}

impl ReviewsResponse {
    /// Reads a listing out of a JSON document.
    pub fn from_json(doc: &Json) -> (r: Result<ReviewsResponse, String>)
        ensures
            shape_result(r) == listing_of(doc@),
    {
        let items = match doc.get("data") {
            None => {
                return Err(String::from_str("data"));
            },
            Some(d) => match d.as_array() {
                None => {
                    return Err(String::from_str("data"));
                },
                Some(items) => items,
            },
        };
        let mut data: Vec<ReviewData> = Vec::new();
        let mut i: usize = 0;
        assert(data.deep_view() =~= Seq::<ReviewDataView>::empty());
        while i < items.len()
            invariant
                i <= items.len(),
                doc@.get("data"@) is Some,
                doc@.get("data"@)->0.as_array() == Some(items.deep_view()),
                review_data_upto(items.deep_view(), i as int) == Ok::<Seq<ReviewDataView>, Seq<char>>(
                    data.deep_view(),
                ),
            decreases items.len() - i,
        {
            assert(items.deep_view()[i as int] == items@[i as int]@);
            match read_review_data(&items[i]) {
                Ok(d) => {
                    let ghost before = data.deep_view();
                    data.push(d);
                    assert(data.deep_view() =~= before.push(d@));
                },
                Err(e) => {
                    proof {
                        assert(review_data_upto(items.deep_view(), i as int + 1) == Err::<
                            Seq<ReviewDataView>,
                            Seq<char>,
                        >(e@));
                        lemma_failure_stays(items.deep_view(), i as int + 1, items.len() as int);
                    }
                    return Err(e);
                },
            }
            i += 1;
        }
        let links = read_links(doc)?;
        let meta = read_meta(doc)?;
        Ok(ReviewsResponse { data, links, meta })
    }
}

/// A review resource read from a listing has a rating of one to five.
pub proof fn lemma_ratings_are_valid(doc: JsonView)
    ensures
        review_data_of(doc) matches Ok(data) ==> valid_rating(data.attributes.rating as int),
{
}

/// Once the elements up to `from` fail, so do the elements up to any later
/// bound, with the same failure.
pub proof fn lemma_failure_stays(items: Seq<JsonView>, from: int, to: int)
    requires
        from <= to,
        review_data_upto(items, from) is Err,
    ensures
        review_data_upto(items, to) == review_data_upto(items, from),
    decreases to - from,
{
    if from < to {
        lemma_failure_stays(items, from, to - 1);
    }
}

} // verus!
