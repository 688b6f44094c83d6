//! What the session puts on screen, as lines of text: the list of reviews,
//! the details of one, and the frame around the response under edit. Drawing
//! the lines is the caller's part.

use vstd::prelude::*;
use vstd::string::StringExecFns;
use crate::http::{join, join3};
use crate::review::{Review, ReviewResponse, ReviewResponseView, ReviewView};
use crate::text::{decimal, decimal_of_usize, repeat, repeated};
use crate::time::{day_pattern, day_text, minute_pattern, minute_text, shown_date};
use crate::ui::InputMode;

verus! {

/// How a line is set off from the others.
#[derive(Clone, Copy, Debug, PartialEq, Eq, Structural)]
pub enum Tone {
    Plain,
    Bold,
    Yellow,
    Green,
    GreenBold,
    RedBold,
    Gray,
}

/// One line on screen.
#[derive(Debug, PartialEq, Eq)]
pub struct Line {
    pub text: String,
    pub tone: Tone,
}

/// What a `Line` holds.
pub struct LineView {
    pub text: Seq<char>,
    pub tone: Tone,
}

impl View for Line {
    type V = LineView;

    open spec fn view(&self) -> LineView {
        LineView { text: self.text@, tone: self.tone }
    }
}

impl DeepView for Line {
    type V = LineView;

    open spec fn deep_view(&self) -> LineView {
        self@
    }
}

/// The line that holds `text` in `tone`.
pub open spec fn line(text: Seq<char>, tone: Tone) -> LineView {
    LineView { text, tone }
}

/// A star for each point of a rating; none for a rating below one.
pub open spec fn stars(rating: i32) -> Seq<char> {
    if rating <= 0 {
        Seq::empty()
    } else {
        repeated("\u{2b50}"@, rating as nat)
    }
}

/// The entry of a review in the list: its stars, its author and its day.
pub open spec fn list_entry(review: ReviewView) -> Seq<char> {
    stars(review.rating) + " "@ + review.reviewer_nickname + " - "@ + shown_date(
        review.created_date,
        day_pattern(),
    )
}

/// The lines that show the response to a review, or the hint that there is
/// none yet.
pub open spec fn response_lines(response: Option<ReviewResponseView>) -> Seq<LineView> {
    match response {
        Some(r) => seq![
            line(""@, Tone::Plain),
            line("\u{2705} Developer Response:"@, Tone::GreenBold),
            line(r.response_body, Tone::Green),
            line("Responded: "@ + shown_date(r.last_modified_date, minute_pattern()), Tone::Gray),
        ],
        None => seq![
            line(""@, Tone::Plain),
            line("Press Enter to respond or 'a' for AI response"@, Tone::Yellow),
        ],
    }
}

/// The lines that show the version of a review, if it has one.
pub open spec fn version_lines(version: Option<Seq<char>>) -> Seq<LineView> {
    match version {
        Some(v) => seq![line("Version: "@ + v, Tone::Plain)],
        None => Seq::empty(),
    }
}

/// The lines that show the title of a review, if it has one.
pub open spec fn title_lines(title: Option<Seq<char>>) -> Seq<LineView> {
    match title {
        Some(t) => seq![line("Title: "@ + t, Tone::Bold)],
        None => Seq::empty(),
    }
}

/// The lines that show the text of a review, if it has one.
pub open spec fn body_lines(body: Option<Seq<char>>) -> Seq<LineView> {
    match body {
        Some(b) => seq![line(""@, Tone::Plain), line("Review:"@, Tone::Bold), line(b, Tone::Plain)],
        None => Seq::empty(),
    }
}

/// The details of a review: rating, author, date and territory, then the
/// version, the title and the text as far as it has them, then its response.
pub open spec fn details(review: ReviewView) -> Seq<LineView> {
    seq![
        line("Rating: "@ + stars(review.rating), Tone::Yellow),
        line("Author: "@ + review.reviewer_nickname, Tone::Plain),
        line("Date: "@ + shown_date(review.created_date, minute_pattern()), Tone::Plain),
        line("Territory: "@ + review.territory, Tone::Plain),
    ] + version_lines(review.version) + seq![line(""@, Tone::Plain)] + title_lines(review.title) + body_lines(
        review.body,
    ) + response_lines(review.response)
}

/// `text`, or `fallback` where there is none.
pub open spec fn text_or(text: Option<Seq<char>>, fallback: Seq<char>) -> Seq<char> {
    match text {
        Some(t) => t,
        None => fallback,
    }
}

/// The lines that show the review a response is written to.
pub open spec fn responding_to(review: ReviewView) -> Seq<LineView> {
    seq![
        line("Responding to: "@ + stars(review.rating) + " - "@ + review.reviewer_nickname, Tone::Bold),
        line(""@, Tone::Plain),
        line(text_or(review.title, "(No title)"@), Tone::Bold),
        line(text_or(review.body, "(No review text)"@), Tone::Plain),
    ]
}

/// The lines that warn of a response that exists already.
pub open spec fn already_responded(response: ReviewResponseView) -> Seq<LineView> {
    seq![
        line("\u{26a0}\u{fe0f}  ALREADY RESPONDED:"@, Tone::RedBold),
        line(response.response_body, Tone::Yellow),
        line("Sent: "@ + shown_date(response.last_modified_date, minute_pattern()), Tone::Gray),
    ]
}

/// What a response under edit is called: an update where the review has a
/// response already, otherwise by where its text came from.
pub open spec fn input_name(mode: InputMode, has_response: bool) -> Seq<char> {
    if has_response {
        "\u{26a0}\u{fe0f}  Update/Replace Response"@
    } else if mode == InputMode::AI {
        "AI Generated Response"@
    } else {
        "Write Response"@
    }
}

/// The keys that the title of the input names.
pub open spec fn input_keys(mode: InputMode, has_response: bool) -> Seq<char> {
    if !has_response && mode == InputMode::AI {
        "Edit if needed, Ctrl+S to submit, Esc to cancel)"@
    } else {
        "Ctrl+S to submit, Esc to cancel)"@
    }
}

/// The title of the input: its name and keys and, on a platform with a
/// limit, the length of the text against the limit.
pub open spec fn input_title(limit: Option<usize>, length: usize, mode: InputMode, has_response: bool) -> Seq<
    char,
> {
    match limit {
        Some(l) => input_name(mode, has_response) + " ("@ + decimal(length as int) + "/"@ + decimal(l as int)
            + " chars - "@ + input_keys(mode, has_response),
        None => input_name(mode, has_response) + " ("@ + input_keys(mode, has_response),
    }
}

/// The share of a side, in percent, that is left free on either side of a
/// part that takes `percent` of it.
pub open spec fn margin(percent: u16) -> int {
    (100 - percent) / 2
}

/// The margin on either side of a centred part that takes `percent` of a
/// side.
pub fn centered_margin(percent: u16) -> (m: u16)
    requires
        percent <= 100,
    ensures
        m == margin(percent),
        m + percent + m <= 100,
{
    (100 - percent) / 2
}

/// A star for each point of `rating`.
pub fn rating_stars(rating: i32) -> (s: String)
    ensures
        s@ == stars(rating),
{
    if rating <= 0 {
        String::new()
    } else {
        repeat("\u{2b50}", rating as usize)
    }
}

fn plain(text: String) -> (l: Line)
    ensures
        l@ == line(text@, Tone::Plain),
{
    Line { text, tone: Tone::Plain }
}

fn toned(text: &str, tone: Tone) -> (l: Line)
    ensures
        l@ == line(text@, tone),
{
    Line { text: String::from_str(text), tone }
}

/// The entry of `review` in the list.
pub fn list_item(review: &Review) -> (s: String)
    ensures
        s@ == list_entry(review@),
{
    let mut s = join3(rating_stars(review.rating).as_str(), " ", review.reviewer_nickname.as_str());
    s.append(" - ");
    s.append(day_text(&review.created_date).as_str());
    s
}

/// The entries of `reviews` in the list, in their order.
pub fn list_items(reviews: &Vec<Review>) -> (items: Vec<String>)
    ensures
        items.deep_view() == reviews.deep_view().map_values(|r: ReviewView| list_entry(r)),
{
    let mut items: Vec<String> = Vec::new();
    let mut i: usize = 0;
    while i < reviews.len()
        invariant
            i <= reviews.len(),
            items@.len() == i,
            forall|k: int| 0 <= k < i ==> (#[trigger] items@[k])@ == list_entry(reviews@[k]@),
        decreases reviews.len() - i,
    {
        items.push(list_item(&reviews[i]));
        i += 1;
    }
    assert(items.deep_view() =~= reviews.deep_view().map_values(|r: ReviewView| list_entry(r)));
    items
}

fn push_all(lines: &mut Vec<Line>, more: Vec<Line>)
    ensures
        final(lines).deep_view() == old(lines).deep_view() + more.deep_view(),
{
    let mut more = more;
    let ghost before = lines.deep_view();
    let ghost added = more.deep_view();
    lines.append(&mut more);
    assert(lines.deep_view() =~= before + added);
}

fn response_part(response: &Option<ReviewResponse>) -> (lines: Vec<Line>)
    ensures
        lines.deep_view() == response_lines(response.deep_view()),
{
    let mut lines: Vec<Line> = Vec::new();
    lines.push(toned("", Tone::Plain));
    match response {
        Some(r) => {
            lines.push(toned("\u{2705} Developer Response:", Tone::GreenBold));
            lines.push(Line { text: r.response_body.clone(), tone: Tone::Green });
            lines.push(
                Line { text: join("Responded: ", minute_text(&r.last_modified_date).as_str()), tone: Tone::Gray },
            );
        },
        None => {
            lines.push(toned("Press Enter to respond or 'a' for AI response", Tone::Yellow));
        },
    }
    assert(lines.deep_view() =~= response_lines(response.deep_view()));
    lines
}

/// The details of `review`.
pub fn review_details(review: &Review) -> (lines: Vec<Line>)
    ensures
        lines.deep_view() == details(review@),
{
    let mut lines: Vec<Line> = Vec::new();
    lines.push(Line { text: join("Rating: ", rating_stars(review.rating).as_str()), tone: Tone::Yellow });
    lines.push(plain(join("Author: ", review.reviewer_nickname.as_str())));
    lines.push(plain(join("Date: ", minute_text(&review.created_date).as_str())));
    lines.push(plain(join("Territory: ", review.territory.as_str())));
    match &review.version {
        Some(v) => {
            lines.push(plain(join("Version: ", v.as_str())));
        },
        None => {},
    }
    lines.push(toned("", Tone::Plain));
    match &review.title {
        Some(t) => {
            lines.push(Line { text: join("Title: ", t.as_str()), tone: Tone::Bold });
        },
        None => {},
    }
    match &review.body {
        Some(b) => {
            lines.push(toned("", Tone::Plain));
            lines.push(toned("Review:", Tone::Bold));
            lines.push(plain(b.clone()));
        },
        None => {},
    }
    assert(lines.deep_view() =~= seq![
        line("Rating: "@ + stars(review@.rating), Tone::Yellow),
        line("Author: "@ + review@.reviewer_nickname, Tone::Plain),
        line("Date: "@ + shown_date(review@.created_date, minute_pattern()), Tone::Plain),
        line("Territory: "@ + review@.territory, Tone::Plain),
    ] + version_lines(review@.version) + seq![line(""@, Tone::Plain)] + title_lines(review@.title)
        + body_lines(review@.body));
    push_all(&mut lines, response_part(&review.response));
    lines
}

/// The lines that show the review a response is written to.
pub fn original_review(review: &Review) -> (lines: Vec<Line>)
    ensures
        lines.deep_view() == responding_to(review@),
{
    let mut heading = join3("Responding to: ", rating_stars(review.rating).as_str(), " - ");
    heading.append(review.reviewer_nickname.as_str());
    let title = match &review.title {
        Some(t) => t.clone(),
        None => String::from_str("(No title)"),
    };
    let body = match &review.body {
        Some(b) => b.clone(),
        None => String::from_str("(No review text)"),
    };
    let mut lines: Vec<Line> = Vec::new();
    lines.push(Line { text: heading, tone: Tone::Bold });
    lines.push(toned("", Tone::Plain));
    lines.push(Line { text: title, tone: Tone::Bold });
    lines.push(plain(body));
    assert(lines.deep_view() =~= responding_to(review@));
    lines
}

/// The lines that warn of the response that a review has already.
pub fn existing_response(response: &ReviewResponse) -> (lines: Vec<Line>)
    ensures
        lines.deep_view() == already_responded(response@),
{
    let mut lines: Vec<Line> = Vec::new();
    lines.push(toned("\u{26a0}\u{fe0f}  ALREADY RESPONDED:", Tone::RedBold));
    lines.push(Line { text: response.response_body.clone(), tone: Tone::Yellow });
    lines.push(Line { text: join("Sent: ", minute_text(&response.last_modified_date).as_str()), tone: Tone::Gray });
    assert(lines.deep_view() =~= already_responded(response@));
    lines
}

/// The title of the input for a text of `length` characters.
pub fn response_input_title(limit: Option<usize>, length: usize, mode: InputMode, has_response: bool) -> (s: String)
    ensures
        s@ == input_title(limit, length, mode, has_response),
{
    let name = if has_response {
        "\u{26a0}\u{fe0f}  Update/Replace Response"
    } else {
        match mode {
            InputMode::AI => "AI Generated Response",
            InputMode::Manual => "Write Response",
        }
    };
    let assisted = !has_response && match mode {
        InputMode::AI => true,
        InputMode::Manual => false,
    };
    let keys = if assisted {
        "Edit if needed, Ctrl+S to submit, Esc to cancel)"
    } else {
        "Ctrl+S to submit, Esc to cancel)"
    };
    let mut s = join(name, " (");
    match limit {
        Some(l) => {
            s.append(decimal_of_usize(length).as_str());
            s.append("/");
            s.append(decimal_of_usize(l).as_str());
            s.append(" chars - ");
        },
        None => {},
    }
    s.append(keys);
    s
}

} // verus!
