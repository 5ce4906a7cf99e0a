//! The preview of a commit together with the pull request of its branch.

use vstd::prelude::*;
use crate::git::{Commit, CommitView};
use crate::github::{PrInfo, PrInfoView, Review, ReviewView};
use crate::text::{
    push_chars, push_decimal, push_repeat, same_text, spec_decimal, spec_lines, spec_repeat,
    split_lines, texts, to_chars,
};
use super::parse::{plain, plain_line, views};
use super::{DiffLine, DiffLineView, LineType};

verus! {

/// Width of the rule drawn under a block heading.
pub const RULE_WIDTH: usize = 40;

/// The rule drawn under a block heading.
pub open spec fn rule() -> Seq<char> {
    spec_repeat('\u{2500}', RULE_WIDTH as nat)
}

/// An empty context line.
pub open spec fn blank() -> DiffLineView {
    plain(Seq::empty(), LineType::Context)
}

/// Hash, author and date of the commit, then its subject.
pub open spec fn spec_commit_block(c: CommitView) -> Seq<DiffLineView> {
    seq![
        plain("Commit"@, LineType::Header),
        plain(rule(), LineType::Info),
        plain("Hash:   "@ + c.hash, LineType::Context),
        plain("Author: "@ + c.author, LineType::Context),
        plain("Date:   "@ + c.date, LineType::Context),
        blank(),
        plain(c.subject, LineType::Info),
        blank(),
    ]
}

/// The lines of a text as context lines, each behind `indent`.
pub open spec fn spec_text_lines(text: Seq<char>, indent: Seq<char>) -> Seq<DiffLineView> {
    let lines = spec_lines(text);
    Seq::new(lines.len(), |i: int| plain(indent + lines[i], LineType::Context))
}

/// A review that approves reads as an added line, one that requests changes as a removed
/// line, any other as context.
pub open spec fn spec_review_type(state: Seq<char>) -> LineType {
    if state == "APPROVED"@ {
        LineType::Added
    } else if state == "CHANGES_REQUESTED"@ {
        LineType::Removed
    } else {
        LineType::Context
    }
}

/// The heading of a review, then the lines of its body, indented by two spaces.
pub open spec fn spec_review_block(r: ReviewView) -> Seq<DiffLineView> {
    seq![plain(r.author + " - "@ + r.state, spec_review_type(r.state))] + spec_text_lines(
        r.body,
        "  "@,
    )
}

/// The blocks of all reviews, in their given order.
pub open spec fn spec_reviews(reviews: Seq<ReviewView>) -> Seq<DiffLineView>
    decreases reviews.len(),
{
    if reviews.len() == 0 {
        Seq::empty()
    } else {
        spec_reviews(reviews.drop_last()) + spec_review_block(reviews.last())
    }
}

/// The line that names a pull request: `#<number> by <author> [<state>]`.
pub open spec fn spec_pr_byline(pr: PrInfoView) -> Seq<char> {
    "#"@ + spec_decimal(pr.number as nat) + " by "@ + pr.author + " ["@ + pr.state + "]"@
}

/// Title, byline and address of the pull request.
pub open spec fn spec_pr_header(pr: PrInfoView) -> Seq<DiffLineView> {
    seq![
        blank(),
        plain("Pull Request"@, LineType::Header),
        plain(rule(), LineType::Info),
        plain(pr.title, LineType::Info),
        plain(spec_pr_byline(pr), LineType::Context),
        plain(pr.url, LineType::Context),
    ]
}

/// The description of the pull request after an empty line; nothing if it has none.
pub open spec fn spec_pr_body(pr: PrInfoView) -> Seq<DiffLineView> {
    if pr.body.len() > 0 {
        seq![blank()] + spec_text_lines(pr.body, Seq::empty())
    } else {
        Seq::empty()
    }
}

/// The reviews under their heading; nothing if there are none.
pub open spec fn spec_pr_reviews(pr: PrInfoView) -> Seq<DiffLineView> {
    if pr.reviews.len() > 0 {
        seq![blank(), plain("Reviews"@, LineType::Header)] + spec_reviews(pr.reviews)
    } else {
        Seq::empty()
    }
}

/// What is shown when the branch has no pull request.
pub open spec fn spec_no_pr_block() -> Seq<DiffLineView> {
    seq![blank(), plain("No PR found for this branch"@, LineType::Info)]
}

/// The preview of a commit: the commit block, then the pull request with its description
/// and reviews, or a notice that there is none.
pub open spec fn spec_commit_summary(c: CommitView, pr: Option<PrInfoView>) -> Seq<DiffLineView> {
    spec_commit_block(c) + match pr {
        Some(pr) => spec_pr_header(pr) + spec_pr_body(pr) + spec_pr_reviews(pr),
        None => spec_no_pr_block(),
    }
}

fn push_plain(out: &mut Vec<DiffLine>, text: String, line_type: LineType)
    ensures
        views(final(out)@) == views(old(out)@).push(plain(text@, line_type)),
{
    out.push(plain_line(text, line_type));
}

fn joined(a: &str, b: &str) -> (s: String)
    ensures
        s@ == a@ + b@,
{
    let mut s = String::from_str(a);
    s.append(b);
    s
}

fn rule_text() -> (s: String)
    ensures
        s@ == rule(),
{
    let mut s = String::new();
    push_repeat(&mut s, '\u{2500}', RULE_WIDTH);
    s
}

fn push_commit_block(out: &mut Vec<DiffLine>, commit: &Commit)
    ensures
        views(final(out)@) == views(old(out)@) + spec_commit_block(commit@),
{
    push_plain(out, String::from_str("Commit"), LineType::Header);
    push_plain(out, rule_text(), LineType::Info);
    push_plain(out, joined("Hash:   ", commit.hash.as_str()), LineType::Context);
    push_plain(out, joined("Author: ", commit.author.as_str()), LineType::Context);
    push_plain(out, joined("Date:   ", commit.date.as_str()), LineType::Context);
    push_plain(out, String::new(), LineType::Context);
    push_plain(out, commit.subject.clone(), LineType::Info);
    push_plain(out, String::new(), LineType::Context);
}

fn push_text_lines(out: &mut Vec<DiffLine>, text: &str, indent: &str)
    ensures
        views(final(out)@) == views(old(out)@) + spec_text_lines(text@, indent@),
{
    let chars = to_chars(text);
    let lines = split_lines(&chars);
    let ghost input = texts(lines@);
    let ghost base = views(out@);
    let mut i: usize = 0;
    while i < lines.len()
        invariant
            i <= lines.len(),
            input == texts(lines@),
            input == spec_lines(text@),
            views(out@) == base + spec_text_lines(text@, indent@).take(i as int),
        decreases lines.len() - i,
    {
        let mut s = String::from_str(indent);
        push_chars(&mut s, &lines[i]);
        push_plain(out, s, LineType::Context);
        i += 1;
    }
}

fn review_type(state: &str) -> (t: LineType)
    ensures
        t == spec_review_type(state@),
{
    if same_text(state, "APPROVED") {
        LineType::Added
    } else if same_text(state, "CHANGES_REQUESTED") {
        LineType::Removed
    } else {
        LineType::Context
    }
}

fn push_review(out: &mut Vec<DiffLine>, review: &Review)
    ensures
        views(final(out)@) == views(old(out)@) + spec_review_block(review@),
{
    let mut heading = joined(review.author.as_str(), " - ");
    heading.append(review.state.as_str());
    push_plain(out, heading, review_type(review.state.as_str()));
    push_text_lines(out, review.body.as_str(), "  ");
}

fn push_reviews(out: &mut Vec<DiffLine>, reviews: &Vec<Review>)
    ensures
        views(final(out)@) == views(old(out)@) + spec_reviews(
            reviews@.map_values(|r: Review| r@),
        ),
{
    let ghost all = reviews@.map_values(|r: Review| r@);
    let ghost base = views(out@);
    let mut i: usize = 0;
    while i < reviews.len()
        invariant
            i <= reviews.len(),
            all == reviews@.map_values(|r: Review| r@),
            views(out@) == base + spec_reviews(all.take(i as int)),
        decreases reviews.len() - i,
    {
        push_review(out, &reviews[i]);
        proof {
            let next = all.take(i + 1);
            assert(next.drop_last() =~= all.take(i as int));
        }
        i += 1;
    }
    assert(all.take(i as int) =~= all);
}

fn pr_byline(pr: &PrInfo) -> (s: String)
    ensures
        s@ == spec_pr_byline(pr@),
{
    let mut s = String::from_str("#");
    push_decimal(&mut s, pr.number as u128);
    s.append(" by ");
    s.append(pr.author.as_str());
    s.append(" [");
    s.append(pr.state.as_str());
    s.append("]");
    s
}

fn push_pr_block(out: &mut Vec<DiffLine>, pr: &PrInfo)
    ensures
        views(final(out)@) == views(old(out)@) + (spec_pr_header(pr@) + spec_pr_body(pr@)
            + spec_pr_reviews(pr@)),
{
    push_plain(out, String::new(), LineType::Context);
    push_plain(out, String::from_str("Pull Request"), LineType::Header);
    push_plain(out, rule_text(), LineType::Info);
    push_plain(out, pr.title.clone(), LineType::Info);
    push_plain(out, pr_byline(pr), LineType::Context);
    push_plain(out, pr.url.clone(), LineType::Context);
    if !pr.body.as_str().is_empty() {
        push_plain(out, String::new(), LineType::Context);
        push_text_lines(out, pr.body.as_str(), "");
        proof {
            reveal_strlit("");
        }
    }
    if reviews_present(pr) {
        push_plain(out, String::new(), LineType::Context);
        push_plain(out, String::from_str("Reviews"), LineType::Header);
        push_reviews(out, &pr.reviews);
    }
}

fn reviews_present(pr: &PrInfo) -> (b: bool)
    ensures
        b == (pr@.reviews.len() > 0),
{
    pr.reviews.len() > 0
}

/// Builds the preview of a commit and of the pull request of its branch, if there is one.
pub fn parse_commit_summary(commit: &Commit, pr: Option<&PrInfo>) -> (out: Vec<DiffLine>)
    ensures
        views(out@) == spec_commit_summary(
            commit@,
            match pr {
                Some(p) => Some(p@),
                None => None,
            },
        ),
{
    let mut out: Vec<DiffLine> = Vec::new();
    push_commit_block(&mut out, commit);
    match pr {
        Some(p) => {
            push_pr_block(&mut out, p);
        },
        None => {
            push_plain(&mut out, String::new(), LineType::Context);
            push_plain(&mut out, String::from_str("No PR found for this branch"), LineType::Info);
        },
    }
    out
}

} // verus!
