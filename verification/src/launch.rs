//! Launching a thread: the draft that the launch form edits, the prompts that are
//! made of it, and the request that a finished draft stands for.

use vstd::prelude::*;
use vstd::string::*;

use crate::settings::{clone_text, text_option, text_or_empty, unwrap_text};
use crate::store::{GitHubComment, GitHubReview, GitHubReviewComment, ProviderKind, Task};
use crate::text::{
    begins_with, blank, contains_text, format_signed, is_blank, join, joined, lemma_found_beside,
    lemma_found_in_part, lemma_part_is_found, lemma_row_is_found, lines, lines_of, signed_decimal, trim, trimmed, views,
};
use crate::views::PendingReviewLaunchMode;

verus! {

/// An issue that a thread is to be launched on.
pub struct PendingBoardIssueLaunch {
    pub github_item_id: Option<String>,
    pub number: i64,
    pub title: String,
    pub body: String,
    pub url: String,
}

/// A pull request that a thread is to be launched on.
pub struct PendingReviewPrLaunch {
    pub github_item_id: String,
    pub number: i64,
    pub title: String,
    pub body: String,
    pub url: String,
    pub base_ref: Option<String>,
    pub head_ref: Option<String>,
    pub mode: PendingReviewLaunchMode,
}

/// What the launch form holds.
pub struct LaunchThreadDraft {
    pub task_id: Option<String>,
    pub board_issue: Option<PendingBoardIssueLaunch>,
    pub review_pr: Option<PendingReviewPrLaunch>,
    pub provider_kind: ProviderKind,
    pub runtime_profile: String,
    pub workflow_name: String,
    pub title: String,
    pub extra_context: String,
}

impl Clone for PendingBoardIssueLaunch {
    fn clone(&self) -> (r: Self)
        ensures
            r == *self,
    {
        PendingBoardIssueLaunch {
            github_item_id: clone_text(&self.github_item_id),
            number: self.number,
            title: self.title.clone(),
            body: self.body.clone(),
            url: self.url.clone(),
        }
    }
}

impl Clone for PendingReviewPrLaunch {
    fn clone(&self) -> (r: Self)
        ensures
            r == *self,
    {
        PendingReviewPrLaunch {
            github_item_id: self.github_item_id.clone(),
            number: self.number,
            title: self.title.clone(),
            body: self.body.clone(),
            url: self.url.clone(),
            base_ref: clone_text(&self.base_ref),
            head_ref: clone_text(&self.head_ref),
            mode: self.mode,
        }
    }
}

/// What a draft launches, as the form shows it.
pub open spec fn draft_source(d: LaunchThreadDraft) -> Seq<char> {
    match d.review_pr {
        Some(pr) => (match pr.mode {
            PendingReviewLaunchMode::ContinueWork => "GitHub PR"@,
            PendingReviewLaunchMode::Review => "Review PR"@,
        }) + " #"@ + signed_decimal(pr.number as int) + " "@ + pr.title@,
        None => match d.board_issue {
            Some(issue) => "GitHub issue #"@ + signed_decimal(issue.number as int) + " "@
                + issue.title@,
            None => match d.task_id {
                Some(id) => "Local task "@ + id@,
                None => "Ad hoc thread"@,
            },
        },
    }
}

impl LaunchThreadDraft {
    pub fn is_ad_hoc(&self) -> (r: bool)
        ensures
            r == (self.task_id is None && self.board_issue is None && self.review_pr is None),
    {
        self.task_id.is_none() && self.board_issue.is_none() && self.review_pr.is_none()
    }

    pub fn source_label(&self) -> (r: String)
        ensures
            r@ == draft_source(*self),
    {
        if let Some(pr) = &self.review_pr {
            let mut r = match pr.mode {
                PendingReviewLaunchMode::ContinueWork => "GitHub PR".to_owned(),
                PendingReviewLaunchMode::Review => "Review PR".to_owned(),
            };
            r.append(" #");
            r.append(format_signed(pr.number).as_str());
            r.append(" ");
            r.append(pr.title.as_str());
            r
        } else if let Some(issue) = &self.board_issue {
            let mut r = "GitHub issue #".to_owned();
            r.append(format_signed(issue.number).as_str());
            r.append(" ");
            r.append(issue.title.as_str());
            r
        } else if let Some(id) = &self.task_id {
            "Local task ".to_owned().concat(id.as_str())
        } else {
            "Ad hoc thread".to_owned()
        }
    }
}

// ---------------------------------------------------------------------------
// Prompts
// ---------------------------------------------------------------------------

/// A prompt and what the user added to it, each trimmed, blank ones left out.
pub open spec fn combined(base: Seq<char>, extra: Seq<char>) -> Seq<char> {
    if is_blank(extra) {
        trimmed(base)
    } else if is_blank(base) {
        trimmed(extra)
    } else {
        trimmed(base) + "\n\nAdditional context:\n"@ + trimmed(extra)
    }
}

pub fn combine_prompt(base: &str, extra_context: &str) -> (r: String)
    ensures
        r@ == combined(base@, extra_context@),
{
    let b = trim(base);
    let e = trim(extra_context);
    if e.as_str().is_empty() {
        b
    } else if b.as_str().is_empty() {
        e
    } else {
        let mut r = b;
        r.append("\n\nAdditional context:\n");
        r.append(e.as_str());
        r
    }
}

/// The first prompt of a thread on a task; none where the task is gone.
pub fn build_launch_prompt_for_task(task: &Option<Task>, extra_context: &str) -> (r: Option<String>)
    ensures
        text_option(r) == match *task {
            Some(t) => Some(combined(t.description@, extra_context@)),
            None => None,
        },
{
    match task {
        Some(t) => Some(combine_prompt(t.description.as_str(), extra_context)),
        None => None,
    }
}

/// The branch line of a prompt, where both branches are known.
pub open spec fn branch_line(pr: PendingReviewPrLaunch) -> Seq<char> {
    match (pr.base_ref, pr.head_ref) {
        (Some(base), Some(head)) => "Branch: "@ + head@ + " -> "@ + base@ + "\n"@,
        _ => seq![],
    }
}

/// What a review has to attend to.
pub open spec fn review_goals() -> Seq<char> {
    "\nReview goals:\n- inspect the code changes carefully before suggesting fixes\n- prioritize correctness, regressions, missing tests, security, and performance risks\n- produce concrete findings with file-level references\n- do not make code changes unless the user explicitly asks; start with the review\n"@
}

/// The description of a pull request, where it has one.
pub open spec fn description_part(body: Seq<char>) -> Seq<char> {
    if is_blank(body) {
        seq![]
    } else {
        "\nPR description:\n"@ + trimmed(body)
    }
}

/// The prompt about a pull request before the user's additions.
pub open spec fn pr_prompt(pr: PendingReviewPrLaunch) -> Seq<char> {
    (match pr.mode {
        PendingReviewLaunchMode::ContinueWork => "Continue working on GitHub pull request #"@,
        PendingReviewLaunchMode::Review => "Review GitHub pull request #"@,
    }) + signed_decimal(pr.number as int) + ": "@ + pr.title@ + "\nPR URL: "@ + pr.url@ + "\n"@
        + branch_line(pr) + (match pr.mode {
        PendingReviewLaunchMode::ContinueWork => seq![],
        PendingReviewLaunchMode::Review => review_goals(),
    }) + description_part(pr.body@)
}

pub fn build_launch_prompt_for_review_pr(
    review_pr: &PendingReviewPrLaunch,
    extra_context: &str,
) -> (r: String)
    ensures
        r@ == combined(pr_prompt(*review_pr), extra_context@),
{
    let mut base = match review_pr.mode {
        PendingReviewLaunchMode::ContinueWork => {
            "Continue working on GitHub pull request #".to_owned()
        },
        PendingReviewLaunchMode::Review => "Review GitHub pull request #".to_owned(),
    };
    base.append(format_signed(review_pr.number).as_str());
    base.append(": ");
    base.append(review_pr.title.as_str());
    base.append("\nPR URL: ");
    base.append(review_pr.url.as_str());
    base.append("\n");
    let mut branch = String::new();
    match (&review_pr.base_ref, &review_pr.head_ref) {
        (Some(base_ref), Some(head_ref)) => {
            branch = "Branch: ".to_owned();
            branch.append(head_ref.as_str());
            branch.append(" -> ");
            branch.append(base_ref.as_str());
            branch.append("\n");
        },
        _ => {},
    }
    assert(branch@ =~= branch_line(*review_pr));
    base.append(branch.as_str());
    let goals = match review_pr.mode {
        PendingReviewLaunchMode::ContinueWork => String::new(),
        PendingReviewLaunchMode::Review => {
            "\nReview goals:\n- inspect the code changes carefully before suggesting fixes\n- prioritize correctness, regressions, missing tests, security, and performance risks\n- produce concrete findings with file-level references\n- do not make code changes unless the user explicitly asks; start with the review\n".to_owned()
        },
    };
    assert(goals@ =~= match review_pr.mode {
        PendingReviewLaunchMode::ContinueWork => seq![],
        PendingReviewLaunchMode::Review => review_goals(),
    });
    base.append(goals.as_str());
    let mut description = String::new();
    if !blank(review_pr.body.as_str()) {
        description = "\nPR description:\n".to_owned();
        description.append(trim(review_pr.body.as_str()).as_str());
    }
    assert(description@ =~= description_part(review_pr.body@));
    base.append(description.as_str());
    combine_prompt(base.as_str(), extra_context)
}

// ---------------------------------------------------------------------------
// Context from reviews and comments
// ---------------------------------------------------------------------------

/// The author of a comment.
pub open spec fn author_text(login: Option<String>) -> Seq<char> {
    match login {
        Some(l) => l@,
        None => "unknown"@,
    }
}

fn author_of(login: &Option<String>) -> (r: String)
    ensures
        r@ == author_text(*login),
{
    match login {
        Some(l) => l.clone(),
        None => "unknown".to_owned(),
    }
}

/// The plain body of a comment, else the body as written; `None` where it has neither.
pub open spec fn comment_body(body_text: Option<String>, body: Option<String>) -> Option<
    Seq<char>,
> {
    match body_text {
        Some(t) => Some(t@),
        None => text_option(body),
    }
}

fn body_of(body_text: &Option<String>, body: &Option<String>) -> (r: Option<String>)
    ensures
        text_option(r) == comment_body(*body_text, *body),
{
    match body_text {
        Some(t) => Some(t.clone()),
        None => clone_text(body),
    }
}

pub open spec fn review_entry(r: GitHubReview) -> Seq<char> {
    "### @"@ + author_text(r.author_login) + " ("@ + r.state@ + ")\n"@ + (match comment_body(
        r.body_text,
        r.body,
    ) {
        Some(b) => if b.len() > 0 {
            b + "\n"@
        } else {
            seq![]
        },
        None => seq![],
    }) + "\n"@
}

pub open spec fn comment_entry(c: GitHubComment) -> Seq<char> {
    "**@"@ + author_text(c.author_login) + "**\n"@ + (match comment_body(c.body_text, c.body) {
        Some(b) => b + "\n"@,
        None => seq![],
    }) + "\n"@
}

/// The first three lines of a diff hunk, quoted.
pub open spec fn quoted_hunk(hunk: Seq<char>) -> Seq<char> {
    let rows = lines_of(hunk);
    let first = if rows.len() > 3 {
        rows.take(3)
    } else {
        rows
    };
    "> "@ + joined(first, "\n> "@) + "\n"@
}

pub open spec fn inline_entry(c: GitHubReviewComment) -> Seq<char> {
    "**@"@ + author_text(c.author_login) + "** on `"@ + (match c.path {
        Some(p) => p@,
        None => "unknown file"@,
    }) + "`"@ + (match c.line {
        Some(n) => " line "@ + signed_decimal(n as int),
        None => seq![],
    }) + "\n"@ + (match c.diff_hunk {
        Some(h) => quoted_hunk(h@),
        None => seq![],
    }) + (match comment_body(c.body_text, c.body) {
        Some(b) => b + "\n"@,
        None => seq![],
    }) + "\n"@
}

pub open spec fn review_entries(v: Seq<GitHubReview>) -> Seq<char>
    decreases v.len(),
{
    if v.len() == 0 {
        seq![]
    } else {
        review_entries(v.drop_last()) + review_entry(v.last())
    }
}

pub open spec fn comment_entries(v: Seq<GitHubComment>) -> Seq<char>
    decreases v.len(),
{
    if v.len() == 0 {
        seq![]
    } else {
        comment_entries(v.drop_last()) + comment_entry(v.last())
    }
}

pub open spec fn inline_entries(v: Seq<GitHubReviewComment>) -> Seq<char>
    decreases v.len(),
{
    if v.len() == 0 {
        seq![]
    } else {
        inline_entries(v.drop_last()) + inline_entry(v.last())
    }
}

/// The review activity on a pull request as context for a prompt; empty where there
/// is none.
pub open spec fn review_context(
    mode: PendingReviewLaunchMode,
    reviews: Seq<GitHubReview>,
    comments: Seq<GitHubComment>,
    inline: Seq<GitHubReviewComment>,
) -> Seq<char> {
    if reviews.len() == 0 && comments.len() == 0 && inline.len() == 0 {
        seq![]
    } else {
        (match mode {
            PendingReviewLaunchMode::ContinueWork => "## PR Review Feedback\n\n"@,
            PendingReviewLaunchMode::Review => "## Existing Review Activity\n\n"@,
        }) + review_entries(reviews) + comment_entries(comments) + (if inline.len() == 0 {
            seq![]
        } else {
            "### Inline Comments\n\n"@ + inline_entries(inline)
        })
    }
}

fn format_review(review: &GitHubReview) -> (r: String)
    ensures
        r@ == review_entry(*review),
{
    let mut r = "### @".to_owned();
    r.append(author_of(&review.author_login).as_str());
    r.append(" (");
    r.append(review.state.as_str());
    r.append(")\n");
    let mut part = String::new();
    if let Some(b) = body_of(&review.body_text, &review.body) {
        if !b.as_str().is_empty() {
            part = b.concat("\n");
        }
    }
    assert(part@ =~= match comment_body(review.body_text, review.body) {
        Some(b) => if b.len() > 0 {
            b + "\n"@
        } else {
            seq![]
        },
        None => seq![],
    });
    r.append(part.as_str());
    r.append("\n");
    r
}

fn body_part(body: Option<String>) -> (r: String)
    ensures
        r@ == match text_option(body) {
            Some(b) => b + "\n"@,
            None => seq![],
        },
{
    match body {
        Some(b) => b.concat("\n"),
        None => String::new(),
    }
}

fn format_comment(comment: &GitHubComment) -> (r: String)
    ensures
        r@ == comment_entry(*comment),
{
    let mut r = "**@".to_owned();
    r.append(author_of(&comment.author_login).as_str());
    r.append("**\n");
    r.append(body_part(body_of(&comment.body_text, &comment.body)).as_str());
    r.append("\n");
    r
}

fn quote_hunk(hunk: &str) -> (r: String)
    ensures
        r@ == quoted_hunk(hunk@),
{
    let mut rows = lines(hunk);
    let ghost all = views(rows@);
    if rows.len() > 3 {
        rows.truncate(3);
        assert(views(rows@) =~= all.take(3));
    }
    let mut r = "> ".to_owned();
    r.append(join(&rows, "\n> ").as_str());
    r.append("\n");
    r
}

fn format_inline(c: &GitHubReviewComment) -> (r: String)
    ensures
        r@ == inline_entry(*c),
{
    let mut r = "**@".to_owned();
    r.append(author_of(&c.author_login).as_str());
    r.append("** on `");
    let path = match &c.path {
        Some(p) => p.clone(),
        None => "unknown file".to_owned(),
    };
    r.append(path.as_str());
    r.append("`");
    let line = match c.line {
        Some(n) => " line ".to_owned().concat(format_signed(n).as_str()),
        None => String::new(),
    };
    r.append(line.as_str());
    r.append("\n");
    let hunk = match &c.diff_hunk {
        Some(h) => quote_hunk(h.as_str()),
        None => String::new(),
    };
    r.append(hunk.as_str());
    r.append(body_part(body_of(&c.body_text, &c.body)).as_str());
    r.append("\n");
    r
}

/// Format review activity as context for a prompt.
#[verifier::rlimit(40)]
pub fn format_review_comments_context(
    mode: PendingReviewLaunchMode,
    reviews: &Vec<GitHubReview>,
    comments: &Vec<GitHubComment>,
    inline: &Vec<GitHubReviewComment>,
) -> (r: String)
    ensures
        r@ == review_context(mode, reviews@, comments@, inline@),
{
    if reviews.len() == 0 && comments.len() == 0 && inline.len() == 0 {
        return String::new();
    }
    let mut ctx = match mode {
        PendingReviewLaunchMode::ContinueWork => "## PR Review Feedback\n\n".to_owned(),
        PendingReviewLaunchMode::Review => "## Existing Review Activity\n\n".to_owned(),
    };
    let ghost header = ctx@;
    let mut i: usize = 0;
    assert(header + review_entries(reviews@.take(0)) =~= header);
    while i < reviews.len()
        invariant
            i <= reviews@.len(),
            ctx@ == header + review_entries(reviews@.take(i as int)),
        decreases reviews@.len() - i,
    {
        let ghost next = reviews@.take(i as int + 1);
        proof {
            assert(next.drop_last() =~= reviews@.take(i as int));
        }
        ctx.append(format_review(&reviews[i]).as_str());
        assert(ctx@ =~= header + review_entries(next));
        i += 1;
    }
    assert(reviews@.take(i as int) =~= reviews@);
    let ghost first = ctx@;
    let mut j: usize = 0;
    assert(first + comment_entries(comments@.take(0)) =~= first);
    while j < comments.len()
        invariant
            j <= comments@.len(),
            ctx@ == first + comment_entries(comments@.take(j as int)),
        decreases comments@.len() - j,
    {
        let ghost next = comments@.take(j as int + 1);
        proof {
            assert(next.drop_last() =~= comments@.take(j as int));
        }
        ctx.append(format_comment(&comments[j]).as_str());
        assert(ctx@ =~= first + comment_entries(next));
        j += 1;
    }
    assert(comments@.take(j as int) =~= comments@);
    let ghost second = ctx@;
    if inline.len() > 0 {
        let mut part = "### Inline Comments\n\n".to_owned();
        let ghost title = part@;
        let mut k: usize = 0;
        assert(title + inline_entries(inline@.take(0)) =~= title);
        while k < inline.len()
            invariant
                k <= inline@.len(),
                part@ == title + inline_entries(inline@.take(k as int)),
            decreases inline@.len() - k,
        {
            let ghost next = inline@.take(k as int + 1);
            proof {
                assert(next.drop_last() =~= inline@.take(k as int));
            }
            part.append(format_inline(&inline[k]).as_str());
            assert(part@ =~= title + inline_entries(next));
            k += 1;
        }
        assert(inline@.take(k as int) =~= inline@);
        ctx.append(part.as_str());
    } else {
        assert(second + Seq::<char>::empty() =~= second);
    }
    ctx
}

/// A review as context for work on its pull request; nothing where it has no text.
pub open spec fn review_note(r: GitHubReview) -> Seq<char> {
    match comment_body(r.body_text, r.body) {
        Some(b) => if b.len() > 0 {
            "Review by @"@ + author_text(r.author_login) + " ("@ + r.state@ + "):\n"@ + b
                + "\n\n"@
        } else {
            seq![]
        },
        None => seq![],
    }
}

/// An inline comment as context for work on its pull request.
pub open spec fn inline_note(c: GitHubReviewComment) -> Seq<char> {
    match comment_body(c.body_text, c.body) {
        Some(b) => if b.len() > 0 {
            "Inline comment by @"@ + author_text(c.author_login) + " on "@ + text_or_empty(c.path)
                + ":\n"@ + b + "\n\n"@
        } else {
            seq![]
        },
        None => seq![],
    }
}

pub open spec fn review_notes(v: Seq<GitHubReview>) -> Seq<char>
    decreases v.len(),
{
    if v.len() == 0 {
        seq![]
    } else {
        review_notes(v.drop_last()) + review_note(v.last())
    }
}

pub open spec fn inline_notes(v: Seq<GitHubReviewComment>) -> Seq<char>
    decreases v.len(),
{
    if v.len() == 0 {
        seq![]
    } else {
        inline_notes(v.drop_last()) + inline_note(v.last())
    }
}

/// At most the first `n` members of a list.
pub open spec fn up_to<A>(s: Seq<A>, n: int) -> Seq<A> {
    if s.len() > n {
        s.take(n)
    } else {
        s
    }
}

/// The issue behind a pull request, with up to ten reviews and twenty inline comments
/// on it.
pub open spec fn issue_context(
    number: i64,
    issue_body: Seq<char>,
    reviews: Seq<GitHubReview>,
    inline: Seq<GitHubReviewComment>,
) -> Seq<char> {
    "## GitHub Issue #"@ + signed_decimal(number as int) + "\n"@ + issue_body + "\n\n"@
        + review_notes(up_to(reviews, 10)) + inline_notes(up_to(inline, 20))
}

fn note_review(r: &GitHubReview) -> (s: String)
    ensures
        s@ == review_note(*r),
{
    match body_of(&r.body_text, &r.body) {
        Some(b) => if b.as_str().is_empty() {
            String::new()
        } else {
            let mut s = "Review by @".to_owned();
            s.append(author_of(&r.author_login).as_str());
            s.append(" (");
            s.append(r.state.as_str());
            s.append("):\n");
            s.append(b.as_str());
            s.append("\n\n");
            s
        },
        None => String::new(),
    }
}

fn note_inline(c: &GitHubReviewComment) -> (s: String)
    ensures
        s@ == inline_note(*c),
{
    match body_of(&c.body_text, &c.body) {
        Some(b) => if b.as_str().is_empty() {
            String::new()
        } else {
            let mut s = "Inline comment by @".to_owned();
            s.append(author_of(&c.author_login).as_str());
            s.append(" on ");
            s.append(unwrap_text(&c.path).as_str());
            s.append(":\n");
            s.append(b.as_str());
            s.append("\n\n");
            s
        },
        None => String::new(),
    }
}

/// Describe the issue behind a pull request, with the reviews on the pull request.
pub fn format_issue_context(
    number: i64,
    issue_body: &str,
    reviews: &Vec<GitHubReview>,
    inline: &Vec<GitHubReviewComment>,
) -> (r: String)
    ensures
        r@ == issue_context(number, issue_body@, reviews@, inline@),
{
    let mut r = "## GitHub Issue #".to_owned();
    r.append(format_signed(number).as_str());
    r.append("\n");
    r.append(issue_body);
    r.append("\n\n");
    let ghost header = r@;
    let n: usize = if reviews.len() > 10 {
        10
    } else {
        reviews.len()
    };
    let mut i: usize = 0;
    assert(header + review_notes(reviews@.take(0)) =~= header);
    while i < n
        invariant
            i <= n <= reviews@.len(),
            r@ == header + review_notes(reviews@.take(i as int)),
        decreases n - i,
    {
        let ghost next = reviews@.take(i as int + 1);
        proof {
            assert(next.drop_last() =~= reviews@.take(i as int));
        }
        r.append(note_review(&reviews[i]).as_str());
        assert(r@ =~= header + review_notes(next));
        i += 1;
    }
    assert(reviews@.take(n as int) =~= up_to(reviews@, 10));
    let ghost first = r@;
    let m: usize = if inline.len() > 20 {
        20
    } else {
        inline.len()
    };
    let mut j: usize = 0;
    assert(first + inline_notes(inline@.take(0)) =~= first);
    while j < m
        invariant
            j <= m <= inline@.len(),
            r@ == first + inline_notes(inline@.take(j as int)),
        decreases m - j,
    {
        let ghost next = inline@.take(j as int + 1);
        proof {
            assert(next.drop_last() =~= inline@.take(j as int));
        }
        r.append(note_inline(&inline[j]).as_str());
        assert(r@ =~= first + inline_notes(next));
        j += 1;
    }
    assert(inline@.take(m as int) =~= up_to(inline@, 20));
    r
}

// ---------------------------------------------------------------------------
// Laws
// ---------------------------------------------------------------------------

proof fn lemma_review_entries(v: Seq<GitHubReview>, i: int)
    requires
        0 <= i < v.len(),
    ensures
        exists|a: Seq<char>, b: Seq<char>|
            review_entries(v) == #[trigger] (a + review_entry(v[i]) + b),
    decreases v.len(),
{
    let e = review_entry(v[i]);
    if i == v.len() - 1 {
        let a = review_entries(v.drop_last());
        assert(review_entries(v) =~= a + e + Seq::<char>::empty());
    } else {
        lemma_review_entries(v.drop_last(), i);
        let (a, b) = choose|a: Seq<char>, b: Seq<char>|
            review_entries(v.drop_last()) == #[trigger] (a + review_entry(v.drop_last()[i]) + b);
        assert(review_entries(v) =~= a + e + (b + review_entry(v.last())));
    }
}

proof fn lemma_comment_entries(v: Seq<GitHubComment>, i: int)
    requires
        0 <= i < v.len(),
    ensures
        exists|a: Seq<char>, b: Seq<char>|
            comment_entries(v) == #[trigger] (a + comment_entry(v[i]) + b),
    decreases v.len(),
{
    let e = comment_entry(v[i]);
    if i == v.len() - 1 {
        let a = comment_entries(v.drop_last());
        assert(comment_entries(v) =~= a + e + Seq::<char>::empty());
    } else {
        lemma_comment_entries(v.drop_last(), i);
        let (a, b) = choose|a: Seq<char>, b: Seq<char>|
            comment_entries(v.drop_last()) == #[trigger] (a + comment_entry(v.drop_last()[i]) + b);
        assert(comment_entries(v) =~= a + e + (b + comment_entry(v.last())));
    }
}

proof fn lemma_inline_entries(v: Seq<GitHubReviewComment>, i: int)
    requires
        0 <= i < v.len(),
    ensures
        exists|a: Seq<char>, b: Seq<char>|
            inline_entries(v) == #[trigger] (a + inline_entry(v[i]) + b),
    decreases v.len(),
{
    let e = inline_entry(v[i]);
    if i == v.len() - 1 {
        let a = inline_entries(v.drop_last());
        assert(inline_entries(v) =~= a + e + Seq::<char>::empty());
    } else {
        lemma_inline_entries(v.drop_last(), i);
        let (a, b) = choose|a: Seq<char>, b: Seq<char>|
            inline_entries(v.drop_last()) == #[trigger] (a + inline_entry(v.drop_last()[i]) + b);
        assert(inline_entries(v) =~= a + e + (b + inline_entry(v.last())));
    }
}

/// The head of the context, which names what follows.
spec fn context_head(mode: PendingReviewLaunchMode) -> Seq<char> {
    match mode {
        PendingReviewLaunchMode::ContinueWork => "## PR Review Feedback\n\n"@,
        PendingReviewLaunchMode::Review => "## Existing Review Activity\n\n"@,
    }
}

proof fn lemma_review_is_in_context(
    mode: PendingReviewLaunchMode,
    reviews: Seq<GitHubReview>,
    comments: Seq<GitHubComment>,
    inline: Seq<GitHubReviewComment>,
    i: int,
    part: Seq<char>,
)
    requires
        0 <= i < reviews.len(),
        contains_text(review_entry(reviews[i]), part),
    ensures
        contains_text(review_context(mode, reviews, comments, inline), part),
{
    lemma_review_entries(reviews, i);
    let (a, b) = choose|a: Seq<char>, b: Seq<char>|
        review_entries(reviews) == #[trigger] (a + review_entry(reviews[i]) + b);
    lemma_found_in_part(a, review_entry(reviews[i]), b, part);
    let tail = comment_entries(comments) + (if inline.len() == 0 {
        seq![]
    } else {
        "### Inline Comments\n\n"@ + inline_entries(inline)
    });
    lemma_found_in_part(context_head(mode), review_entries(reviews), tail, part);
    assert(review_context(mode, reviews, comments, inline) =~= context_head(mode)
        + review_entries(reviews) + tail);
}

proof fn lemma_comment_is_in_context(
    mode: PendingReviewLaunchMode,
    reviews: Seq<GitHubReview>,
    comments: Seq<GitHubComment>,
    inline: Seq<GitHubReviewComment>,
    i: int,
    part: Seq<char>,
)
    requires
        0 <= i < comments.len(),
        contains_text(comment_entry(comments[i]), part),
    ensures
        contains_text(review_context(mode, reviews, comments, inline), part),
{
    lemma_comment_entries(comments, i);
    let (a, b) = choose|a: Seq<char>, b: Seq<char>|
        comment_entries(comments) == #[trigger] (a + comment_entry(comments[i]) + b);
    lemma_found_in_part(a, comment_entry(comments[i]), b, part);
    let head = context_head(mode) + review_entries(reviews);
    let tail = if inline.len() == 0 {
        seq![]
    } else {
        "### Inline Comments\n\n"@ + inline_entries(inline)
    };
    lemma_found_in_part(head, comment_entries(comments), tail, part);
    assert(review_context(mode, reviews, comments, inline) =~= head + comment_entries(comments)
        + tail);
}

proof fn lemma_inline_is_in_context(
    mode: PendingReviewLaunchMode,
    reviews: Seq<GitHubReview>,
    comments: Seq<GitHubComment>,
    inline: Seq<GitHubReviewComment>,
    i: int,
    part: Seq<char>,
)
    requires
        0 <= i < inline.len(),
        contains_text(inline_entry(inline[i]), part),
    ensures
        contains_text(review_context(mode, reviews, comments, inline), part),
{
    lemma_inline_entries(inline, i);
    let (a, b) = choose|a: Seq<char>, b: Seq<char>|
        inline_entries(inline) == #[trigger] (a + inline_entry(inline[i]) + b);
    lemma_found_in_part(a, inline_entry(inline[i]), b, part);
    let head = context_head(mode) + review_entries(reviews) + comment_entries(comments)
        + "### Inline Comments\n\n"@;
    lemma_found_in_part(head, inline_entries(inline), seq![], part);
    assert(review_context(mode, reviews, comments, inline) =~= head + inline_entries(inline)
        + Seq::<char>::empty());
}

/// The context for an agent says what every review says, whose it is and what it decided.
pub proof fn law_context_quotes_every_review(
    mode: PendingReviewLaunchMode,
    reviews: Seq<GitHubReview>,
    comments: Seq<GitHubComment>,
    inline: Seq<GitHubReviewComment>,
    i: int,
)
    requires
        0 <= i < reviews.len(),
    ensures
        reviews[i].body_text matches Some(b) ==> contains_text(
            review_context(mode, reviews, comments, inline),
            b@,
        ),
        reviews[i].body_text is None ==> (reviews[i].body matches Some(b) ==> contains_text(
            review_context(mode, reviews, comments, inline),
            b@,
        )),
        reviews[i].author_login matches Some(l) ==> contains_text(
            review_context(mode, reviews, comments, inline),
            l@,
        ),
        contains_text(review_context(mode, reviews, comments, inline), reviews[i].state@),
{
    let r = reviews[i];
    let author = author_text(r.author_login);
    let text = match comment_body(r.body_text, r.body) {
        Some(b) => if b.len() > 0 {
            b + "\n"@
        } else {
            seq![]
        },
        None => seq![],
    };
    let rest = " ("@ + r.state@ + ")\n"@ + text + "\n"@;
    lemma_part_is_found("### @"@, author, rest);
    assert(review_entry(r) =~= "### @"@ + author + rest);
    lemma_review_is_in_context(mode, reviews, comments, inline, i, author);
    let before = "### @"@ + author + " ("@;
    let after = ")\n"@ + text + "\n"@;
    lemma_part_is_found(before, r.state@, after);
    assert(review_entry(r) =~= before + r.state@ + after);
    lemma_review_is_in_context(mode, reviews, comments, inline, i, r.state@);
    if let Some(b) = comment_body(r.body_text, r.body) {
        if b.len() > 0 {
            let head = "### @"@ + author + " ("@ + r.state@ + ")\n"@;
            lemma_part_is_found(head, b, "\n"@ + "\n"@);
            assert(review_entry(r) =~= head + b + ("\n"@ + "\n"@));
        } else {
            assert(b =~= Seq::<char>::empty());
            crate::text::law_containing_is_standing_in_a_row(review_entry(r), b);
        }
        lemma_review_is_in_context(mode, reviews, comments, inline, i, b);
    }
}

/// The context for an agent says what every comment says, and whose it is.
pub proof fn law_context_quotes_every_comment(
    mode: PendingReviewLaunchMode,
    reviews: Seq<GitHubReview>,
    comments: Seq<GitHubComment>,
    inline: Seq<GitHubReviewComment>,
    i: int,
)
    requires
        0 <= i < comments.len(),
    ensures
        comments[i].body_text matches Some(b) ==> contains_text(
            review_context(mode, reviews, comments, inline),
            b@,
        ),
        comments[i].body_text is None ==> (comments[i].body matches Some(b) ==> contains_text(
            review_context(mode, reviews, comments, inline),
            b@,
        )),
        comments[i].author_login matches Some(l) ==> contains_text(
            review_context(mode, reviews, comments, inline),
            l@,
        ),
{
    let c = comments[i];
    let author = author_text(c.author_login);
    let text = match comment_body(c.body_text, c.body) {
        Some(b) => b + "\n"@,
        None => seq![],
    };
    let rest = "**\n"@ + text + "\n"@;
    lemma_part_is_found("**@"@, author, rest);
    assert(comment_entry(c) =~= "**@"@ + author + rest);
    lemma_comment_is_in_context(mode, reviews, comments, inline, i, author);
    if let Some(b) = comment_body(c.body_text, c.body) {
        let head = "**@"@ + author + "**\n"@;
        lemma_part_is_found(head, b, "\n"@ + "\n"@);
        assert(comment_entry(c) =~= head + b + ("\n"@ + "\n"@));
        lemma_comment_is_in_context(mode, reviews, comments, inline, i, b);
    }
}

/// The context for an agent says what every inline comment says, whose it is, and on
/// which line of which file it stands.
pub proof fn law_context_quotes_every_inline_comment(
    mode: PendingReviewLaunchMode,
    reviews: Seq<GitHubReview>,
    comments: Seq<GitHubComment>,
    inline: Seq<GitHubReviewComment>,
    i: int,
)
    requires
        0 <= i < inline.len(),
    ensures
        inline[i].body_text matches Some(b) ==> contains_text(
            review_context(mode, reviews, comments, inline),
            b@,
        ),
        inline[i].body_text is None ==> (inline[i].body matches Some(b) ==> contains_text(
            review_context(mode, reviews, comments, inline),
            b@,
        )),
        inline[i].author_login matches Some(l) ==> contains_text(
            review_context(mode, reviews, comments, inline),
            l@,
        ),
        inline[i].path matches Some(p) ==> contains_text(
            review_context(mode, reviews, comments, inline),
            p@,
        ),
        inline[i].line matches Some(n) ==> contains_text(
            review_context(mode, reviews, comments, inline),
            " line "@ + signed_decimal(n as int),
        ),
{
    let c = inline[i];
    let author = author_text(c.author_login);
    let path = match c.path {
        Some(p) => p@,
        None => "unknown file"@,
    };
    let line = match c.line {
        Some(n) => " line "@ + signed_decimal(n as int),
        None => seq![],
    };
    let hunk = match c.diff_hunk {
        Some(h) => quoted_hunk(h@),
        None => seq![],
    };
    let text = match comment_body(c.body_text, c.body) {
        Some(b) => b + "\n"@,
        None => seq![],
    };
    lemma_found_beside("**@"@, author);
    lemma_found_beside("**@"@ + author, "** on `"@);
    lemma_found_beside("**@"@ + author + "** on `"@, path);
    lemma_found_beside("**@"@ + author + "** on `"@ + path, "`"@);
    let to_line = "**@"@ + author + "** on `"@ + path + "`"@;
    lemma_found_beside(to_line, line);
    lemma_found_beside(to_line + line, "\n"@);
    lemma_found_beside(to_line + line + "\n"@, hunk);
    lemma_found_beside(to_line + line + "\n"@ + hunk, text);
    lemma_found_beside(to_line + line + "\n"@ + hunk + text, "\n"@);
    assert(inline_entry(c) == to_line + line + "\n"@ + hunk + text + "\n"@);
    lemma_inline_is_in_context(mode, reviews, comments, inline, i, author);
    lemma_inline_is_in_context(mode, reviews, comments, inline, i, path);
    lemma_inline_is_in_context(mode, reviews, comments, inline, i, line);
    if let Some(b) = comment_body(c.body_text, c.body) {
        lemma_found_beside(b, "\n"@);
        lemma_inline_is_in_context(mode, reviews, comments, inline, i, b);
    }
}

/// The lines of a diff hunk that an inline comment quotes are its first three, each behind
/// a quotation mark.
pub proof fn law_context_quotes_the_hunk(
    mode: PendingReviewLaunchMode,
    reviews: Seq<GitHubReview>,
    comments: Seq<GitHubComment>,
    inline: Seq<GitHubReviewComment>,
    i: int,
    k: int,
)
    requires
        0 <= i < inline.len(),
        inline[i].diff_hunk is Some,
        0 <= k < 3,
        k < lines_of(inline[i].diff_hunk->0@).len(),
    ensures
        contains_text(
            review_context(mode, reviews, comments, inline),
            "> "@ + lines_of(inline[i].diff_hunk->0@)[k],
        ),
{
    let c = inline[i];
    let rows = lines_of(c.diff_hunk->0@);
    let first = if rows.len() > 3 {
        rows.take(3)
    } else {
        rows
    };
    let quoted = quoted_hunk(c.diff_hunk->0@);
    let row = "> "@ + rows[k];
    assert(first[k] == rows[k]);
    lemma_quoted_rows(first, k);
    assert(contains_text("> "@ + joined(first, "\n> "@), row));
    lemma_found_in_part(seq![], "> "@ + joined(first, "\n> "@), "\n"@, row);
    assert(Seq::<char>::empty() + ("> "@ + joined(first, "\n> "@)) + "\n"@ =~= quoted);
    let author = author_text(c.author_login);
    let before = "**@"@ + author + "** on `"@ + (match c.path {
        Some(p) => p@,
        None => "unknown file"@,
    }) + "`"@ + (match c.line {
        Some(n) => " line "@ + signed_decimal(n as int),
        None => seq![],
    }) + "\n"@;
    let after = (match comment_body(c.body_text, c.body) {
        Some(b) => b + "\n"@,
        None => seq![],
    }) + "\n"@;
    lemma_found_in_part(before, quoted, after, row);
    assert(inline_entry(c) =~= before + quoted + after);
    lemma_inline_is_in_context(mode, reviews, comments, inline, i, row);
}

proof fn lemma_quoted_rows(rows: Seq<Seq<char>>, k: int)
    requires
        0 <= k < rows.len(),
    ensures
        contains_text("> "@ + joined(rows, "\n> "@), "> "@ + rows[k]),
{
    reveal_strlit("> ");
    reveal_strlit("\n> ");
    assert("\n> "@ =~= seq!['\n'] + "> "@);
    lemma_marked_rows(rows, "> "@, k);
}

proof fn lemma_marked_rows(rows: Seq<Seq<char>>, mark: Seq<char>, k: int)
    requires
        0 <= k < rows.len(),
    ensures
        contains_text(mark + joined(rows, seq!['\n'] + mark), mark + rows[k]),
    decreases rows.len(),
{
    let sep = seq!['\n'] + mark;
    let all = mark + joined(rows, sep);
    let row = mark + rows[k];
    if rows.len() == 1 {
        lemma_part_is_found(seq![], row, seq![]);
        assert(joined(rows, sep) =~= rows[0]);
        assert(all =~= Seq::<char>::empty() + row + Seq::<char>::empty());
    } else {
        let inner = mark + joined(rows.drop_last(), sep);
        assert(all =~= inner + seq!['\n'] + (mark + rows.last()));
        lemma_found_beside(inner, seq!['\n']);
        lemma_found_beside(inner + seq!['\n'], mark + rows.last());
        if k < rows.len() - 1 {
            lemma_marked_rows(rows.drop_last(), mark, k);
        }
    }
}

/// The review activity stands in the context in the order of its lists: what one more
/// entry adds stands at the end of its part, and the parts follow each other. Without any
/// activity there is no context.
pub proof fn law_context_follows_its_lists(
    mode: PendingReviewLaunchMode,
    reviews: Seq<GitHubReview>,
    comments: Seq<GitHubComment>,
    inline: Seq<GitHubReviewComment>,
    r: GitHubReview,
    c: GitHubComment,
    n: GitHubReviewComment,
)
    ensures
        review_context(mode, seq![], seq![], seq![]).len() == 0,
        begins_with(
            review_context(mode, reviews.push(r), seq![], seq![]),
            review_context(mode, reviews, seq![], seq![]),
        ),
        begins_with(
            review_context(mode, reviews, comments.push(c), seq![]),
            review_context(mode, reviews, comments, seq![]),
        ),
        inline.len() > 0 ==> begins_with(
            review_context(mode, reviews, comments, inline.push(n)),
            review_context(mode, reviews, comments, inline),
        ),
        begins_with(
            review_context(mode, reviews, comments, inline),
            review_context(mode, reviews, comments, seq![]),
        ),
        begins_with(
            review_context(mode, reviews, comments, inline),
            review_context(mode, reviews, seq![], seq![]),
        ),
{
    let none_c = Seq::<GitHubComment>::empty();
    let none_n = Seq::<GitHubReviewComment>::empty();
    let head = context_head(mode);
    assert(reviews.push(r).drop_last() =~= reviews);
    assert(comments.push(c).drop_last() =~= comments);
    assert(inline.push(n).drop_last() =~= inline);
    let a = review_context(mode, reviews, none_c, none_n);
    let b = review_context(mode, reviews, comments, none_n);
    let d = review_context(mode, reviews, comments, inline);
    let a2 = review_context(mode, reviews.push(r), none_c, none_n);
    let b2 = review_context(mode, reviews, comments.push(c), none_n);
    let d2 = review_context(mode, reviews, comments, inline.push(n));
    assert(a2.take(a.len() as int) =~= a);
    assert(b2.take(b.len() as int) =~= b);
    assert(d.take(b.len() as int) =~= b);
    assert(d.take(a.len() as int) =~= a);
    if inline.len() > 0 {
        assert(d2.take(d.len() as int) =~= d);
    }
}

/// A prompt and what the user adds both reach the agent, each without the space around
/// it, the prompt first; a blank part leaves no trace.
pub proof fn law_prompts_keep_both_parts(base: Seq<char>, extra: Seq<char>)
    ensures
        contains_text(combined(base, extra), trimmed(base)),
        contains_text(combined(base, extra), trimmed(extra)),
        begins_with(combined(base, extra), trimmed(base)),
        trimmed(extra).len() == 0 ==> combined(base, extra) == trimmed(base),
        trimmed(base).len() == 0 ==> combined(base, extra) == trimmed(extra),
        combined(base, extra).len() >= trimmed(base).len() + trimmed(extra).len(),
{
    let b = trimmed(base);
    let x = trimmed(extra);
    let all = combined(base, extra);
    let mid = "\n\nAdditional context:\n"@;
    let none = Seq::<char>::empty();
    if x.len() == 0 {
        assert(x =~= none);
        lemma_part_is_found(none, b, none);
        assert(none + b + none =~= all);
        lemma_part_is_found(b, none, none);
        assert(b + none + none =~= all);
        assert(all.take(b.len() as int) =~= b);
    } else if b.len() == 0 {
        assert(b =~= none);
        lemma_part_is_found(none, x, none);
        assert(none + x + none =~= all);
        lemma_part_is_found(x, none, none);
        assert(x + none + none =~= all);
        assert(all.take(0) =~= b);
    } else {
        lemma_part_is_found(none, b, mid + x);
        assert(none + b + (mid + x) =~= all);
        lemma_part_is_found(b + mid, x, none);
        assert(b + mid + x + none =~= all);
        assert(all.take(b.len() as int) =~= b);
    }
}

/// The prompt about a pull request names its number, its title and its address, says from
/// which branch into which it goes, and holds its description.
pub proof fn law_pr_prompt_names_the_pr(pr: PendingReviewPrLaunch)
    ensures
        contains_text(pr_prompt(pr), "#"@ + signed_decimal(pr.number as int) + ": "@ + pr.title@),
        contains_text(pr_prompt(pr), "PR URL: "@ + pr.url@),
        pr.base_ref matches Some(b) ==> (pr.head_ref matches Some(h) ==> contains_text(
            pr_prompt(pr),
            h@ + " -> "@ + b@,
        )),
        contains_text(pr_prompt(pr), trimmed(pr.body@)),
{
    let number = signed_decimal(pr.number as int);
    let opening = match pr.mode {
        PendingReviewLaunchMode::ContinueWork => "Continue working on GitHub pull request #"@,
        PendingReviewLaunchMode::Review => "Review GitHub pull request #"@,
    };
    let goals = match pr.mode {
        PendingReviewLaunchMode::ContinueWork => seq![],
        PendingReviewLaunchMode::Review => review_goals(),
    };
    let start = lemma_opening(pr.mode);
    assert(opening == start + "#"@);
    lemma_row_is_found(start, "#"@, number, ": "@, pr.title@);
    let named = opening + number + ": "@ + pr.title@;
    lemma_address_line(named, pr.url@);
    lemma_found_beside(named, "\nPR URL: "@);
    lemma_found_beside(named + "\nPR URL: "@, pr.url@);
    let front = named + "\nPR URL: "@ + pr.url@ + "\n"@;
    lemma_found_beside(named + "\nPR URL: "@ + pr.url@, "\n"@);
    lemma_found_beside(front, branch_line(pr));
    lemma_found_beside(front + branch_line(pr), goals);
    lemma_found_beside(front + branch_line(pr) + goals, description_part(pr.body@));
    assert(pr_prompt(pr) == front + branch_line(pr) + goals + description_part(pr.body@));
    if let (Some(b), Some(h)) = (pr.base_ref, pr.head_ref) {
        let none = Seq::<char>::empty();
        lemma_row_is_found("Branch: "@, none, h@, " -> "@, b@);
        assert("Branch: "@ + none =~= "Branch: "@);
        assert(none + h@ =~= h@);
        lemma_found_beside("Branch: "@ + h@ + " -> "@ + b@, "\n"@);
    }
    let body = trimmed(pr.body@);
    if is_blank(pr.body@) {
        assert(body =~= Seq::<char>::empty());
        crate::text::law_containing_is_standing_in_a_row(pr_prompt(pr), body);
    } else {
        lemma_found_beside("\nPR description:\n"@, body);
    }
}

/// What stands in front of the number sign of a prompt.
proof fn lemma_opening(mode: PendingReviewLaunchMode) -> (start: Seq<char>)
    ensures
        (match mode {
            PendingReviewLaunchMode::ContinueWork => "Continue working on GitHub pull request #"@,
            PendingReviewLaunchMode::Review => "Review GitHub pull request #"@,
        }) == start + "#"@,
{
    reveal_strlit("#");
    match mode {
        PendingReviewLaunchMode::ContinueWork => {
            reveal_strlit("Continue working on GitHub pull request #");
            let all = "Continue working on GitHub pull request #"@;
            assert(all =~= all.drop_last() + "#"@);
            all.drop_last()
        },
        PendingReviewLaunchMode::Review => {
            reveal_strlit("Review GitHub pull request #");
            let all = "Review GitHub pull request #"@;
            assert(all =~= all.drop_last() + "#"@);
            all.drop_last()
        },
    }
}

proof fn lemma_address_line(named: Seq<char>, url: Seq<char>)
    ensures
        contains_text(named + "\nPR URL: "@ + url, "PR URL: "@ + url),
{
    let key = "PR URL: "@;
    let full = "\nPR URL: "@;
    lemma_address_key();
    let none = Seq::<char>::empty();
    lemma_row_is_found(named + seq!['\n'], key, url, none, none);
    assert(named + seq!['\n'] + key =~= named + full);
    assert(key + url + none + none =~= key + url);
    assert(named + full + url + none + none =~= named + full + url);
}

proof fn lemma_address_key()
    ensures
        "\nPR URL: "@ == seq!['\n'] + "PR URL: "@,
{
    reveal_strlit("\nPR URL: ");
    reveal_strlit("PR URL: ");
    assert("\nPR URL: "@ =~= seq!['\n'] + "PR URL: "@);
}

/// A thread that reviews a pull request is told so and what to attend to; one that goes on
/// with it is told that.
pub proof fn law_pr_prompt_says_what_to_do(pr: PendingReviewPrLaunch)
    ensures
        pr.mode == PendingReviewLaunchMode::Review ==> begins_with(
            pr_prompt(pr),
            "Review GitHub pull request #"@,
        ) && contains_text(pr_prompt(pr), review_goals()),
        pr.mode == PendingReviewLaunchMode::ContinueWork ==> begins_with(
            pr_prompt(pr),
            "Continue working on GitHub pull request #"@,
        ),
{
    let all = pr_prompt(pr);
    let r = "Review GitHub pull request #"@;
    let c = "Continue working on GitHub pull request #"@;
    let body = signed_decimal(pr.number as int) + ": "@ + pr.title@ + "\nPR URL: "@ + pr.url@
        + "\n"@ + branch_line(pr);
    if pr.mode == PendingReviewLaunchMode::Review {
        assert(all.take(r.len() as int) =~= r);
        lemma_part_is_found(r + body, review_goals(), description_part(pr.body@));
        assert(all =~= (r + body) + review_goals() + description_part(pr.body@));
    } else {
        assert(all.take(c.len() as int) =~= c);
    }
}

proof fn lemma_review_notes(v: Seq<GitHubReview>, i: int)
    requires
        0 <= i < v.len(),
    ensures
        contains_text(review_notes(v), review_note(v[i])),
    decreases v.len(),
{
    let none = Seq::<char>::empty();
    let rest = review_notes(v.drop_last());
    if i == v.len() - 1 {
        lemma_part_is_found(rest, review_note(v[i]), none);
        assert(review_notes(v) =~= rest + review_note(v[i]) + none);
    } else {
        lemma_review_notes(v.drop_last(), i);
        lemma_found_in_part(none, rest, review_note(v.last()), review_note(v[i]));
        assert(review_notes(v) =~= none + rest + review_note(v.last()));
    }
}

proof fn lemma_inline_notes(v: Seq<GitHubReviewComment>, i: int)
    requires
        0 <= i < v.len(),
    ensures
        contains_text(inline_notes(v), inline_note(v[i])),
    decreases v.len(),
{
    let none = Seq::<char>::empty();
    let rest = inline_notes(v.drop_last());
    if i == v.len() - 1 {
        lemma_part_is_found(rest, inline_note(v[i]), none);
        assert(inline_notes(v) =~= rest + inline_note(v[i]) + none);
    } else {
        lemma_inline_notes(v.drop_last(), i);
        lemma_found_in_part(none, rest, inline_note(v.last()), inline_note(v[i]));
        assert(inline_notes(v) =~= none + rest + inline_note(v.last()));
    }
}

/// The context of an issue names the issue, holds its text, and holds what the first ten
/// reviews and the first twenty inline comments say, with their authors.
pub proof fn law_issue_context_quotes_the_reviews(
    number: i64,
    body: Seq<char>,
    reviews: Seq<GitHubReview>,
    inline: Seq<GitHubReviewComment>,
    i: int,
)
    requires
        0 <= i,
    ensures
        contains_text(issue_context(number, body, reviews, inline), body),
        contains_text(
            issue_context(number, body, reviews, inline),
            "#"@ + signed_decimal(number as int),
        ),
        i < 10 && i < reviews.len() && reviews[i].body_text is Some ==> contains_text(
            issue_context(number, body, reviews, inline),
            reviews[i].body_text->0@,
        ),
        i < 10 && i < reviews.len() && reviews[i].body_text is None && reviews[i].body is Some
            ==> contains_text(
            issue_context(number, body, reviews, inline),
            reviews[i].body->0@,
        ),
        i < 20 && i < inline.len() && inline[i].body_text is Some ==> contains_text(
            issue_context(number, body, reviews, inline),
            inline[i].body_text->0@,
        ),
        i < 20 && i < inline.len() && inline[i].body_text is None && inline[i].body is Some
            ==> contains_text(
            issue_context(number, body, reviews, inline),
            inline[i].body->0@,
        ),
{
    let all = issue_context(number, body, reviews, inline);
    let r = review_notes(up_to(reviews, 10));
    let n = inline_notes(up_to(inline, 20));
    reveal_strlit("## GitHub Issue #");
    reveal_strlit("## GitHub Issue ");
    reveal_strlit("#");
    assert("## GitHub Issue #"@ =~= "## GitHub Issue "@ + "#"@);
    let name = "#"@ + signed_decimal(number as int);
    let behind = "\n"@ + body + "\n\n"@ + r + n;
    lemma_part_is_found("## GitHub Issue "@, name, behind);
    assert(all =~= "## GitHub Issue "@ + name + behind);
    let front = "## GitHub Issue "@ + name + "\n"@;
    lemma_part_is_found(front, body, "\n\n"@ + r + n);
    assert(all =~= front + body + ("\n\n"@ + r + n));
    let head = front + body + "\n\n"@;
    if i < 10 && i < reviews.len() {
        assert(up_to(reviews, 10)[i] == reviews[i]);
        lemma_review_notes(up_to(reviews, 10), i);
        if let Some(b) = comment_body(reviews[i].body_text, reviews[i].body) {
            lemma_noted(review_note(reviews[i]), "Review by @"@ + author_text(
                reviews[i].author_login,
            ) + " ("@ + reviews[i].state@ + "):\n"@, b);
            lemma_found_through(r, review_note(reviews[i]), b);
            lemma_found_in_part(head, r, n, b);
            assert(all =~= head + r + n);
        }
    }
    if i < 20 && i < inline.len() {
        assert(up_to(inline, 20)[i] == inline[i]);
        lemma_inline_notes(up_to(inline, 20), i);
        if let Some(b) = comment_body(inline[i].body_text, inline[i].body) {
            lemma_noted(inline_note(inline[i]), "Inline comment by @"@ + author_text(
                inline[i].author_login,
            ) + " on "@ + text_or_empty(inline[i].path) + ":\n"@, b);
            lemma_found_through(n, inline_note(inline[i]), b);
            lemma_found_in_part(head + r, n, seq![], b);
            assert(all =~= (head + r) + n + Seq::<char>::empty());
        }
    }
}

/// What a note holds behind its head.
proof fn lemma_noted(note: Seq<char>, head: Seq<char>, b: Seq<char>)
    requires
        b.len() > 0 ==> note == head + b + "\n\n"@,
    ensures
        contains_text(note, b),
{
    if b.len() > 0 {
        lemma_part_is_found(head, b, "\n\n"@);
    } else {
        assert(b =~= Seq::<char>::empty());
        crate::text::law_containing_is_standing_in_a_row(note, b);
    }
}

proof fn lemma_found_through(hay: Seq<char>, mid: Seq<char>, needle: Seq<char>)
    requires
        contains_text(hay, mid),
        contains_text(mid, needle),
    ensures
        contains_text(hay, needle),
{
    let i = choose|i: int| crate::text::occurs_at(hay, mid, i);
    let a = hay.take(i);
    let b = hay.skip(i + mid.len());
    assert(hay =~= a + mid + b);
    lemma_found_in_part(a, mid, b, needle);
}

/// The note about a review says whose it is and what it decided; that about an inline
/// comment whose it is and in which file. A review or comment without text leaves none.
pub proof fn law_notes_name_their_authors(r: GitHubReview, c: GitHubReviewComment)
    ensures
        r.body_text matches Some(b) ==> (b@.len() > 0 ==> (r.author_login matches Some(l)
            ==> contains_text(review_note(r), "@"@ + l@ + " ("@ + r.state@ + ")"@))),
        c.body_text matches Some(b) ==> (b@.len() > 0 ==> (c.author_login matches Some(l) ==> (
        c.path matches Some(p) ==> contains_text(inline_note(c), "@"@ + l@ + " on "@ + p@)))),
        r.body_text is None && r.body is None ==> review_note(r).len() == 0,
        c.body_text is None && c.body is None ==> inline_note(c).len() == 0,
{
    reveal_strlit("Review by @");
    reveal_strlit("Review by ");
    reveal_strlit("Inline comment by @");
    reveal_strlit("Inline comment by ");
    reveal_strlit("@");
    reveal_strlit("):\n");
    reveal_strlit(")");
    assert("Review by @"@ =~= "Review by "@ + "@"@);
    assert("Inline comment by @"@ =~= "Inline comment by "@ + "@"@);
    assert("):\n"@ =~= ")"@ + seq![':', '\n']);
    if let (Some(b), Some(l)) = (r.body_text, r.author_login) {
        if b@.len() > 0 {
            let part = "@"@ + l@ + " ("@ + r.state@ + ")"@;
            let after = seq![':', '\n'] + b@ + "\n\n"@;
            lemma_part_is_found("Review by "@, part, after);
            assert(review_note(r) =~= "Review by "@ + part + after);
        }
    }
    if let (Some(b), Some(l), Some(p)) = (c.body_text, c.author_login, c.path) {
        if b@.len() > 0 {
            let part = "@"@ + l@ + " on "@ + p@;
            let after = ":\n"@ + b@ + "\n\n"@;
            lemma_part_is_found("Inline comment by "@, part, after);
            assert(inline_note(c) =~= "Inline comment by "@ + part + after);
        }
    }
}

/// What a form shows of its draft: the pull request, else the issue, each by number and
/// title, else the task by its id.
pub proof fn law_the_label_names_the_source(d: LaunchThreadDraft)
    ensures
        d.review_pr matches Some(pr) ==> contains_text(
            draft_source(d),
            "#"@ + signed_decimal(pr.number as int) + " "@ + pr.title@,
        ) && begins_with(
            draft_source(d),
            if pr.mode == PendingReviewLaunchMode::Review {
                "Review PR"@
            } else {
                "GitHub PR"@
            },
        ),
        d.review_pr is None ==> (d.board_issue matches Some(issue) ==> contains_text(
            draft_source(d),
            "#"@ + signed_decimal(issue.number as int) + " "@ + issue.title@,
        )),
        d.review_pr is None && d.board_issue is None ==> (d.task_id matches Some(id)
            ==> contains_text(draft_source(d), id@)),
{
    let none = Seq::<char>::empty();
    let all = draft_source(d);
    if let Some(pr) = d.review_pr {
        let start = match pr.mode {
            PendingReviewLaunchMode::ContinueWork => "GitHub PR"@,
            PendingReviewLaunchMode::Review => "Review PR"@,
        };
        reveal_strlit(" #");
        reveal_strlit("#");
        assert(start + " #"@ =~= start + seq![' '] + "#"@);
        lemma_row_is_found(
            start + seq![' '],
            "#"@,
            signed_decimal(pr.number as int),
            " "@,
            pr.title@,
        );
        assert(all.take(start.len() as int) =~= start);
    } else if let Some(issue) = d.board_issue {
        let number = signed_decimal(issue.number as int);
        let start = lemma_issue_opening();
        lemma_row_is_found(start, "#"@, number, " "@, issue.title@);
    } else if let Some(id) = d.task_id {
        lemma_found_beside("Local task "@, id@);
    }
}

proof fn lemma_issue_opening() -> (start: Seq<char>)
    ensures
        "GitHub issue #"@ == start + "#"@,
{
    reveal_strlit("GitHub issue #");
    reveal_strlit("#");
    let all = "GitHub issue #"@;
    assert(all =~= all.drop_last() + "#"@);
    all.drop_last()
}

} // verus!
