//! The drafts that the launch form opens with, the form itself, and the request that
//! a finished draft stands for.

use vstd::prelude::*;
use vstd::string::*;

use crate::board::{BoardItem, BoardItemView};
use crate::board_state::{lemma_text_place, place_of, text_place};
use crate::launch::{
    build_launch_prompt_for_review_pr, combine_prompt, combined, format_issue_context,
    format_review_comments_context, issue_context, pr_prompt, review_context, LaunchThreadDraft,
    PendingBoardIssueLaunch, PendingReviewPrLaunch,
};
use crate::review::{item_title_line, MyTaskItem, ReviewQueueItem};
use crate::settings::{clone_text, text_or_empty, unwrap_text};
use crate::store::{
    provider_name, provider_text, AgentNames, GitHubComment, GitHubIssueCache, GitHubItem,
    GitHubItemKind, GitHubPrCache, GitHubReview, GitHubReviewComment, ProviderKind, PushMode, Task,
    TaskMode,
};
use crate::task_form::TaskSubmission;
use crate::text::{
    blank, contains_text, format_signed, is_blank, lemma_found_beside, signed_decimal, trimmed,
    views,
};
use crate::text_input::{at_end, TextInput};
use crate::views::{LaunchThreadField, PendingReviewLaunchMode, ReviewQueueTab};

verus! {

/// The pull request that an issue is linked to, with what is cached of it.
pub struct LinkedPr {
    pub item: GitHubItem,
    pub cache: Option<GitHubPrCache>,
}

/// A body as written, else as plain text, else the item's own text, else nothing.
pub open spec fn written_body(
    body: Option<String>,
    body_text: Option<String>,
    item_text: Option<String>,
) -> Seq<char> {
    match body {
        Some(b) => b@,
        None => match body_text {
            Some(t) => t@,
            None => text_or_empty(item_text),
        },
    }
}

fn body_as_written(
    body: &Option<String>,
    body_text: &Option<String>,
    item_text: &Option<String>,
) -> (r: String)
    ensures
        r@ == written_body(*body, *body_text, *item_text),
{
    match body {
        Some(b) => b.clone(),
        None => match body_text {
            Some(t) => t.clone(),
            None => unwrap_text(item_text),
        },
    }
}

pub open spec fn pr_body(cache: Option<GitHubPrCache>, item_text: Option<String>) -> Seq<char> {
    match cache {
        Some(c) => written_body(c.body, c.body_text, item_text),
        None => text_or_empty(item_text),
    }
}

pub open spec fn issue_body(cache: Option<GitHubIssueCache>, item_text: Option<String>) -> Seq<
    char,
> {
    match cache {
        Some(c) => written_body(c.body, c.body_text, item_text),
        None => text_or_empty(item_text),
    }
}

/// `p` continues the work on a pull request.
pub open spec fn continues_pr(
    p: PendingReviewPrLaunch,
    item: GitHubItem,
    cache: Option<GitHubPrCache>,
) -> bool {
    &&& p.github_item_id == item.id
    &&& p.number == item.number
    &&& p.title == item.title
    &&& p.body@ == pr_body(cache, item.body_text)
    &&& p.url == item.url
    &&& p.base_ref == match cache {
        Some(c) => c.base_ref,
        None => None,
    }
    &&& p.head_ref == match cache {
        Some(c) => c.head_ref,
        None => None,
    }
    &&& p.mode == PendingReviewLaunchMode::ContinueWork
}

fn continue_pr(item: &GitHubItem, cache: &Option<GitHubPrCache>) -> (p: PendingReviewPrLaunch)
    ensures
        continues_pr(p, *item, *cache),
{
    let (body, base_ref, head_ref) = match cache {
        Some(c) => (
            body_as_written(&c.body, &c.body_text, &item.body_text),
            clone_text(&c.base_ref),
            clone_text(&c.head_ref),
        ),
        None => (unwrap_text(&item.body_text), None, None),
    };
    PendingReviewPrLaunch {
        github_item_id: item.id.clone(),
        number: item.number,
        title: item.title.clone(),
        body,
        url: item.url.clone(),
        base_ref,
        head_ref,
        mode: PendingReviewLaunchMode::ContinueWork,
    }
}

/// What every draft opens with: the default provider, the configured runtime profile
/// and the given workflow.
pub open spec fn opens_with(
    d: LaunchThreadDraft,
    profile: Option<String>,
    workflow: Seq<char>,
) -> bool {
    &&& d.provider_kind == ProviderKind::Claude
    &&& d.runtime_profile@ == text_or_empty(profile)
    &&& d.workflow_name@ == workflow
}

pub open spec fn is_task_draft(
    d: LaunchThreadDraft,
    task: Task,
    profile: Option<String>,
    workflow: Seq<char>,
) -> bool {
    &&& opens_with(d, profile, workflow)
    &&& d.task_id == Some(task.id)
    &&& d.board_issue is None
    &&& d.review_pr is None
    &&& d.title == task.title
    &&& d.extra_context@ == Seq::<char>::empty()
}

/// A draft for a task of the project.
pub fn draft_for_task(task: &Task, profile: &Option<String>, workflow: String) -> (d:
    LaunchThreadDraft)
    ensures
        is_task_draft(d, *task, *profile, workflow@),
{
    LaunchThreadDraft {
        task_id: Some(task.id.clone()),
        board_issue: None,
        review_pr: None,
        provider_kind: ProviderKind::Claude,
        runtime_profile: unwrap_text(profile),
        workflow_name: workflow,
        title: task.title.clone(),
        extra_context: String::new(),
    }
}

pub open spec fn is_ad_hoc_draft(d: LaunchThreadDraft, profile: Option<String>) -> bool {
    &&& opens_with(d, profile, "plan_first_tdd"@)
    &&& d.task_id is None
    &&& d.board_issue is None
    &&& d.review_pr is None
    &&& d.title@ == Seq::<char>::empty()
    &&& d.extra_context@ == Seq::<char>::empty()
}

/// A draft for a thread that belongs to nothing yet.
pub fn ad_hoc_draft(profile: &Option<String>) -> (d: LaunchThreadDraft)
    ensures
        is_ad_hoc_draft(d, *profile),
{
    LaunchThreadDraft {
        task_id: None,
        board_issue: None,
        review_pr: None,
        provider_kind: ProviderKind::Claude,
        runtime_profile: unwrap_text(profile),
        workflow_name: "plan_first_tdd".to_owned(),
        title: String::new(),
        extra_context: String::new(),
    }
}

/// The pull request that launching a board item goes to: the one linked to an issue.
pub open spec fn redirects(item: BoardItemView, linked: Option<LinkedPr>) -> bool {
    item.kind == GitHubItemKind::Issue && item.linked_pr_item_id is Some && linked is Some
}

/// A draft for an item of the sprint board. An issue with a linked pull request is
/// worked on in the branch of the pull request.
pub open spec fn is_board_draft(
    d: LaunchThreadDraft,
    issue: BoardItem,
    linked: Option<LinkedPr>,
    profile: Option<String>,
    suggested: Seq<char>,
) -> bool {
    &&& opens_with(
        d,
        profile,
        if redirects(issue@, linked) {
            "review_fix_loop"@
        } else {
            suggested
        },
    )
    &&& d.task_id is None
    &&& redirects(issue@, linked) ==> d.board_issue is None && (d.review_pr matches Some(p)
        && continues_pr(p, linked->0.item, linked->0.cache))
    &&& !redirects(issue@, linked) ==> d.review_pr is None && (d.board_issue matches Some(b)
        && b.github_item_id == Some(issue.github_item_id) && b.number == issue.number && b.title
        == issue.title && b.body@ == text_or_empty(issue.body) && b.url == issue.url)
    &&& d.title@ == "#"@ + signed_decimal(issue.number as int) + " "@ + issue.title@
    &&& d.extra_context@ == Seq::<char>::empty()
}

/// The draft for an item of the sprint board.
pub fn draft_for_board_issue(
    issue: &BoardItem,
    linked: &Option<LinkedPr>,
    profile: &Option<String>,
    suggested: String,
) -> (d: LaunchThreadDraft)
    ensures
        is_board_draft(d, *issue, *linked, *profile, suggested@),
{
    let pr: Option<PendingReviewPrLaunch> = if issue.kind == GitHubItemKind::Issue
        && issue.linked_pr_item_id.is_some() {
        match linked {
            Some(l) => Some(continue_pr(&l.item, &l.cache)),
            None => None,
        }
    } else {
        None
    };
    let mut title = "#".to_owned();
    title.append(format_signed(issue.number).as_str());
    title.append(" ");
    title.append(issue.title.as_str());
    let (board_issue, workflow_name) = if pr.is_some() {
        (None, "review_fix_loop".to_owned())
    } else {
        (
            Some(
                PendingBoardIssueLaunch {
                    github_item_id: Some(issue.github_item_id.clone()),
                    number: issue.number,
                    title: issue.title.clone(),
                    body: unwrap_text(&issue.body),
                    url: issue.url.clone(),
                },
            ),
            suggested,
        )
    };
    LaunchThreadDraft {
        task_id: None,
        board_issue,
        review_pr: pr,
        provider_kind: ProviderKind::Claude,
        runtime_profile: unwrap_text(profile),
        workflow_name,
        title,
        extra_context: String::new(),
    }
}

/// The reviews and comments that count as context: those of a pull request that the
/// cache knows by an id.
pub open spec fn my_task_context(
    item: MyTaskItem,
    linked: Option<LinkedPr>,
    reviews: Seq<GitHubReview>,
    inline: Seq<GitHubReviewComment>,
) -> Seq<char> {
    if item.github_item.kind == GitHubItemKind::Issue && linked is Some {
        let body = issue_body(item.issue_cache, item.github_item.body_text);
        if linked->0.item.id@.len() > 0 {
            issue_context(item.github_item.number, body, reviews, inline)
        } else {
            issue_context(item.github_item.number, body, seq![], seq![])
        }
    } else {
        seq![]
    }
}

/// A draft for an item that is assigned to the user. An issue with a linked pull
/// request is worked on in the branch of the pull request.
pub open spec fn is_my_task_draft(
    d: LaunchThreadDraft,
    item: MyTaskItem,
    linked: Option<LinkedPr>,
    reviews: Seq<GitHubReview>,
    inline: Seq<GitHubReviewComment>,
    profile: Option<String>,
    suggested: Seq<char>,
) -> bool {
    &&& opens_with(d, profile, suggested)
    &&& d.task_id is None
    &&& item.github_item.kind == GitHubItemKind::Issue && linked is Some ==> d.board_issue is None
        && (d.review_pr matches Some(p) && continues_pr(p, linked->0.item, linked->0.cache))
    &&& item.github_item.kind == GitHubItemKind::Issue && linked is None ==> d.review_pr is None
        && (d.board_issue matches Some(b) && b.github_item_id == Some(item.github_item.id)
        && b.number == item.github_item.number && b.title == item.github_item.title && b.body@
        == issue_body(item.issue_cache, item.github_item.body_text) && b.url
        == item.github_item.url)
    &&& item.github_item.kind == GitHubItemKind::PullRequest ==> d.board_issue is None && (
    d.review_pr matches Some(p) && continues_pr(p, item.github_item, item.pr_cache))
    &&& d.title@ == item_title_line(item.github_item)
    &&& d.extra_context@ == my_task_context(item, linked, reviews, inline)
}

/// The pull request that an issue is worked on in: the one that came with the issue,
/// else the one that a look into the records found.
pub open spec fn linked_choice(item: MyTaskItem, found: Option<GitHubItem>) -> Option<GitHubItem> {
    if item.github_item.kind != GitHubItemKind::Issue {
        None
    } else if item.linked_pr is Some {
        item.linked_pr
    } else {
        found
    }
}

/// The same with what is cached of it.
pub open spec fn linked_with(
    item: MyTaskItem,
    found: Option<GitHubItem>,
    cache: Option<GitHubPrCache>,
) -> Option<LinkedPr> {
    match linked_choice(item, found) {
        Some(pr) => Some(LinkedPr { item: pr, cache }),
        None => None,
    }
}

/// The pull request that an issue is worked on in. `found` is what the records have for
/// an issue that came without one.
pub fn linked_pr_of<'a>(item: &'a MyTaskItem, found: &'a Option<GitHubItem>) -> (r: Option<
    &'a GitHubItem,
>)
    ensures
        match linked_choice(*item, *found) {
            Some(pr) => r matches Some(q) && *q == pr,
            None => r is None,
        },
{
    match item.github_item.kind {
        GitHubItemKind::Issue => match &item.linked_pr {
            Some(pr) => Some(pr),
            None => match found {
                Some(pr) => Some(pr),
                None => None,
            },
        },
        GitHubItemKind::PullRequest => None,
    }
}

/// The draft for an item that is assigned to the user. `found` is the pull request that
/// the records have for an issue, `cache` what is cached of the one that is taken.
#[verifier::rlimit(30)]
pub fn draft_for_my_task(
    item: &MyTaskItem,
    found: &Option<GitHubItem>,
    cache: &Option<GitHubPrCache>,
    reviews: &Vec<GitHubReview>,
    inline: &Vec<GitHubReviewComment>,
    profile: &Option<String>,
    suggested: String,
) -> (d: LaunchThreadDraft)
    ensures
        is_my_task_draft(
            d,
            *item,
            linked_with(*item, *found, *cache),
            reviews@,
            inline@,
            *profile,
            suggested@,
        ),
{
    let written = match &item.issue_cache {
        Some(c) => body_as_written(&c.body, &c.body_text, &item.github_item.body_text),
        None => unwrap_text(&item.github_item.body_text),
    };
    let mut extra_context = String::new();
    let mut board_issue: Option<PendingBoardIssueLaunch> = None;
    let mut review_pr: Option<PendingReviewPrLaunch> = None;
    match item.github_item.kind {
        GitHubItemKind::Issue => match linked_pr_of(item, found) {
            Some(pr) => {
                if pr.id.as_str().is_empty() {
                    let no_reviews: Vec<GitHubReview> = Vec::new();
                    let no_inline: Vec<GitHubReviewComment> = Vec::new();
                    extra_context =
                    format_issue_context(
                        item.github_item.number,
                        written.as_str(),
                        &no_reviews,
                        &no_inline,
                    );
                    assert(no_reviews@ =~= Seq::<GitHubReview>::empty());
                    assert(no_inline@ =~= Seq::<GitHubReviewComment>::empty());
                } else {
                    extra_context =
                    format_issue_context(
                        item.github_item.number,
                        written.as_str(),
                        reviews,
                        inline,
                    );
                }
                review_pr = Some(continue_pr(pr, cache));
            },
            None => {
                board_issue =
                Some(
                    PendingBoardIssueLaunch {
                        github_item_id: Some(item.github_item.id.clone()),
                        number: item.github_item.number,
                        title: item.github_item.title.clone(),
                        body: written,
                        url: item.github_item.url.clone(),
                    },
                );
            },
        },
        GitHubItemKind::PullRequest => {
            review_pr = Some(continue_pr(&item.github_item, &item.pr_cache));
        },
    }
    LaunchThreadDraft {
        task_id: None,
        board_issue,
        review_pr,
        provider_kind: ProviderKind::Claude,
        runtime_profile: unwrap_text(profile),
        workflow_name: suggested,
        title: item.title_line(),
        extra_context,
    }
}

/// What launching from a review queue is for: one's own pull requests are worked on,
/// the others are reviewed.
pub open spec fn queue_mode(tab: ReviewQueueTab) -> PendingReviewLaunchMode {
    match tab {
        ReviewQueueTab::Authored => PendingReviewLaunchMode::ContinueWork,
        ReviewQueueTab::NeedsReview => PendingReviewLaunchMode::Review,
    }
}

/// A draft for a pull request of a review queue.
pub open spec fn is_review_draft(
    d: LaunchThreadDraft,
    item: ReviewQueueItem,
    tab: ReviewQueueTab,
    context: Seq<char>,
    profile: Option<String>,
    suggested: Seq<char>,
) -> bool {
    &&& opens_with(d, profile, suggested)
    &&& d.task_id is None
    &&& d.board_issue is None
    &&& d.review_pr matches Some(p) && p.github_item_id == item.github_item.id && p.number
        == item.github_item.number && p.title == item.github_item.title && p.body@
        == written_body(item.pr_cache.body_text, item.pr_cache.body, item.github_item.body_text)
        && p.url == item.github_item.url && p.base_ref == item.pr_cache.base_ref && p.head_ref
        == item.pr_cache.head_ref && p.mode == queue_mode(tab)
    &&& d.title@ == (match tab {
        ReviewQueueTab::Authored => "PR #"@,
        ReviewQueueTab::NeedsReview => "Review PR #"@,
    }) + signed_decimal(item.github_item.number as int) + " "@ + item.github_item.title@
    &&& d.extra_context@ == context
}

/// The draft for a pull request of a review queue.
pub fn draft_for_review(
    item: &ReviewQueueItem,
    tab: ReviewQueueTab,
    reviews: &Vec<GitHubReview>,
    comments: &Vec<GitHubComment>,
    inline: &Vec<GitHubReviewComment>,
    profile: &Option<String>,
    suggested: String,
) -> (d: LaunchThreadDraft)
    ensures
        is_review_draft(
            d,
            *item,
            tab,
            review_context(queue_mode(tab), reviews@, comments@, inline@),
            *profile,
            suggested@,
        ),
{
    let (mode, mut title) = match tab {
        ReviewQueueTab::Authored => (PendingReviewLaunchMode::ContinueWork, "PR #".to_owned()),
        ReviewQueueTab::NeedsReview => (PendingReviewLaunchMode::Review, "Review PR #".to_owned()),
    };
    title.append(format_signed(item.github_item.number).as_str());
    title.append(" ");
    title.append(item.github_item.title.as_str());
    let body = body_as_written(
        &item.pr_cache.body_text,
        &item.pr_cache.body,
        &item.github_item.body_text,
    );
    LaunchThreadDraft {
        task_id: None,
        board_issue: None,
        review_pr: Some(
            PendingReviewPrLaunch {
                github_item_id: item.github_item.id.clone(),
                number: item.github_item.number,
                title: item.github_item.title.clone(),
                body,
                url: item.github_item.url.clone(),
                base_ref: clone_text(&item.pr_cache.base_ref),
                head_ref: clone_text(&item.pr_cache.head_ref),
                mode,
            },
        ),
        provider_kind: ProviderKind::Claude,
        runtime_profile: unwrap_text(profile),
        workflow_name: suggested,
        title,
        extra_context: format_review_comments_context(mode, reviews, comments, inline),
    }
}

// ---------------------------------------------------------------------------
// The request that a draft stands for
// ---------------------------------------------------------------------------

/// How a thread is to be run.
pub struct LaunchOptions {
    pub provider_kind: ProviderKind,
    pub provider_profile: String,
    pub runtime_profile: Option<String>,
    pub workflow_name: Option<String>,
}

/// What is to be launched. A thread on a task takes its prompt from the task, to
/// which `extra_context` is added.
pub enum LaunchRequest {
    Task { task_id: String, thread_title: String, extra_context: String, options: LaunchOptions },
    GitHubItem {
        github_item_id: String,
        thread_title: String,
        initial_prompt: String,
        options: LaunchOptions,
    },
    NewTask {
        project_id: String,
        task_title: String,
        description: String,
        thread_title: String,
        initial_prompt: String,
        options: LaunchOptions,
    },
    AdHoc {
        project_id: String,
        title: String,
        prompt: Option<String>,
        options: LaunchOptions,
    },
}

/// A text that is not blank, as it is.
pub open spec fn unless_blank(s: String) -> Option<String> {
    if is_blank(s@) {
        None
    } else {
        Some(s)
    }
}

fn keep_unless_blank(s: &String) -> (r: Option<String>)
    ensures
        r == unless_blank(*s),
{
    if blank(s.as_str()) {
        None
    } else {
        Some(s.clone())
    }
}

/// A thread is run as the draft says, under the default profile of the provider.
pub open spec fn draft_options(o: LaunchOptions, d: LaunchThreadDraft) -> bool {
    &&& o.provider_kind == d.provider_kind
    &&& o.provider_profile@ == "default"@
    &&& o.runtime_profile == unless_blank(d.runtime_profile)
    &&& o.workflow_name == unless_blank(d.workflow_name)
}

/// The title of a task that is made from an issue: its number and its own title.
pub open spec fn issue_task_title(number: i64, title: Seq<char>) -> Seq<char> {
    "#"@ + signed_decimal(number as int) + " "@ + title
}

/// The description of a task that is made from an issue: its body and its address.
pub open spec fn issue_description(body: Seq<char>, url: Seq<char>) -> Seq<char> {
    if is_blank(body) {
        url
    } else {
        body + "\n\n"@ + url
    }
}

fn title_for_issue(number: i64, title: &str) -> (r: String)
    ensures
        r@ == issue_task_title(number, title@),
{
    let mut r = "#".to_owned();
    r.append(format_signed(number).as_str());
    r.append(" ");
    r.append(title);
    r
}

fn describe_issue(body: &str, url: &str) -> (r: String)
    ensures
        r@ == issue_description(body@, url@),
{
    if blank(body) {
        url.to_owned()
    } else {
        let mut r = body.to_owned();
        r.append("\n\n");
        r.append(url);
        r
    }
}

/// The task that is made from an issue of the board: it is worked on under supervision and
/// ends in a pull request.
pub open spec fn is_issue_task(t: TaskSubmission, issue: BoardItem) -> bool {
    &&& t.title@ == issue_task_title(issue.number, issue.title@)
    &&& t.description@ == issue_description(text_or_empty(issue.body), issue.url@)
    &&& t.mode == TaskMode::Supervised
    &&& t.branch is None
    &&& t.base is None
    &&& t.push_mode == PushMode::Pr
    &&& !t.review_loop
    &&& t.subtasks@.len() == 0
}

/// The task for an issue of the board.
pub fn task_for_issue(issue: &BoardItem) -> (t: TaskSubmission)
    ensures
        is_issue_task(t, *issue),
{
    TaskSubmission {
        title: title_for_issue(issue.number, issue.title.as_str()),
        description: describe_issue(unwrap_text(&issue.body).as_str(), issue.url.as_str()),
        mode: TaskMode::Supervised,
        branch: None,
        base: None,
        push_mode: PushMode::Pr,
        review_loop: false,
        subtasks: Vec::new(),
    }
}

/// `r` is the request that the draft stands for: the task comes first, then the pull
/// request, then the issue; a draft with none of them is launched on its own.
pub open spec fn requests(r: LaunchRequest, d: LaunchThreadDraft, project_id: String) -> bool {
    match d.task_id {
        Some(id) => r matches LaunchRequest::Task {
            task_id,
            thread_title,
            extra_context,
            options,
        } && task_id == id && thread_title == d.title && extra_context == d.extra_context
            && draft_options(options, d),
        None => match d.review_pr {
            Some(pr) => r matches LaunchRequest::GitHubItem {
                github_item_id,
                thread_title,
                initial_prompt,
                options,
            } && github_item_id == pr.github_item_id && thread_title == d.title && initial_prompt@
                == combined(pr_prompt(pr), d.extra_context@) && draft_options(options, d),
            None => match d.board_issue {
                Some(issue) => match issue.github_item_id {
                    Some(id) => r matches LaunchRequest::GitHubItem {
                        github_item_id,
                        thread_title,
                        initial_prompt,
                        options,
                    } && github_item_id == id && thread_title == d.title && initial_prompt@
                        == combined(issue.body@, d.extra_context@) && draft_options(options, d),
                    None => r matches LaunchRequest::NewTask {
                        project_id: p,
                        task_title,
                        description,
                        thread_title,
                        initial_prompt,
                        options,
                    } && p == project_id && task_title@ == issue_task_title(
                        issue.number,
                        issue.title@,
                    ) && description@ == issue_description(issue.body@, issue.url@)
                        && thread_title == d.title && initial_prompt@ == combined(
                        issue_description(issue.body@, issue.url@),
                        d.extra_context@,
                    ) && draft_options(options, d),
                },
                None => r matches LaunchRequest::AdHoc {
                    project_id: p,
                    title,
                    prompt,
                    options,
                } && p == project_id && title == d.title && prompt == unless_blank(d.extra_context)
                    && draft_options(options, d),
            },
        },
    }
}

/// The request that a draft stands for.
pub fn launch_request(draft: &LaunchThreadDraft, project_id: String) -> (r: LaunchRequest)
    ensures
        requests(r, *draft, project_id),
{
    let options = LaunchOptions {
        provider_kind: draft.provider_kind,
        provider_profile: "default".to_owned(),
        runtime_profile: keep_unless_blank(&draft.runtime_profile),
        workflow_name: keep_unless_blank(&draft.workflow_name),
    };
    if let Some(id) = &draft.task_id {
        return LaunchRequest::Task {
            task_id: id.clone(),
            thread_title: draft.title.clone(),
            extra_context: draft.extra_context.clone(),
            options,
        };
    }
    if let Some(pr) = &draft.review_pr {
        return LaunchRequest::GitHubItem {
            github_item_id: pr.github_item_id.clone(),
            thread_title: draft.title.clone(),
            initial_prompt: build_launch_prompt_for_review_pr(pr, draft.extra_context.as_str()),
            options,
        };
    }
    if let Some(issue) = &draft.board_issue {
        if let Some(id) = &issue.github_item_id {
            return LaunchRequest::GitHubItem {
                github_item_id: id.clone(),
                thread_title: draft.title.clone(),
                initial_prompt: combine_prompt(issue.body.as_str(), draft.extra_context.as_str()),
                options,
            };
        }
        let task_title = title_for_issue(issue.number, issue.title.as_str());
        let description = describe_issue(issue.body.as_str(), issue.url.as_str());
        let initial_prompt = combine_prompt(description.as_str(), draft.extra_context.as_str());
        return LaunchRequest::NewTask {
            project_id,
            task_title,
            description,
            thread_title: draft.title.clone(),
            initial_prompt,
            options,
        };
    }
    LaunchRequest::AdHoc {
        project_id,
        title: draft.title.clone(),
        prompt: keep_unless_blank(&draft.extra_context),
        options,
    }
}

// ---------------------------------------------------------------------------
// The launch form
// ---------------------------------------------------------------------------

pub struct LaunchForm {
    pub draft: Option<LaunchThreadDraft>,
    pub field_index: usize,
    /// The workflows to choose from; the empty name stands for none.
    pub workflow_names: Vec<String>,
}

/// The field that the form is at.
pub open spec fn form_field(index: usize) -> LaunchThreadField {
    if index < LaunchThreadField::all().len() {
        LaunchThreadField::all()[index as int]
    } else {
        LaunchThreadField::Provider
    }
}

/// The text of a field of the draft.
pub open spec fn field_text(
    d: LaunchThreadDraft,
    field: LaunchThreadField,
    agent_id: Seq<char>,
) -> Seq<char> {
    match field {
        LaunchThreadField::Provider => provider_text(d.provider_kind, agent_id),
        LaunchThreadField::RuntimeProfile => d.runtime_profile@,
        LaunchThreadField::Workflow => d.workflow_name@,
        LaunchThreadField::Title => d.title@,
        LaunchThreadField::ExtraContext => d.extra_context@,
    }
}

/// The draft with a typed text in one of its text fields.
pub open spec fn with_field(
    d: LaunchThreadDraft,
    field: LaunchThreadField,
    text: String,
) -> LaunchThreadDraft {
    match field {
        LaunchThreadField::Provider => d,
        LaunchThreadField::Workflow => d,
        LaunchThreadField::RuntimeProfile => LaunchThreadDraft { runtime_profile: text, ..d },
        LaunchThreadField::Title => LaunchThreadDraft { title: text, ..d },
        LaunchThreadField::ExtraContext => LaunchThreadDraft { extra_context: text, ..d },
    }
}

/// The form after what was typed is kept in the draft.
pub open spec fn persisted(f: LaunchForm, text: String) -> LaunchForm {
    match f.draft {
        Some(d) => LaunchForm { draft: Some(with_field(d, form_field(f.field_index), text)), ..f },
        None => f,
    }
}

/// The text that the input line starts with at the field of the form.
pub open spec fn loaded_text(f: LaunchForm, agent_id: Seq<char>) -> Seq<char> {
    match f.draft {
        Some(d) => field_text(d, form_field(f.field_index), agent_id),
        None => seq![],
    }
}

/// The place after or before `i` in a list of `n` that wraps around.
pub open spec fn cycled(i: int, n: int, forward: bool) -> int {
    if forward {
        (i + 1) % n
    } else if i == 0 {
        n - 1
    } else {
        i - 1
    }
}

pub fn cycle(i: usize, n: usize, forward: bool) -> (r: usize)
    requires
        i < n,
    ensures
        r == cycled(i as int, n as int, forward),
        r < n,
{
    if forward {
        if i == n - 1 {
            assert((i + 1) % (n as int) == 0) by (nonlinear_arith)
                requires
                    i + 1 == n,
                    n > 0,
            ;
            0
        } else {
            assert((i + 1) as int % n as int == i + 1) by (nonlinear_arith)
                requires
                    i + 1 < n,
            ;
            i + 1
        }
    } else if i == 0 {
        n - 1
    } else {
        i - 1
    }
}

/// The other provider: there are two.
pub open spec fn other_provider(k: ProviderKind) -> ProviderKind {
    match k {
        ProviderKind::Claude => ProviderKind::Codex,
        ProviderKind::Codex => ProviderKind::Claude,
    }
}

/// The place from which a workflow is cycled: its own, or the first one where the
/// list does not hold it.
pub open spec fn workflow_place(f: LaunchForm, name: Seq<char>) -> int {
    match text_place(views(f.workflow_names@), name) {
        Some(i) => i,
        None => 0,
    }
}

/// The form after the next or previous workflow was chosen.
pub open spec fn with_next_workflow(f: LaunchForm, forward: bool) -> LaunchForm {
    match f.draft {
        Some(d) => if f.workflow_names@.len() == 0 {
            f
        } else {
            let next = cycled(
                workflow_place(f, d.workflow_name@),
                f.workflow_names@.len() as int,
                forward,
            );
            LaunchForm {
                draft: Some(LaunchThreadDraft { workflow_name: f.workflow_names@[next], ..d }),
                ..f
            }
        },
        None => f,
    }
}

pub open spec fn with_next_provider(f: LaunchForm) -> LaunchForm {
    match f.draft {
        Some(d) => LaunchForm {
            draft: Some(
                LaunchThreadDraft { provider_kind: other_provider(d.provider_kind), ..d },
            ),
            ..f
        },
        None => f,
    }
}

impl LaunchForm {
    pub fn selected_launch_thread_field(&self) -> (r: LaunchThreadField)
        ensures
            r == form_field(self.field_index),
    {
        match LaunchThreadField::at(self.field_index) {
            Some(f) => f,
            None => LaunchThreadField::Provider,
        }
    }

    pub fn launch_thread_field_value(&self, field: LaunchThreadField, agent: &AgentNames) -> (r:
        String)
        ensures
            r@ == match self.draft {
                Some(d) => field_text(d, field, agent.id@),
                None => seq![],
            },
    {
        match &self.draft {
            Some(d) => match field {
                LaunchThreadField::Provider => provider_name(d.provider_kind, agent.id.as_str()),
                LaunchThreadField::RuntimeProfile => d.runtime_profile.clone(),
                LaunchThreadField::Workflow => d.workflow_name.clone(),
                LaunchThreadField::Title => d.title.clone(),
                LaunchThreadField::ExtraContext => d.extra_context.clone(),
            },
            None => String::new(),
        }
    }

    /// Keep what was typed in the draft.
    pub fn persist_launch_thread_input(&mut self, text: &String)
        ensures
            *final(self) == persisted(*old(self), *text),
    {
        let field = self.selected_launch_thread_field();
        if let Some(mut d) = self.draft.take() {
            match field {
                LaunchThreadField::Provider => {},
                LaunchThreadField::Workflow => {},
                LaunchThreadField::RuntimeProfile => {
                    d.runtime_profile = text.clone();
                },
                LaunchThreadField::Title => {
                    d.title = text.clone();
                },
                LaunchThreadField::ExtraContext => {
                    d.extra_context = text.clone();
                },
            }
            self.draft = Some(d);
        }
    }

    /// The input line for the field of the form, with the cursor at its end.
    pub fn load_launch_thread_input(&self, agent: &AgentNames) -> (r: TextInput)
        ensures
            at_end(r, loaded_text(*self, agent.id@)),
            r.text@ == loaded_text(*self, agent.id@),
    {
        let text = self.launch_thread_field_value(self.selected_launch_thread_field(), agent);
        TextInput::holding(text)
    }

    /// Choose the other provider. With two providers both directions lead to it.
    pub fn cycle_launch_thread_provider(&mut self)
        ensures
            *final(self) == with_next_provider(*old(self)),
    {
        if let Some(mut d) = self.draft.take() {
            d.provider_kind = match d.provider_kind {
                ProviderKind::Claude => ProviderKind::Codex,
                ProviderKind::Codex => ProviderKind::Claude,
            };
            self.draft = Some(d);
        }
    }

    /// Choose the next or the previous workflow.
    pub fn cycle_launch_thread_workflow(&mut self, forward: bool)
        ensures
            *final(self) == with_next_workflow(*old(self), forward),
    {
        if self.workflow_names.len() == 0 {
            return;
        }
        if let Some(mut d) = self.draft.take() {
            let current: usize = match place_of(&self.workflow_names, d.workflow_name.as_str()) {
                Some(i) => i,
                None => 0,
            };
            let next: usize = cycle(current, self.workflow_names.len(), forward);
            d.workflow_name = self.workflow_names[next].clone();
            self.draft = Some(d);
        }
    }
}

/// Choosing the next and then the previous workflow restores the choice, where the
/// list holds it and holds no name twice.
pub proof fn law_workflow_cycle_undone(f: LaunchForm)
    requires
        f.draft matches Some(d) && views(f.workflow_names@).contains(d.workflow_name@),
        views(f.workflow_names@).no_duplicates(),
    ensures
        with_next_workflow(with_next_workflow(f, true), false).draft->0.workflow_name@
            == f.draft->0.workflow_name@,
{
    let names = views(f.workflow_names@);
    let d = f.draft->0;
    lemma_text_place(names, d.workflow_name@);
    let n = names.len() as int;
    let i = workflow_place(f, d.workflow_name@);
    let j = cycled(i, n, true);
    assert(0 <= j < n) by (nonlinear_arith)
        requires
            j == (i + 1) % n,
            n > 0,
    ;
    let g = with_next_workflow(f, true);
    let name = f.workflow_names@[j]@;
    assert(names[j] == name);
    lemma_text_place(names, name);
    assert(text_place(names, name) == Some(j));
    if i + 1 < n {
        assert((i + 1) % n == i + 1) by (nonlinear_arith)
            requires
                0 <= i + 1 < n,
        ;
    } else {
        assert((i + 1) % n == 0) by (nonlinear_arith)
            requires
                i + 1 == n,
                n > 0,
        ;
    }
    assert(cycled(j, n, false) == i);
    assert(names[i] == d.workflow_name@);
}

/// The text that a draft takes over is the one that was written, else the plain one, else
/// that of the item.
pub proof fn law_the_written_text_comes_first(
    body: Option<String>,
    plain: Option<String>,
    item_text: Option<String>,
)
    ensures
        body matches Some(b) ==> written_body(body, plain, item_text) == b@,
        body is None ==> (plain matches Some(p) ==> written_body(body, plain, item_text) == p@),
        body is None && plain is None ==> (item_text matches Some(t) ==> written_body(
            body,
            plain,
            item_text,
        ) == t@),
        body is None && plain is None && item_text is None ==> written_body(
            body,
            plain,
            item_text,
        ).len() == 0,
{
}

/// What a draft launches: its task where it has one, else its pull request, else its issue,
/// else a thread of its own. The title of the thread is the draft's.
pub proof fn law_drafts_launch_their_source(
    r: LaunchRequest,
    d: LaunchThreadDraft,
    project_id: String,
)
    requires
        requests(r, d, project_id),
    ensures
        d.task_id is Some <==> r is Task,
        r matches LaunchRequest::Task { task_id, thread_title, extra_context, options }
            ==> Some(task_id) == d.task_id && thread_title == d.title && extra_context
            == d.extra_context && options.provider_kind == d.provider_kind,
        d.task_id is None ==> (d.review_pr matches Some(pr) ==> (r matches LaunchRequest::GitHubItem {
            github_item_id,
            thread_title,
            initial_prompt,
            options,
        } && github_item_id == pr.github_item_id && thread_title == d.title
            && options.provider_kind == d.provider_kind)),
        d.task_id is None && d.review_pr is None ==> (d.board_issue matches Some(issue) ==> (
        issue.github_item_id matches Some(id) ==> (r matches LaunchRequest::GitHubItem {
            github_item_id,
            thread_title,
            ..
        } && github_item_id == id && thread_title == d.title))),
        d.task_id is None && d.review_pr is None ==> (d.board_issue matches Some(issue) ==> (
        issue.github_item_id is None ==> (r matches LaunchRequest::NewTask {
            project_id: p,
            thread_title,
            ..
        } && p == project_id && thread_title == d.title))),
        d.task_id is None && d.review_pr is None && d.board_issue is None ==> (
        r matches LaunchRequest::AdHoc { project_id: p, title, .. } && p == project_id && title
            == d.title),
{
}

/// The prompt of a launched pull request begins with what is told of it, and that of an
/// issue holds the issue's text; what the user added is held by both.
pub proof fn law_launched_prompts_hold_the_source(
    r: LaunchRequest,
    d: LaunchThreadDraft,
    project_id: String,
)
    requires
        requests(r, d, project_id),
        d.task_id is None,
    ensures
        r matches LaunchRequest::GitHubItem { initial_prompt, .. } ==> {
            &&& contains_text(initial_prompt@, trimmed(d.extra_context@))
            &&& d.review_pr matches Some(pr) ==> contains_text(
                initial_prompt@,
                trimmed(pr_prompt(pr)),
            )
            &&& d.review_pr is None ==> (d.board_issue matches Some(issue) ==> contains_text(
                initial_prompt@,
                trimmed(issue.body@),
            ))
        },
        r matches LaunchRequest::NewTask { initial_prompt, description, task_title, .. } ==> {
            &&& contains_text(initial_prompt@, trimmed(d.extra_context@))
            &&& d.board_issue matches Some(issue) ==> {
                &&& contains_text(description@, issue.url@)
                &&& !is_blank(issue.body@) ==> contains_text(description@, issue.body@)
                &&& contains_text(task_title@, issue.title@)
                &&& contains_text(task_title@, signed_decimal(issue.number as int))
                &&& contains_text(initial_prompt@, trimmed(description@))
            }
        },
        r matches LaunchRequest::AdHoc { prompt, .. } ==> {
            &&& is_blank(d.extra_context@) ==> prompt is None
            &&& !is_blank(d.extra_context@) ==> prompt == Some(d.extra_context)
        },
{
    let x = d.extra_context@;
    if let Some(pr) = d.review_pr {
        crate::launch::law_prompts_keep_both_parts(pr_prompt(pr), x);
    } else if let Some(issue) = d.board_issue {
        crate::launch::law_prompts_keep_both_parts(issue.body@, x);
        crate::launch::law_prompts_keep_both_parts(issue_description(issue.body@, issue.url@), x);
        lemma_found_beside(issue.body@, "\n\n"@);
        lemma_found_beside(issue.body@ + "\n\n"@, issue.url@);
        crate::text::law_containing_is_standing_in_a_row(issue.url@, issue.url@);
        let n = signed_decimal(issue.number as int);
        lemma_found_beside("#"@, n);
        lemma_found_beside("#"@ + n, " "@);
        lemma_found_beside("#"@ + n + " "@, issue.title@);
    }
}

/// A draft asks for the runtime profile and the workflow that it names; a blank name asks
/// for none.
pub proof fn law_drafts_ask_for_what_they_name(o: LaunchOptions, d: LaunchThreadDraft)
    requires
        draft_options(o, d),
    ensures
        o.provider_kind == d.provider_kind,
        o.provider_profile@ == "default"@,
        !is_blank(d.runtime_profile@) ==> o.runtime_profile == Some(d.runtime_profile),
        is_blank(d.runtime_profile@) ==> o.runtime_profile is None,
        !is_blank(d.workflow_name@) ==> o.workflow_name == Some(d.workflow_name),
        is_blank(d.workflow_name@) ==> o.workflow_name is None,
{
}

/// A draft on a board item goes on with the pull request that an issue is linked to, in the
/// workflow that fixes reviews; otherwise it is about the item itself.
pub proof fn law_board_drafts_follow_the_link(
    d: LaunchThreadDraft,
    issue: BoardItem,
    linked: Option<LinkedPr>,
    profile: Option<String>,
    suggested: Seq<char>,
)
    requires
        is_board_draft(d, issue, linked, profile, suggested),
    ensures
        issue.kind == GitHubItemKind::Issue && issue.linked_pr_item_id is Some && linked is Some
            ==> d.board_issue is None && d.workflow_name@ == "review_fix_loop"@ && (
        d.review_pr matches Some(p) && p.number == linked->0.item.number && p.github_item_id
            == linked->0.item.id && p.mode == PendingReviewLaunchMode::ContinueWork),
        issue.kind == GitHubItemKind::PullRequest || issue.linked_pr_item_id is None || linked
            is None ==> d.review_pr is None && d.workflow_name@ == suggested && (
        d.board_issue matches Some(b) && b.number == issue.number && b.title == issue.title && b.url
            == issue.url && b.github_item_id == Some(issue.github_item_id)),
        d.task_id is None,
        d.provider_kind == ProviderKind::Claude,
        profile matches Some(p) ==> d.runtime_profile@ == p@,
        d.extra_context@.len() == 0,
        contains_text(d.title@, issue.title@),
{
    let n = signed_decimal(issue.number as int);
    lemma_found_beside("#"@ + n + " "@, issue.title@);
}

/// A draft on a pull request of the review queues is about that pull request: one's own are
/// gone on with, those of others are reviewed. What the reviews say comes with it.
pub proof fn law_review_drafts_fit_their_queue(
    d: LaunchThreadDraft,
    item: ReviewQueueItem,
    tab: ReviewQueueTab,
    context: Seq<char>,
    profile: Option<String>,
    suggested: Seq<char>,
)
    requires
        is_review_draft(d, item, tab, context, profile, suggested),
    ensures
        d.review_pr matches Some(p) && {
            &&& p.number == item.github_item.number
            &&& p.github_item_id == item.github_item.id
            &&& p.url == item.github_item.url
            &&& p.base_ref == item.pr_cache.base_ref
            &&& p.head_ref == item.pr_cache.head_ref
            &&& tab == ReviewQueueTab::Authored ==> p.mode == PendingReviewLaunchMode::ContinueWork
            &&& tab == ReviewQueueTab::NeedsReview ==> p.mode == PendingReviewLaunchMode::Review
            &&& item.pr_cache.body_text matches Some(t) ==> p.body@ == t@
            &&& item.pr_cache.body_text is None ==> (item.pr_cache.body matches Some(b) ==> p.body@
                == b@)
        },
        d.extra_context@ == context,
        d.board_issue is None && d.task_id is None,
        d.workflow_name@ == suggested,
        contains_text(d.title@, item.github_item.title@),
        tab == ReviewQueueTab::NeedsReview ==> crate::text::begins_with(d.title@, "Review PR #"@),
        tab == ReviewQueueTab::Authored ==> crate::text::begins_with(d.title@, "PR #"@),
{
    let head = match tab {
        ReviewQueueTab::Authored => "PR #"@,
        ReviewQueueTab::NeedsReview => "Review PR #"@,
    };
    let n = signed_decimal(item.github_item.number as int);
    lemma_found_beside(head + n + " "@, item.github_item.title@);
    assert(d.title@.take(head.len() as int) =~= head);
}

/// A draft on one's own item: an issue with a linked pull request goes on with that, and
/// carries the issue and its reviews; an issue without one, and a pull request, are taken
/// themselves.
pub proof fn law_own_task_drafts(
    d: LaunchThreadDraft,
    item: MyTaskItem,
    linked: Option<LinkedPr>,
    reviews: Seq<GitHubReview>,
    inline: Seq<GitHubReviewComment>,
    profile: Option<String>,
    suggested: Seq<char>,
)
    requires
        is_my_task_draft(d, item, linked, reviews, inline, profile, suggested),
    ensures
        item.github_item.kind == GitHubItemKind::Issue ==> (linked matches Some(l) ==> (
        d.review_pr matches Some(p) && p.number == l.item.number && p.github_item_id == l.item.id
            && d.board_issue is None)),
        item.github_item.kind == GitHubItemKind::Issue && linked is None ==> d.review_pr is None
            && (d.board_issue matches Some(b) && b.number == item.github_item.number
            && b.github_item_id == Some(item.github_item.id)) && d.extra_context@.len() == 0,
        item.github_item.kind == GitHubItemKind::PullRequest ==> (d.review_pr matches Some(p)
            && p.number == item.github_item.number && p.github_item_id == item.github_item.id)
            && d.extra_context@.len() == 0,
        item.github_item.kind == GitHubItemKind::Issue && linked is Some && linked->0.item.id@.len()
            > 0 ==> d.extra_context@ == issue_context(
            item.github_item.number,
            issue_body(item.issue_cache, item.github_item.body_text),
            reviews,
            inline,
        ),
        d.workflow_name@ == suggested,
        contains_text(d.title@, item.github_item.title@),
{
    let n = signed_decimal(item.github_item.number as int);
    lemma_found_beside("#"@ + n + " "@, item.github_item.title@);
}

/// The pull request that an issue is linked to is the one that it names, else the one that
/// was found; a pull request is linked to none.
pub proof fn law_the_named_link_comes_first(item: MyTaskItem, found: Option<GitHubItem>)
    ensures
        item.github_item.kind == GitHubItemKind::Issue && item.linked_pr is Some ==> linked_choice(
            item,
            found,
        ) == item.linked_pr,
        item.github_item.kind == GitHubItemKind::Issue && item.linked_pr is None ==> linked_choice(
            item,
            found,
        ) == found,
        item.github_item.kind == GitHubItemKind::PullRequest ==> linked_choice(item, found) is None,
{
}

/// A task made of an issue: it is supervised, opens a pull request, and holds the issue's
/// text and address.
pub proof fn law_issue_tasks(t: TaskSubmission, issue: BoardItem)
    requires
        is_issue_task(t, issue),
    ensures
        t.mode == TaskMode::Supervised && t.push_mode == PushMode::Pr && !t.review_loop,
        contains_text(t.description@, issue.url@),
        issue.body matches Some(b) ==> (!is_blank(b@) ==> contains_text(t.description@, b@)),
        contains_text(t.title@, issue.title@),
        contains_text(t.title@, signed_decimal(issue.number as int)),
{
    let body = text_or_empty(issue.body);
    lemma_found_beside(body, "\n\n"@);
    lemma_found_beside(body + "\n\n"@, issue.url@);
    crate::text::law_containing_is_standing_in_a_row(issue.url@, issue.url@);
    let n = signed_decimal(issue.number as int);
    lemma_found_beside("#"@, n);
    lemma_found_beside("#"@ + n, " "@);
    lemma_found_beside("#"@ + n + " "@, issue.title@);
}

/// The fields of the form: what is typed in a text field is stored in that field, and shown
/// there again; the provider and the workflow are chosen, not typed.
pub proof fn law_form_fields_hold_their_text(
    d: LaunchThreadDraft,
    text: String,
    agent_id: Seq<char>,
)
    ensures
        form_field(0) == LaunchThreadField::Provider,
        form_field(1) == LaunchThreadField::RuntimeProfile,
        form_field(2) == LaunchThreadField::Workflow,
        form_field(3) == LaunchThreadField::Title,
        form_field(4) == LaunchThreadField::ExtraContext,
        with_field(d, LaunchThreadField::Title, text).title == text,
        with_field(d, LaunchThreadField::RuntimeProfile, text).runtime_profile == text,
        with_field(d, LaunchThreadField::ExtraContext, text).extra_context == text,
        with_field(d, LaunchThreadField::Title, text).extra_context == d.extra_context,
        with_field(d, LaunchThreadField::ExtraContext, text).title == d.title,
        with_field(d, LaunchThreadField::Provider, text) == d,
        with_field(d, LaunchThreadField::Workflow, text) == d,
        field_text(d, LaunchThreadField::Title, agent_id) == d.title@,
        field_text(d, LaunchThreadField::RuntimeProfile, agent_id) == d.runtime_profile@,
        field_text(d, LaunchThreadField::ExtraContext, agent_id) == d.extra_context@,
        field_text(d, LaunchThreadField::Workflow, agent_id) == d.workflow_name@,
        d.provider_kind == ProviderKind::Codex ==> field_text(
            d,
            LaunchThreadField::Provider,
            agent_id,
        ) == "codex"@,
        d.provider_kind == ProviderKind::Claude ==> field_text(
            d,
            LaunchThreadField::Provider,
            agent_id,
        ) == agent_id,
{
}

/// The provider turns between two, and back again.
pub proof fn law_providers_alternate(f: LaunchForm)
    requires
        f.draft is Some,
    ensures
        with_next_provider(f).draft->0.provider_kind != f.draft->0.provider_kind,
        with_next_provider(with_next_provider(f)) == f,
        with_next_provider(f).draft->0.title == f.draft->0.title,
{
}

/// The next workflow is the one behind in the list, behind the last the first.
pub proof fn law_the_next_workflow_is_chosen(f: LaunchForm, i: int)
    requires
        f.draft is Some,
        0 <= i < f.workflow_names@.len(),
        f.workflow_names@[i]@ == f.draft->0.workflow_name@,
        forall|j: int|
            0 <= j < i ==> (#[trigger] views(f.workflow_names@)[j]) != f.draft->0.workflow_name@,
    ensures
        i + 1 < f.workflow_names@.len() ==> with_next_workflow(f, true).draft->0.workflow_name
            == f.workflow_names@[i + 1],
        i + 1 == f.workflow_names@.len() ==> with_next_workflow(f, true).draft->0.workflow_name
            == f.workflow_names@[0],
        i > 0 ==> with_next_workflow(f, false).draft->0.workflow_name == f.workflow_names@[i - 1],
        i == 0 ==> with_next_workflow(f, false).draft->0.workflow_name == f.workflow_names@.last(),
{
    let name = f.draft->0.workflow_name@;
    let all = views(f.workflow_names@);
    assert(all[i] == name);
    lemma_first_place(all, name, i);
    let n = f.workflow_names@.len() as int;
    if i + 1 < n {
        assert((i + 1) % n == i + 1) by (nonlinear_arith)
            requires
                0 <= i + 1 < n,
        ;
    } else {
        assert(n % n == 0) by (nonlinear_arith)
            requires
                n > 0,
        ;
    }
}

proof fn lemma_first_place(list: Seq<Seq<char>>, s: Seq<char>, i: int)
    requires
        0 <= i < list.len(),
        list[i] == s,
        forall|j: int| 0 <= j < i ==> (#[trigger] list[j]) != s,
    ensures
        text_place(list, s) == Some(i),
    decreases list.len(),
{
    if i > 0 {
        assert(list[0] != s);
        assert forall|j: int| 0 <= j < i - 1 implies (#[trigger] list.drop_first()[j]) != s by {
            assert(list.drop_first()[j] == list[j + 1]);
        }
        lemma_first_place(list.drop_first(), s, i - 1);
    }
}

/// A linked pull request goes with its cache.
pub proof fn law_links_carry_their_cache(
    item: MyTaskItem,
    found: Option<GitHubItem>,
    cache: Option<GitHubPrCache>,
)
    ensures
        linked_choice(item, found) matches Some(pr) ==> (linked_with(item, found, cache) matches Some(
            l,
        ) && l.item == pr && l.cache == cache),
        linked_choice(item, found) is None ==> linked_with(item, found, cache) is None,
{
}

/// A draft on a task carries the task alone; a draft of one's own carries nothing.
pub proof fn law_task_drafts_carry_the_task(
    d: LaunchThreadDraft,
    task: Task,
    profile: Option<String>,
    workflow: Seq<char>,
)
    ensures
        is_task_draft(d, task, profile, workflow) ==> d.task_id == Some(task.id) && d.title
            == task.title && d.board_issue is None && d.review_pr is None && d.extra_context@.len()
            == 0 && d.workflow_name@ == workflow && d.provider_kind == ProviderKind::Claude,
        is_ad_hoc_draft(d, profile) ==> d.task_id is None && d.board_issue is None && d.review_pr
            is None && d.title@.len() == 0 && d.extra_context@.len() == 0 && d.workflow_name@
            == "plan_first_tdd"@,
        is_task_draft(d, task, profile, workflow) || is_ad_hoc_draft(d, profile) ==> (
        profile matches Some(p) ==> d.runtime_profile@ == p@),
        is_task_draft(d, task, profile, workflow) && profile is None ==> d.runtime_profile@.len()
            == 0,
{
}

} // verus!
