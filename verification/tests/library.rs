use claustre::board::{
    board_item_column, board_item_sprint, collect_board_sprints, discover_columns, BoardItem,
    FieldValue,
};
use claustre::compose::suggestions_for;
use claustre::composer::split_list;
use claustre::conversation::{
    detect_quick_reply_choices, extend_cache, is_current, missing_log, resume_offset,
    summarize_conversation,
};
use claustre::drafts::linked_pr_of;
use claustre::effects::{AppError, SubmitKind};
use claustre::event_loop::{
    mouse_capture_change, tick_work, TickState, TickWork, DETECT_INTERVAL, SLOW_TICK,
};
use claustre::input_pickers::{profile_kept, switch_activity, switch_note};
use claustre::input_skills::install_failure;
use claustre::input_tasks::{status_after_edit, status_of_new};
use claustre::keys::{keycode_to_bytes, KeyBytes, KeyCode, KeyModifiers};
use claustre::launch::{
    build_launch_prompt_for_review_pr, build_launch_prompt_for_task, combine_prompt,
    format_issue_context, format_review_comments_context, PendingReviewPrLaunch,
};
use claustre::messages::{
    bracketed_paste, prompt_payload, resume_activity, resume_arguments, shell_line,
};
use claustre::outcomes::{
    comment_outcome, field_outcome, issue_outcome, state_outcome, GitHubMutationResult,
};
use claustre::panes::{
    collect_pane_inner_areas, compute_pane_sizes_for_resize, screen_to_terminal_coords, LayoutNode,
    Rect, SplitDirection,
};
use claustre::probes::{
    access_token, cached_reset, check_pr_status, format_time_left, limit_is_over,
    needs_usage_fetch, parse_git_diff_stat, pr_status, rate_limit_expired, reset_in, DiffStat, Moment, PrStatus,
};
use claustre::project_form::{expand_tilde, path_query, suggestions_among};
use claustre::ranking::{option_is_less, text_is_less};
use claustre::refresh::keep_known;
use claustre::review::{
    author_among, has_my_tasks, my_task_indices, parse_author_login,
    parse_requested_reviewer_logins, review_priority, reviewers_among, MyTaskItem,
};
use claustre::skills::{report_install, InstalledSkill, SkillScope};
use claustre::store::{
    ConversationEntry, GitHubComment, GitHubItem, GitHubItemKind, GitHubRepo, GitHubReview,
    GitHubReviewComment, ProviderKind, PushMode, Task, TaskMode, TaskStatus, Thread,
};
use claustre::tasks::{visible_task_indices, ReviewWatch};
use claustre::text::{
    contains, eq_ignore_case, format_number, format_signed, join, lines, parse_i64, parse_u64,
    split, trim,
};
use claustre::text_input::TextInput;
use claustre::titles::{fallback_title, generated_title};
use claustre::views::{BoardScope, PendingReviewLaunchMode, ReviewQueueTab};
use claustre::workflow::{shorten_summary, stage_activity, stage_message};

fn text(s: &str) -> Option<String> {
    Some(s.to_string())
}

fn texts(v: &[&str]) -> Vec<String> {
    v.iter().map(|s| s.to_string()).collect()
}

// ── Texts ──

#[test]
fn texts_are_cut_as_std_cuts_them() {
    for s in ["", "a", " a ", "a\nb", "a\r\nb\n", "\n\n", "a,b,,c", "\u{a0}x\u{2003}", "é\n ü"] {
        assert_eq!(trim(s), s.trim());
        assert_eq!(lines(s), s.lines().map(str::to_string).collect::<Vec<_>>());
        assert_eq!(split(s, ','), s.split(',').map(str::to_string).collect::<Vec<_>>());
    }
    assert_eq!(join(&texts(&["a", "b", "c"]), "--"), "a--b--c");
    assert!(contains("hello", "ell"));
    assert!(!contains("hello", "elo"));
    assert!(eq_ignore_case("DONE", "done"));
    assert!(!eq_ignore_case("É", "é"));
}

#[test]
fn numbers_are_written_and_read() {
    assert_eq!(format_number(0), "0");
    assert_eq!(format_number(u64::MAX), u64::MAX.to_string());
    assert_eq!(format_signed(-42), "-42");
    assert_eq!(format_signed(i64::MIN), i64::MIN.to_string());
    for s in ["", "7", "+7", "-7", "007", "x", "7x", "18446744073709551615", "18446744073709551616"]
    {
        assert_eq!(parse_u64(s), s.parse::<u64>().ok());
        assert_eq!(parse_i64(s), s.parse::<i64>().ok());
    }
    assert_eq!(parse_i64("-9223372036854775808"), Some(i64::MIN));
}

#[test]
fn backspace_undoes_typing() {
    let mut line = TextInput::holding("abc".to_string());
    assert!(line.apply_text_edit(KeyCode::Left, KeyModifiers::none()));
    assert!(line.apply_text_edit(KeyCode::Char('é'), KeyModifiers::none()));
    assert_eq!(line.text, "abéc");
    assert_eq!(line.cursor, 4);
    assert!(line.apply_text_edit(KeyCode::Backspace, KeyModifiers::none()));
    assert_eq!(line.text, "abc");
    assert_eq!(line.cursor, 2);
    assert!(!line.apply_text_edit(KeyCode::Esc, KeyModifiers::none()));
}

#[test]
fn pasted_text_goes_to_the_cursor() {
    let mut line = TextInput { text: "hello".to_string(), cursor: 2 };
    line.insert_text("--");
    assert_eq!(line.text, "he--llo");
    assert_eq!(line.cursor, 4);
    let mut late = TextInput { text: "ab".to_string(), cursor: 9 };
    late.insert_text("c");
    assert_eq!((late.text.as_str(), late.cursor), ("abc", 3));
}

#[test]
fn texts_have_an_order() {
    assert!(text_is_less("Sprint 1", "Sprint 2"));
    assert!(!text_is_less("b", "b"));
    assert!(text_is_less("Z", "a"));
    assert!(option_is_less(&None, &text("a")));
    assert!(!option_is_less(&text("a"), &None));
}

// ── Keys ──

#[test]
fn every_key_sequence_fits() {
    let m = KeyModifiers { shift: true, alt: true, ..KeyModifiers::control() };
    assert_eq!(keycode_to_bytes(KeyCode::F(12), m).as_bytes(), b"\x1b[24;8~");
    assert_eq!(KeyBytes::from_slice(b"abc").as_bytes(), b"abc");
    assert_eq!(KeyBytes::empty().as_bytes(), b"");
    let upper = keycode_to_bytes(KeyCode::Char('C'), KeyModifiers::control());
    let lower = keycode_to_bytes(KeyCode::Char('c'), KeyModifiers::control());
    assert_eq!(upper.as_bytes(), lower.as_bytes());
}

// ── Titles ──

#[test]
fn short_prompts_are_their_own_title() {
    assert_eq!(fallback_title("Fix the login bug"), "Fix the login bug");
    assert_eq!(fallback_title("First line\nSecond line"), "First line");
    assert_eq!(fallback_title(""), "");
}

#[test]
fn long_prompts_are_cut_at_a_space() {
    let prompt = "Refactor the authentication middleware so that tokens are refreshed in time";
    let title = fallback_title(prompt);
    assert_eq!(title, "Refactor the authentication middleware so that tokens are...");
    assert!(title.len() <= 63);
    let solid = "x".repeat(80);
    assert_eq!(fallback_title(&solid), format!("{}...", "x".repeat(60)));
}

#[test]
fn the_last_line_of_an_answer_is_the_title() {
    let answer = text("Sure, here it is:\n\n  Fix login  \n\n");
    assert_eq!(generated_title("prompt", &answer), "Fix login");
    assert_eq!(generated_title("prompt", &text("\n  \n")), "prompt");
    assert_eq!(generated_title("prompt", &None), "prompt");
}

// ── Probes ──

#[test]
fn diff_stats_are_read_from_the_last_line() {
    let output = " src/a.rs | 12 ++--\n 3 files changed, 10 insertions(+), 2 deletions(-)\n";
    let stat = DiffStat { files: 3, added: 10, removed: 2 };
    assert_eq!(parse_git_diff_stat(&text(output)), Some(stat));
    let one = DiffStat { files: 1, added: 5, removed: 0 };
    assert_eq!(parse_git_diff_stat(&text(" 1 file changed, 5 insertions(+)")), Some(one));
    let none = DiffStat { files: 0, added: 0, removed: 0 };
    assert_eq!(parse_git_diff_stat(&text("nothing")), Some(none));
    assert_eq!(parse_git_diff_stat(&text("")), None);
    assert_eq!(parse_git_diff_stat(&None), None);
}

#[test]
fn pull_requests_report_their_state() {
    let status = |s: &str| check_pr_status(&text(s));
    assert_eq!(status("{\"state\":\"MERGED\"}"), PrStatus::Merged);
    assert_eq!(
        status(" {\"state\":\"OPEN\",\"mergeable\":\"conflicting\"}\n"),
        PrStatus::Conflicting
    );
    let failed = "{\"statusCheckRollup\":[{\"conclusion\":\"SUCCESS\"},{\"conclusion\":\"failure\"}]}";
    assert_eq!(status(failed), PrStatus::CiFailed);
    let running = "{\"statusCheckRollup\":[{\"conclusion\":\"SUCCESS\"},{\"conclusion\":\"\"}]}";
    assert_eq!(status(running), PrStatus::CiRunning);
    let passed = "{\"statusCheckRollup\":[{\"conclusion\":\"SUCCESS\"}]}";
    assert_eq!(status(passed), PrStatus::CiPassed);
    assert_eq!(status("{\"statusCheckRollup\":[]}"), PrStatus::Open);
    assert_eq!(status("not json"), PrStatus::Open);
    assert_eq!(check_pr_status(&None), PrStatus::Open);
    let of = |conclusions: &[&str]| pr_status("OPEN", "MERGEABLE", &texts(conclusions));
    assert_eq!(of(&[]), PrStatus::Open);
    assert_eq!(of(&["SUCCESS", "failure", ""]), PrStatus::CiFailed);
    assert_eq!(of(&["SUCCESS", "ERROR"]), PrStatus::CiFailed);
    assert_eq!(of(&["SUCCESS", "SKIPPED"]), PrStatus::CiPassed);
    assert_eq!(of(&["SUCCESS", ""]), PrStatus::CiRunning);
    assert_eq!(pr_status("merged", "CONFLICTING", &texts(&["ERROR"])), PrStatus::Merged);
    assert_eq!(pr_status("OPEN", "conflicting", &texts(&["ERROR"])), PrStatus::Conflicting);
}

#[test]
fn the_time_until_a_reset_is_told() {
    // 2026-03-16T10:00:00Z
    let now: i64 = 1_773_655_200_000;
    let left = |s: &str| format_time_left(s, now);
    assert_eq!(left("2026-03-16T10:45:30Z"), text("45m"));
    assert_eq!(left("2026-03-16T13:05:00Z"), text("3h5m"));
    assert_eq!(left("2026-03-18T12:00:00Z"), text("2d2h"));
    assert_eq!(left("2026-03-16T12:00:00+02:00"), None);
    assert_eq!(left("2026-03-16T09:00:00Z"), None);
    assert_eq!(left("soon"), None);
}

#[test]
fn a_rate_limit_ends_after_its_reset() {
    let now = Moment { secs: 1_773_655_200, nanos: 1 };
    assert!(rate_limit_expired(true, &text("2026-03-16T10:00:00Z"), now));
    assert!(!rate_limit_expired(true, &text("2026-03-16T10:00:01Z"), now));
    assert!(!rate_limit_expired(false, &text("2026-03-16T10:00:00Z"), now));
    assert!(!rate_limit_expired(true, &text("later"), now));
    assert!(!rate_limit_expired(true, &None, now));
    assert!(!limit_is_over(true, Some(now), now));
}

#[test]
fn usage_is_fetched_once_where_it_is_stale() {
    assert!(needs_usage_fetch(false, true, false));
    assert!(needs_usage_fetch(true, false, false));
    assert!(!needs_usage_fetch(true, true, false));
    assert!(!needs_usage_fetch(false, false, true));
    assert_eq!(keep_known(None, &text("3h5m")), text("3h5m"));
    assert_eq!(keep_known(text("1m"), &text("3h5m")), text("1m"));
}

// ── Payloads ──

#[test]
fn payloads_name_their_author() {
    let rest = text("{\"user\":{\"login\":\"octocat\"}}");
    let graph = text("{\"author\":{\"login\":\"harsha\"}}");
    assert_eq!(parse_author_login(&graph), text("harsha"));
    assert_eq!(parse_author_login(&text("[]")), None);
    assert_eq!(parse_author_login(&text("{")), None);
    assert_eq!(parse_author_login(&None), None);
    assert_eq!(parse_author_login(&rest), text("octocat"));
    assert_eq!(author_among(text("a"), text("b")), text("a"));
    assert_eq!(author_among(None, text("b")), text("b"));
    let some = vec![text("a"), None, text("b")];
    assert_eq!(reviewers_among(Some(some), Some(vec![text("c")])), texts(&["a", "b"]));
    assert_eq!(reviewers_among(None, Some(vec![None, text("c")])), texts(&["c"]));
    assert!(reviewers_among(None, None).is_empty());
}

#[test]
fn payloads_name_whom_they_ask() {
    let rest = text("{\"requested_reviewers\":[{\"login\":\"a\"},{\"name\":\"x\"},{\"login\":\"b\"}]}");
    assert_eq!(parse_requested_reviewer_logins(&rest), texts(&["a", "b"]));
    let graph = text(
        "{\"reviewRequests\":{\"nodes\":[{\"requestedReviewer\":{\"login\":\"c\"}}]}}",
    );
    assert_eq!(parse_requested_reviewer_logins(&graph), texts(&["c"]));
    assert!(parse_requested_reviewer_logins(&text("{}")).is_empty());
    assert!(parse_requested_reviewer_logins(&None).is_empty());
}

#[test]
fn decisions_have_a_priority() {
    assert_eq!(review_priority(&text("CHANGES_REQUESTED")), 0);
    assert_eq!(review_priority(&text("review_required")), 1);
    assert_eq!(review_priority(&text("other")), 2);
    assert_eq!(review_priority(&None), 2);
    assert_eq!(review_priority(&text("approved")), 3);
}

// ── The user's items ──

fn my_item(number: i64, title: &str, assignee: &str, updated: &str) -> MyTaskItem {
    MyTaskItem {
        repo: GitHubRepo { id: "r".to_string(), full_name: "acme/claustre".to_string() },
        github_item: GitHubItem {
            id: format!("item-{number}"),
            repo_id: "r".to_string(),
            node_id: None,
            number,
            kind: GitHubItemKind::Issue,
            kind_label: "issue".to_string(),
            title: title.to_string(),
            state: "OPEN".to_string(),
            url: String::new(),
            body_text: None,
            assignee_logins: vec![assignee.to_string()],
            label_names: Vec::new(),
            github_updated_at: text(updated),
        },
        issue_cache: None,
        pr_cache: None,
        linked_thread: None,
        linked_pr: None,
    }
}

#[test]
fn my_tasks_are_mine_and_match() {
    let items = vec![
        my_item(1, "Crème brûlée", "harsha", "2026-03-16T10:00:00Z"),
        my_item(2, "Soup", "octocat", "2026-03-16T11:00:00Z"),
        my_item(3, "Salad", "HARSHA", "2026-03-16T12:00:00Z"),
    ];
    assert!(has_my_tasks(&items, "harsha"));
    assert!(!has_my_tasks(&items, "nobody"));
    let mut all = my_task_indices(&items, "harsha", "");
    all.sort_unstable();
    assert_eq!(all, vec![0, 2]);
    assert_eq!(my_task_indices(&items, "harsha", "CRÈME"), vec![0]);
    assert_eq!(items[0].title_line(), "#1 Crème brûlée");
}

// ── Tasks ──

fn task(id: &str, title: &str, status: TaskStatus) -> Task {
    Task {
        id: id.to_string(),
        title: title.to_string(),
        description: String::new(),
        status,
        mode: TaskMode::Supervised,
        base: None,
        branch: None,
        push_mode: PushMode::Pr,
        review_loop: false,
        session_id: None,
        pr_url: None,
        sort_order: 0,
    }
}

#[test]
fn a_review_is_announced_once() {
    let mut watch = ReviewWatch { seen: Vec::new(), notified: Vec::new(), loop_spawned: Vec::new() };
    assert_eq!(watch.observe(&vec![task("a", "A", TaskStatus::Working)]), None);
    assert_eq!(watch.observe(&vec![task("a", "A", TaskStatus::InReview)]), Some(0));
    assert_eq!(watch.observe(&vec![task("a", "A", TaskStatus::InReview)]), None);
    assert_eq!(watch.observe(&vec![task("a", "A", TaskStatus::Working)]), None);
    assert_eq!(watch.observe(&vec![task("a", "A", TaskStatus::InReview)]), Some(0));
}

#[test]
fn done_tasks_come_last() {
    let tasks = vec![
        task("a", "A", TaskStatus::Done),
        task("b", "B", TaskStatus::Pending),
        task("c", "C", TaskStatus::InReview),
    ];
    assert_eq!(visible_task_indices(&tasks, ""), vec![2, 1, 0]);
    assert_eq!(visible_task_indices(&tasks, "b"), vec![1]);
}

// ── The board ──

fn board_item(number: i64, state: &str, fields: &[(&str, &str)]) -> BoardItem {
    BoardItem {
        github_item_id: format!("item-{number}"),
        number,
        title: format!("Issue {number}"),
        body: None,
        url: String::new(),
        state: state.to_string(),
        kind: GitHubItemKind::Issue,
        kind_label: "issue".to_string(),
        labels: Vec::new(),
        assignees: Vec::new(),
        fields: fields
            .iter()
            .map(|(name, value)| FieldValue { name: name.to_string(), value: text(value) })
            .collect(),
        linked_pr_item_id: None,
    }
}

#[test]
fn items_stand_in_the_column_of_their_status() {
    let columns = texts(&["Backlog", "Done", "Archive"]);
    let at = |item: &BoardItem| board_item_column(&columns, item);
    assert_eq!(at(&board_item(1, "OPEN", &[("Status", "done")])), 1);
    assert_eq!(at(&board_item(2, "OPEN", &[("Status", "Somewhere")])), 0);
    assert_eq!(at(&board_item(3, "CLOSED", &[])), 2);
    assert_eq!(at(&board_item(4, "merged", &[("Status", "Somewhere")])), 2);
    assert_eq!(board_item_column(&Vec::new(), &board_item(5, "CLOSED", &[])), 0);
}

#[test]
fn finished_columns_move_to_the_end() {
    let items = vec![
        board_item(1, "OPEN", &[("Status", "Done")]),
        board_item(2, "OPEN", &[("Status", "Todo")]),
        board_item(3, "OPEN", &[("status", "In Progress")]),
        board_item(4, "OPEN", &[("Status", "Todo")]),
        board_item(5, "OPEN", &[]),
    ];
    assert_eq!(discover_columns(&items), texts(&["Todo", "In Progress", "Done"]));
}

#[test]
fn sprints_are_read_from_their_fields() {
    let items = vec![
        board_item(1, "OPEN", &[("Iteration", "Sprint 2")]),
        board_item(2, "OPEN", &[("Milestone", "Sprint 1")]),
        board_item(3, "OPEN", &[("sprint", "Sprint 2")]),
        board_item(4, "OPEN", &[("Size", "L")]),
    ];
    assert_eq!(board_item_sprint(&items[0]), text("Sprint 2"));
    assert_eq!(board_item_sprint(&items[3]), None);
    let mut sprints = collect_board_sprints(&items);
    sprints.sort();
    assert_eq!(sprints, texts(&["Sprint 1", "Sprint 2"]));
}

// ── Panes ──

fn pane(id: u32) -> Box<LayoutNode> {
    Box::new(LayoutNode::Pane(id))
}

#[test]
fn a_pane_lies_inside_its_border() {
    let sizes = compute_pane_sizes_for_resize(&LayoutNode::Pane(7), 80, 24);
    assert_eq!(sizes, vec![(7, 20, 78)]);
    let tiny = compute_pane_sizes_for_resize(&LayoutNode::Pane(7), 1, 1);
    assert_eq!(tiny, vec![(7, 0, 0)]);
}

#[test]
fn split_panes_share_the_area() {
    let layout = LayoutNode::Split {
        direction: SplitDirection::Horizontal,
        ratio: 50,
        first: pane(1),
        second: pane(2),
    };
    assert_eq!(compute_pane_sizes_for_resize(&layout, 80, 24), vec![(1, 20, 38), (2, 20, 38)]);
    let stacked = LayoutNode::Split {
        direction: SplitDirection::Vertical,
        ratio: 50,
        first: pane(1),
        second: pane(2),
    };
    assert_eq!(compute_pane_sizes_for_resize(&stacked, 80, 22), vec![(1, 8, 78), (2, 8, 78)]);
}

#[test]
fn splits_are_rounded_to_a_cell() {
    for ratio in 0..=100u16 {
        for size in 0..90u16 {
            let first = (size * ratio + 50) / 100;
            let layout = LayoutNode::Split {
                direction: SplitDirection::Horizontal,
                ratio,
                first: pane(1),
                second: pane(2),
            };
            let area = Rect { x: 4, y: 1, width: size, height: 9 };
            let places = collect_pane_inner_areas(&layout, area);
            let left = Rect { width: first, ..area };
            let right = Rect { x: 4 + first, width: size - first, ..area };
            let expected: Vec<(u32, Rect)> = [(1, left), (2, right)]
                .into_iter()
                .flat_map(|(id, part)| collect_pane_inner_areas(&LayoutNode::Pane(id), part))
                .collect();
            assert_eq!(places, expected);
        }
    }
}

#[test]
fn splits_end_with_the_screen() {
    let layout = LayoutNode::Split {
        direction: SplitDirection::Vertical,
        ratio: 33,
        first: pane(1),
        second: pane(2),
    };
    let area = Rect { x: 0, y: 65_500, width: 10, height: 90 };
    let places = collect_pane_inner_areas(&layout, area);
    assert_eq!(
        places,
        vec![
            (1, Rect { x: 1, y: 65_501, width: 8, height: 10 }),
            (2, Rect { x: 1, y: 65_513, width: 8, height: 21 }),
        ]
    );
}

#[test]
fn pane_sizes_do_not_depend_on_the_place() {
    let right = LayoutNode::Split {
        direction: SplitDirection::Vertical,
        ratio: 37,
        first: pane(2),
        second: pane(3),
    };
    let layout = LayoutNode::Split {
        direction: SplitDirection::Horizontal,
        ratio: 61,
        first: pane(1),
        second: Box::new(right),
    };
    let below_the_tabs = Rect { x: 0, y: 1, width: 133, height: 41 };
    let drawn: Vec<(u32, u16, u16)> = collect_pane_inner_areas(&layout, below_the_tabs)
        .into_iter()
        .map(|(id, area)| (id, area.height, area.width))
        .collect();
    assert_eq!(drawn, vec![(1, 39, 79), (2, 13, 50), (3, 24, 50)]);
    assert_eq!(compute_pane_sizes_for_resize(&layout, 133, 43), drawn);
}

#[test]
fn screen_places_belong_to_panes() {
    let area = Rect { x: 0, y: 1, width: 40, height: 10 };
    let areas = collect_pane_inner_areas(&LayoutNode::Pane(3), area);
    assert_eq!(screen_to_terminal_coords(&areas, 1, 2), Some((3, 0, 0)));
    assert_eq!(screen_to_terminal_coords(&areas, 5, 4), Some((3, 2, 4)));
    assert_eq!(screen_to_terminal_coords(&areas, 0, 1), None);
    assert_eq!(screen_to_terminal_coords(&areas, 39, 10), None);
}

// ── Conversations ──

fn said(s: &str) -> ConversationEntry {
    ConversationEntry::AssistantText { text: s.to_string() }
}

#[test]
fn choices_at_the_end_are_offered() {
    let question = "What next?\n1. Merge from main first\n2. Add tests\n3. Both";
    let entries = vec![said(question), ConversationEntry::TurnEnd];
    let choices = texts(&["Merge from main first", "Add tests", "Both"]);
    assert_eq!(detect_quick_reply_choices(&entries), choices);
    let one = vec![said("Only\n1. This")];
    assert!(detect_quick_reply_choices(&one).is_empty());
    let answered = vec![
        said(question),
        ConversationEntry::UserMessage { timestamp: String::new(), text: "3".to_string() },
    ];
    assert!(detect_quick_reply_choices(&answered).is_empty());
}

#[test]
fn a_log_is_read_on_where_it_was_left() {
    let none = Some(missing_log("s"));
    assert_eq!(resume_offset(&none, "s", "/log"), 0);
    let first = extend_cache(none, "s", "/log", vec![said("a")], 10);
    let cache = Some(first);
    assert_eq!(resume_offset(&cache, "s", "/log"), 10);
    assert_eq!(resume_offset(&cache, "t", "/log"), 0);
    assert!(is_current(&cache, "s", Some(10)));
    assert!(!is_current(&cache, "s", Some(11)));
    assert!(!is_current(&cache, "t", Some(10)));
    let second = extend_cache(cache, "s", "/log", vec![said("b")], 20);
    assert_eq!(second.entries.len(), 2);
    assert_eq!(second.file_offset, 20);
    let other = extend_cache(Some(second), "t", "/log", vec![said("c")], 5);
    assert_eq!(other.entries.len(), 1);
}

#[test]
fn the_last_answers_are_told() {
    let entries = vec![said("1"), said("2"), ConversationEntry::ToolUse, said("3"), said("4")];
    assert_eq!(summarize_conversation(&entries), text("2\n\n3\n\n4"));
    assert_eq!(summarize_conversation(&vec![ConversationEntry::ToolUse]), None);
}

// ── Messages ──

#[test]
fn pasted_text_is_bracketed() {
    assert_eq!(bracketed_paste("hi"), "\x1b[200~hi\x1b[201~");
    assert_eq!(prompt_payload("hi"), "\x1b[200~hi\x1b[201~\n");
    let command = resume_arguments(texts(&["agent", "--resume"]), "go on");
    assert_eq!(command, texts(&["agent", "--resume", "-p", "go on"]));
    assert_eq!(shell_line(&texts(&["cd", "/tmp"])), "cd /tmp\r");
}

fn skill(name: &str) -> InstalledSkill {
    InstalledSkill { name: name.to_string(), path: String::new(), scope: SkillScope::Global }
}

#[test]
fn commands_are_suggested() {
    let skills = vec![skill("deploy"), skill("review-code"), skill("Deploy-All")];
    assert_eq!(suggestions_for(&skills, "/dep"), texts(&["deploy", "Deploy-All"]));
    assert!(suggestions_for(&skills, "dep").is_empty());
    assert!(suggestions_for(&skills, "/deploy now").is_empty());
    assert!(suggestions_for(&skills, "/").len() <= 10);
}

#[test]
fn installs_are_reported() {
    let none: Vec<String> = Vec::new();
    assert_eq!(report_install(&texts(&["a"]), &none), "Installed a");
    assert_eq!(report_install(&texts(&["a", "b"]), &none), "Installed 2 skills");
    assert_eq!(report_install(&none, &texts(&["x", "y"])), "Install failed: x; y");
    assert_eq!(report_install(&texts(&["a"]), &texts(&["x"])), "Installed 1; failed: x");
}

// ── Launches ──

#[test]
fn prompts_are_combined() {
    assert_eq!(combine_prompt(" do it ", ""), "do it");
    assert_eq!(combine_prompt(" ", " now "), "now");
    assert_eq!(combine_prompt("do it", "now"), "do it\n\nAdditional context:\nnow");
    let mut t = task("a", "A", TaskStatus::Pending);
    t.description = "First task".to_string();
    assert_eq!(build_launch_prompt_for_task(&Some(t), " "), text("First task"));
    assert_eq!(build_launch_prompt_for_task(&None, "x"), None);
}

fn pr_launch(mode: PendingReviewLaunchMode) -> PendingReviewPrLaunch {
    PendingReviewPrLaunch {
        github_item_id: "item-77".to_string(),
        number: 77,
        title: "Queue".to_string(),
        body: " Body ".to_string(),
        url: "https://example.com/77".to_string(),
        base_ref: text("main"),
        head_ref: text("topic"),
        mode,
    }
}

#[test]
fn pull_requests_get_a_prompt() {
    let work = build_launch_prompt_for_review_pr(&pr_launch(PendingReviewLaunchMode::ContinueWork), "");
    assert_eq!(
        work,
        "Continue working on GitHub pull request #77: Queue\nPR URL: https://example.com/77\n\
         Branch: topic -> main\n\nPR description:\nBody"
    );
    let look = build_launch_prompt_for_review_pr(&pr_launch(PendingReviewLaunchMode::Review), "");
    assert!(look.starts_with("Review GitHub pull request #77: Queue\n"));
    assert!(look.contains("\nReview goals:\n"));
}

#[test]
fn feedback_is_put_into_words() {
    let review = GitHubReview {
        author_login: text("ann"),
        state: "COMMENTED".to_string(),
        body: None,
        body_text: text("Looks odd."),
    };
    let comment =
        GitHubComment { author_login: None, body: text("Please render it."), body_text: None };
    let inline = GitHubReviewComment {
        author_login: text("ann"),
        path: text("src/a.rs"),
        line: Some(120),
        diff_hunk: None,
        body: None,
        body_text: text("Here."),
    };
    let told = format_review_comments_context(
        PendingReviewLaunchMode::ContinueWork,
        &vec![review.clone()],
        &vec![comment],
        &vec![inline.clone()],
    );
    assert!(told.starts_with("## PR Review Feedback\n\n### @ann (COMMENTED)\nLooks odd.\n"));
    assert!(told.contains("Please render it."));
    assert!(told.contains("### Inline Comments\n\n"));
    assert!(told.contains("src/a.rs"));
    let nothing = format_review_comments_context(
        PendingReviewLaunchMode::Review,
        &Vec::new(),
        &Vec::new(),
        &Vec::new(),
    );
    assert_eq!(nothing, "");
    let issue = format_issue_context(42, "Body", &vec![review], &vec![inline]);
    assert!(issue.starts_with("## GitHub Issue #42\nBody\n\nReview by @ann (COMMENTED):\nLooks odd.\n\n"));
}

#[test]
fn lists_are_split_at_commas() {
    assert_eq!(split_list(" bug, ui ,, docs"), texts(&["bug", "ui", "docs"]));
    assert!(split_list(" , ").is_empty());
}

// ── Projects ──

#[test]
fn paths_are_completed() {
    let home = text("/home/me");
    assert_eq!(expand_tilde("~/code", &home), text("/home/me/code"));
    assert_eq!(expand_tilde("/tmp", &None), text("/tmp"));
    assert_eq!(expand_tilde("~", &None), None);
    let query = path_query("~/co", &home).unwrap();
    assert_eq!((query.0.as_str(), query.1.as_str()), ("/home/me/", "co"));
    let names = texts(&["Code", ".config", "music", "cobalt"]);
    assert_eq!(suggestions_among(&names, "co"), texts(&["Code", "cobalt"]));
    assert_eq!(suggestions_among(&names, ""), texts(&["Code", "cobalt", "music"]));
}

// ── Changes at GitHub ──

fn told(r: GitHubMutationResult) -> String {
    match r {
        GitHubMutationResult::CommentCreated { message } => format!("comment: {message}"),
        GitHubMutationResult::StateChanged { message } => format!("state: {message}"),
        GitHubMutationResult::IssueCreated { message } => format!("created: {message}"),
        GitHubMutationResult::IssueEdited { message } => format!("edited: {message}"),
        GitHubMutationResult::FieldUpdated { message } => format!("field: {message}"),
        GitHubMutationResult::Error { message } => format!("error: {message}"),
    }
}

#[test]
fn changes_are_reported() {
    let no = text("no");
    assert_eq!(told(comment_outcome(42, &None)), "comment: Comment posted on #42");
    assert_eq!(told(comment_outcome(42, &no)), "error: Failed to post comment: no");
    assert_eq!(told(state_outcome(42, "closed", &None)), "state: Issue #42 closed");
    assert_eq!(told(state_outcome(42, "closed", &no)), "error: Failed to change state: no");
    assert_eq!(told(issue_outcome(Some(7), &Ok(7))), "edited: Issue #7 updated");
    assert_eq!(told(issue_outcome(None, &Ok(8))), "created: Issue #8 created");
    let err: Result<i64, String> = Err("no".to_string());
    assert_eq!(told(issue_outcome(None, &err)), "error: GitHub API error: no");
    assert_eq!(told(field_outcome("Status", "Done", &None)), "field: Status → Done");
    assert_eq!(told(field_outcome("Status", "Done", &no)), "error: Failed to update field: no");
}

// ── Tasks ──

#[test]
fn a_submission_settles_the_status() {
    assert_eq!(status_of_new(SubmitKind::Start), TaskStatus::Pending);
    assert_eq!(status_of_new(SubmitKind::Draft), TaskStatus::Draft);
    let draft = TaskStatus::Draft;
    assert_eq!(status_after_edit(draft, SubmitKind::Start), Some(TaskStatus::Pending));
    assert_eq!(status_after_edit(draft, SubmitKind::Draft), None);
    assert_eq!(status_after_edit(TaskStatus::Pending, SubmitKind::Start), None);
}

// ── The allowance ──

#[test]
fn the_allowance_is_read() {
    let cache = "{\"data\":{\"reset5h\":\"2h\",\"reset7d\":null}}";
    assert_eq!(cached_reset(cache, "/data/reset5h", text("3h")), text("2h"));
    assert_eq!(cached_reset(cache, "/data/reset7d", text("3d")), text("3d"));
    assert_eq!(cached_reset("{", "/data/reset5h", None), None);
    let credentials = " {\"agentAiOauth\":{\"accessToken\":\"t\"}}\n";
    assert_eq!(access_token(credentials, "agent"), text("t"));
    assert_eq!(access_token(credentials, "other"), None);
    let answer = "{\"five_hour\":{\"resets_at\":\"1970-01-01T02:30:00Z\"}}";
    assert_eq!(reset_in(answer, "/five_hour/resets_at", 0), format_time_left("1970-01-01T02:30:00Z", 0));
    assert!(reset_in(answer, "/five_hour/resets_at", 0).is_some());
    assert_eq!(reset_in(answer, "/seven_day/resets_at", 0), None);
}

#[test]
fn another_provider_is_noted() {
    assert_eq!(switch_note(ProviderKind::Codex, "agent"), "Switched thread provider to codex.");
    assert_eq!(switch_activity(ProviderKind::Claude, "agent"), "Switched to agent");
    assert_eq!(resume_activity("Agent"), "Resuming Agent session");
    assert_eq!(install_failure("p", "no"), "p: no");
    let thread = |profile: Option<String>| Thread {
        id: String::new(),
        project_id: String::new(),
        github_item_id: None,
        task_id: None,
        session_id: None,
        title: String::new(),
        status: String::new(),
        provider_kind: ProviderKind::Claude,
        provider_profile: profile,
        worktree_path: None,
        runtime_profile: None,
        workflow_run_id: None,
    };
    assert_eq!(profile_kept(&thread(text("review"))), "review");
    assert_eq!(profile_kept(&thread(None)), "default");
}

#[test]
fn a_linked_pull_request_is_chosen() {
    let pr = |number| GitHubItem { kind: GitHubItemKind::PullRequest, ..my_item(number, "PR", "", "").github_item };
    let mut item = my_item(1, "Issue", "harsha", "");
    let found = Some(pr(8));
    assert_eq!(linked_pr_of(&item, &found).map(|p| p.number), Some(8));
    assert!(linked_pr_of(&item, &None).is_none());
    item.linked_pr = Some(pr(7));
    assert_eq!(linked_pr_of(&item, &found).map(|p| p.number), Some(7));
    item.github_item.kind = GitHubItemKind::PullRequest;
    assert!(linked_pr_of(&item, &found).is_none());
}

// ── Workflows ──

#[test]
fn stages_are_named() {
    assert_eq!(stage_message("plan"), "[Workflow] Stage: plan");
    assert_eq!(stage_activity("plan"), "Stage: plan");
}

#[test]
fn long_summaries_are_cut() {
    let short = "x".repeat(2000);
    assert_eq!(shorten_summary(&short), short);
    let long = "x".repeat(2001);
    assert_eq!(shorten_summary(&long), format!("{}...", "x".repeat(1997)));
    let wide = "é".repeat(1500);
    assert_eq!(shorten_summary(&wide), format!("{}...", "é".repeat(998)));
}

// ── Ticks ──

#[test]
fn ticks_do_their_work_in_order() {
    let quiet = TickState {
        loading: false,
        deferred: false,
        since_detection: DETECT_INTERVAL - 1,
        since_slow_work: SLOW_TICK - 1,
    };
    let work = tick_work(&quiet);
    assert_eq!(work[0], TickWork::DrainQueuedMessage);
    assert_eq!(work[work.len() - 1], TickWork::ReadConversation);
    assert!(!work.contains(&TickWork::ReadAllOutput));

    let slow = TickState { since_slow_work: SLOW_TICK, loading: true, ..quiet };
    let work = tick_work(&slow);
    assert_eq!(work[0], TickWork::LoadRecords);
    assert_eq!(work[work.len() - 1], TickWork::AdvanceWorkflows);

    let typing = TickState {
        loading: false,
        deferred: true,
        since_detection: DETECT_INTERVAL,
        since_slow_work: SLOW_TICK,
    };
    let work = tick_work(&typing);
    assert!(work.contains(&TickWork::DrainQueuedMessage));
    assert!(!work.contains(&TickWork::ReadAllOutput));
    assert!(!work.contains(&TickWork::LoadRecords));
}

#[test]
fn the_mouse_is_captured_on_demand() {
    assert_eq!(mouse_capture_change(true, false), Some(true));
    assert_eq!(mouse_capture_change(false, true), Some(false));
    assert_eq!(mouse_capture_change(true, true), None);
}

// ── Views ──

#[test]
fn choices_turn_back() {
    assert_eq!(BoardScope::AssignedToMe.next(), BoardScope::AllSprint);
    assert_eq!(BoardScope::AllSprint.next(), BoardScope::AssignedToMe);
    assert_eq!(ReviewQueueTab::Authored.other(), ReviewQueueTab::NeedsReview);
    assert_eq!(ReviewQueueTab::NeedsReview.other(), ReviewQueueTab::Authored);
}

#[test]
fn forms_say_what_is_wrong() {
    assert_eq!(AppError::EmptyThreadTitle.message("Agent"), "Thread title cannot be empty");
}
