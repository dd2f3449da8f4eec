//! Writing to a thread: the draft, the commands that are suggested for it, the
//! messages that were sent before, and the one that waits for the agent.

use vstd::prelude::*;
use vstd::string::*;

use crate::board_state::{next_place, previous_place, step_down, step_up};
use crate::composer::cursor_within;
use crate::keys::{KeyCode, KeyModifiers};
use crate::launch::up_to;
use crate::skills::{skill_names, InstalledSkill};
use crate::text::{
    byte_len, bytes_in, chars_of, contains, contains_text, lemma_views_push, lowercase,
    text_between, to_lowercase, views,
};
use crate::tasks::list_contains;
use crate::text_input::{after_edit, TextInput};

verus! {

/// A message that is sent once the agent of its thread has time for it.
pub struct Queued {
    pub thread_id: String,
    pub content: String,
}

pub struct Compose {
    pub thread_id: Option<String>,
    pub draft: TextInput,
    /// The commands that are suggested, without their slash.
    pub suggestions: Vec<String>,
    pub suggestion_index: usize,
    /// The messages that were sent, oldest first, and the one that is looked at.
    pub history: Vec<String>,
    pub history_index: Option<usize>,
    pub queued: Option<Queued>,
    pub quick_replies: Vec<String>,
}

/// What a key of the editor asks for beyond the editor itself.
#[derive(Clone, Copy, Debug, PartialEq, Eq, Structural)]
pub enum ComposeEvent {
    Nothing,
    /// The text was edited, so the suggestions have to be made anew.
    Edited,
    ToDashboard,
    NextTab,
    PreviousTab,
    Leave,
    Submit,
    Paste,
}

impl Compose {
    pub open spec fn wf(&self) -> bool {
        self.history_index matches Some(i) ==> i < self.history@.len()
    }
}

/// The draft is what stands in the editor.
pub open spec fn drafted(line: TextInput) -> TextInput {
    TextInput { text: line.text, cursor: cursor_within(line.cursor, line.text@) }
}

/// The cursor stands at the end.
pub open spec fn ends_at(line: TextInput, text: Seq<char>) -> bool {
    line.text@ == text && line.cursor == byte_len(text)
}

pub open spec fn without_hints(pre: Compose, post: Compose) -> bool {
    post.suggestions@.len() == 0 && post == (Compose {
        suggestions: post.suggestions,
        suggestion_index: 0,
        ..pre
    })
}

// ---------------------------------------------------------------------------
// Suggestions
// ---------------------------------------------------------------------------

/// The commands that workflows know.
pub open spec fn workflow_commands() -> Seq<Seq<char>> {
    seq!["plan"@, "tdd"@, "verify"@, "review"@, "learn"@]
}

/// The text is a command that is still being typed.
pub open spec fn is_command(text: Seq<char>) -> bool {
    text.len() > 0 && text[0] == '/' && !text.contains(' ')
}

pub open spec fn name_matches(name: Seq<char>, query: Seq<char>) -> bool {
    query.len() == 0 || contains_text(lowercase(name), lowercase(query))
}

pub open spec fn command_matches(command: Seq<char>, query: Seq<char>) -> bool {
    query.len() == 0 || contains_text(command, lowercase(query))
}

pub open spec fn matching_names(names: Seq<Seq<char>>, query: Seq<char>) -> Seq<Seq<char>> {
    names.filter(|n: Seq<char>| name_matches(n, query))
}

/// A list with the first `n` workflow commands that match and are not in it yet.
pub open spec fn with_commands(list: Seq<Seq<char>>, query: Seq<char>, n: nat) -> Seq<Seq<char>>
    decreases n,
{
    if n == 0 {
        list
    } else {
        let rest = with_commands(list, query, (n - 1) as nat);
        let command = workflow_commands()[n - 1];
        if command_matches(command, query) && !rest.contains(command) {
            rest.push(command)
        } else {
            rest
        }
    }
}

/// The suggestions for a command: skills before workflow commands, ten at most.
pub open spec fn suggested(names: Seq<Seq<char>>, text: Seq<char>) -> Seq<Seq<char>> {
    if is_command(text) {
        let query = text.skip(1);
        up_to(with_commands(up_to(matching_names(names, query), 10), query, 5), 10)
    } else {
        Seq::empty()
    }
}

/// A place in a list, clamped to its last one.
pub open spec fn hint_place(i: usize, n: nat) -> usize {
    if n == 0 {
        0
    } else if i < n {
        i
    } else {
        (n - 1) as usize
    }
}

fn command_at(i: usize) -> (r: &'static str)
    requires
        i < 5,
    ensures
        r@ == workflow_commands()[i as int],
{
    match i {
        0 => "plan",
        1 => "tdd",
        2 => "verify",
        3 => "review",
        _ => "learn",
    }
}

/// The command in a text, without its slash.
fn command_in(text: &str) -> (r: Option<String>)
    ensures
        r matches Some(query) ==> is_command(text@) && query@ == text@.skip(1),
        r is None ==> !is_command(text@),
{
    let cs = chars_of(text);
    if cs.len() == 0 || cs[0] != '/' {
        return None;
    }
    let mut i: usize = 0;
    while i < cs.len()
        invariant
            i <= cs@.len(),
            cs@ == text@,
            forall|k: int| 0 <= k < i ==> cs@[k] != ' ',
        decreases cs@.len() - i,
    {
        if cs[i] == ' ' {
            assert(text@[i as int] == ' ');
            return None;
        }
        i += 1;
    }
    let query = text_between(&cs, 1, cs.len());
    assert(query@ =~= text@.skip(1));
    Some(query)
}

/// The text is a command that is still being typed.
pub fn holds_command(text: &str) -> (r: bool)
    ensures
        r == is_command(text@),
{
    command_in(text).is_some()
}

/// The commands that are suggested for a text.
pub fn suggestions_for(skills: &Vec<InstalledSkill>, text: &str) -> (r: Vec<String>)
    ensures
        views(r@) == suggested(skill_names(skills@), text@),
        r@.len() <= 10,
{
    let mut r: Vec<String> = Vec::new();
    assert(views(r@) =~= Seq::<Seq<char>>::empty());
    let query = match command_in(text) {
        Some(query) => query,
        None => {
            return r;
        },
    };
    let lower = to_lowercase(query.as_str());
    let ghost names = skill_names(skills@);
    let ghost keep = |n: Seq<char>| name_matches(n, query@);
    let mut i: usize = 0;
    proof {
        reveal(Seq::filter);
        assert(names.take(0) =~= Seq::<Seq<char>>::empty());
    }
    while i < skills.len() && r.len() < 10
        invariant
            i <= skills@.len(),
            names == skill_names(skills@),
            keep == (|n: Seq<char>| name_matches(n, query@)),
            lower@ == lowercase(query@),
            r@.len() <= 10,
            views(r@) == names.take(i as int).filter(keep),
        decreases skills@.len() - i,
    {
        proof {
            reveal(Seq::filter);
            assert(names.take(i + 1).drop_last() =~= names.take(i as int));
            assert(names.take(i + 1).last() == skills@[i as int].name@);
        }
        let name = &skills[i].name;
        if query.as_str().is_empty() || contains(to_lowercase(name.as_str()).as_str(), lower.as_str()) {
            let copy = name.clone();
            proof {
                lemma_views_push(r@, copy);
            }
            r.push(copy);
        }
        i += 1;
    }
    proof {
        assert(views(r@).len() == r@.len());
        lemma_filter_prefix(names, i as int, keep);
        let all = names.filter(keep);
        if i == skills@.len() {
            assert(names.take(i as int) =~= names);
        } else {
            assert(all.take(10) =~= views(r@));
        }
        assert(views(r@) =~= up_to(all, 10));
    }
    let ghost list = views(r@);
    let mut k: usize = 0;
    while k < 5
        invariant
            k <= 5,
            lower@ == lowercase(query@),
            views(r@) == with_commands(list, query@, k as nat),
        decreases 5 - k,
    {
        let command = command_at(k);
        if (query.as_str().is_empty() || contains(command, lower.as_str())) && !list_contains(
            &r,
            command,
        ) {
            let copy = command.to_owned();
            proof {
                lemma_views_push(r@, copy);
            }
            r.push(copy);
        }
        k += 1;
    }
    let ghost all = views(r@);
    proof {
        assert(all.len() == r@.len());
    }
    if r.len() > 10 {
        r.truncate(10);
        assert(views(r@) =~= all.take(10));
    }
    r
}

/// What a filter keeps of a prefix stands at the front of what it keeps of the whole.
proof fn lemma_filter_prefix(s: Seq<Seq<char>>, n: int, p: spec_fn(Seq<char>) -> bool)
    requires
        0 <= n <= s.len(),
    ensures
        s.take(n).filter(p).len() <= s.filter(p).len(),
        s.filter(p).take(s.take(n).filter(p).len() as int) == s.take(n).filter(p),
    decreases s.len() - n,
{
    reveal(Seq::filter);
    if n == s.len() {
        assert(s.take(n) =~= s);
        assert(s.filter(p).take(s.filter(p).len() as int) =~= s.filter(p));
    } else {
        lemma_filter_prefix(s, n + 1, p);
        assert(s.take(n + 1).drop_last() =~= s.take(n));
        let shorter = s.take(n).filter(p);
        let longer = s.take(n + 1).filter(p);
        assert(longer.take(shorter.len() as int) =~= shorter);
        assert(s.filter(p).take(shorter.len() as int) =~= longer.take(shorter.len() as int));
    }
}

// ---------------------------------------------------------------------------
// Keys
// ---------------------------------------------------------------------------

pub open spec fn is_control(m: KeyModifiers) -> bool {
    m == KeyModifiers::control()
}

/// A key while commands are suggested; `None` for one that closes the list and is
/// handled as if it had not been there.
pub open spec fn hint_step(
    pre: Compose,
    line: TextInput,
    post: Compose,
    after: TextInput,
    code: KeyCode,
) -> Option<bool> {
    match code {
        KeyCode::Tab | KeyCode::Down => Some(
            after == line && post == (Compose {
                suggestion_index: next_place(pre.suggestion_index, pre.suggestions@.len()),
                ..pre
            }),
        ),
        KeyCode::Up => Some(
            after == line && post == (Compose {
                suggestion_index: previous_place(pre.suggestion_index),
                ..pre
            }),
        ),
        KeyCode::Enter => Some(
            if pre.suggestion_index < pre.suggestions@.len() {
                ends_at(after, "/"@ + pre.suggestions@[pre.suggestion_index as int]@)
                    && without_hints(Compose { draft: after, ..pre }, post)
            } else {
                after == line && without_hints(pre, post)
            },
        ),
        KeyCode::Esc => Some(after == line && without_hints(pre, post)),
        _ => None,
    }
}

/// The draft is saved and the editor left alone.
pub open spec fn saved(pre: Compose, line: TextInput, post: Compose, after: TextInput) -> bool {
    after == line && post == (Compose { draft: drafted(line), ..pre })
}

/// A message of the history is shown.
pub open spec fn recalled(pre: Compose, post: Compose, after: TextInput, i: int) -> bool {
    ends_at(after, pre.history@[i]@) && post == (Compose {
        draft: after,
        history_index: Some(i as usize),
        ..pre
    })
}

/// A key while no commands are suggested.
pub open spec fn plain_step(
    pre: Compose,
    line: TextInput,
    post: Compose,
    after: TextInput,
    code: KeyCode,
    m: KeyModifiers,
    e: ComposeEvent,
) -> bool {
    if code == KeyCode::Char('d') && is_control(m) {
        saved(pre, line, post, after) && e == ComposeEvent::ToDashboard
    } else if code == KeyCode::Char('j') && is_control(m) {
        saved(pre, line, post, after) && e == ComposeEvent::NextTab
    } else if code == KeyCode::Char('k') && is_control(m) {
        saved(pre, line, post, after) && e == ComposeEvent::PreviousTab
    } else if code == KeyCode::Esc || code == KeyCode::Enter {
        after == line && post.suggestions@.len() == 0 && post == (Compose {
            draft: drafted(line),
            suggestions: post.suggestions,
            ..pre
        }) && e == (if code == KeyCode::Esc {
            ComposeEvent::Leave
        } else {
            ComposeEvent::Submit
        })
    } else if code == KeyCode::Char('v') && is_control(m) {
        after == line && post == pre && e == ComposeEvent::Paste
    } else if code == KeyCode::Up && m.is_empty() && pre.history@.len() > 0 {
        e == ComposeEvent::Nothing && recalled(
            pre,
            post,
            after,
            match pre.history_index {
                None => pre.history@.len() - 1,
                Some(i) => if i == 0 {
                    0
                } else {
                    i - 1
                },
            },
        )
    } else if code == KeyCode::Down && m.is_empty() && pre.history_index is Some {
        let i = pre.history_index->0;
        e == ComposeEvent::Nothing && if i + 1 < pre.history@.len() {
            recalled(pre, post, after, i + 1)
        } else {
            ends_at(after, Seq::empty()) && post == (Compose {
                draft: after,
                history_index: None,
                ..pre
            })
        }
    } else {
        e == ComposeEvent::Edited && after@ == after_edit(line@, code, m) && post == (Compose {
            draft: drafted(after),
            history_index: None,
            ..pre
        })
    }
}

/// A key of the editor.
pub open spec fn compose_step(
    pre: Compose,
    line: TextInput,
    post: Compose,
    after: TextInput,
    code: KeyCode,
    m: KeyModifiers,
    e: ComposeEvent,
) -> bool {
    if pre.suggestions@.len() > 0 {
        match hint_step(pre, line, post, after, code) {
            Some(b) => b && e == ComposeEvent::Nothing,
            None => exists|mid: Compose|
                #[trigger] without_hints(pre, mid) && plain_step(mid, line, post, after, code, m, e),
        }
    } else {
        plain_step(pre, line, post, after, code, m, e)
    }
}

impl Compose {
    fn close_hints(&mut self)
        ensures
            without_hints(*old(self), *final(self)),
    {
        self.suggestions = Vec::new();
        self.suggestion_index = 0;
    }

    /// Keep what stands in the editor as the draft.
    pub fn save_draft(&mut self, line: &TextInput)
        ensures
            *final(self) == (Compose { draft: drafted(*line), ..*old(self) }),
    {
        let end: usize = bytes_in(line.text.as_str());
        let cursor: usize = if line.cursor > end {
            end
        } else {
            line.cursor
        };
        self.draft = TextInput { text: line.text.clone(), cursor };
    }

    fn recall(&mut self, line: &mut TextInput, i: usize)
        requires
            i < old(self).history@.len(),
        ensures
            recalled(*old(self), *final(self), *final(line), i as int),
    {
        let text = self.history[i].clone();
        let cursor: usize = bytes_in(text.as_str());
        *line = TextInput { text: text.clone(), cursor };
        self.draft = TextInput { text, cursor };
        self.history_index = Some(i);
    }

    fn plain_key(&mut self, line: &mut TextInput, code: KeyCode, m: KeyModifiers) -> (e:
        ComposeEvent)
        requires
            old(self).wf(),
        ensures
            plain_step(*old(self), *old(line), *final(self), *final(line), code, m, e),
            final(self).wf(),
    {
        if m == KeyModifiers::control() {
            match code {
                KeyCode::Char('d') => {
                    self.save_draft(line);
                    return ComposeEvent::ToDashboard;
                },
                KeyCode::Char('j') => {
                    self.save_draft(line);
                    return ComposeEvent::NextTab;
                },
                KeyCode::Char('k') => {
                    self.save_draft(line);
                    return ComposeEvent::PreviousTab;
                },
                KeyCode::Char('v') => {
                    return ComposeEvent::Paste;
                },
                _ => {},
            }
        }
        match code {
            KeyCode::Esc => {
                self.save_draft(line);
                self.suggestions = Vec::new();
                ComposeEvent::Leave
            },
            KeyCode::Enter => {
                self.save_draft(line);
                self.suggestions = Vec::new();
                ComposeEvent::Submit
            },
            _ => {
                if code == KeyCode::Up && m.is_empty() && self.history.len() > 0 {
                    let i: usize = match self.history_index {
                        None => self.history.len() - 1,
                        Some(i) => if i == 0 {
                            0
                        } else {
                            i - 1
                        },
                    };
                    self.recall(line, i);
                    return ComposeEvent::Nothing;
                }
                if code == KeyCode::Down && m.is_empty() {
                    if let Some(i) = self.history_index {
                        let count: usize = self.history.len();
                        if i + 1 < count {
                            self.recall(line, i + 1);
                        } else {
                            *line = TextInput { text: String::new(), cursor: 0 };
                            self.draft = TextInput { text: line.text.clone(), cursor: 0 };
                            self.history_index = None;
                        }
                        return ComposeEvent::Nothing;
                    }
                }
                line.apply_text_edit(code, m);
                self.save_draft(line);
                self.history_index = None;
                ComposeEvent::Edited
            },
        }
    }

    /// Handle a key of the editor.
    pub fn handle_key(&mut self, line: &mut TextInput, code: KeyCode, m: KeyModifiers) -> (e:
        ComposeEvent)
        requires
            old(self).wf(),
        ensures
            compose_step(*old(self), *old(line), *final(self), *final(line), code, m, e),
            final(self).wf(),
    {
        if self.suggestions.len() > 0 {
            match code {
                KeyCode::Tab | KeyCode::Down => {
                    self.suggestion_index = step_down(
                        self.suggestion_index,
                        self.suggestions.len(),
                    );
                    return ComposeEvent::Nothing;
                },
                KeyCode::Up => {
                    self.suggestion_index = step_up(self.suggestion_index);
                    return ComposeEvent::Nothing;
                },
                KeyCode::Enter => {
                    if self.suggestion_index < self.suggestions.len() {
                        let text = "/".to_owned().concat(
                            self.suggestions[self.suggestion_index].as_str(),
                        );
                        let cursor: usize = bytes_in(text.as_str());
                        *line = TextInput { text: text.clone(), cursor };
                        self.draft = TextInput { text, cursor };
                    }
                    self.close_hints();
                    return ComposeEvent::Nothing;
                },
                KeyCode::Esc => {
                    self.close_hints();
                    return ComposeEvent::Nothing;
                },
                _ => {
                    self.close_hints();
                },
            }
            let ghost mid = *self;
            let e = self.plain_key(line, code, m);
            proof {
                assert(without_hints(*old(self), mid));
            }
            return e;
        }
        self.plain_key(line, code, m)
    }

    /// Make the suggestions for the text in the editor.
    pub fn suggest(&mut self, skills: &Vec<InstalledSkill>, text: &str)
        ensures
            views(final(self).suggestions@) == suggested(skill_names(skills@), text@),
            *final(self) == (Compose {
                suggestions: final(self).suggestions,
                suggestion_index: hint_place(
                    old(self).suggestion_index,
                    final(self).suggestions@.len(),
                ),
                ..*old(self)
            }),
    {
        let list = suggestions_for(skills, text);
        let n: usize = list.len();
        self.suggestion_index = if n == 0 {
            0
        } else if self.suggestion_index < n {
            self.suggestion_index
        } else {
            n - 1
        };
        self.suggestions = list;
    }
}

/// At most ten commands are suggested.
pub proof fn law_few_suggestions(names: Seq<Seq<char>>, text: Seq<char>)
    ensures
        suggested(names, text).len() <= 10,
{
}

/// A text that is no command, or is complete, gets no suggestions.
pub proof fn law_only_commands_get_suggestions(names: Seq<Seq<char>>, text: Seq<char>)
    requires
        suggested(names, text).len() > 0,
    ensures
        text.len() > 0 && text[0] == '/' && !text.contains(' '),
{
}

/// The two arrow keys move through the sent messages and back: a step up from a
/// message and one down show the message again.
pub proof fn law_history_steps_back(
    a: Compose,
    line: TextInput,
    b: Compose,
    up: TextInput,
    c: Compose,
    down: TextInput,
    m: KeyModifiers,
    e1: ComposeEvent,
    e2: ComposeEvent,
)
    requires
        a.wf(),
        m.is_empty(),
        a.suggestions@.len() == 0,
        a.history_index matches Some(i) && i > 0 && line.text@ == a.history@[i as int]@,
        compose_step(a, line, b, up, KeyCode::Up, m, e1),
        compose_step(b, up, c, down, KeyCode::Down, m, e2),
    ensures
        down.text@ == line.text@,
        c.history_index == a.history_index,
{
}

/// A command is suggested where its lowercased name holds what was typed behind the slash:
/// every skill, as long as ten are enough, and each of the five workflow commands behind
/// them.
pub proof fn law_matching_commands_are_suggested(names: Seq<Seq<char>>, text: Seq<char>, k: int)
    requires
        text.len() > 0,
        text[0] == '/',
        !text.contains(' '),
        0 <= k < names.len() <= 5,
    ensures
        text.len() == 1 ==> suggested(names, text).contains(names[k]),
        contains_text(lowercase(names[k]), lowercase(text.skip(1))) ==> suggested(
            names,
            text,
        ).contains(names[k]),
{
    let query = text.skip(1);
    let p = |n: Seq<char>| name_matches(n, query);
    if name_matches(names[k], query) {
        let found = matching_names(names, query);
        lemma_kept_name(names, p, k);
        names.lemma_filter_len(p);
        let m = choose|m: int| 0 <= m < found.len() && found[m] == names[k];
        assert(up_to(found, 10) =~= found);
        lemma_commands_behind(found, query, 5, "plan"@);
        let all = with_commands(found, query, 5);
        assert(all[m] == names[k]);
        assert(all.len() <= 10);
        assert(up_to(all, 10) =~= all);
    }
}

proof fn lemma_kept_name(names: Seq<Seq<char>>, p: spec_fn(Seq<char>) -> bool, k: int)
    requires
        0 <= k < names.len(),
        p(names[k]),
    ensures
        names.filter(p).contains(names[k]),
    decreases names.len(),
{
    reveal(Seq::filter);
    let rest = names.drop_last();
    if k < names.len() - 1 {
        lemma_kept_name(rest, p, k);
        let m = choose|m: int| 0 <= m < rest.filter(p).len() && rest.filter(p)[m] == rest[k];
        assert(names.filter(p)[m] == names[k]);
    } else {
        assert(names.filter(p)[names.filter(p).len() - 1] == names[k]);
    }
}

proof fn lemma_commands_behind(list: Seq<Seq<char>>, query: Seq<char>, n: nat, c: Seq<char>)
    requires
        n <= 5,
    ensures
        with_commands(list, query, n).len() <= list.len() + n,
        with_commands(list, query, n).len() >= list.len(),
        with_commands(list, query, n).take(list.len() as int) =~= list,
        workflow_commands().take(n as int).contains(c) && command_matches(c, query)
            ==> with_commands(list, query, n).contains(c),
    decreases n,
{
    if n > 0 {
        let m = (n - 1) as nat;
        lemma_commands_behind(list, query, m, c);
        let rest = with_commands(list, query, m);
        let all = with_commands(list, query, n);
        let next = workflow_commands()[n - 1];
        if workflow_commands().take(n as int).contains(c) && command_matches(c, query) {
            if c == next {
                if !rest.contains(c) {
                    assert(all[all.len() - 1] == c);
                }
            } else {
                let k = choose|k: int|
                    0 <= k < n && workflow_commands().take(n as int)[k] == c;
                assert(workflow_commands().take(m as int)[k] == c);
                let j = choose|j: int| 0 <= j < rest.len() && rest[j] == c;
                assert(all[j] == c);
            }
        }
    }
}

/// The commands of the workflow are suggested with at most five skills: `plan`, `tdd`,
/// `verify`, `review` and `learn`, each where it holds what was typed.
pub proof fn law_workflow_commands_are_suggested(
    names: Seq<Seq<char>>,
    text: Seq<char>,
    command: Seq<char>,
)
    requires
        text.len() > 0,
        text[0] == '/',
        !text.contains(' '),
        names.len() <= 5,
        command == "plan"@ || command == "tdd"@ || command == "verify"@ || command == "review"@
            || command == "learn"@,
    ensures
        text.len() == 1 || contains_text(command, lowercase(text.skip(1))) ==> suggested(
            names,
            text,
        ).contains(command),
{
    let query = text.skip(1);
    let p = |n: Seq<char>| name_matches(n, query);
    let found = matching_names(names, query);
    names.lemma_filter_len(p);
    assert(up_to(found, 10) =~= found);
    let all5 = workflow_commands().take(5);
    assert(all5[0] == "plan"@ && all5[1] == "tdd"@ && all5[2] == "verify"@ && all5[3] == "review"@
        && all5[4] == "learn"@);
    assert(all5.contains(command));
    lemma_commands_behind(found, query, 5, command);
    let all = with_commands(found, query, 5);
    assert(up_to(all, 10) =~= all);
}

/// What the keys of the message line mean: enter sends, escape leaves, and with control `d`
/// goes to the dashboard, `j` and `k` to the tabs beside, `v` pastes.
pub proof fn law_compose_keys(
    pre: Compose,
    line: TextInput,
    post: Compose,
    after: TextInput,
    code: KeyCode,
    m: KeyModifiers,
    e: ComposeEvent,
)
    requires
        pre.suggestions@.len() == 0,
        compose_step(pre, line, post, after, code, m, e),
    ensures
        code == KeyCode::Enter ==> e == ComposeEvent::Submit && after == line && post.draft.text
            == line.text,
        code == KeyCode::Esc ==> e == ComposeEvent::Leave && post.draft.text == line.text,
        code == KeyCode::Char('d') && m == KeyModifiers::control() ==> e
            == ComposeEvent::ToDashboard && post.draft.text == line.text,
        code == KeyCode::Char('j') && m == KeyModifiers::control() ==> e == ComposeEvent::NextTab
            && post.draft.text == line.text,
        code == KeyCode::Char('k') && m == KeyModifiers::control() ==> e
            == ComposeEvent::PreviousTab && post.draft.text == line.text,
        code == KeyCode::Char('v') && m == KeyModifiers::control() ==> e == ComposeEvent::Paste
            && after == line,
        code is Char && m.is_empty() ==> e == ComposeEvent::Edited && post.draft.text
            == after.text && post.history_index is None,
        code == KeyCode::Backspace ==> e == ComposeEvent::Edited,
{
}

/// Up shows the last message that was sent, from there the one before it, and stays at the
/// first; down goes the other way and ends at an empty line.
pub proof fn law_the_history_is_walked(
    pre: Compose,
    line: TextInput,
    post: Compose,
    after: TextInput,
    m: KeyModifiers,
    up: bool,
    e: ComposeEvent,
)
    requires
        pre.wf(),
        m.is_empty(),
        pre.suggestions@.len() == 0,
        pre.history@.len() > 0,
        compose_step(
            pre,
            line,
            post,
            after,
            if up {
                KeyCode::Up
            } else {
                KeyCode::Down
            },
            m,
            e,
        ),
    ensures
        up && pre.history_index is None ==> after.text@ == pre.history@.last()@,
        up ==> (pre.history_index matches Some(i) ==> (i > 0 ==> after.text@
            == pre.history@[i - 1]@)),
        up && pre.history_index == Some(0usize) ==> after.text@ == pre.history@[0]@,
        !up ==> (pre.history_index matches Some(i) ==> (i + 1 < pre.history@.len() ==> after.text@
            == pre.history@[i + 1]@)),
        !up ==> (pre.history_index matches Some(i) ==> (i + 1 == pre.history@.len()
            ==> after.text@.len() == 0 && post.history_index is None)),
        post.history == pre.history,
{
}

/// While commands are suggested, tab and down choose the next one, up the one before, enter
/// takes the chosen one with its slash, and escape drops them.
pub proof fn law_suggestions_are_taken(
    pre: Compose,
    line: TextInput,
    post: Compose,
    after: TextInput,
    code: KeyCode,
    m: KeyModifiers,
    e: ComposeEvent,
)
    requires
        pre.suggestions@.len() > 0,
        pre.suggestion_index < pre.suggestions@.len(),
        compose_step(pre, line, post, after, code, m, e),
    ensures
        code == KeyCode::Enter ==> after.text@ == "/"@
            + pre.suggestions@[pre.suggestion_index as int]@ && post.suggestions@.len() == 0,
        (code == KeyCode::Tab || code == KeyCode::Down) && pre.suggestion_index + 1
            < pre.suggestions@.len() ==> post.suggestion_index == pre.suggestion_index + 1,
        code == KeyCode::Up && pre.suggestion_index > 0 ==> post.suggestion_index + 1
            == pre.suggestion_index,
        code == KeyCode::Esc ==> post.suggestions@.len() == 0 && after == line,
        code == KeyCode::Enter || code == KeyCode::Tab || code == KeyCode::Down || code
            == KeyCode::Up || code == KeyCode::Esc ==> e == ComposeEvent::Nothing,
{
    assert(pre.suggestions.len() == pre.suggestions@.len());
}

/// The mark among the suggestions stays where it can, and goes to the last one otherwise.
pub proof fn law_the_suggestion_mark_stays(i: usize, n: nat)
    requires
        n <= usize::MAX,
    ensures
        i < n ==> hint_place(i, n) == i,
        n > 0 && i >= n ==> hint_place(i, n) == n - 1,
        hint_place(i, 0) == 0,
{
}

/// A message that is recalled, or a command that is taken, leaves the cursor at its end.
pub proof fn law_recalled_texts_end_at_the_cursor(
    pre: Compose,
    line: TextInput,
    post: Compose,
    after: TextInput,
    code: KeyCode,
    m: KeyModifiers,
    e: ComposeEvent,
)
    requires
        compose_step(pre, line, post, after, code, m, e),
        pre.wf(),
        m.is_empty(),
    ensures
        pre.suggestions@.len() == 0 && pre.history@.len() > 0 && code == KeyCode::Up
            ==> after.cursor == byte_len(after.text@) && post.draft == after,
        pre.suggestions@.len() > 0 && pre.suggestion_index < pre.suggestions@.len() && code
            == KeyCode::Enter ==> after.cursor == byte_len(after.text@) && post.draft == after
            && post.suggestion_index == 0,
        post.queued == pre.queued && post.thread_id == pre.thread_id && post.quick_replies
            == pre.quick_replies,
{
}

} // verus!
