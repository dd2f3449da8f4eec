//! The form that adds a project, with completion of its path.
//!
//! Its fields are the name, the path and whether the project is linked to git.
//! Reading a directory is left to the caller: the form says when it wants the names
//! in a directory and is handed them.

use vstd::prelude::*;
use vstd::string::*;

use crate::board_state::{next_place, previous_place, step_down, step_up};
use crate::keys::{KeyCode, KeyModifiers};
use crate::ranking::{
    is_ranking, lemma_text_less_irreflexive, lemma_text_less_total, lemma_text_less_transitive,
    rank, text_is_less, text_less, Ranking,
};
use crate::settings::text_option;
use crate::text::{
    begins_with, byte_len, bytes_in, chars_of, contains, contains_text, lowercase, same,
    starts_with, text_between, to_lowercase,
};
use crate::text_input::{after_edit, at_end, emptied, TextInput};
use crate::titles::last_index;

verus! {

pub struct ProjectForm {
    pub field: u8,
    pub name: String,
    pub path: String,
    pub git_linked: bool,
    pub suggestions: Vec<String>,
    pub suggestion_index: usize,
    pub show_suggestions: bool,
}

/// What the form asks of its surroundings after a key.
#[derive(Clone, Copy, Debug, PartialEq, Eq, Structural)]
pub enum ProjectFormEvent {
    Nothing,
    /// Create the project, if the form holds one.
    Submit,
    /// Look up suggestions for the typed path.
    Suggest,
    /// The form was left.
    Close,
}

/// The form without suggestions.
pub open spec fn without_suggestions(pre: ProjectForm, post: ProjectForm) -> bool {
    post.suggestions@.len() == 0 && post == (ProjectForm {
        suggestions: post.suggestions,
        suggestion_index: 0,
        show_suggestions: false,
        ..pre
    })
}

/// The form as it is left: empty, at its first field.
pub open spec fn is_blank_form(f: ProjectForm) -> bool {
    f.field == 0 && f.name@.len() == 0 && f.path@.len() == 0 && f.git_linked
        && f.suggestions@.len() == 0 && f.suggestion_index == 0 && !f.show_suggestions
}

/// The form as it opens: at its first field, for the current directory.
pub open spec fn is_opened_form(f: ProjectForm) -> bool {
    f.field == 0 && f.name@.len() == 0 && f.path@ == "."@ && f.git_linked && f.suggestions@.len()
        == 0 && f.suggestion_index == 0 && !f.show_suggestions
}

/// The form after the input line is kept in the field that it belongs to.
pub open spec fn with_typed(f: ProjectForm, text: String) -> ProjectForm {
    if f.field == 0 {
        ProjectForm { name: text, ..f }
    } else if f.field == 1 {
        ProjectForm { path: text, ..f }
    } else {
        f
    }
}

/// The text that the input line starts with at a field.
pub open spec fn project_field_start(f: ProjectForm) -> Seq<char> {
    if f.field == 0 {
        f.name@
    } else if f.field == 1 {
        f.path@
    } else {
        seq![]
    }
}

pub open spec fn turned(field: u8, forward: bool) -> u8 {
    if forward {
        (field + 1) as u8 % 3
    } else {
        (field + 2) as u8 % 3
    }
}

// ---------------------------------------------------------------------------
// Paths
// ---------------------------------------------------------------------------

/// The path with a leading tilde replaced by the home directory; `None` where there
/// is a tilde and no home directory is known.
pub open spec fn expanded(raw: Seq<char>, home: Option<Seq<char>>) -> Option<Seq<char>> {
    if raw.len() > 0 && raw[0] == '~' {
        match home {
            Some(h) => Some(h + raw.drop_first()),
            None => None,
        }
    } else {
        Some(raw)
    }
}

/// Expand a leading tilde to the home directory.
pub fn expand_tilde(raw: &str, home: &Option<String>) -> (r: Option<String>)
    ensures
        text_option(r) == expanded(raw@, text_option(*home)),
{
    let v = chars_of(raw);
    if v.len() > 0 && v[0] == '~' {
        match home {
            Some(h) => {
                let rest = text_between(&v, 1, v.len());
                assert(rest@ =~= raw@.drop_first());
                Some(h.clone().concat(rest.as_str()))
            },
            None => None,
        }
    } else {
        Some(raw.to_owned())
    }
}

/// A path split behind its last slash: the directory, and the beginning of a name in
/// it; `None` for a path without a slash.
pub open spec fn split_path(path: Seq<char>) -> Option<(Seq<char>, Seq<char>)> {
    match last_index(path, '/') {
        Some(i) => Some((path.take(i + 1), path.skip(i + 1))),
        None => None,
    }
}

fn split_at_slash(path: &str) -> (r: Option<(String, String)>)
    ensures
        r is Some <==> split_path(path@) is Some,
        r matches Some(p) ==> (p.0@, p.1@) == split_path(path@)->0,
{
    let v = chars_of(path);
    let mut i: usize = v.len();
    assert(v@.take(i as int) =~= v@);
    while i > 0 && v[i - 1] != '/'
        invariant
            i <= v@.len(),
            last_index(v@, '/') == last_index(v@.take(i as int), '/'),
        decreases i,
    {
        assert(v@.take(i as int).drop_last() =~= v@.take(i as int - 1));
        assert(v@.take(i as int).last() == v@[i - 1]);
        i -= 1;
    }
    if i > 0 {
        assert(v@.take(i as int).last() == '/');
        let base = text_between(&v, 0, i);
        let partial = text_between(&v, i, v.len());
        assert(base@ =~= v@.take(i as int));
        assert(partial@ =~= v@.skip(i as int));
        Some((base, partial))
    } else {
        None
    }
}

/// The directory whose names complete a typed path, and the beginning of the name;
/// `None` where there is nothing to complete.
pub open spec fn completion_of(typed: Seq<char>, home: Option<Seq<char>>) -> Option<
    (Seq<char>, Seq<char>),
> {
    match expanded(typed, home) {
        Some(path) => split_path(path),
        None => None,
    }
}

/// The directory to read for suggestions, and the beginning of the names to keep.
pub fn path_query(typed: &str, home: &Option<String>) -> (r: Option<(String, String)>)
    ensures
        r is Some <==> completion_of(typed@, text_option(*home)) is Some,
        r matches Some(p) ==> (p.0@, p.1@) == completion_of(typed@, text_option(*home))->0,
{
    match expand_tilde(typed, home) {
        Some(path) => split_at_slash(path.as_str()),
        None => None,
    }
}

/// A name that is suggested: not a hidden one, and beginning with what was typed,
/// whatever its case.
pub open spec fn is_suggested(name: Seq<char>, partial: Seq<char>) -> bool {
    !(name.len() > 0 && name[0] == '.') && (partial.len() == 0 || begins_with(
        lowercase(name),
        lowercase(partial),
    ))
}

struct NameOrder<'a> {
    names: &'a Vec<String>,
    partial: &'a str,
}

impl<'a> Ranking for NameOrder<'a> {
    closed spec fn size(&self) -> nat {
        self.names@.len()
    }

    closed spec fn keeps(&self, i: int) -> bool {
        is_suggested(self.names@[i]@, self.partial@)
    }

    closed spec fn ahead(&self, a: int, b: int) -> bool {
        text_less(self.names@[a]@, self.names@[b]@)
    }

    proof fn ahead_is_weak_order(&self) {
        let s = self.names@;
        assert forall|a: int, b: int, c: int| true implies {
            &&& !text_less(#[trigger] s[a]@, s[a]@)
            &&& text_less(s[a]@, #[trigger] s[b]@) && text_less(s[b]@, #[trigger] s[c]@)
                ==> text_less(s[a]@, s[c]@)
            &&& !text_less(s[a]@, s[b]@) && !text_less(s[b]@, s[c]@) ==> !text_less(s[a]@, s[c]@)
        } by {
            lemma_text_less_irreflexive(s[a]@);
            lemma_text_less_transitive(s[a]@, s[b]@, s[c]@);
            lemma_text_less_total(s[a]@, s[b]@);
            lemma_text_less_total(s[b]@, s[c]@);
            lemma_text_less_transitive(s[b]@, s[a]@, s[c]@);
            lemma_text_less_transitive(s[a]@, s[c]@, s[b]@);
        }
    }

    fn count(&self) -> (r: usize) {
        self.names.len()
    }

    fn keep(&self, i: usize) -> (r: bool) {
        let name = self.names[i].as_str();
        let v = chars_of(name);
        if v.len() > 0 && v[0] == '.' {
            return false;
        }
        self.partial.is_empty() || starts_with(
            to_lowercase(name).as_str(),
            to_lowercase(self.partial).as_str(),
        )
    }

    fn leads(&self, a: usize, b: usize) -> (r: bool) {
        text_is_less(self.names[a].as_str(), self.names[b].as_str())
    }
}

/// `order` lists the places of the suggested names, in alphabetical order.
pub open spec fn orders_suggestions(
    order: Seq<usize>,
    names: Seq<String>,
    partial: Seq<char>,
) -> bool {
    is_ranking(
        order,
        names.len(),
        |i: int| is_suggested(names[i]@, partial),
        |a: int, b: int| text_less(names[a]@, names[b]@),
    )
}

/// `s` holds the suggested ones among the names, in alphabetical order.
pub open spec fn lists_suggestions(
    s: Seq<String>,
    names: Seq<String>,
    partial: Seq<char>,
) -> bool {
    exists|order: Seq<usize>|
        {
            &&& #[trigger] orders_suggestions(order, names, partial)
            &&& s.len() == order.len()
            &&& forall|k: int| 0 <= k < s.len() ==> #[trigger] s[k] == names[order[k] as int]
        }
}

/// The names of a directory that complete what was typed, in alphabetical order.
pub fn suggestions_among(names: &Vec<String>, partial: &str) -> (r: Vec<String>)
    ensures
        lists_suggestions(r@, names@, partial@),
{
    let by = NameOrder { names, partial };
    let order = rank(&by);
    let mut r: Vec<String> = Vec::new();
    let mut i: usize = 0;
    while i < order.len()
        invariant
            i <= order@.len(),
            r@.len() == i,
            forall|k: int| 0 <= k < order@.len() ==> (#[trigger] order@[k]) < names@.len(),
            forall|k: int| 0 <= k < i ==> #[trigger] r@[k] == names@[order@[k] as int],
        decreases order@.len() - i,
    {
        r.push(names[order[i]].clone());
        i += 1;
    }
    proof {
        let keeps = |i: int| is_suggested(names@[i]@, partial@);
        let ahead = |a: int, b: int| text_less(names@[a]@, names@[b]@);
        assert forall|k: int| 0 <= k < names@.len() && keeps(k) implies #[trigger] order@.contains(
            k as usize,
        ) by {
            assert(by.keeps(k));
        }
        assert forall|k: int| 0 <= k < order@.len() implies (#[trigger] order@[k]) < names@.len()
            && keeps(order@[k] as int) by {
            assert(by.keeps(order@[k] as int));
        }
        assert forall|x: int, y: int| 0 <= x < y < order@.len() implies crate::ranking::precedes(
            ahead,
            #[trigger] order@[x] as int,
            #[trigger] order@[y] as int,
        ) by {
            assert(crate::ranking::precedes(
                |a: int, b: int| by.ahead(a, b),
                order@[x] as int,
                order@[y] as int,
            ));
        }
        assert(orders_suggestions(order@, names@, partial@));
    }
    r
}

/// The path after a suggestion was taken: the typed directory, the suggestion and a
/// slash. A path that was typed with a tilde keeps it.
pub open spec fn completed_path(
    typed: Seq<char>,
    home: Option<Seq<char>>,
    suggestion: Seq<char>,
) -> Option<Seq<char>> {
    match completion_of(typed, home) {
        Some(c) => {
            let base = c.0;
            if typed.len() > 0 && typed[0] == '~' && home is Some && begins_with(base, home->0) {
                Some("~"@ + base.skip(home->0.len() as int) + suggestion + "/"@)
            } else {
                Some(base + suggestion + "/"@)
            }
        },
        None => None,
    }
}

fn complete_path(typed: &str, home: &Option<String>, suggestion: &str) -> (r: Option<String>)
    ensures
        text_option(r) == completed_path(typed@, text_option(*home), suggestion@),
{
    match path_query(typed, home) {
        Some((base, _partial)) => {
            let v = chars_of(typed);
            if v.len() > 0 && v[0] == '~' {
                if let Some(h) = home {
                    if starts_with(base.as_str(), h.as_str()) {
                        let b = chars_of(base.as_str());
                        let n: usize = chars_of(h.as_str()).len();
                        let rest = text_between(&b, n, b.len());
                        assert(rest@ =~= base@.skip(n as int));
                        let mut r = "~".to_owned();
                        r.append(rest.as_str());
                        r.append(suggestion);
                        r.append("/");
                        return Some(r);
                    }
                }
            }
            let mut r = base;
            r.append(suggestion);
            r.append("/");
            Some(r)
        },
        None => None,
    }
}

// ---------------------------------------------------------------------------
// Keys
// ---------------------------------------------------------------------------

/// The suggestions have to be looked up after the typed path has changed from `line`
/// to `after` by a key.
pub open spec fn wants_suggestions(
    shown: bool,
    line: TextInput,
    after: TextInput,
    code: KeyCode,
) -> bool {
    if byte_len(after.text@) < byte_len(line.text@) {
        shown && (contains_text(after.text@, "/"@) || after.text@ == "~"@)
    } else {
        code is Char && byte_len(after.text@) > byte_len(line.text@) && (shown || (
        after@.before.len() > 0 && (after@.before.last() == '/' || (after@.before.last() == '~'
            && after.text@ == "~"@))))
    }
}

/// The suggestions are taken away: a deletion has left nothing to complete.
pub open spec fn drops_suggestions(shown: bool, line: TextInput, after: TextInput) -> bool {
    byte_len(after.text@) < byte_len(line.text@) && shown && !(contains_text(after.text@, "/"@)
        || after.text@ == "~"@)
}

/// What a key does in the form.
pub open spec fn project_step(
    pre: ProjectForm,
    line: TextInput,
    post: ProjectForm,
    post_line: TextInput,
    home: Option<Seq<char>>,
    code: KeyCode,
    m: KeyModifiers,
    r: ProjectFormEvent,
) -> bool {
    let turning = code == KeyCode::Tab || code == KeyCode::BackTab;
    if pre.field == 1 && pre.show_suggestions && code == KeyCode::Tab {
        let taken = if pre.suggestion_index < pre.suggestions@.len() {
            completed_path(line.text@, home, pre.suggestions@[pre.suggestion_index as int]@)
        } else {
            None
        };
        post == pre && match taken {
            Some(path) => r == ProjectFormEvent::Suggest && at_end(post_line, path),
            None => r == ProjectFormEvent::Nothing && post_line == line,
        }
    } else if pre.field == 1 && pre.show_suggestions && code == KeyCode::Down {
        r == ProjectFormEvent::Nothing && post_line == line && post == (ProjectForm {
            suggestion_index: next_place(pre.suggestion_index, pre.suggestions@.len()),
            ..pre
        })
    } else if pre.field == 1 && pre.show_suggestions && code == KeyCode::Up {
        r == ProjectFormEvent::Nothing && post_line == line && post == (ProjectForm {
            suggestion_index: previous_place(pre.suggestion_index),
            ..pre
        })
    } else if pre.field == 1 && pre.show_suggestions && code == KeyCode::Esc {
        r == ProjectFormEvent::Nothing && post_line == line && without_suggestions(pre, post)
    } else if code == KeyCode::Esc {
        r == ProjectFormEvent::Close && is_blank_form(post) && post_line@ == emptied(line@)
    } else if code == KeyCode::Enter {
        r == ProjectFormEvent::Submit && post_line == line && if pre.field == 1 {
            without_suggestions(with_typed(pre, line.text), post)
        } else {
            post == with_typed(pre, line.text)
        }
    } else if turning {
        r == ProjectFormEvent::Nothing && at_end(post_line, project_field_start(post)) && {
            let kept = ProjectForm {
                field: turned(pre.field, code == KeyCode::Tab),
                ..with_typed(pre, line.text)
            };
            if pre.field == 1 {
                without_suggestions(kept, post)
            } else {
                post == kept
            }
        }
    } else if pre.field == 2 {
        r == ProjectFormEvent::Nothing && post_line == line && post == if code == KeyCode::Char(
            ' ',
        ) {
            ProjectForm { git_linked: !pre.git_linked, ..pre }
        } else {
            pre
        }
    } else if pre.field == 1 {
        &&& post_line@ == after_edit(line@, code, m)
        &&& if wants_suggestions(pre.show_suggestions, line, post_line, code) {
            r == ProjectFormEvent::Suggest && post == pre
        } else if drops_suggestions(pre.show_suggestions, line, post_line) {
            r == ProjectFormEvent::Nothing && without_suggestions(pre, post)
        } else {
            r == ProjectFormEvent::Nothing && post == pre
        }
    } else {
        r == ProjectFormEvent::Nothing && post == pre && post_line@ == after_edit(line@, code, m)
    }
}

impl ProjectForm {
    pub fn clear_path_autocomplete(&mut self)
        ensures
            without_suggestions(*old(self), *final(self)),
    {
        self.suggestions = Vec::new();
        self.suggestion_index = 0;
        self.show_suggestions = false;
    }

    /// Empty the form.
    pub fn clear(&mut self)
        ensures
            is_blank_form(*final(self)),
    {
        self.field = 0;
        self.name = String::new();
        self.path = String::new();
        self.git_linked = true;
        self.clear_path_autocomplete();
    }

    /// Open the form.
    pub fn open(&mut self)
        ensures
            is_opened_form(*final(self)),
    {
        self.clear();
        self.path = ".".to_owned();
    }

    pub fn save_current_project_field(&mut self, text: &String)
        ensures
            *final(self) == with_typed(*old(self), *text),
    {
        if self.field == 0 {
            self.name = text.clone();
        } else if self.field == 1 {
            self.path = text.clone();
        }
    }

    pub fn load_current_project_field(&self) -> (r: TextInput)
        ensures
            at_end(r, project_field_start(*self)),
    {
        if self.field == 0 {
            TextInput::holding(self.name.clone())
        } else if self.field == 1 {
            TextInput::holding(self.path.clone())
        } else {
            TextInput::new()
        }
    }

    /// Show the names of the directory that complete what was typed. `None` stands
    /// for a path with nothing to complete, or a directory that cannot be read.
    pub fn show_path_suggestions(&mut self, names: &Option<Vec<String>>, partial: &str)
        ensures
            *names is None ==> final(self).suggestions@.len() == 0 && *final(self)
                == (ProjectForm {
                suggestions: final(self).suggestions,
                show_suggestions: false,
                ..*old(self)
            }),
            *names matches Some(all) ==> lists_suggestions(
                final(self).suggestions@,
                all@,
                partial@,
            ) && *final(self) == (ProjectForm {
                suggestions: final(self).suggestions,
                suggestion_index: 0,
                show_suggestions: final(self).suggestions@.len() > 0,
                ..*old(self)
            }),
    {
        match names {
            Some(all) => {
                self.suggestions = suggestions_among(all, partial);
                self.suggestion_index = 0;
                self.show_suggestions = self.suggestions.len() > 0;
            },
            None => {
                self.show_suggestions = false;
                self.suggestions = Vec::new();
            },
        }
    }

    fn turn(&mut self, input: &mut TextInput, forward: bool)
        requires
            old(self).field < 3,
        ensures
            at_end(*final(input), project_field_start(*final(self))),
            *final(self) == (ProjectForm {
                field: turned(old(self).field, forward),
                ..with_typed(*old(self), old(input).text)
            }),
    {
        self.save_current_project_field(&input.text);
        self.field = if forward {
            (self.field + 1) % 3
        } else {
            (self.field + 2) % 3
        };
        *input = self.load_current_project_field();
    }

    /// Handle a key of the form.
    #[verifier::rlimit(40)]
    pub fn handle_new_project_key(
        &mut self,
        input: &mut TextInput,
        home: &Option<String>,
        code: KeyCode,
        modifiers: KeyModifiers,
    ) -> (r: ProjectFormEvent)
        requires
            old(self).field < 3,
        ensures
            final(self).field < 3,
            project_step(
                *old(self),
                *old(input),
                *final(self),
                *final(input),
                text_option(*home),
                code,
                modifiers,
                r,
            ),
    {
        let completing = self.field == 1 && self.show_suggestions;
        if completing && code == KeyCode::Tab {
            if self.suggestion_index < self.suggestions.len() {
                let suggestion = self.suggestions[self.suggestion_index].as_str();
                if let Some(path) = complete_path(input.text.as_str(), home, suggestion) {
                    *input = TextInput::holding(path);
                    return ProjectFormEvent::Suggest;
                }
            }
            return ProjectFormEvent::Nothing;
        }
        if completing && code == KeyCode::Down {
            self.suggestion_index = step_down(self.suggestion_index, self.suggestions.len());
            return ProjectFormEvent::Nothing;
        }
        if completing && code == KeyCode::Up {
            self.suggestion_index = step_up(self.suggestion_index);
            return ProjectFormEvent::Nothing;
        }
        if completing && code == KeyCode::Esc {
            self.clear_path_autocomplete();
            return ProjectFormEvent::Nothing;
        }
        if code == KeyCode::Esc {
            self.clear();
            input.clear_text();
            return ProjectFormEvent::Close;
        }
        if code == KeyCode::Enter {
            let at_path = self.field == 1;
            self.save_current_project_field(&input.text);
            if at_path {
                self.clear_path_autocomplete();
            }
            return ProjectFormEvent::Submit;
        }
        if code == KeyCode::Tab || code == KeyCode::BackTab {
            let at_path = self.field == 1;
            self.turn(input, code == KeyCode::Tab);
            if at_path {
                self.clear_path_autocomplete();
            }
            return ProjectFormEvent::Nothing;
        }
        if self.field == 2 {
            if code == KeyCode::Char(' ') {
                self.git_linked = !self.git_linked;
            }
            return ProjectFormEvent::Nothing;
        }
        if self.field == 1 {
            let old_len: usize = bytes_in(input.text.as_str());
            let is_char = matches!(code, KeyCode::Char(_));
            input.apply_text_edit(code, modifiers);
            let new_len: usize = bytes_in(input.text.as_str());
            if new_len < old_len {
                if self.show_suggestions {
                    if contains(input.text.as_str(), "/") || same(input.text.as_str(), "~") {
                        return ProjectFormEvent::Suggest;
                    }
                    self.clear_path_autocomplete();
                }
            } else if is_char && new_len > old_len {
                let last = input.char_before_cursor();
                if self.show_suggestions || last == Some('/') || (last == Some('~') && same(
                    input.text.as_str(),
                    "~",
                )) {
                    return ProjectFormEvent::Suggest;
                }
            }
            return ProjectFormEvent::Nothing;
        }
        input.apply_text_edit(code, modifiers);
        ProjectFormEvent::Nothing
    }

    /// The project that the form describes: its name, the path with the tilde expanded
    /// where that is possible, and whether it is linked to git. None where the name or
    /// the path is empty.
    pub fn submission(&self, home: &Option<String>) -> (r: Option<(String, String, bool)>)
        ensures
            r is Some <==> self.name@.len() > 0 && self.path@.len() > 0,
            r matches Some(p) ==> p.0 == self.name && p.1@ == match expanded(
                self.path@,
                text_option(*home),
            ) {
                Some(path) => path,
                None => self.path@,
            } && p.2 == self.git_linked,
    {
        if self.name.as_str().is_empty() || self.path.as_str().is_empty() {
            return None;
        }
        let path = match expand_tilde(self.path.as_str(), home) {
            Some(p) => p,
            None => self.path.clone(),
        };
        Some((self.name.clone(), path, self.git_linked))
    }
}

/// A step to the next field and one back return to the same field.
pub proof fn law_project_fields_cycle(field: u8)
    requires
        field < 3,
    ensures
        turned(field, true) < 3,
        turned(turned(field, true), false) == field,
        turned(turned(field, false), true) == field,
{
}

/// What is suggested for a path begins with what was typed and is never hidden.
pub proof fn law_suggestions_complete_the_name(
    s: Seq<String>,
    names: Seq<String>,
    partial: Seq<char>,
    k: int,
)
    requires
        lists_suggestions(s, names, partial),
        0 <= k < s.len(),
    ensures
        is_suggested(s[k]@, partial),
{
    let order = choose|order: Seq<usize>|
        {
            &&& #[trigger] orders_suggestions(order, names, partial)
            &&& s.len() == order.len()
            &&& forall|k: int| 0 <= k < s.len() ==> #[trigger] s[k] == names[order[k] as int]
        };
    assert(s[k] == names[order[k] as int]);
}

/// A path is completed behind its last slash: what stands in front of it names the
/// directory to look in, what stands behind it the beginning of the name.
pub proof fn law_paths_split_at_the_last_slash(dir: Seq<char>, name: Seq<char>, home: Option<Seq<char>>)
    requires
        !name.contains('/'),
        dir.len() > 0,
        dir[0] != '~',
    ensures
        completion_of(dir.push('/') + name, home) == Some((dir.push('/'), name)),
        completion_of(name, home) is Some ==> name.len() > 0 && name[0] == '~',
{
    let path = dir.push('/') + name;
    lemma_slash(dir, name);
    assert(path.take(dir.len() as int + 1) =~= dir.push('/'));
    assert(path.skip(dir.len() as int + 1) =~= name);
    lemma_no_slash(name);
}

proof fn lemma_slash(dir: Seq<char>, name: Seq<char>)
    requires
        !name.contains('/'),
    ensures
        last_index(dir.push('/') + name, '/') == Some(dir.len() as int),
    decreases name.len(),
{
    let path = dir.push('/') + name;
    if name.len() == 0 {
        assert(path =~= dir.push('/'));
    } else {
        assert(name.contains(name.last()));
        assert(path.drop_last() =~= dir.push('/') + name.drop_last());
        assert(!name.drop_last().contains('/')) by {
            if name.drop_last().contains('/') {
                let k = choose|k: int| 0 <= k < name.drop_last().len() && name.drop_last()[k] == '/';
                assert(name[k] == '/');
            }
        }
        lemma_slash(dir, name.drop_last());
    }
}

proof fn lemma_no_slash(name: Seq<char>)
    requires
        !name.contains('/'),
    ensures
        last_index(name, '/') is None,
    decreases name.len(),
{
    if name.len() > 0 {
        assert(name.contains(name.last()));
        assert(!name.drop_last().contains('/')) by {
            if name.drop_last().contains('/') {
                let k = choose|k: int| 0 <= k < name.drop_last().len() && name.drop_last()[k] == '/';
                assert(name[k] == '/');
            }
        }
        lemma_no_slash(name.drop_last());
    }
}

/// A suggestion takes the place of the name behind the last slash, with a slash of its own
/// behind it.
pub proof fn law_suggestions_take_the_name_place(
    dir: Seq<char>,
    name: Seq<char>,
    home: Option<Seq<char>>,
    suggestion: Seq<char>,
)
    requires
        !name.contains('/'),
        dir.len() > 0,
        dir[0] != '~',
    ensures
        completed_path(dir.push('/') + name, home, suggestion) == Some(
            dir.push('/') + suggestion + "/"@,
        ),
{
    law_paths_split_at_the_last_slash(dir, name, home);
}

/// A tilde in front stands for the home directory; without a home nothing is found.
pub proof fn law_a_tilde_is_the_home(rest: Seq<char>, home: Seq<char>)
    ensures
        expanded(seq!['~'] + rest, Some(home)) == Some(home + rest),
        expanded(seq!['~'] + rest, None) is None,
        rest.len() == 0 || rest[0] != '~' ==> expanded(rest, Some(home)) == Some(rest),
{
    assert((seq!['~'] + rest).drop_first() =~= rest);
}

/// Every directory whose lowercased name begins with what was typed in lower case is
/// suggested, unless it is hidden by a full stop; the suggestions stand in the order of
/// their names.
pub proof fn law_every_fitting_directory_is_suggested(
    s: Seq<String>,
    names: Seq<String>,
    partial: Seq<char>,
    k: int,
    i: int,
    j: int,
)
    requires
        lists_suggestions(s, names, partial),
        0 <= k < names.len() <= usize::MAX,
        names[k]@.len() > 0,
    ensures
        names[k]@[0] != '.' && (partial.len() == 0 || begins_with(
            lowercase(names[k]@),
            lowercase(partial),
        )) ==> s.contains(names[k]),
        0 <= i < j < s.len() ==> !text_less(s[j]@, s[i]@),
{
    let order = choose|order: Seq<usize>|
        {
            &&& #[trigger] orders_suggestions(order, names, partial)
            &&& s.len() == order.len()
            &&& forall|k: int| 0 <= k < s.len() ==> #[trigger] s[k] == names[order[k] as int]
        };
    if is_suggested(names[k]@, partial) {
        assert(order.contains(k as usize));
        let m = choose|m: int| 0 <= m < order.len() && order[m] == k as usize;
        assert(s[m] == names[k]);
    }
    if 0 <= i < j < s.len() {
        let ahead = |a: int, b: int| text_less(names[a]@, names[b]@);
        assert(crate::ranking::precedes(ahead, order[i] as int, order[j] as int));
        assert(s[i] == names[order[i] as int]);
        assert(s[j] == names[order[j] as int]);
        if text_less(s[i]@, s[j]@) && text_less(s[j]@, s[i]@) {
            crate::ranking::lemma_text_less_transitive(s[i]@, s[j]@, s[i]@);
            crate::ranking::lemma_text_less_irreflexive(s[i]@);
        }
    }
}

/// What the keys of the form do: enter submits, escape closes it, tab goes to the next
/// field, and a blank turns the link to the repository in the last field.
pub proof fn law_project_form_keys(
    pre: ProjectForm,
    line: TextInput,
    post: ProjectForm,
    post_line: TextInput,
    home: Option<Seq<char>>,
    code: KeyCode,
    m: KeyModifiers,
    r: ProjectFormEvent,
)
    requires
        project_step(pre, line, post, post_line, home, code, m, r),
        !pre.show_suggestions,
        pre.field < 3,
    ensures
        code == KeyCode::Enter ==> r == ProjectFormEvent::Submit && (pre.field == 0 ==> post.name
            == line.text && post.path == pre.path) && (pre.field == 1 ==> post.path == line.text
            && post.name == pre.name),
        code == KeyCode::Esc ==> r == ProjectFormEvent::Close && post.name@.len() == 0
            && post.path@.len() == 0,
        code == KeyCode::Tab && pre.field < 2 ==> post.field == pre.field + 1,
        code == KeyCode::Tab && pre.field == 0 ==> post.name == line.text && post_line.text@
            == pre.path@,
        code == KeyCode::BackTab && pre.field > 0 ==> post.field + 1 == pre.field,
        pre.field == 2 && code == KeyCode::Char(' ') ==> post.git_linked == !pre.git_linked,
        pre.field == 0 && code is Char ==> post == pre && post_line@ == after_edit(line@, code, m),
{
}

/// The list of suggestions is walked by the arrow keys; tab takes the chosen one into the
/// path and asks for the next ones, escape drops the list alone.
pub proof fn law_suggested_paths_are_chosen(
    pre: ProjectForm,
    line: TextInput,
    post: ProjectForm,
    post_line: TextInput,
    home: Option<Seq<char>>,
    code: KeyCode,
    m: KeyModifiers,
    r: ProjectFormEvent,
)
    requires
        project_step(pre, line, post, post_line, home, code, m, r),
        pre.show_suggestions,
        pre.field == 1,
        pre.suggestion_index < pre.suggestions@.len(),
    ensures
        code == KeyCode::Down && pre.suggestion_index + 1 < pre.suggestions@.len()
            ==> post.suggestion_index == pre.suggestion_index + 1,
        code == KeyCode::Up && pre.suggestion_index > 0 ==> post.suggestion_index + 1
            == pre.suggestion_index,
        code == KeyCode::Esc ==> r == ProjectFormEvent::Nothing && !post.show_suggestions
            && post_line == line && post.path == pre.path,
        code == KeyCode::Tab ==> (completed_path(
            line.text@,
            home,
            pre.suggestions@[pre.suggestion_index as int]@,
        ) matches Some(p) ==> post_line.text@ == p && r == ProjectFormEvent::Suggest),
{
    assert(pre.suggestions.len() == pre.suggestions@.len());
}

/// Typing a slash asks for suggestions, and so does any character while they are shown; a
/// text that loses its last slash drops them.
pub proof fn law_slashes_ask_for_suggestions(
    shown: bool,
    line: TextInput,
    after: TextInput,
    c: char,
)
    ensures
        byte_len(after.text@) > byte_len(line.text@) && after@.before.len() > 0
            && after@.before.last() == '/' ==> wants_suggestions(
            shown,
            line,
            after,
            KeyCode::Char(c),
        ),
        byte_len(after.text@) > byte_len(line.text@) && shown ==> wants_suggestions(
            shown,
            line,
            after,
            KeyCode::Char(c),
        ),
        byte_len(after.text@) < byte_len(line.text@) && shown && contains_text(after.text@, "/"@)
            ==> wants_suggestions(shown, line, after, KeyCode::Backspace) && !drops_suggestions(
            shown,
            line,
            after,
        ),
        byte_len(after.text@) < byte_len(line.text@) && shown && !contains_text(after.text@, "/"@)
            && after.text@ != "~"@ ==> drops_suggestions(shown, line, after) && !wants_suggestions(
            shown,
            line,
            after,
            KeyCode::Backspace,
        ),
        byte_len(after.text@) == byte_len(line.text@) ==> !wants_suggestions(
            shown,
            line,
            after,
            KeyCode::Left,
        ) && !drops_suggestions(shown, line, after),
        !shown ==> !drops_suggestions(shown, line, after),
        byte_len(after.text@) > byte_len(line.text@) && !shown && after@.before.len() > 0
            && after@.before.last() != '/' && after@.before.last() != '~' ==> !wants_suggestions(
            shown,
            line,
            after,
            KeyCode::Char(c),
        ),
{
}

/// A new form is empty but for the path, which is the current directory.
pub proof fn law_new_project_forms(f: ProjectForm)
    ensures
        is_opened_form(f) ==> f.path@ == "."@ && f.name@.len() == 0 && f.git_linked && f.field == 0
            && !f.show_suggestions,
        is_blank_form(f) ==> f.path@.len() == 0 && f.name@.len() == 0 && f.git_linked && f.field
            == 0 && !f.show_suggestions,
{
}

} // verus!
