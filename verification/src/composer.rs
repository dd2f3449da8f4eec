//! Writing to GitHub: comments, and the form that creates and edits issues.
//!
//! The comment and the text fields of the issue form share one cursor.

use vstd::prelude::*;
use vstd::string::*;

use crate::board::BoardItem;
use crate::keys::{KeyCode, KeyModifiers};
use crate::settings::{text_option, text_or_empty, unwrap_text};
use crate::text::{
    bytes_in, byte_len, first_index, is_blank, join, joined, lemma_first_index, lemma_views_push,
    split, split_on, trim, trimmed, views,
};
use crate::text_input::{after_edit, TextInput};
use crate::views::InputMode;

verus! {

/// What a comment is written on.
pub struct CommentTarget {
    pub repo_path: String,
    pub number: i64,
    pub github_item_id: String,
}

pub struct Composer {
    pub comment: String,
    pub cursor: usize,
    pub target: Option<CommentTarget>,
    /// The mode that the comment was opened from.
    pub return_mode: InputMode,
    pub title: String,
    pub body: String,
    pub labels: String,
    pub assignees: String,
    /// Zero to three: title, body, labels, assignees.
    pub field: u8,
    /// The issue that the form edits; `None` for a new one.
    pub editing_number: Option<i64>,
}

/// The text that the issue form is at.
pub open spec fn issue_field(c: Composer) -> String {
    if c.field == 0 {
        c.title
    } else if c.field == 1 {
        c.body
    } else if c.field == 2 {
        c.labels
    } else {
        c.assignees
    }
}

/// The composer with another text at the field of the issue form.
pub open spec fn with_issue_field(c: Composer, text: String) -> Composer {
    if c.field == 0 {
        Composer { title: text, ..c }
    } else if c.field == 1 {
        Composer { body: text, ..c }
    } else if c.field == 2 {
        Composer { labels: text, ..c }
    } else {
        Composer { assignees: text, ..c }
    }
}

/// The cursor, at most at the end of a text.
pub open spec fn cursor_within(cursor: usize, text: Seq<char>) -> usize {
    if cursor > byte_len(text) {
        byte_len(text) as usize
    } else {
        cursor
    }
}

/// The entries of a list that is written with commas: trimmed, blank ones left out.
pub open spec fn comma_list(s: Seq<char>) -> Seq<Seq<char>> {
    split_on(s, ',').map_values(|p: Seq<char>| trimmed(p)).filter(|p: Seq<char>| p.len() > 0)
}

/// The entries of a list that is written with commas.
pub fn split_list(s: &str) -> (r: Vec<String>)
    ensures
        views(r@) == comma_list(s@),
{
    let parts = split(s, ',');
    let ghost all = views(parts@).map_values(|p: Seq<char>| trimmed(p));
    let ghost keep = |p: Seq<char>| p.len() > 0;
    let mut r: Vec<String> = Vec::new();
    let mut i: usize = 0;
    proof {
        reveal(Seq::filter);
        assert(all.take(0) =~= Seq::<Seq<char>>::empty());
        assert(views(r@) =~= all.take(0).filter(keep));
    }
    while i < parts.len()
        invariant
            i <= parts@.len(),
            all == views(parts@).map_values(|p: Seq<char>| trimmed(p)),
            keep == (|p: Seq<char>| p.len() > 0),
            views(r@) == all.take(i as int).filter(keep),
        decreases parts@.len() - i,
    {
        let t = trim(parts[i].as_str());
        proof {
            reveal(Seq::filter);
            assert(all.take(i as int + 1).drop_last() =~= all.take(i as int));
            assert(all.take(i as int + 1).last() == t@);
            lemma_views_push(r@, t);
        }
        if !t.as_str().is_empty() {
            r.push(t);
        }
        i += 1;
    }
    assert(all.take(i as int) =~= all);
    r
}

/// What is to be posted to GitHub.
pub enum GitHubPost {
    Comment { repo_path: String, number: i64, body: String },
    CreateIssue {
        repo_path: String,
        title: String,
        description: Option<String>,
        labels: Vec<String>,
        assignees: Vec<String>,
    },
    EditIssue {
        repo_path: String,
        number: i64,
        title: String,
        body: String,
        labels: Vec<String>,
        assignees: Vec<String>,
    },
}

/// `p` creates or edits the issue that the form describes.
pub open spec fn posts_issue(p: GitHubPost, c: Composer, repo: Seq<char>) -> bool {
    match c.editing_number {
        Some(n) => p matches GitHubPost::EditIssue {
            repo_path,
            number,
            title,
            body,
            labels,
            assignees,
        } && repo_path@ == repo && number == n && title@ == trimmed(c.title@) && body@ == trimmed(
            c.body@,
        ) && views(labels@) == comma_list(c.labels@) && views(assignees@) == comma_list(
            c.assignees@,
        ),
        None => p matches GitHubPost::CreateIssue {
            repo_path,
            title,
            description,
            labels,
            assignees,
        } && repo_path@ == repo && title@ == trimmed(c.title@) && text_option(description)
            == crate::settings::present_text(c.body@) && views(labels@) == comma_list(c.labels@)
            && views(assignees@) == comma_list(c.assignees@),
    }
}

/// The composer opened for a comment.
pub open spec fn opened_comment(
    pre: Composer,
    post: Composer,
    target: CommentTarget,
    mode: InputMode,
) -> bool {
    post.comment@.len() == 0 && post == (Composer {
        comment: post.comment,
        cursor: 0,
        target: Some(target),
        return_mode: mode,
        ..pre
    })
}

impl Composer {
    /// Start a comment.
    pub fn open_comment(&mut self, target: CommentTarget, return_mode: InputMode)
        ensures
            opened_comment(*old(self), *final(self), target, return_mode),
    {
        self.comment = String::new();
        self.cursor = 0;
        self.target = Some(target);
        self.return_mode = return_mode;
    }

    /// Edit the comment.
    pub fn edit_comment(&mut self, code: KeyCode, modifiers: KeyModifiers)
        ensures
            *final(self) == (Composer {
                comment: final(self).comment,
                cursor: final(self).cursor,
                ..*old(self)
            }),
            (TextInput { text: final(self).comment, cursor: final(self).cursor })@ == after_edit(
                (TextInput { text: old(self).comment, cursor: old(self).cursor })@,
                code,
                modifiers,
            ),
    {
        let mut line = TextInput { text: self.comment.clone(), cursor: self.cursor };
        line.apply_text_edit(code, modifiers);
        self.comment = line.text;
        self.cursor = line.cursor;
    }

    /// The comment to post: none where it is blank or there is nothing to comment on.
    /// Posting it empties the composer.
    pub fn submit_comment(&mut self) -> (r: Option<GitHubPost>)
        ensures
            r is None ==> *final(self) == *old(self),
            r is None <==> is_blank(old(self).comment@) || old(self).target is None,
            r matches Some(p) ==> (p matches GitHubPost::Comment { repo_path, number, body }
                && repo_path == old(self).target->0.repo_path && number
                == old(self).target->0.number && body@ == trimmed(old(self).comment@))
                && final(self).comment@.len() == 0 && *final(self) == (Composer {
                comment: final(self).comment,
                cursor: 0,
                target: None,
                ..*old(self)
            }),
    {
        let body = trim(self.comment.as_str());
        if body.as_str().is_empty() {
            return None;
        }
        match self.target.take() {
            Some(t) => {
                self.comment = String::new();
                self.cursor = 0;
                Some(GitHubPost::Comment { repo_path: t.repo_path, number: t.number, body })
            },
            None => None,
        }
    }

    /// Open the form for a new issue.
    pub fn open_issue_create(&mut self)
        ensures
            final(self).title@.len() == 0,
            final(self).body@.len() == 0,
            final(self).labels@.len() == 0,
            final(self).assignees@.len() == 0,
            *final(self) == (Composer {
                title: final(self).title,
                body: final(self).body,
                labels: final(self).labels,
                assignees: final(self).assignees,
                field: 0,
                editing_number: None,
                ..*old(self)
            }),
    {
        self.title = String::new();
        self.body = String::new();
        self.labels = String::new();
        self.assignees = String::new();
        self.field = 0;
        self.editing_number = None;
    }

    /// Open the form for an issue of the board.
    pub fn open_issue_edit(&mut self, issue: &BoardItem)
        ensures
            final(self).title == issue.title,
            final(self).body@ == text_or_empty(issue.body),
            final(self).labels@ == joined(views(issue.labels@), ", "@),
            final(self).assignees@ == joined(views(issue.assignees@), ", "@),
            *final(self) == (Composer {
                title: final(self).title,
                body: final(self).body,
                labels: final(self).labels,
                assignees: final(self).assignees,
                field: 0,
                editing_number: Some(issue.number),
                ..*old(self)
            }),
    {
        self.title = issue.title.clone();
        self.body = unwrap_text(&issue.body);
        self.labels = join(&issue.labels, ", ");
        self.assignees = join(&issue.assignees, ", ");
        self.field = 0;
        self.editing_number = Some(issue.number);
    }

    /// Go to the next or the previous field of the issue form.
    pub fn turn_issue_field(&mut self, forward: bool)
        requires
            old(self).field < 4,
        ensures
            *final(self) == (Composer {
                field: if forward {
                    (old(self).field + 1) as u8 % 4
                } else {
                    (old(self).field + 3) as u8 % 4
                },
                ..*old(self)
            }),
            final(self).field < 4,
    {
        self.field = if forward {
            (self.field + 1) % 4
        } else {
            (self.field + 3) % 4
        };
    }

    /// Edit the field of the issue form.
    pub fn edit_issue_field(&mut self, code: KeyCode, modifiers: KeyModifiers)
        ensures
            *final(self) == (Composer {
                cursor: final(self).cursor,
                ..with_issue_field(*old(self), issue_field(*final(self)))
            }),
            (TextInput { text: issue_field(*final(self)), cursor: final(self).cursor })@
                == after_edit(
                (TextInput {
                    text: issue_field(*old(self)),
                    cursor: cursor_within(old(self).cursor, issue_field(*old(self))@),
                })@,
                code,
                modifiers,
            ),
    {
        let text = if self.field == 0 {
            self.title.clone()
        } else if self.field == 1 {
            self.body.clone()
        } else if self.field == 2 {
            self.labels.clone()
        } else {
            self.assignees.clone()
        };
        let end: usize = bytes_in(text.as_str());
        let cursor: usize = if self.cursor > end {
            end
        } else {
            self.cursor
        };
        let mut line = TextInput { text, cursor };
        line.apply_text_edit(code, modifiers);
        self.cursor = line.cursor;
        if self.field == 0 {
            self.title = line.text;
        } else if self.field == 1 {
            self.body = line.text;
        } else if self.field == 2 {
            self.labels = line.text;
        } else {
            self.assignees = line.text;
        }
    }

    /// The issue that the form describes; none where its title is blank.
    pub fn issue_post(&self, repo_path: &String) -> (r: Option<GitHubPost>)
        ensures
            r is None <==> is_blank(self.title@),
            r matches Some(p) ==> posts_issue(p, *self, repo_path@),
    {
        let title = trim(self.title.as_str());
        if title.as_str().is_empty() {
            return None;
        }
        let body = trim(self.body.as_str());
        let labels = split_list(self.labels.as_str());
        let assignees = split_list(self.assignees.as_str());
        match self.editing_number {
            Some(number) => Some(
                GitHubPost::EditIssue {
                    repo_path: repo_path.clone(),
                    number,
                    title,
                    body,
                    labels,
                    assignees,
                },
            ),
            None => {
                let description = if body.as_str().is_empty() {
                    None
                } else {
                    Some(body)
                };
                Some(
                    GitHubPost::CreateIssue {
                        repo_path: repo_path.clone(),
                        title,
                        description,
                        labels,
                        assignees,
                    },
                )
            },
        }
    }
}

/// Splitting behind the last comma.
proof fn lemma_split_last(a: Seq<char>, b: Seq<char>)
    requires
        forall|i: int| 0 <= i < b.len() ==> b[i] != ',',
    ensures
        split_on(a + seq![','] + b, ',') == split_on(a, ',').push(b),
    decreases a.len(),
{
    let s = a + seq![','] + b;
    lemma_first_index(a, ',');
    lemma_first_index(s, ',');
    let i = first_index(a, ',');
    let j = first_index(s, ',');
    assert(s[a.len() as int] == ',');
    assert(j == i) by {
        if j < i {
            assert(s[j] == a[j]);
        } else if i < j {
            if i < a.len() {
                assert(s[i] == a[i]);
            }
        }
    }
    if i < a.len() {
        lemma_split_last(a.skip(i + 1), b);
        assert(s.skip(i + 1) =~= a.skip(i + 1) + seq![','] + b);
        assert(s.take(i) =~= a.take(i));
        assert(split_on(s, ',') =~= split_on(a, ',').push(b));
    } else {
        assert(s.take(i) =~= a);
        assert(s.skip(i + 1) =~= b);
        lemma_first_index(b, ',');
        assert(split_on(b, ',') =~= seq![b]);
        assert(split_on(s, ',') =~= split_on(a, ',').push(b));
    }
}

/// A name that can stand in a list written with commas.
pub open spec fn is_list_name(s: Seq<char>) -> bool {
    s.len() > 0 && trimmed(s) == s && forall|i: int| 0 <= i < s.len() ==> s[i] != ','
}

proof fn lemma_trim_front_space(s: Seq<char>)
    requires
        is_list_name(s),
    ensures
        trimmed(seq![' '] + s) == s,
{
    let t = seq![' '] + s;
    assert(t[0] == ' ');
    assert(t.drop_first() =~= s);
    assert(crate::text::trim_front(t) == crate::text::trim_front(s));
}

/// The labels and assignees of an issue survive being written into the edit form and
/// read back, where none of them holds a comma or has white space at its ends.
pub proof fn law_issue_lists_round_trip(names: Seq<Seq<char>>)
    requires
        forall|i: int| 0 <= i < names.len() ==> is_list_name(#[trigger] names[i]),
    ensures
        comma_list(joined(names, ", "@)) == names,
    decreases names.len(),
{
    reveal(Seq::filter);
    reveal_strlit(", ");
    let trim_all = |p: Seq<char>| trimmed(p);
    let keep = |p: Seq<char>| p.len() > 0;
    if names.len() == 0 {
        let s = Seq::<char>::empty();
        lemma_first_index(s, ',');
        assert(joined(names, ", "@) =~= s);
        let parts = split_on(s, ',').map_values(trim_all);
        assert(split_on(s, ',') =~= seq![s]);
        assert(parts =~= seq![s]);
        assert(parts.drop_last() =~= Seq::<Seq<char>>::empty());
        assert(parts.drop_last().filter(keep) =~= Seq::<Seq<char>>::empty());
        assert(parts.filter(keep) =~= Seq::<Seq<char>>::empty());
        assert(comma_list(s) =~= names);
    } else if names.len() == 1 {
        let s = names[0];
        lemma_first_index(s, ',');
        let parts = split_on(s, ',').map_values(trim_all);
        assert(split_on(s, ',') =~= seq![s]);
        assert(parts =~= seq![s]);
        assert(parts.drop_last() =~= Seq::<Seq<char>>::empty());
        assert(parts.drop_last().filter(keep) =~= Seq::<Seq<char>>::empty());
        assert(parts.filter(keep) =~= seq![s]);
        assert(comma_list(joined(names, ", "@)) =~= names);
    } else {
        let front = names.drop_last();
        let last = names.last();
        assert forall|i: int| 0 <= i < front.len() implies is_list_name(#[trigger] front[i]) by {
            assert(front[i] == names[i]);
        }
        law_issue_lists_round_trip(front);
        let a = joined(front, ", "@);
        let b = seq![' '] + last;
        assert(joined(names, ", "@) =~= a + seq![','] + b);
        lemma_split_last(a, b);
        lemma_trim_front_space(last);
        let parts = split_on(a + seq![','] + b, ',').map_values(trim_all);
        let before = split_on(a, ',').map_values(trim_all);
        assert(parts =~= before.push(last));
        assert(parts.drop_last() =~= before);
        assert(parts.filter(keep) =~= before.filter(keep).push(last));
        assert(comma_list(joined(names, ", "@)) =~= names);
    }
}

/// What a form for an issue posts: a new issue without a number, and with one the change of
/// that issue; the title without the space around it.
pub proof fn law_forms_post_their_fields(p: GitHubPost, c: Composer, repo: Seq<char>)
    requires
        posts_issue(p, c, repo),
    ensures
        c.editing_number is None <==> p is CreateIssue,
        c.editing_number is Some <==> p is EditIssue,
        p matches GitHubPost::EditIssue { repo_path, number, title, body, .. } ==> Some(number)
            == c.editing_number && repo_path@ == repo && title@ == trimmed(c.title@) && body@
            == trimmed(c.body@),
        p matches GitHubPost::CreateIssue { repo_path, title, description, .. } ==> repo_path@
            == repo && title@ == trimmed(c.title@) && (description matches Some(d) ==> d@
            == trimmed(c.body@)) && (description is None <==> is_blank(c.body@)),
{
}

/// The fields of the form: title, text, labels and assignees, in this order; what is typed
/// goes to the current one alone.
pub proof fn law_fields_of_an_issue(c: Composer, text: String)
    ensures
        c.field == 0 ==> issue_field(c) == c.title && with_issue_field(c, text).title == text,
        c.field == 1 ==> issue_field(c) == c.body && with_issue_field(c, text).body == text,
        c.field == 2 ==> issue_field(c) == c.labels && with_issue_field(c, text).labels == text,
        c.field == 3 ==> issue_field(c) == c.assignees && with_issue_field(c, text).assignees
            == text,
        issue_field(with_issue_field(c, text)) == text,
        c.field != 0 ==> with_issue_field(c, text).title == c.title,
        c.field != 1 ==> with_issue_field(c, text).body == c.body,
        c.field != 2 ==> with_issue_field(c, text).labels == c.labels,
        c.field < 3 ==> with_issue_field(c, text).assignees == c.assignees,
        with_issue_field(c, text).field == c.field,
{
}

/// The labels and the assignees of a posted issue are those that the form lists, between
/// commas and without the space around them.
pub proof fn law_forms_post_their_lists(p: GitHubPost, c: Composer, repo: Seq<char>)
    requires
        posts_issue(p, c, repo),
    ensures
        p matches GitHubPost::EditIssue { labels, assignees, .. } ==> views(labels@) == comma_list(
            c.labels@,
        ) && views(assignees@) == comma_list(c.assignees@),
        p matches GitHubPost::CreateIssue { labels, assignees, .. } ==> views(labels@)
            == comma_list(c.labels@) && views(assignees@) == comma_list(c.assignees@),
{
}

/// A comment is begun empty, for its item, and knows where it was begun.
pub proof fn law_comments_begin_empty(
    pre: Composer,
    post: Composer,
    target: CommentTarget,
    mode: InputMode,
)
    requires
        opened_comment(pre, post, target, mode),
    ensures
        post.comment@.len() == 0 && post.cursor == 0,
        post.target == Some(target),
        post.return_mode == mode,
        post.title == pre.title && post.body == pre.body,
{
}

} // verus!
