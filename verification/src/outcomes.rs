//! What is reported of a change that was made at GitHub in the background.

use vstd::prelude::*;
use vstd::string::*;

use crate::text::{format_signed, signed_decimal};

verus! {

pub enum GitHubMutationResult {
    CommentCreated { message: String },
    StateChanged { message: String },
    IssueCreated { message: String },
    IssueEdited { message: String },
    FieldUpdated { message: String },
    Error { message: String },
}

/// The change failed.
pub open spec fn fails(r: GitHubMutationResult, message: Seq<char>) -> bool {
    r matches GitHubMutationResult::Error { message: m } && m@ == message
}

fn failure(label: &str, error: &str) -> (r: GitHubMutationResult)
    ensures
        fails(r, label@ + error@),
{
    GitHubMutationResult::Error { message: label.to_owned().concat(error) }
}

/// Report on a comment.
pub fn comment_outcome(number: i64, error: &Option<String>) -> (r: GitHubMutationResult)
    ensures
        match *error {
            None => r matches GitHubMutationResult::CommentCreated { message } && message@
                == "Comment posted on #"@ + signed_decimal(number as int),
            Some(e) => fails(r, "Failed to post comment: "@ + e@),
        },
{
    match error {
        None => GitHubMutationResult::CommentCreated {
            message: "Comment posted on #".to_owned().concat(format_signed(number).as_str()),
        },
        Some(e) => failure("Failed to post comment: ", e.as_str()),
    }
}

/// Report on an issue that was closed or opened again.
pub fn state_outcome(number: i64, state: &str, error: &Option<String>) -> (r: GitHubMutationResult)
    ensures
        match *error {
            None => r matches GitHubMutationResult::StateChanged { message } && message@
                == "Issue #"@ + signed_decimal(number as int) + " "@ + state@,
            Some(e) => fails(r, "Failed to change state: "@ + e@),
        },
{
    match error {
        None => {
            let mut message = "Issue #".to_owned();
            message.append(format_signed(number).as_str());
            message.append(" ");
            message.append(state);
            GitHubMutationResult::StateChanged { message }
        },
        Some(e) => failure("Failed to change state: ", e.as_str()),
    }
}

/// Report on an issue that was created, or on the one that was edited. GitHub answers
/// with the number of the issue.
pub fn issue_outcome(editing: Option<i64>, answer: &Result<i64, String>) -> (r:
    GitHubMutationResult)
    ensures
        match *answer {
            Ok(created) => match editing {
                Some(number) => r matches GitHubMutationResult::IssueEdited { message } && message@
                    == "Issue #"@ + signed_decimal(number as int) + " updated"@,
                None => r matches GitHubMutationResult::IssueCreated { message } && message@
                    == "Issue #"@ + signed_decimal(created as int) + " created"@,
            },
            Err(e) => fails(r, "GitHub API error: "@ + e@),
        },
{
    match answer {
        Ok(created) => {
            let mut message = "Issue #".to_owned();
            match editing {
                Some(number) => {
                    message.append(format_signed(number).as_str());
                    message.append(" updated");
                    GitHubMutationResult::IssueEdited { message }
                },
                None => {
                    message.append(format_signed(*created).as_str());
                    message.append(" created");
                    GitHubMutationResult::IssueCreated { message }
                },
            }
        },
        Err(e) => failure("GitHub API error: ", e.as_str()),
    }
}

/// Report on a field of a project's item.
pub fn field_outcome(field: &str, option: &str, error: &Option<String>) -> (r: GitHubMutationResult)
    ensures
        match *error {
            None => r matches GitHubMutationResult::FieldUpdated { message } && message@ == field@
                + " \u{2192} "@ + option@,
            Some(e) => fails(r, "Failed to update field: "@ + e@),
        },
{
    match error {
        None => {
            let mut message = field.to_owned();
            message.append(" \u{2192} ");
            message.append(option);
            GitHubMutationResult::FieldUpdated { message }
        },
        Some(e) => failure("Failed to update field: ", e.as_str()),
    }
}

/// A failure is told by its message, and only a failure is.
pub proof fn law_failures_are_told(r: GitHubMutationResult, message: Seq<char>)
    ensures
        r matches GitHubMutationResult::Error { message: m } ==> (fails(r, message) <==> m@
            == message),
        !(r is Error) ==> !fails(r, message),
{
}

} // verus!
