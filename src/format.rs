//! Rendering an event as one short line of text.
use vstd::prelude::*;
use crate::event::{same_text, EventFields, GithubEvents};

verus! {

/// Why an event could not be rendered.
#[derive(Clone, Copy, Debug, PartialEq, Eq, Structural)]
pub enum FormatError {
    /// A field that the event's line needs is absent or of another type.
    MalformedPayload,
}

/// The rendering of an event as plain character sequences.
pub open spec fn view_line(r: Result<Option<String>, FormatError>) -> Result<
    Option<Seq<char>>,
    FormatError,
> {
    match r {
        Ok(Some(s)) => Ok(Some(s@)),
        Ok(None) => Ok(None),
        Err(e) => Err(e),
    }
}

/// `head`, then the number, then ` in ` and the repository; both fields are needed.
pub open spec fn numbered_line_spec(
    head: Seq<char>,
    number: Option<String>,
    repo: Option<String>,
) -> Result<Option<Seq<char>>, FormatError> {
    match number {
        Some(n) => match repo {
            Some(r) => Ok(Some(head + n@ + " in "@ + r@)),
            None => Err(FormatError::MalformedPayload),
        },
        None => Err(FormatError::MalformedPayload),
    }
}

/// `head`, then the repository, then `tail`; the repository is needed.
pub open spec fn repo_line_spec(head: Seq<char>, repo: Option<String>, tail: Seq<char>) -> Result<
    Option<Seq<char>>,
    FormatError,
> {
    match repo {
        Some(r) => Ok(Some(head + r@ + tail)),
        None => Err(FormatError::MalformedPayload),
    }
}

/// The line of an issue comment: only a `created` comment is shown.
pub open spec fn comment_line_spec(f: EventFields) -> Result<Option<Seq<char>>, FormatError> {
    match f.action {
        None => Err(FormatError::MalformedPayload),
        Some(a) => if a@ == "created"@ {
            numbered_line_spec("🗣 Commented on #"@, f.issue_number, f.repo_name)
        } else {
            Ok(None)
        },
    }
}

/// The line of an issue event: opened, closed and reopened issues are shown.
pub open spec fn issue_line_spec(f: EventFields) -> Result<Option<Seq<char>>, FormatError> {
    match f.action {
        None => Err(FormatError::MalformedPayload),
        Some(a) => if a@ == "opened"@ {
            numbered_line_spec("❗️ Opened issue #"@, f.issue_number, f.repo_name)
        } else if a@ == "closed"@ {
            numbered_line_spec("❗️ Closed issue #"@, f.issue_number, f.repo_name)
        } else if a@ == "reopened"@ {
            numbered_line_spec("❗️ Reopened issue #"@, f.issue_number, f.repo_name)
        } else {
            Ok(None)
        },
    }
}

/// The line of a pull request event: opened or reopened, and closed, are shown.
pub open spec fn pull_request_line_spec(f: EventFields) -> Result<Option<Seq<char>>, FormatError> {
    match f.action {
        None => Err(FormatError::MalformedPayload),
        Some(a) => if a@ == "opened"@ || a@ == "reopened"@ {
            numbered_line_spec("📝 Opened PR #"@, f.pr_number, f.repo_name)
        } else if a@ == "closed"@ {
            numbered_line_spec("🛑 Closed PR #"@, f.pr_number, f.repo_name)
        } else {
            Ok(None)
        },
    }
}

/// The line that an event renders as: `Ok(None)` where nothing is shown for
/// it, `Err` where a field that its line needs is missing.
pub open spec fn line_spec(e: GithubEvents) -> Result<Option<Seq<char>>, FormatError> {
    match e {
        GithubEvents::IssueCommentEvent(f) => comment_line_spec(f),
        GithubEvents::IssuesEvent(f) => issue_line_spec(f),
        GithubEvents::PublicEvent(f) => repo_line_spec("🔓 Made "@, f.repo_name, " public!"@),
        GithubEvents::PullRequestEvent(f) => pull_request_line_spec(f),
        GithubEvents::ReleaseEvent(f) => repo_line_spec(
            "🚀 Shipped a new version of "@,
            f.repo_name,
            Seq::empty(),
        ),
        GithubEvents::SponsorshipEvent(_) => Ok(Some("🤝 Started sponsoring a developer!"@)),
        GithubEvents::Others => Ok(None),
    }
}

fn numbered_line(head: &str, number: &Option<String>, repo: &Option<String>) -> (r: Result<
    Option<String>,
    FormatError,
>)
    ensures
        view_line(r) == numbered_line_spec(head@, *number, *repo),
{
    match number {
        Some(n) => match repo {
            Some(name) => {
                let mut line = String::from_str(head);
                line.append(n.as_str());
                line.append(" in ");
                line.append(name.as_str());
                Ok(Some(line))
            },
            None => Err(FormatError::MalformedPayload),
        },
        None => Err(FormatError::MalformedPayload),
    }
}

fn repo_line(head: &str, repo: &Option<String>, tail: &str) -> (r: Result<
    Option<String>,
    FormatError,
>)
    ensures
        view_line(r) == repo_line_spec(head@, *repo, tail@),
{
    match repo {
        Some(name) => {
            let mut line = String::from_str(head);
            line.append(name.as_str());
            line.append(tail);
            Ok(Some(line))
        },
        None => Err(FormatError::MalformedPayload),
    }
}

fn comment_line(f: &EventFields) -> (r: Result<Option<String>, FormatError>)
    ensures
        view_line(r) == comment_line_spec(*f),
{
    match &f.action {
        None => Err(FormatError::MalformedPayload),
        Some(a) => if same_text(a.as_str(), "created") {
            numbered_line("🗣 Commented on #", &f.issue_number, &f.repo_name)
        } else {
            Ok(None)
        },
    }
}

fn issue_line(f: &EventFields) -> (r: Result<Option<String>, FormatError>)
    ensures
        view_line(r) == issue_line_spec(*f),
{
    match &f.action {
        None => Err(FormatError::MalformedPayload),
        Some(a) => if same_text(a.as_str(), "opened") {
            numbered_line("❗️ Opened issue #", &f.issue_number, &f.repo_name)
        } else if same_text(a.as_str(), "closed") {
            numbered_line("❗️ Closed issue #", &f.issue_number, &f.repo_name)
        } else if same_text(a.as_str(), "reopened") {
            numbered_line("❗️ Reopened issue #", &f.issue_number, &f.repo_name)
        } else {
            Ok(None)
        },
    }
}

fn pull_request_line(f: &EventFields) -> (r: Result<Option<String>, FormatError>)
    ensures
        view_line(r) == pull_request_line_spec(*f),
{
    match &f.action {
        None => Err(FormatError::MalformedPayload),
        Some(a) => if same_text(a.as_str(), "opened") || same_text(a.as_str(), "reopened") {
            numbered_line("📝 Opened PR #", &f.pr_number, &f.repo_name)
        } else if same_text(a.as_str(), "closed") {
            numbered_line("🛑 Closed PR #", &f.pr_number, &f.repo_name)
        } else {
            Ok(None)
        },
    }
}

impl GithubEvents {
    /// Renders the event as one line. `Ok(None)` for an event of no shown
    /// kind or action; `Err(MalformedPayload)` where a field that the line
    /// needs is missing, so that the caller can skip this event alone.
    pub fn format_event(&self) -> (r: Result<Option<String>, FormatError>)
        ensures
            view_line(r) == line_spec(*self),
    {
        match self {
            GithubEvents::IssueCommentEvent(f) => comment_line(f),
            GithubEvents::IssuesEvent(f) => issue_line(f),
            GithubEvents::PublicEvent(f) => repo_line("🔓 Made ", &f.repo_name, " public!"),
            GithubEvents::PullRequestEvent(f) => pull_request_line(f),
            GithubEvents::ReleaseEvent(f) => {
                let r = repo_line("🚀 Shipped a new version of ", &f.repo_name, "");
                proof {
                    reveal_strlit("");
                }
                r
            },
            GithubEvents::SponsorshipEvent(_) => Ok(
                Some(String::from_str("🤝 Started sponsoring a developer!")),
            ),
            GithubEvents::Others => Ok(None),
        }
    }
}

/// Two renderings of the same event are the same line.
pub proof fn lemma_format_deterministic(
    e: GithubEvents,
    first: Result<Option<String>, FormatError>,
    second: Result<Option<String>, FormatError>,
)
    requires
        view_line(first) == line_spec(e),
        view_line(second) == line_spec(e),
    ensures
        view_line(first) == view_line(second),
{
}

} // verus!
