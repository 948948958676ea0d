//! The activity records of the feed, as a tagged union over the kinds of
//! event that are worth showing, and their classification.
use vstd::prelude::*;

verus! {

/// The fields of a record that the rendering reads, each absent when the
/// record lacks it or holds it with another type.
#[derive(Debug)]
pub struct EventFields {
    /// `public`
    pub public: Option<bool>,
    /// `repo.name`
    pub repo_name: Option<String>,
    /// `payload.action`
    pub action: Option<String>,
    /// `payload.issue.number`, as text
    pub issue_number: Option<String>,
    /// `payload.number`, as text
    pub pr_number: Option<String>,
}

/// One record of the activity feed. The `type` tag decides the variant; a
/// tag outside the known set is `Others`, which carries nothing.
#[derive(Debug)]
pub enum GithubEvents {
    /// A comment on an issue or pull request.
    IssueCommentEvent(EventFields),
    /// An issue was opened, closed or reopened.
    IssuesEvent(EventFields),
    /// A private repository was made public.
    PublicEvent(EventFields),
    /// A pull request changed state.
    PullRequestEvent(EventFields),
    /// A release was published.
    ReleaseEvent(EventFields),
    /// A sponsorship was started.
    SponsorshipEvent(EventFields),
    /// Any other kind of activity.
    Others,
}

/// The variant that a record with tag `tag` and fields `fields` becomes.
pub open spec fn classify_spec(tag: Seq<char>, fields: EventFields) -> GithubEvents {
    if tag == "IssueCommentEvent"@ {
        GithubEvents::IssueCommentEvent(fields)
    } else if tag == "IssuesEvent"@ {
        GithubEvents::IssuesEvent(fields)
    } else if tag == "PublicEvent"@ {
        GithubEvents::PublicEvent(fields)
    } else if tag == "PullRequestEvent"@ {
        GithubEvents::PullRequestEvent(fields)
    } else if tag == "ReleaseEvent"@ {
        GithubEvents::ReleaseEvent(fields)
    } else if tag == "SponsorshipEvent"@ {
        GithubEvents::SponsorshipEvent(fields)
    } else {
        GithubEvents::Others
    }
}

/// Whether `tag` names one of the known kinds.
pub open spec fn is_known_tag(tag: Seq<char>) -> bool {
    tag == "IssueCommentEvent"@ || tag == "IssuesEvent"@ || tag == "PublicEvent"@
        || tag == "PullRequestEvent"@ || tag == "ReleaseEvent"@ || tag == "SponsorshipEvent"@
}

/// Whether two strings hold the same characters.
pub(crate) fn same_text(a: &str, b: &str) -> (r: bool)
    ensures
        r == (a@ == b@),
{
    String::from_str(a) == String::from_str(b)
}

/// Turns the `type` tag and the fields of a record into an event. Any tag
/// outside the known set gives `Others`; classification itself never fails.
pub fn classify(tag: &str, fields: EventFields) -> (r: GithubEvents)
    ensures
        r == classify_spec(tag@, fields),
{
    if same_text(tag, "IssueCommentEvent") {
        GithubEvents::IssueCommentEvent(fields)
    } else if same_text(tag, "IssuesEvent") {
        GithubEvents::IssuesEvent(fields)
    } else if same_text(tag, "PublicEvent") {
        GithubEvents::PublicEvent(fields)
    } else if same_text(tag, "PullRequestEvent") {
        GithubEvents::PullRequestEvent(fields)
    } else if same_text(tag, "ReleaseEvent") {
        GithubEvents::ReleaseEvent(fields)
    } else if same_text(tag, "SponsorshipEvent") {
        GithubEvents::SponsorshipEvent(fields)
    } else {
        GithubEvents::Others
    }
}

impl GithubEvents {
    /// The fields of a known event; `None` for `Others`.
    pub open spec fn fields_spec(self) -> Option<EventFields> {
        match self {
            GithubEvents::IssueCommentEvent(f) => Some(f),
            GithubEvents::IssuesEvent(f) => Some(f),
            GithubEvents::PublicEvent(f) => Some(f),
            GithubEvents::PullRequestEvent(f) => Some(f),
            GithubEvents::ReleaseEvent(f) => Some(f),
            GithubEvents::SponsorshipEvent(f) => Some(f),
            GithubEvents::Others => None,
        }
    }

    /// The record's `public` flag, `false` where it is absent and for `Others`.
    pub open spec fn is_public_spec(self) -> bool {
        match self.fields_spec() {
            Some(f) => f.public == Some(true),
            None => false,
        }
    }

    /// Whether the event is of a known kind and public: the ones that are shown.
    pub open spec fn is_interesting_spec(self) -> bool {
        !(self is Others) && self.is_public_spec()
    }

    /// Whether the record says it is public.
    pub fn is_public_event(&self) -> (r: bool)
        ensures
            r == self.is_public_spec(),
    {
        let fields = match self {
            GithubEvents::IssueCommentEvent(f) => f,
            GithubEvents::IssuesEvent(f) => f,
            GithubEvents::PublicEvent(f) => f,
            GithubEvents::PullRequestEvent(f) => f,
            GithubEvents::ReleaseEvent(f) => f,
            GithubEvents::SponsorshipEvent(f) => f,
            GithubEvents::Others => {
                return false;
            },
        };
        match fields.public {
            Some(p) => p,
            None => false,
        }
    }

    /// Whether the event is of a known kind and public.
    pub fn is_interesting(&self) -> (r: bool)
        ensures
            r == self.is_interesting_spec(),
    {
        match self {
            GithubEvents::Others => false,
            _ => self.is_public_event(),
        }
    }
}

/// A public record of kind `IssuesEvent` is classified as such and is
/// public; a record whose tag is not a known kind becomes `Others` and is
/// never public.
pub proof fn lemma_classify_kinds(tag: Seq<char>, fields: EventFields)
    ensures
        tag == "IssuesEvent"@ && fields.public == Some(true) ==> classify_spec(tag, fields)
            is IssuesEvent && classify_spec(tag, fields).is_public_spec(),
        !is_known_tag(tag) ==> classify_spec(tag, fields) is Others
            && !classify_spec(tag, fields).is_public_spec(),
{
    reveal_strlit("IssuesEvent");
    reveal_strlit("IssueCommentEvent");
    assert("IssuesEvent"@[5] != "IssueCommentEvent"@[5]);
}

} // verus!
