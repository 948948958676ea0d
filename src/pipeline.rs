//! From a feed of events to the document written into the gist.
use vstd::prelude::*;
use crate::event::{same_text, GithubEvents};
use crate::format::{line_spec, FormatError};
use crate::truncate::{truncate_spec, truncate_string};

verus! {

/// The line length that keeps a line on one row of a pinned gist.
pub const DEFAULT_MAX_LENGTH: usize = 63;

/// How many lines the document holds by default.
pub const DEFAULT_MAX_ACTIVITIES: usize = 5;

/// How a feed is turned into a document.
#[derive(Clone, Copy, Debug, PartialEq, Eq, Structural)]
pub struct PipelineConfig {
    /// The longest line, in characters, that the document holds.
    pub max_length: usize,
    /// How many lines the document holds at most.
    pub max_activities: usize,
}

/// Why a configuration was refused.
#[derive(Clone, Copy, Debug, PartialEq, Eq, Structural)]
pub enum ConfigError {
    /// The line length cannot hold the `...` marker.
    InvalidArgument,
    /// A required setting is absent, or a setting does not hold a valid value.
    ConfigMissing,
}

impl PipelineConfig {
    /// A line length that can hold the `...` marker.
    pub open spec fn wf(self) -> bool {
        self.max_length >= 3
    }

    /// A configuration, refused where `max_length` is below three.
    pub fn new(max_length: usize, max_activities: usize) -> (r: Result<PipelineConfig, ConfigError>)
        ensures
            max_length >= 3 <==> r is Ok,
            r matches Ok(c) ==> c.max_length == max_length && c.max_activities == max_activities
                && c.wf(),
            r matches Err(e) ==> e == ConfigError::InvalidArgument,
    {
        if max_length < 3 {
            Err(ConfigError::InvalidArgument)
        } else {
            Ok(PipelineConfig { max_length, max_activities })
        }
    }
}

impl Default for PipelineConfig {
    fn default() -> (r: PipelineConfig)
        ensures
            r.max_length == DEFAULT_MAX_LENGTH,
            r.max_activities == DEFAULT_MAX_ACTIVITIES,
    {
        PipelineConfig { max_length: DEFAULT_MAX_LENGTH, max_activities: DEFAULT_MAX_ACTIVITIES }
    }
}

/// The document written when no line is left to show.
pub open spec fn placeholder() -> Seq<char> {
    "☕ No activities recently..."@
}

/// The line that `e` contributes: only an interesting event that renders
/// without error, truncated, and only where something is left of it.
pub open spec fn display_line(e: GithubEvents, max_length: nat) -> Option<Seq<char>> {
    if e.is_interesting_spec() {
        match line_spec(e) {
            Ok(Some(l)) => {
                let t = truncate_spec(l, max_length);
                if t.len() > 0 {
                    Some(t)
                } else {
                    None
                }
            },
            _ => None,
        }
    } else {
        None
    }
}

/// The lines of all of `events`, in feed order.
pub open spec fn display_lines(events: Seq<GithubEvents>, max_length: nat) -> Seq<Seq<char>>
    decreases events.len(),
{
    if events.len() == 0 {
        Seq::empty()
    } else {
        let before = display_lines(events.drop_last(), max_length);
        match display_line(events.last(), max_length) {
            Some(l) => before.push(l),
            None => before,
        }
    }
}

/// The first `max_activities` lines of `events`.
pub open spec fn selected_lines(
    events: Seq<GithubEvents>,
    max_length: nat,
    max_activities: nat,
) -> Seq<Seq<char>> {
    let all = display_lines(events, max_length);
    if all.len() <= max_activities {
        all
    } else {
        all.take(max_activities as int)
    }
}

/// The lines separated by newlines.
pub open spec fn join_lines(lines: Seq<Seq<char>>) -> Seq<char>
    decreases lines.len(),
{
    if lines.len() == 0 {
        Seq::empty()
    } else if lines.len() == 1 {
        lines[0]
    } else {
        join_lines(lines.drop_last()) + seq!['\n'] + lines.last()
    }
}

/// The document for `lines`: the lines joined, or the placeholder where there are none.
pub open spec fn document_of(lines: Seq<Seq<char>>) -> Seq<char> {
    if lines.len() == 0 {
        placeholder()
    } else {
        join_lines(lines)
    }
}

/// The document that `events` give under `config`.
pub open spec fn document_spec(events: Seq<GithubEvents>, config: PipelineConfig) -> Seq<char> {
    document_of(
        selected_lines(events, config.max_length as nat, config.max_activities as nat),
    )
}

/// The characters of each string.
pub open spec fn views(v: Seq<String>) -> Seq<Seq<char>> {
    v.map_values(|s: String| s@)
}

/// The lines of a prefix of the feed are a prefix of the lines of a longer one.
proof fn lemma_display_lines_prefix(events: Seq<GithubEvents>, max_length: nat, i: int, j: int)
    requires
        0 <= i <= j <= events.len(),
    ensures
        display_lines(events.take(i), max_length).len() <= display_lines(
            events.take(j),
            max_length,
        ).len(),
        display_lines(events.take(j), max_length).take(
            display_lines(events.take(i), max_length).len() as int,
        ) == display_lines(events.take(i), max_length),
    decreases j - i,
{
    if i < j {
        lemma_display_lines_prefix(events, max_length, i, j - 1);
        assert(events.take(j).drop_last() == events.take(j - 1));
        let a = display_lines(events.take(i), max_length);
        let b = display_lines(events.take(j - 1), max_length);
        let c = display_lines(events.take(j), max_length);
        assert(c.take(a.len() as int) =~= a) by {
            assert(b.take(a.len() as int) == a);
        }
    } else {
        let a = display_lines(events.take(i), max_length);
        assert(a.take(a.len() as int) =~= a);
    }
}

/// The lines that the document shows: each interesting event that renders,
/// truncated to `config.max_length`, empty lines dropped, at most
/// `config.max_activities` of them, in feed order. An event whose line
/// cannot be rendered is skipped.
pub fn select_lines(events: &Vec<GithubEvents>, config: &PipelineConfig) -> (r: Vec<String>)
    ensures
        views(r@) == selected_lines(
            events@,
            config.max_length as nat,
            config.max_activities as nat,
        ),
{
    let ghost max_length = config.max_length as nat;
    let mut lines: Vec<String> = Vec::new();
    let mut i: usize = 0;
    while i < events.len() && lines.len() < config.max_activities
        invariant
            0 <= i <= events.len(),
            max_length == config.max_length as nat,
            views(lines@) == display_lines(events@.take(i as int), max_length),
            lines.len() <= config.max_activities,
        decreases events.len() - i,
    {
        let e = &events[i];
        proof {
            assert(events@.take(i + 1).drop_last() == events@.take(i as int));
            assert(events@.take(i + 1).last() == *e);
        }
        let ghost before = lines@;
        if e.is_interesting() {
            let rendered: Result<Option<String>, FormatError> = e.format_event();
            match rendered {
                Ok(Some(text)) => {
                    let t = truncate_string(text.as_str(), config.max_length);
                    let ghost tv = t@;
                    if t.as_str().unicode_len() > 0 {
                        lines.push(t);
                        proof {
                            assert(display_line(*e, max_length) == Some(tv));
                            assert(views(lines@) =~= views(before).push(tv));
                        }
                    } else {
                        assert(display_line(*e, max_length) is None);
                    }
                },
                _ => {
                    assert(display_line(*e, max_length) is None);
                },
            }
        } else {
            assert(display_line(*e, max_length) is None);
        }
        i += 1;
    }
    proof {
        lemma_display_lines_prefix(events@, max_length, i as int, events.len() as int);
        assert(events@.take(events.len() as int) == events@);
    }
    lines
}

/// Joins the lines with newlines into the document, or gives the
/// placeholder message where there are no lines.
pub fn join_document(lines: &Vec<String>) -> (r: String)
    ensures
        r@ == document_of(views(lines@)),
{
    if lines.len() == 0 {
        return String::from_str("☕ No activities recently...");
    }
    let mut doc = String::new();
    let mut k: usize = 0;
    while k < lines.len()
        invariant
            0 <= k <= lines.len(),
            doc@ == join_lines(views(lines@.take(k as int))),
        decreases lines.len() - k,
    {
        proof {
            reveal_strlit("\n");
            assert(views(lines@.take(k + 1)).drop_last() =~= views(lines@.take(k as int)));
        }
        if k > 0 {
            doc.append("\n");
        }
        doc.append(lines[k].as_str());
        proof {
            if k == 0 {
                assert(doc@ =~= views(lines@.take(1))[0]);
            }
        }
        k += 1;
    }
    proof {
        assert(lines@.take(lines.len() as int) == lines@);
    }
    doc
}

/// The document for `events`: the lines that `select_lines` picks, joined
/// with newlines, or the placeholder message where no line is left.
pub fn build_document(events: &Vec<GithubEvents>, config: &PipelineConfig) -> (r: String)
    ensures
        r@ == document_spec(events@, *config),
{
    let lines = select_lines(events, config);
    join_document(&lines)
}

/// Whether the gist has to be written: only where the new document differs
/// from its current content.
pub fn gist_needs_update(new_content: &str, current_content: &str) -> (r: bool)
    ensures
        r == (new_content@ != current_content@),
{
    !same_text(new_content, current_content)
}

} // verus!
