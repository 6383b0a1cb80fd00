//! From what became of each input to what is written, and where.

use crate::config::Config;
use crate::config::ConfigView;
use crate::error::SearchError;
use crate::error::SearchErrorView;
use crate::highlight::cut;
use crate::highlight::highlight;
use crate::highlight::Highlighted;
use crate::highlight::HighlightedView;
use crate::pattern::PatternView;
use crate::scanner::find_lines;
use crate::scanner::select_lines;
use crate::text::decimal;
use crate::text::decimal_string;
use crate::text::join;
use crate::text::join3;
use crate::text::path_message;
use crate::text::texts;
use vstd::pervasive::unreached;
use vstd::prelude::*;

verus! {

/// What became of one outcome of the path resolution.
#[derive(Clone, Debug, PartialEq, Eq)]
pub enum Visit {
    /// The path did not resolve; nothing was opened.
    Unresolved { error: SearchError },
    /// The resolved path could not be opened, with the system's message.
    Unopened { path: String, message: String },
    /// Reading failed before the end, with the system's message. The lines
    /// read before the failure are dropped.
    Unread { path: String, message: String },
    /// All lines were read, each with its terminator where it had one.
    Read { path: String, lines: Vec<String> },
}

/// The view of a [`Visit`].
pub enum VisitView {
    Unresolved { error: SearchErrorView },
    Unopened { path: Seq<char>, message: Seq<char> },
    Unread { path: Seq<char>, message: Seq<char> },
    Read { path: Seq<char>, lines: Seq<Seq<char>> },
}

impl View for Visit {
    type V = VisitView;

    open spec fn view(&self) -> VisitView {
        match self {
            Visit::Unresolved { error } => VisitView::Unresolved { error: error@ },
            Visit::Unopened { path, message } => VisitView::Unopened {
                path: path@,
                message: message@,
            },
            Visit::Unread { path, message } => VisitView::Unread {
                path: path@,
                message: message@,
            },
            Visit::Read { path, lines } => VisitView::Read { path: path@, lines: texts(lines@) },
        }
    }
}

/// The views of a run of visits.
pub open spec fn visit_views(visits: Seq<Visit>) -> Seq<VisitView> {
    visits.map_values(|v: Visit| v@)
}

/// One write.
#[derive(Clone, Debug, PartialEq, Eq)]
pub enum Emission {
    /// Text for standard output, written as it is.
    Text { text: String },
    /// A matching line for standard output: the label, then the line with
    /// its match set off for emphasis.
    Match { label: String, parts: Highlighted },
    /// A failure for standard error, one line.
    Failure { error: SearchError },
}

/// The view of an [`Emission`].
pub enum EmissionView {
    Text { text: Seq<char> },
    Match { label: Seq<char>, parts: HighlightedView },
    Failure { error: SearchErrorView },
}

impl View for Emission {
    type V = EmissionView;

    open spec fn view(&self) -> EmissionView {
        match self {
            Emission::Text { text } => EmissionView::Text { text: text@ },
            Emission::Match { label, parts } => EmissionView::Match {
                label: label@,
                parts: parts@,
            },
            Emission::Failure { error } => EmissionView::Failure { error: error@ },
        }
    }
}

/// The views of a run of emissions.
pub open spec fn emission_views(emissions: Seq<Emission>) -> Seq<EmissionView> {
    emissions.map_values(|e: Emission| e@)
}

/// How many of the visits were of a resolved path.
pub open spec fn searched_count(visits: Seq<VisitView>) -> nat {
    visits.filter(|v: VisitView| !(v is Unresolved)).len()
}

/// What stands before a result: the path and `separator` where more than one
/// path resolved, nothing otherwise.
pub open spec fn label(path: Seq<char>, total: nat, separator: Seq<char>) -> Seq<char> {
    if total > 1 {
        path + separator
    } else {
        Seq::empty()
    }
}

/// The one write for an input in count mode: the number of selected lines
/// and a newline, behind the label with a bare colon.
pub open spec fn count_emission(path: Seq<char>, total: nat, selected: nat) -> EmissionView {
    EmissionView::Text { text: label(path, total, ":"@) + decimal(selected) + "\n"@ }
}

/// The write for a selected line of an inverted search: the line as it was
/// read, behind the label with a bare colon.
pub open spec fn plain_emission(path: Seq<char>, total: nat, line: Seq<char>) -> EmissionView {
    EmissionView::Text { text: label(path, total, ":"@) + line }
}

/// The write for a matching line: the line cut around its first match, behind
/// the label with a colon and a space.
pub open spec fn match_emission(
    pattern: PatternView,
    path: Seq<char>,
    total: nat,
    line: Seq<char>,
) -> EmissionView {
    let span = pattern.first_match(line)->0;
    EmissionView::Match { label: label(path, total, ": "@), parts: cut(line, span.0, span.1) }
}

/// The writes for an input whose lines were all read.
pub open spec fn line_emissions(
    config: ConfigView,
    total: nat,
    path: Seq<char>,
    lines: Seq<Seq<char>>,
) -> Seq<EmissionView> {
    let selected = select_lines(config.pattern, lines, config.invert_match);
    if config.count {
        seq![count_emission(path, total, selected.len())]
    } else if config.invert_match {
        selected.map_values(|line: Seq<char>| plain_emission(path, total, line))
    } else {
        selected.map_values(|line: Seq<char>| match_emission(config.pattern, path, total, line))
    }
}

/// The writes for one visit, where `total` paths resolved in the whole run.
pub open spec fn emissions_of(config: ConfigView, total: nat, visit: VisitView) -> Seq<
    EmissionView,
> {
    match visit {
        VisitView::Unresolved { error } => seq![EmissionView::Failure { error }],
        VisitView::Unopened { path, message } => seq![
            EmissionView::Failure {
                error: SearchErrorView::Open { path, message: path_message(path, message) },
            },
        ],
        VisitView::Unread { path, message } => seq![
            EmissionView::Failure { error: SearchErrorView::Io { path, message } },
        ],
        VisitView::Read { path, lines } => line_emissions(config, total, path, lines),
    }
}

/// The writes of a whole run, in order: those of each visit, labelled by the
/// number of paths that resolved.
pub open spec fn run_emissions(config: ConfigView, visits: Seq<VisitView>) -> Seq<EmissionView> {
    visits.map_values(|v: VisitView| emissions_of(config, searched_count(visits), v)).flatten()
}

fn label_text(path: &str, total: usize, separator: &str) -> (text: String)
    ensures
        text@ == label(path@, total as nat, separator@),
{
    if total > 1 {
        join(path, separator)
    } else {
        String::new()
    }
}

fn line_report(config: &Config, total: usize, path: &str, lines: &[String]) -> (emissions: Vec<
    Emission,
>)
    ensures
        emission_views(emissions@) == line_emissions(config@, total as nat, path@, texts(lines@)),
{
    let pattern = config.pattern();
    let invert_match = config.invert_match();
    let matches = find_lines(lines, pattern, invert_match);
    let ghost selected = texts(matches@);
    let mut emissions: Vec<Emission> = Vec::new();
    if config.count() {
        let text = join3(
            label_text(path, total, ":").as_str(),
            decimal_string(matches.len()).as_str(),
            "\n",
        );
        emissions.push(Emission::Text { text });
        return emissions;
    }
    let ghost plain = |line: Seq<char>| plain_emission(path@, total as nat, line);
    let ghost cutting = |line: Seq<char>| match_emission(config@.pattern, path@, total as nat, line);
    let ghost each = if invert_match {
        plain
    } else {
        cutting
    };
    let mut i: usize = 0;
    while i < matches.len()
        invariant
            i <= matches.len(),
            selected == texts(matches@),
            selected == select_lines(config@.pattern, texts(lines@), invert_match),
            pattern@ == config@.pattern,
            plain == (|line: Seq<char>| plain_emission(path@, total as nat, line)),
            cutting == (|line: Seq<char>|
                match_emission(config@.pattern, path@, total as nat, line)),
            each == if invert_match {
                plain
            } else {
                cutting
            },
            emission_views(emissions@) == selected.take(i as int).map_values(each),
        decreases matches.len() - i,
    {
        let ghost so_far = emissions@;
        let line = matches[i].as_str();
        assert(selected[i as int] == line@);
        let emission = if invert_match {
            Emission::Text { text: join(label_text(path, total, ":").as_str(), line) }
        } else {
            // A selected line of a search that is not inverted matches, so
            // there is a first match to cut around.
            match highlight(line, pattern) {
                Some(parts) => Emission::Match { label: label_text(path, total, ": "), parts },
                None => unreached(),
            }
        };
        emissions.push(emission);
        assert(emission_views(emissions@) =~= emission_views(so_far).push(emission@));
        i += 1;
    }
    emissions
}

/// The writes for one visit, where `total` paths resolved in the whole run
/// (as `count_resolved` counts them among the outcomes).
///
/// A failure of resolving, opening or reading gives one line for standard
/// error and nothing else. An input that was read gives, in count mode, the
/// number of its selected lines; otherwise one write for each selected line,
/// as it was read for an inverted search, and cut around its first match for
/// a plain one. Each write for standard output carries the path as a label
/// exactly where `total` is more than one.
pub fn report(config: &Config, total: usize, visit: &Visit) -> (emissions: Vec<Emission>)
    ensures
        emission_views(emissions@) == emissions_of(config@, total as nat, visit@),
{
    match visit {
        Visit::Unresolved { error } => {
            let mut emissions: Vec<Emission> = Vec::new();
            emissions.push(Emission::Failure { error: error.duplicate() });
            emissions
        },
        Visit::Unopened { path, message } => {
            let mut emissions: Vec<Emission> = Vec::new();
            let error = SearchError::Open {
                path: path.clone(),
                message: join3(path.as_str(), ": ", message.as_str()),
            };
            emissions.push(Emission::Failure { error });
            emissions
        },
        Visit::Unread { path, message } => {
            let mut emissions: Vec<Emission> = Vec::new();
            let error = SearchError::Io { path: path.clone(), message: message.clone() };
            emissions.push(Emission::Failure { error });
            emissions
        },
        Visit::Read { path, lines } => line_report(config, total, path.as_str(), lines),
    }
}

/// How many of `visits` were of a resolved path.
pub fn count_searched(visits: &[Visit]) -> (count: usize)
    ensures
        count == searched_count(visit_views(visits@)),
{
    let ghost views = visit_views(visits@);
    let ghost keep = |v: VisitView| !(v is Unresolved);
    let mut count: usize = 0;
    let mut i: usize = 0;
    while i < visits.len()
        invariant
            i <= visits.len(),
            views == visit_views(visits@),
            keep == (|v: VisitView| !(v is Unresolved)),
            count == views.take(i as int).filter(keep).len(),
            count <= i,
        decreases visits.len() - i,
    {
        proof {
            reveal(Seq::filter);
            assert(views.take(i + 1).drop_last() =~= views.take(i as int));
        }
        match &visits[i] {
            Visit::Unresolved { .. } => {},
            _ => {
                count += 1;
            },
        }
        i += 1;
    }
    assert(views.take(visits.len() as int) =~= views);
    count
}

/// The writes of a whole run, in the order of the visits.
///
/// The number of paths that resolved is counted once, over all visits, and
/// decides for every write whether it carries its path as a label. No
/// failure of a single input stops the run: each gives its one line for
/// standard error, and the other inputs are reported as if it were not there.
pub fn run(config: &Config, visits: &[Visit]) -> (emissions: Vec<Emission>)
    ensures
        emission_views(emissions@) == run_emissions(config@, visit_views(visits@)),
{
    let total = count_searched(visits);
    let ghost views = visit_views(visits@);
    let ghost each = |v: VisitView| emissions_of(config@, searched_count(views), v);
    let mut emissions: Vec<Emission> = Vec::new();
    let mut i: usize = 0;
    while i < visits.len()
        invariant
            i <= visits.len(),
            views == visit_views(visits@),
            total == searched_count(views),
            each == (|v: VisitView| emissions_of(config@, searched_count(views), v)),
            emission_views(emissions@) == views.take(i as int).map_values(each).flatten(),
        decreases visits.len() - i,
    {
        let mut part = report(config, total, &visits[i]);
        emissions.append(&mut part);
        proof {
            let shorter = views.take(i as int).map_values(each);
            assert(views.take(i + 1).map_values(each) =~= shorter.push(each(views[i as int])));
            shorter.lemma_flatten_push(each(views[i as int]));
        }
        i += 1;
    }
    assert(views.take(visits.len() as int) =~= views);
    emissions
}

} // verus!
