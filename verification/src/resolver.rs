//! From the requested paths, and what the file system said of each, to the
//! ordered list of inputs to search.

use crate::error::SearchError;
use crate::error::SearchErrorView;
use crate::text::is_stdin;
use crate::text::join;
use crate::text::join3;
use crate::text::path_message;
use crate::text::stdin_name;
use vstd::prelude::*;

verus! {

/// What kind of thing a path names.
#[derive(Clone, Copy, Debug, PartialEq, Eq)]
pub enum EntryKind {
    File,
    Directory,
    Symlink,
    Other,
}

/// One step of a walk through a directory tree.
#[derive(Clone, Debug, PartialEq, Eq)]
pub enum WalkEntry {
    /// The walk could not read this entry.
    Unreadable,
    /// The walk came upon `path`.
    Found { path: String, kind: EntryKind },
}

/// The view of a [`WalkEntry`].
pub enum WalkEntryView {
    Unreadable,
    Found { path: Seq<char>, kind: EntryKind },
}

impl View for WalkEntry {
    type V = WalkEntryView;

    open spec fn view(&self) -> WalkEntryView {
        match self {
            WalkEntry::Unreadable => WalkEntryView::Unreadable,
            WalkEntry::Found { path, kind } => WalkEntryView::Found { path: path@, kind: *kind },
        }
    }
}

/// What a metadata lookup said of one requested path.
#[derive(Clone, Debug, PartialEq, Eq)]
pub enum PathProbe {
    /// The lookup failed, with the system's message.
    Unavailable { message: String },
    /// A regular file.
    File,
    /// A directory, with the entries that a walk of it came upon, in the
    /// walk's order. No walk is needed where the search is not recursive.
    Directory { entries: Vec<WalkEntry> },
    /// Neither a regular file nor a directory.
    Other,
}

/// The view of a [`PathProbe`].
pub enum PathProbeView {
    Unavailable { message: Seq<char> },
    File,
    Directory { entries: Seq<WalkEntryView> },
    Other,
}

/// The views of a run of walk entries.
pub open spec fn entry_views(entries: Seq<WalkEntry>) -> Seq<WalkEntryView> {
    entries.map_values(|e: WalkEntry| e@)
}

impl View for PathProbe {
    type V = PathProbeView;

    open spec fn view(&self) -> PathProbeView {
        match self {
            PathProbe::Unavailable { message } => PathProbeView::Unavailable { message: message@ },
            PathProbe::File => PathProbeView::File,
            PathProbe::Directory { entries } => PathProbeView::Directory {
                entries: entry_views(entries@),
            },
            PathProbe::Other => PathProbeView::Other,
        }
    }
}

/// One requested input. Standard input is never looked up; any other path
/// comes with what its lookup said.
#[derive(Clone, Debug, PartialEq, Eq)]
pub enum Request {
    Stdin,
    Path { path: String, probe: PathProbe },
}

/// The view of a [`Request`].
pub enum RequestView {
    Stdin,
    Path { path: Seq<char>, probe: PathProbeView },
}

impl View for Request {
    type V = RequestView;

    open spec fn view(&self) -> RequestView {
        match self {
            Request::Stdin => RequestView::Stdin,
            Request::Path { path, probe } => RequestView::Path { path: path@, probe: probe@ },
        }
    }
}

/// The views of a run of requests.
pub open spec fn request_views(requests: Seq<Request>) -> Seq<RequestView> {
    requests.map_values(|r: Request| r@)
}

/// The result for one input: the path to search, or why there is none.
pub type PathOutcome = Result<String, SearchError>;

/// The view of a [`PathOutcome`].
pub type OutcomeView = Result<Seq<char>, SearchErrorView>;

/// The view of one outcome.
pub open spec fn outcome_view(outcome: PathOutcome) -> OutcomeView {
    match outcome {
        Ok(path) => Ok(path@),
        Err(e) => Err(e@),
    }
}

/// The views of a run of outcomes.
pub open spec fn outcome_views(outcomes: Seq<PathOutcome>) -> Seq<OutcomeView> {
    outcomes.map_values(|o: PathOutcome| outcome_view(o))
}

/// The report for a directory met in a search that is not recursive.
pub open spec fn directory_refusal(path: Seq<char>) -> Seq<char> {
    path + " is a directory"@
}

/// Whether a walk entry is a regular file.
pub open spec fn is_regular_file(entry: WalkEntryView) -> bool {
    entry matches WalkEntryView::Found { kind: EntryKind::File, .. }
}

/// The paths of the regular files among the entries of a walk, in order.
pub open spec fn regular_files(entries: Seq<WalkEntryView>) -> Seq<Seq<char>> {
    entries.filter(|e: WalkEntryView| is_regular_file(e)).map_values(
        |e: WalkEntryView| e->path,
    )
}

/// The outcomes that name the given paths, in order.
pub open spec fn all_resolved(paths: Seq<Seq<char>>) -> Seq<OutcomeView> {
    paths.map_values(|p: Seq<char>| Ok::<Seq<char>, SearchErrorView>(p))
}

/// The outcomes of a walk: its regular files, in order. Directories, links,
/// other entries and entries that could not be read give nothing.
pub open spec fn walk_outcomes(entries: Seq<WalkEntryView>) -> Seq<OutcomeView> {
    all_resolved(regular_files(entries))
}

/// The outcomes for a path that was looked up.
pub open spec fn path_outcomes(path: Seq<char>, probe: PathProbeView, recursive: bool) -> Seq<
    OutcomeView,
> {
    match probe {
        PathProbeView::Unavailable { message } => seq![
            Err(SearchErrorView::Path { path, message: path_message(path, message) }),
        ],
        PathProbeView::File => seq![Ok(path)],
        PathProbeView::Directory { entries } => if recursive {
            walk_outcomes(entries)
        } else {
            seq![Err(SearchErrorView::Path { path, message: directory_refusal(path) })]
        },
        PathProbeView::Other => seq![],
    }
}

/// The outcomes for one request. The name for standard input resolves to
/// itself, also where it was looked up like a path.
pub open spec fn outcomes_of(request: RequestView, recursive: bool) -> Seq<OutcomeView> {
    match request {
        RequestView::Stdin => seq![Ok(stdin_name())],
        RequestView::Path { path, probe } => if path == stdin_name() {
            seq![Ok(path)]
        } else {
            path_outcomes(path, probe, recursive)
        },
    }
}

/// The outcomes for all requested paths: those of each, in the order of the
/// requests.
pub open spec fn resolve(requests: Seq<RequestView>, recursive: bool) -> Seq<OutcomeView> {
    requests.map_values(|p: RequestView| outcomes_of(p, recursive)).flatten()
}

/// How many of the outcomes name a path to search.
pub open spec fn resolved_count(outcomes: Seq<OutcomeView>) -> nat {
    outcomes.filter(|o: OutcomeView| o is Ok).len()
}

proof fn lemma_walk_outcomes_step(entries: Seq<WalkEntryView>, n: int)
    requires
        0 <= n < entries.len(),
    ensures
        walk_outcomes(entries.take(n + 1)) == if is_regular_file(entries[n]) {
            walk_outcomes(entries.take(n)).push(Ok(entries[n]->path))
        } else {
            walk_outcomes(entries.take(n))
        },
{
    reveal(Seq::filter);
    assert(entries.take(n + 1).drop_last() =~= entries.take(n));
}

proof fn lemma_resolve_step(requests: Seq<RequestView>, recursive: bool, n: int)
    requires
        0 <= n < requests.len(),
    ensures
        resolve(requests.take(n + 1), recursive) == resolve(requests.take(n), recursive)
            + outcomes_of(requests[n], recursive),
{
    let each = |p: RequestView| outcomes_of(p, recursive);
    let shorter = requests.take(n).map_values(each);
    assert(requests.take(n + 1).map_values(each) =~= shorter.push(each(requests[n])));
    shorter.lemma_flatten_push(each(requests[n]));
}

/// A single request resolves to its own outcomes.
pub proof fn lemma_resolve_single(request: RequestView, recursive: bool)
    ensures
        resolve(seq![request], recursive) == outcomes_of(request, recursive),
{
    let each = |p: RequestView| outcomes_of(p, recursive);
    let mapped = seq![request].map_values(each);
    mapped.lemma_flatten_singleton();
}

proof fn lemma_all_resolved_count(paths: Seq<Seq<char>>)
    ensures
        resolved_count(all_resolved(paths)) == paths.len(),
    decreases paths.len(),
{
    reveal(Seq::filter);
    if paths.len() > 0 {
        lemma_all_resolved_count(paths.drop_last());
        assert(all_resolved(paths).drop_last() =~= all_resolved(paths.drop_last()));
    }
}

/// A directory that is searched recursively resolves to exactly its regular
/// files: one outcome for each, every one of them a path to search, in the
/// walk's order, whatever else the walk came upon. The one directory this
/// does not hold of is one named like standard input.
pub proof fn lemma_recursive_directory_resolves_to_its_files(
    path: Seq<char>,
    entries: Seq<WalkEntryView>,
)
    requires
        path != stdin_name(),
    ensures
        ({
            let request = RequestView::Path { path, probe: PathProbeView::Directory { entries } };
            let outcomes = resolve(seq![request], true);
            &&& outcomes == all_resolved(regular_files(entries))
            &&& outcomes.len() == regular_files(entries).len()
            &&& resolved_count(outcomes) == regular_files(entries).len()
            &&& forall|i: int| 0 <= i < outcomes.len() ==> outcomes[i] == Ok::<
                Seq<char>,
                SearchErrorView,
            >(#[trigger] regular_files(entries)[i])
        }),
{
    let request = RequestView::Path { path, probe: PathProbeView::Directory { entries } };
    lemma_resolve_single(request, true);
    lemma_all_resolved_count(regular_files(entries));
}

/// A directory that is not searched recursively resolves to exactly one
/// failure, which says that it is a directory. The one directory this does
/// not hold of is one named like standard input.
pub proof fn lemma_plain_directory_is_refused(path: Seq<char>, entries: Seq<WalkEntryView>)
    requires
        path != stdin_name(),
    ensures
        resolve(
            seq![RequestView::Path { path, probe: PathProbeView::Directory { entries } }],
            false,
        ) == seq![
            Err::<Seq<char>, SearchErrorView>(
                SearchErrorView::Path { path, message: path + " is a directory"@ },
            ),
        ],
{
    let request = RequestView::Path { path, probe: PathProbeView::Directory { entries } };
    lemma_resolve_single(request, false);
}

/// A path whose lookup failed resolves to exactly one failure, whose report
/// is the path, a colon and a space, and the system's message; it never
/// resolves to a path to search. The one path this does not hold of is the
/// name for standard input.
pub proof fn lemma_unavailable_path_fails(path: Seq<char>, message: Seq<char>, recursive: bool)
    requires
        path != stdin_name(),
    ensures
        ({
            let request = RequestView::Path { path, probe: PathProbeView::Unavailable { message } };
            let outcomes = resolve(seq![request], recursive);
            &&& outcomes == seq![
                Err::<Seq<char>, SearchErrorView>(
                    SearchErrorView::Path { path, message: path + ": "@ + message },
                ),
            ]
            &&& resolved_count(outcomes) == 0
        }),
{
    reveal_with_fuel(Seq::filter, 2);
    let request = RequestView::Path { path, probe: PathProbeView::Unavailable { message } };
    lemma_resolve_single(request, recursive);
}

/// Appends to `outcomes` the regular files among `entries`.
fn push_walk(entries: &Vec<WalkEntry>, outcomes: &mut Vec<PathOutcome>)
    ensures
        outcome_views(final(outcomes)@) == outcome_views(old(outcomes)@) + walk_outcomes(
            entry_views(entries@),
        ),
{
    let ghost before = outcome_views(outcomes@);
    let ghost views = entry_views(entries@);
    let mut i: usize = 0;
    while i < entries.len()
        invariant
            i <= entries.len(),
            views == entry_views(entries@),
            outcome_views(outcomes@) == before + walk_outcomes(views.take(i as int)),
        decreases entries.len() - i,
    {
        let ghost so_far = outcomes@;
        proof {
            lemma_walk_outcomes_step(views, i as int);
        }
        match &entries[i] {
            WalkEntry::Found { path, kind: EntryKind::File } => {
                let found: PathOutcome = Ok(path.clone());
                outcomes.push(found);
                proof {
                    assert(outcome_views(outcomes@) =~= outcome_views(so_far).push(
                        outcome_view(found),
                    ));
                }
            },
            _ => {},
        }
        i += 1;
    }
    assert(views.take(entries.len() as int) =~= views);
}

/// Appends to `outcomes` what a path that was looked up resolves to.
fn push_path(path: &String, probe: &PathProbe, recursive: bool, outcomes: &mut Vec<PathOutcome>)
    ensures
        outcome_views(final(outcomes)@) == outcome_views(old(outcomes)@) + path_outcomes(
            path@,
            probe@,
            recursive,
        ),
{
    match probe {
        PathProbe::Unavailable { message } => {
            let failed: PathOutcome = Err(
                SearchError::Path {
                    path: path.clone(),
                    message: join3(path.as_str(), ": ", message.as_str()),
                },
            );
            outcomes.push(failed);
        },
        PathProbe::File => {
            let found: PathOutcome = Ok(path.clone());
            outcomes.push(found);
        },
        PathProbe::Directory { entries } => {
            if recursive {
                push_walk(entries, outcomes);
            } else {
                let failed: PathOutcome = Err(
                    SearchError::Path {
                        path: path.clone(),
                        message: join(path.as_str(), " is a directory"),
                    },
                );
                outcomes.push(failed);
            }
        },
        PathProbe::Other => {},
    }
}

/// Appends to `outcomes` what `request` resolves to.
fn push_outcomes(request: &Request, recursive: bool, outcomes: &mut Vec<PathOutcome>)
    ensures
        outcome_views(final(outcomes)@) == outcome_views(old(outcomes)@) + outcomes_of(
            request@,
            recursive,
        ),
{
    match request {
        Request::Stdin => {
            proof {
                reveal_strlit("-");
            }
            let found: PathOutcome = Ok("-".to_owned());
            assert(found->Ok_0@ =~= stdin_name());
            outcomes.push(found);
        },
        Request::Path { path, probe } => {
            if is_stdin(path.as_str()) {
                let found: PathOutcome = Ok(path.clone());
                outcomes.push(found);
            } else {
                push_path(path, probe, recursive, outcomes);
            }
        },
    }
}

/// Resolves the requested paths, in order, into the inputs to search.
///
/// Standard input resolves to its name, also where the name was looked up
/// like a path. A path whose lookup failed, and a directory where `recursive`
/// is off, give one failure each. A regular file resolves to itself. A directory where
/// `recursive` is on gives the regular files of its walk, and nothing where
/// it has none. Anything else gives nothing.
pub fn find_files(requests: &[Request], recursive: bool) -> (outcomes: Vec<PathOutcome>)
    ensures
        outcome_views(outcomes@) == resolve(request_views(requests@), recursive),
{
    let mut outcomes: Vec<PathOutcome> = Vec::new();
    let ghost views = request_views(requests@);
    let mut i: usize = 0;
    while i < requests.len()
        invariant
            i <= requests.len(),
            views == request_views(requests@),
            outcome_views(outcomes@) == resolve(views.take(i as int), recursive),
        decreases requests.len() - i,
    {
        proof {
            lemma_resolve_step(views, recursive, i as int);
        }
        push_outcomes(&requests[i], recursive, &mut outcomes);
        i += 1;
    }
    assert(views.take(requests.len() as int) =~= views);
    outcomes
}

/// How many of `outcomes` name a path to search.
pub fn count_resolved(outcomes: &[PathOutcome]) -> (count: usize)
    ensures
        count == resolved_count(outcome_views(outcomes@)),
{
    let ghost views = outcome_views(outcomes@);
    let ghost keep = |o: OutcomeView| o is Ok;
    let mut count: usize = 0;
    let mut i: usize = 0;
    while i < outcomes.len()
        invariant
            i <= outcomes.len(),
            views == outcome_views(outcomes@),
            keep == (|o: OutcomeView| o is Ok),
            count == views.take(i as int).filter(keep).len(),
            count <= i,
        decreases outcomes.len() - i,
    {
        proof {
            reveal(Seq::filter);
            assert(views.take(i + 1).drop_last() =~= views.take(i as int));
        }
        if outcomes[i].is_ok() {
            count += 1;
        }
        i += 1;
    }
    assert(views.take(outcomes.len() as int) =~= views);
    count
}

} // verus!
