use vstd::prelude::*;

use crate::error::CleanError;
use crate::text::{char_is_whitespace, is_trim_of, trim_whitespace};

verus! {

/// A place where ExifTool is looked for; `P` is how a path is held.
#[derive(Debug)]
pub enum ExiftoolCandidate<P> {
    /// The path given in the `EXIFTOOL_PATH` environment variable.
    Custom(P),
    /// This path, relative to the directory of the running program.
    NearApp(&'static str),
    /// This path, relative to the source tree of a development build.
    InSourceTree(&'static str),
}

/// An `ExiftoolCandidate` with its relative path as text.
pub enum CandidateView<P> {
    Custom(P),
    NearApp(Seq<char>),
    InSourceTree(Seq<char>),
}

impl<P> View for ExiftoolCandidate<P> {
    type V = CandidateView<P>;

    open spec fn view(&self) -> CandidateView<P> {
        match self {
            ExiftoolCandidate::Custom(path) => CandidateView::Custom(*path),
            ExiftoolCandidate::NearApp(relative) => CandidateView::NearApp(relative@),
            ExiftoolCandidate::InSourceTree(relative) => CandidateView::InSourceTree(relative@),
        }
    }
}

/// The places where ExifTool is looked for, in order: the path in `EXIFTOOL_PATH` when it
/// is set; when the running program's directory is known, beside it, in its resources,
/// and in the resources of a macOS app bundle; when the source tree is known, in its
/// resources.
pub open spec fn candidate_order<P>(custom: Option<P>, has_app_dir: bool, has_source_tree: bool) -> Seq<
    CandidateView<P>,
> {
    let given = match custom {
        Some(path) => seq![CandidateView::Custom(path)],
        None => Seq::empty(),
    };
    let near_app = if has_app_dir {
        seq![
            CandidateView::NearApp("exiftool"@),
            CandidateView::NearApp("resources/exiftool/exiftool"@),
            CandidateView::NearApp("../Resources/exiftool/exiftool"@),
            CandidateView::NearApp("../Resources/resources/exiftool/exiftool"@),
        ]
    } else {
        Seq::empty()
    };
    let in_source_tree = if has_source_tree {
        seq![CandidateView::InSourceTree("resources/exiftool/exiftool"@)]
    } else {
        Seq::empty()
    };
    given + near_app + in_source_tree
}

/// A path given in `EXIFTOOL_PATH` is tried before every bundled copy, and the source
/// tree is tried last.
pub proof fn lemma_custom_path_first<P>(custom: P, has_app_dir: bool, has_source_tree: bool)
    ensures
        candidate_order(Some(custom), has_app_dir, has_source_tree)[0] == CandidateView::Custom(
            custom,
        ),
        has_source_tree ==> ({
            let order = candidate_order(Some(custom), has_app_dir, has_source_tree);
            order[order.len() - 1] == CandidateView::<P>::InSourceTree(
                "resources/exiftool/exiftool"@,
            )
        }),
{
}

/// Where each place stands in the list, whatever else is known: the given path first
/// when there is one; then, whenever the program's directory is known, all four places
/// near the program in this order (beside it, its resources, and the two resource
/// folders of a macOS app bundle); then, whenever the source tree is known, the source
/// tree's copy, last. Nothing else is looked at, and giving a path only puts it in front.
pub proof fn lemma_candidate_places<P>(
    custom: Option<P>,
    path: P,
    has_app_dir: bool,
    has_source_tree: bool,
)
    ensures
        ({
            let order = candidate_order(custom, has_app_dir, has_source_tree);
            let first_near = if custom is Some {
                1int
            } else {
                0int
            };
            let near = if has_app_dir {
                4int
            } else {
                0int
            };
            &&& order.len() == first_near + near + if has_source_tree {
                1int
            } else {
                0int
            }
            &&& custom matches Some(given) ==> order[0] == CandidateView::Custom(given)
            &&& has_app_dir ==> {
                &&& order[first_near] == CandidateView::<P>::NearApp("exiftool"@)
                &&& order[first_near + 1] == CandidateView::<P>::NearApp(
                    "resources/exiftool/exiftool"@,
                )
                &&& order[first_near + 2] == CandidateView::<P>::NearApp(
                    "../Resources/exiftool/exiftool"@,
                )
                &&& order[first_near + 3] == CandidateView::<P>::NearApp(
                    "../Resources/resources/exiftool/exiftool"@,
                )
            }
            &&& has_source_tree ==> order[order.len() - 1] == CandidateView::<P>::InSourceTree(
                "resources/exiftool/exiftool"@,
            )
        }),
        candidate_order(None::<P>, has_app_dir, has_source_tree) == candidate_order(
            Some(path),
            has_app_dir,
            has_source_tree,
        ).drop_first(),
        candidate_order(Some(path), has_app_dir, has_source_tree)[0] == CandidateView::Custom(path),
{
    assert(candidate_order(None::<P>, has_app_dir, has_source_tree) =~= candidate_order(
        Some(path),
        has_app_dir,
        has_source_tree,
    ).drop_first());
}

/// The places where ExifTool is looked for, in the order of `candidate_order`: `custom`
/// is the value of `EXIFTOOL_PATH`, if set; `has_app_dir` whether the running program's
/// directory is known; `has_source_tree` whether the source tree is known.
pub fn exiftool_candidates<P>(custom: Option<P>, has_app_dir: bool, has_source_tree: bool) -> (candidates:
    Vec<ExiftoolCandidate<P>>)
    ensures
        candidates@.map_values(|candidate: ExiftoolCandidate<P>| candidate@) == candidate_order(
            custom,
            has_app_dir,
            has_source_tree,
        ),
{
    let ghost given = custom;
    let mut candidates: Vec<ExiftoolCandidate<P>> = Vec::new();
    match custom {
        Some(path) => candidates.push(ExiftoolCandidate::Custom(path)),
        None => {},
    }
    if has_app_dir {
        candidates.push(ExiftoolCandidate::NearApp("exiftool"));
        candidates.push(ExiftoolCandidate::NearApp("resources/exiftool/exiftool"));
        candidates.push(ExiftoolCandidate::NearApp("../Resources/exiftool/exiftool"));
        candidates.push(ExiftoolCandidate::NearApp("../Resources/resources/exiftool/exiftool"));
    }
    if has_source_tree {
        candidates.push(ExiftoolCandidate::InSourceTree("resources/exiftool/exiftool"));
    }
    assert(candidates@.map_values(|candidate: ExiftoolCandidate<P>| candidate@) =~= candidate_order(
        given,
        has_app_dir,
        has_source_tree,
    ));
    candidates
}

/// The index of the first candidate that holds a file, given for each candidate, in
/// order, whether it does; `None` when none does.
pub fn first_existing(is_file: &Vec<bool>) -> (first: Option<usize>)
    ensures
        first matches Some(k) ==> k < is_file@.len() && is_file@[k as int] && forall|j: int|
            0 <= j < k ==> !#[trigger] is_file@[j],
        first is None ==> forall|j: int| 0 <= j < is_file@.len() ==> !#[trigger] is_file@[j],
{
    let mut k: usize = 0;
    while k < is_file.len()
        invariant
            k <= is_file@.len(),
            forall|j: int| 0 <= j < k ==> !#[trigger] is_file@[j],
        decreases is_file@.len() - k,
    {
        if is_file[k] {
            return Some(k);
        }
        k = k + 1;
    }
    None
}

/// Where the chosen ExifTool is: a candidate location, or the path that a search of the
/// `PATH` printed.
#[derive(Debug)]
pub enum ExiftoolLocation<P> {
    Candidate(P),
    OnPath(String),
}

/// Whether `s` holds a character that is not whitespace.
pub open spec fn has_text(s: Seq<char>) -> bool {
    exists|k: int| 0 <= k < s.len() && !char_is_whitespace(#[trigger] s[k])
}

/// The trim of `s` is empty exactly when `s` is all whitespace.
proof fn lemma_trim_empty(t: Seq<char>, s: Seq<char>)
    requires
        is_trim_of(t, s),
    ensures
        t.len() == 0 <==> !has_text(s),
{
    let (start, end) = choose|start: int, end: int|
        {
            &&& 0 <= start <= end <= s.len()
            &&& t == s.subrange(start, end)
            &&& forall|k: int| 0 <= k < start ==> char_is_whitespace(#[trigger] s[k])
            &&& forall|k: int| end <= k < s.len() ==> char_is_whitespace(#[trigger] s[k])
            &&& start < end ==> !char_is_whitespace(s[start]) && !char_is_whitespace(s[end - 1])
        };
    if t.len() == 0 {
        assert forall|k: int| 0 <= k < s.len() implies char_is_whitespace(#[trigger] s[k]) by {
            if k >= start {
                assert(end <= k);
            }
        }
    } else {
        assert(!char_is_whitespace(s[start]));
    }
}

/// Picks the ExifTool program. `found` is the first candidate location that holds a file;
/// `path_lookup` is, when there is none, what a successful search of the `PATH` printed.
/// A candidate wins; else the lookup's output, trimmed, unless it is blank; else ExifTool
/// is not found.
pub fn find_exiftool<P>(found: Option<P>, path_lookup: Option<String>) -> (res: Result<
    ExiftoolLocation<P>,
    CleanError,
>)
    ensures
        found matches Some(path) ==> res == Ok::<ExiftoolLocation<P>, CleanError>(
            ExiftoolLocation::Candidate(path),
        ),
        found is None && path_lookup is None ==> res matches Err(CleanError::ExiftoolNotFound),
        found is None ==> (path_lookup matches Some(output) ==> if has_text(output@) {
            res matches Ok(ExiftoolLocation::OnPath(exiftool)) && is_trim_of(exiftool@, output@)
        } else {
            res matches Err(CleanError::ExiftoolNotFound)
        }),
{
    match found {
        Some(path) => Ok(ExiftoolLocation::Candidate(path)),
        None => match path_lookup {
            Some(output) => {
                let trimmed = trim_whitespace(output.as_str());
                proof {
                    lemma_trim_empty(trimmed@, output@);
                }
                if trimmed.is_empty() {
                    Err(CleanError::ExiftoolNotFound)
                } else {
                    Ok(ExiftoolLocation::OnPath(trimmed.to_owned()))
                }
            },
            None => Err(CleanError::ExiftoolNotFound),
        },
    }
}

} // verus!
