//! Choosing the one destination that a name denotes.
use vstd::prelude::*;

use crate::directory::{ChannelKind, Destination};

verus! {

/// Which part of the directory a request searches.
#[derive(Clone, Copy, Debug, PartialEq, Eq, Structural)]
pub enum SearchScope {
    /// Text and news channels of the guild.
    Channels,
    /// Active threads of the guild.
    Threads,
}

/// Why a name did not resolve to a destination.
#[derive(Clone, Copy, Debug, PartialEq, Eq, Structural)]
pub enum ResolutionError {
    /// No entry of the snapshot matches.
    NotFound,
    /// Two or more entries of the snapshot match.
    Ambiguous,
}

/// An entry that the search may select: a thread when searching threads, a
/// text or news channel when searching channels.
pub open spec fn in_scope(d: Destination, scope: SearchScope) -> bool {
    match scope {
        SearchScope::Threads => d is Thread,
        SearchScope::Channels => match d {
            Destination::Channel { kind, .. } => kind == ChannelKind::Text || kind == ChannelKind::News,
            Destination::Thread { .. } => false,
        },
    }
}

/// An entry that the search selects: in scope, and named exactly `name`.
pub open spec fn is_match(d: Destination, name: Seq<char>, scope: SearchScope) -> bool {
    in_scope(d, scope) && d.name_view() == name
}

/// Exactly the entry at `i` matches.
pub open spec fn unique_match_at(
    snapshot: Seq<Destination>,
    name: Seq<char>,
    scope: SearchScope,
    i: int,
) -> bool {
    &&& 0 <= i < snapshot.len()
    &&& is_match(snapshot[i], name, scope)
    &&& forall|j: int| 0 <= j < snapshot.len() && #[trigger] is_match(snapshot[j], name, scope) ==> j == i
}

/// No entry matches.
pub open spec fn no_match(snapshot: Seq<Destination>, name: Seq<char>, scope: SearchScope) -> bool {
    forall|j: int| 0 <= j < snapshot.len() ==> !#[trigger] is_match(snapshot[j], name, scope)
}

/// Two distinct entries match.
pub open spec fn several_match(
    snapshot: Seq<Destination>,
    name: Seq<char>,
    scope: SearchScope,
) -> bool {
    exists|j: int, k: int|
        0 <= j < k < snapshot.len() && #[trigger] is_match(snapshot[j], name, scope)
            && #[trigger] is_match(snapshot[k], name, scope)
}

/// The outcome that resolution owes: the position of the single matching
/// entry, `NotFound` when none matches, `Ambiguous` when several do.
pub open spec fn resolves_to(
    snapshot: Seq<Destination>,
    name: Seq<char>,
    scope: SearchScope,
    r: Result<usize, ResolutionError>,
) -> bool {
    match r {
        Ok(i) => unique_match_at(snapshot, name, scope, i as int),
        Err(ResolutionError::NotFound) => no_match(snapshot, name, scope),
        Err(ResolutionError::Ambiguous) => several_match(snapshot, name, scope),
    }
}

/// Whether `d` is selected by a search of `scope` for `name`.
pub fn matches(d: &Destination, name: &String, scope: SearchScope) -> (r: bool)
    ensures
        r == is_match(*d, name@, scope),
{
    let wanted_kind = match scope {
        SearchScope::Threads => match d {
            Destination::Thread { .. } => true,
            Destination::Channel { .. } => false,
        },
        SearchScope::Channels => match d {
            Destination::Channel { kind, .. } => *kind == ChannelKind::Text || *kind
                == ChannelKind::News,
            Destination::Thread { .. } => false,
        },
    };
    wanted_kind && d.name().eq(name)
}

/// Finds the single entry of `snapshot` that matches `name` within `scope`
/// and returns its position. Fails with `NotFound` when no entry matches and
/// with `Ambiguous` when two or more do; it never picks one of several.
pub fn resolve(snapshot: &Vec<Destination>, name: &String, scope: SearchScope) -> (r: Result<
    usize,
    ResolutionError,
>)
    ensures
        resolves_to(snapshot@, name@, scope, r),
{
    let mut found: Option<usize> = None;
    let mut i: usize = 0;
    while i < snapshot.len()
        invariant
            i <= snapshot@.len(),
            found is None ==> forall|j: int| 0 <= j < i ==> !#[trigger] is_match(snapshot@[j], name@, scope),
            found matches Some(f) ==> {
                &&& f < i
                &&& is_match(snapshot@[f as int], name@, scope)
                &&& forall|j: int| 0 <= j < i && #[trigger] is_match(snapshot@[j], name@, scope) ==> j == f
            },
        decreases snapshot@.len() - i,
    {
        if matches(&snapshot[i], name, scope) {
            match found {
                None => {
                    found = Some(i);
                },
                Some(f) => {
                    assert(is_match(snapshot@[f as int], name@, scope));
                    return Err(ResolutionError::Ambiguous);
                },
            }
        }
        i = i + 1;
    }
    match found {
        Some(f) => Ok(f),
        None => Err(ResolutionError::NotFound),
    }
}

/// Resolution is a function of its inputs: two outcomes that both meet the
/// contract of `resolve` on the same snapshot, name and scope are equal.
pub proof fn lemma_resolution_deterministic(
    snapshot: Seq<Destination>,
    name: Seq<char>,
    scope: SearchScope,
    r1: Result<usize, ResolutionError>,
    r2: Result<usize, ResolutionError>,
)
    requires
        resolves_to(snapshot, name, scope, r1),
        resolves_to(snapshot, name, scope, r2),
    ensures
        r1 == r2,
{
    match (r1, r2) {
        (Ok(i), Ok(k)) => {
            assert(is_match(snapshot[k as int], name, scope));
        },
        (Ok(i), Err(ResolutionError::NotFound)) => {
            assert(is_match(snapshot[i as int], name, scope));
        },
        (Err(ResolutionError::NotFound), Ok(k)) => {
            assert(is_match(snapshot[k as int], name, scope));
        },
        (Ok(i), Err(ResolutionError::Ambiguous)) => {
            let (j, k) = choose|j: int, k: int|
                0 <= j < k < snapshot.len() && #[trigger] is_match(snapshot[j], name, scope)
                    && #[trigger] is_match(snapshot[k], name, scope);
        },
        (Err(ResolutionError::Ambiguous), Ok(k)) => {
            let (j, m) = choose|j: int, m: int|
                0 <= j < m < snapshot.len() && #[trigger] is_match(snapshot[j], name, scope)
                    && #[trigger] is_match(snapshot[m], name, scope);
        },
        (Err(ResolutionError::NotFound), Err(ResolutionError::Ambiguous)) => {
            let (j, k) = choose|j: int, k: int|
                0 <= j < k < snapshot.len() && #[trigger] is_match(snapshot[j], name, scope)
                    && #[trigger] is_match(snapshot[k], name, scope);
        },
        (Err(ResolutionError::Ambiguous), Err(ResolutionError::NotFound)) => {
            let (j, k) = choose|j: int, k: int|
                0 <= j < k < snapshot.len() && #[trigger] is_match(snapshot[j], name, scope)
                    && #[trigger] is_match(snapshot[k], name, scope);
        },
        _ => {},
    }
}

} // verus!
