use vstd::prelude::*;

verus! {

/// A list index as the native event payload carries it: a single number
/// (`-1` for no selection) or, for a multi-select list, a set of numbers.
#[derive(Clone, Debug, PartialEq, Eq)]
pub enum RawIndex {
    Number(i64),
    Many(Vec<i64>),
}

/// The indices added to and removed from the selection, as carried natively.
#[derive(Clone, Debug, PartialEq, Eq)]
pub struct RawDiff {
    pub added: Vec<i64>,
    pub removed: Vec<i64>,
}

/// The `detail` of a native `action` or `selected` event.
#[derive(Clone, Debug, PartialEq, Eq)]
pub struct RawDetail {
    pub index: RawIndex,
    pub diff: Option<RawDiff>,
}

/// Why a native payload could not be read.
#[derive(Clone, Copy, Debug, PartialEq, Eq, Structural)]
pub enum PayloadError {
    /// An index that is neither the sentinel `-1` nor a valid position.
    BadIndex,
    /// A `selected` event without its diff.
    MissingDiff,
}

/// The index of a list event.
#[derive(Clone, Debug, PartialEq, Eq)]
pub enum ListIndex {
    Single(Option<usize>),
    Multi(Vec<usize>),
}

/// The parsed payload of an `action` event.
#[derive(Clone, Debug, PartialEq, Eq)]
pub struct ActionDetail {
    pub index: ListIndex,
}

/// The indices added to and removed from the selection.
#[derive(Clone, Debug, PartialEq, Eq)]
pub struct IndexDiff {
    pub added: Vec<usize>,
    pub removed: Vec<usize>,
}

/// The parsed payload of a `selected` event.
#[derive(Clone, Debug, PartialEq, Eq)]
pub struct SelectedDetail {
    pub index: ListIndex,
    pub diff: IndexDiff,
}

/// A number that names a list position.
pub open spec fn is_position(x: i64) -> bool {
    0 <= x && x <= usize::MAX
}

pub open spec fn all_positions(v: Seq<i64>) -> bool {
    forall|i: int| 0 <= i < v.len() ==> is_position(#[trigger] v[i])
}

pub open spec fn positions_of(v: Seq<i64>) -> Seq<usize> {
    v.map_values(|x: i64| x as usize)
}

/// Whether the native index `r` can be read.
pub open spec fn raw_index_ok(r: RawIndex) -> bool {
    match r {
        RawIndex::Number(n) => n == -1 || is_position(n),
        RawIndex::Many(v) => all_positions(v@),
    }
}

/// Whether `r` is the list index read from `raw`.
pub open spec fn reads_as(raw: RawIndex, r: ListIndex) -> bool {
    match raw {
        RawIndex::Number(n) => if n == -1 {
            r == ListIndex::Single(None)
        } else {
            r == ListIndex::Single(Some(n as usize))
        },
        RawIndex::Many(v) => match r {
            ListIndex::Multi(m) => m@ == positions_of(v@),
            _ => false,
        },
    }
}

/// Reads each number of `v` as a list position; fails if one is not.
pub fn positions(v: &Vec<i64>) -> (r: Result<Vec<usize>, PayloadError>)
    ensures
        match r {
            Ok(p) => all_positions(v@) && p@ == positions_of(v@),
            Err(e) => !all_positions(v@) && e == PayloadError::BadIndex,
        },
{
    let mut p: Vec<usize> = Vec::new();
    let mut i: usize = 0;
    while i < v.len()
        invariant
            i <= v@.len(),
            all_positions(v@.subrange(0, i as int)),
            p@ == positions_of(v@.subrange(0, i as int)),
        decreases v@.len() - i,
    {
        let x = v[i];
        if x < 0 || x as u64 > usize::MAX as u64 {
            assert(!is_position(v@[i as int]));
            return Err(PayloadError::BadIndex);
        }
        p.push(x as usize);
        proof {
            assert(v@.subrange(0, i + 1) =~= v@.subrange(0, i as int).push(x));
            assert(positions_of(v@.subrange(0, i + 1)) =~= positions_of(v@.subrange(0, i as int)).push(x as usize));
        }
        i = i + 1;
    }
    assert(v@.subrange(0, v@.len() as int) =~= v@);
    Ok(p)
}

impl ListIndex {
    /// Reads a native index: `-1` is no selection, a non-negative number a
    /// single position, a set its positions.
    pub fn from_raw(raw: &RawIndex) -> (r: Result<ListIndex, PayloadError>)
        ensures
            match r {
                Ok(i) => raw_index_ok(*raw) && reads_as(*raw, i),
                Err(e) => !raw_index_ok(*raw) && e == PayloadError::BadIndex,
            },
    {
        match raw {
            RawIndex::Number(n) => {
                if *n == -1 {
                    Ok(ListIndex::Single(None))
                } else if *n < 0 || *n as u64 > usize::MAX as u64 {
                    Err(PayloadError::BadIndex)
                } else {
                    Ok(ListIndex::Single(Some(*n as usize)))
                }
            },
            RawIndex::Many(v) => match positions(v) {
                Ok(p) => Ok(ListIndex::Multi(p)),
                Err(e) => Err(e),
            },
        }
    }
}

impl ActionDetail {
    /// Reads the payload of an `action` event; its diff, if any, is ignored.
    pub fn from_raw(raw: &RawDetail) -> (r: Result<ActionDetail, PayloadError>)
        ensures
            match r {
                Ok(d) => raw_index_ok(raw.index) && reads_as(raw.index, d.index),
                Err(e) => !raw_index_ok(raw.index) && e == PayloadError::BadIndex,
            },
    {
        match ListIndex::from_raw(&raw.index) {
            Ok(index) => Ok(ActionDetail { index }),
            Err(e) => Err(e),
        }
    }
}

impl SelectedDetail {
    /// Reads the payload of a `selected` event: its index and its diff.
    /// A bad index is reported before a missing or bad diff.
    pub fn from_raw(raw: &RawDetail) -> (r: Result<SelectedDetail, PayloadError>)
        ensures
            match r {
                Ok(d) => {
                    &&& raw_index_ok(raw.index)
                    &&& reads_as(raw.index, d.index)
                    &&& raw.diff is Some
                    &&& all_positions(raw.diff.unwrap().added@)
                    &&& all_positions(raw.diff.unwrap().removed@)
                    &&& d.diff.added@ == positions_of(raw.diff.unwrap().added@)
                    &&& d.diff.removed@ == positions_of(raw.diff.unwrap().removed@)
                },
                Err(PayloadError::MissingDiff) => raw_index_ok(raw.index) && raw.diff is None,
                Err(PayloadError::BadIndex) => !raw_index_ok(raw.index) || (raw.diff is Some && (
                !all_positions(raw.diff.unwrap().added@) || !all_positions(
                    raw.diff.unwrap().removed@,
                ))),
            },
    {
        let index = match ListIndex::from_raw(&raw.index) {
            Ok(i) => i,
            Err(e) => return Err(e),
        };
        match &raw.diff {
            None => Err(PayloadError::MissingDiff),
            Some(d) => {
                let added = match positions(&d.added) {
                    Ok(p) => p,
                    Err(e) => return Err(e),
                };
                let removed = match positions(&d.removed) {
                    Ok(p) => p,
                    Err(e) => return Err(e),
                };
                Ok(SelectedDetail { index, diff: IndexDiff { added, removed } })
            },
        }
    }
}

} // verus!
