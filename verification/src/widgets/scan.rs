//! Keyboard cursors of the multi-item controls move to the nearest enabled
//! item in one direction, skipping disabled ones and stopping at the ends.
use vstd::prelude::*;

verus! {

/// The first enabled index at or after `from`.
pub open spec fn scan_forward(en: Seq<bool>, from: int) -> Option<int>
    decreases en.len() - from,
{
    if from < 0 || from >= en.len() {
        None
    } else if en[from] {
        Some(from)
    } else {
        scan_forward(en, from + 1)
    }
}

/// The last enabled index at or before `from`.
pub open spec fn scan_backward(en: Seq<bool>, from: int) -> Option<int>
    decreases from + 1,
{
    if from < 0 || from >= en.len() {
        None
    } else if en[from] {
        Some(from)
    } else {
        scan_backward(en, from - 1)
    }
}

/// A forward scan from `from` finds the nearest enabled index, or reports
/// that every index from `from` on is disabled.
pub proof fn lemma_scan_forward(en: Seq<bool>, from: int)
    requires
        0 <= from,
    ensures
        scan_forward(en, from) matches Some(j) ==> from <= j < en.len() && en[j] && forall|k: int|
            from <= k < j ==> !#[trigger] en[k],
        scan_forward(en, from) is None ==> forall|k: int| from <= k < en.len() ==> !#[trigger] en[k],
    decreases en.len() - from,
{
    if from < en.len() && !en[from] {
        lemma_scan_forward(en, from + 1);
    }
}

/// A backward scan from `from` finds the nearest enabled index, or reports
/// that every index up to `from` is disabled.
pub proof fn lemma_scan_backward(en: Seq<bool>, from: int)
    requires
        from < en.len(),
    ensures
        scan_backward(en, from) matches Some(j) ==> 0 <= j <= from && en[j] && forall|k: int|
            j < k <= from ==> !#[trigger] en[k],
        scan_backward(en, from) is None ==> forall|k: int| 0 <= k <= from ==> !#[trigger] en[k],
    decreases from + 1,
{
    if 0 <= from && !en[from] {
        lemma_scan_backward(en, from - 1);
    }
}

/// `scan_forward(en, from)` for an executable sequence of flags.
pub fn find_forward(en: &Vec<bool>, from: usize) -> (r: Option<usize>)
    ensures
        r matches Some(j) ==> scan_forward(en@, from as int) == Some(j as int),
        r is None ==> scan_forward(en@, from as int) is None,
{
    let mut i = from;
    while i < en.len()
        invariant
            from <= i,
            scan_forward(en@, from as int) == scan_forward(en@, i as int),
        decreases en.len() - i,
    {
        if en[i] {
            return Some(i);
        }
        i = i + 1;
    }
    None
}

/// `scan_backward(en, from - 1)` for an executable sequence of flags: the
/// nearest enabled index strictly before `from`.
pub fn find_backward(en: &Vec<bool>, from: usize) -> (r: Option<usize>)
    ensures
        r matches Some(j) ==> scan_backward(en@, from - 1) == Some(j as int),
        r is None ==> scan_backward(en@, from - 1) is None,
{
    if from == 0 || from - 1 >= en.len() {
        return None;
    }
    let mut i = from - 1;
    loop
        invariant
            i < en.len(),
            scan_backward(en@, from - 1) == scan_backward(en@, i as int),
        decreases i,
    {
        if en[i] {
            return Some(i);
        }
        if i == 0 {
            return None;
        }
        i = i - 1;
    }
}

} // verus!
