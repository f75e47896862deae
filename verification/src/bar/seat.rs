//! Seat input as the bar sees it: how a key event arrived, and which of the
//! formats a drag-and-drop offer carries the bar asks for.
use vstd::prelude::*;

verus! {

/// How a key event reached the bar.
#[derive(Debug, Clone, Copy, PartialEq, Eq, Structural)]
pub enum KeyTiming {
    Press,
    Release,
    Repeat,
}

/// The formats a drop is read in, most wanted first.
pub open spec fn preferred_drop_mime_types() -> Seq<Seq<char>> {
    seq!["text/uri-list"@, "text/plain;charset=utf-8"@, "text/plain"@]
}

/// Whether some offered type has the view `m`.
pub open spec fn offers(mime_types: Seq<String>, m: Seq<char>) -> bool {
    exists|i: int| 0 <= i < mime_types.len() && mime_types[i]@ == m
}

/// The format to take from an offer: the first preferred format that is on
/// offer, else the first offered type, else none.
pub open spec fn drop_choice(mime_types: Seq<String>) -> Option<Seq<char>> {
    let p = preferred_drop_mime_types();
    if offers(mime_types, p[0]) {
        Some(p[0])
    } else if offers(mime_types, p[1]) {
        Some(p[1])
    } else if offers(mime_types, p[2]) {
        Some(p[2])
    } else if mime_types.len() > 0 {
        Some(mime_types[0]@)
    } else {
        None
    }
}

/// The offered type equal to `wanted`, if there is one.
fn find_offered(mime_types: &[String], wanted: &String) -> (r: Option<String>)
    ensures
        offers(mime_types@, wanted@) <==> r is Some,
        r matches Some(m) ==> m@ == wanted@,
{
    let mut i: usize = 0;
    while i < mime_types.len()
        invariant
            i <= mime_types.len(),
            forall|j: int| 0 <= j < i ==> mime_types@[j]@ != wanted@,
        decreases mime_types.len() - i,
    {
        if mime_types[i] == *wanted {
            return Some(mime_types[i].clone());
        }
        i = i + 1;
    }
    None
}

/// Picks the format a drop offer is read in: `text/uri-list`, then
/// `text/plain;charset=utf-8`, then `text/plain`, then whatever the source
/// offers first; `None` for an offer without types.
pub fn pick_drop_mime(mime_types: &[String]) -> (r: Option<String>)
    ensures
        match (r, drop_choice(mime_types@)) {
            (Some(m), Some(c)) => m@ == c,
            (None, None) => true,
            _ => false,
        },
{
    let candidates = vec![
        String::from_str("text/uri-list"),
        String::from_str("text/plain;charset=utf-8"),
        String::from_str("text/plain"),
    ];
    let mut k: usize = 0;
    while k < 3
        invariant
            k <= 3,
            candidates@.len() == 3,
            forall|j: int| 0 <= j < 3 ==> candidates@[j]@ == preferred_drop_mime_types()[j],
            forall|j: int| 0 <= j < k ==> !offers(mime_types@, #[trigger] preferred_drop_mime_types()[j]),
        decreases 3 - k,
    {
        if let Some(m) = find_offered(mime_types, &candidates[k]) {
            return Some(m);
        }
        k = k + 1;
    }
    if mime_types.len() > 0 {
        Some(mime_types[0].clone())
    } else {
        None
    }
}

/// The format taken from a drop offer is the first of `text/uri-list`,
/// `text/plain;charset=utf-8`, `text/plain` (in that order) that is offered;
/// only when none of them is offered is it the first offered type; an offer
/// without types gives none.
pub proof fn law_drop_preference(mime_types: Seq<String>)
    ensures
        offers(mime_types, "text/uri-list"@) ==> drop_choice(mime_types) == Some("text/uri-list"@),
        !offers(mime_types, "text/uri-list"@) && offers(mime_types, "text/plain;charset=utf-8"@)
            ==> drop_choice(mime_types) == Some("text/plain;charset=utf-8"@),
        !offers(mime_types, "text/uri-list"@) && !offers(mime_types, "text/plain;charset=utf-8"@)
            && offers(mime_types, "text/plain"@) ==> drop_choice(mime_types) == Some("text/plain"@),
        !offers(mime_types, "text/uri-list"@) && !offers(mime_types, "text/plain;charset=utf-8"@)
            && !offers(mime_types, "text/plain"@) && mime_types.len() > 0 ==> drop_choice(mime_types)
            == Some(mime_types[0]@),
        mime_types.len() == 0 ==> drop_choice(mime_types) is None,
        drop_choice(mime_types) matches Some(c) ==> offers(mime_types, c),
{
    if mime_types.len() > 0 {
        assert(mime_types[0]@ == mime_types[0]@);
    }
}

} // verus!
