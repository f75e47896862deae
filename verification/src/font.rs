//! Font fallback runs: text is drawn in stretches that one typeface covers,
//! each character going to the registered typeface when it has a glyph for
//! it and to a system fallback otherwise. Which typeface covers a character
//! is the font manager's answer; here the answers are grouped into runs.
use vstd::prelude::*;

use crate::keyboard::push_char;
use crate::text::chars_of;

verus! {

/// The runs of `chars`, where `faces[i]` identifies the typeface drawing
/// `chars[i]`: maximal stretches of neighbouring characters with one face.
pub open spec fn runs_of(chars: Seq<char>, faces: Seq<u32>) -> Seq<(Seq<char>, u32)>
    decreases chars.len(),
{
    if chars.len() == 0 {
        Seq::empty()
    } else {
        let r = runs_of(chars.drop_last(), faces.drop_last());
        let c = chars.last();
        let f = faces[chars.len() - 1];
        if r.len() > 0 && r.last().1 == f {
            r.update(r.len() - 1, (r.last().0.push(c), f))
        } else {
            r.push((seq![c], f))
        }
    }
}

/// The texts of a list of runs, one after the other.
pub open spec fn joined(r: Seq<(Seq<char>, u32)>) -> Seq<char>
    decreases r.len(),
{
    if r.len() == 0 {
        Seq::empty()
    } else {
        joined(r.drop_last()) + r.last().0
    }
}

pub open spec fn run_views(r: Seq<(String, u32)>) -> Seq<(Seq<char>, u32)> {
    r.map_values(|x: (String, u32)| (x.0@, x.1))
}

/// Splits `text` into runs by the typeface of each character.
pub fn face_runs(text: &str, faces: &Vec<u32>) -> (r: Vec<(String, u32)>)
    requires
        faces@.len() == text@.len(),
    ensures
        run_views(r@) == runs_of(text@, faces@),
{
    let v = chars_of(text);
    let mut runs: Vec<(String, u32)> = Vec::new();
    let mut i: usize = 0;
    while i < v.len()
        invariant
            v@ == text@,
            faces@.len() == v@.len(),
            i <= v@.len(),
            run_views(runs@) == runs_of(v@.take(i as int), faces@.take(i as int)),
        decreases v@.len() - i,
    {
        let c = v[i];
        let f = faces[i];
        proof {
            assert(v@.take(i + 1).drop_last() =~= v@.take(i as int));
            assert(faces@.take(i + 1).drop_last() =~= faces@.take(i as int));
        }
        let n = runs.len();
        if n > 0 && runs[n - 1].1 == f {
            let (mut s, g) = runs.pop().unwrap();
            push_char(&mut s, c);
            runs.push((s, g));
            proof {
                assert(run_views(runs@) =~= runs_of(v@.take(i + 1), faces@.take(i + 1)));
            }
        } else {
            let mut s = String::new();
            push_char(&mut s, c);
            runs.push((s, f));
            proof {
                assert(run_views(runs@) =~= runs_of(v@.take(i + 1), faces@.take(i + 1)));
            }
        }
        i = i + 1;
    }
    proof {
        assert(v@.take(v@.len() as int) =~= v@);
        assert(faces@.take(v@.len() as int) =~= faces@);
    }
    runs
}

/// The runs hold the text, in order, and no character twice; every run
/// has text; neighbouring runs are drawn by different typefaces.
pub proof fn law_runs_partition_text(chars: Seq<char>, faces: Seq<u32>)
    requires
        faces.len() == chars.len(),
    ensures
        joined(runs_of(chars, faces)) == chars,
        forall|k: int| 0 <= k < runs_of(chars, faces).len() ==> #[trigger] runs_of(chars, faces)[k].0.len() > 0,
        forall|k: int|
            0 <= k < runs_of(chars, faces).len() - 1 ==> #[trigger] runs_of(chars, faces)[k].1
                != runs_of(chars, faces)[k + 1].1,
    decreases chars.len(),
{
    if chars.len() > 0 {
        let r = runs_of(chars.drop_last(), faces.drop_last());
        law_runs_partition_text(chars.drop_last(), faces.drop_last());
        let c = chars.last();
        let f = faces[chars.len() - 1];
        let out = runs_of(chars, faces);
        if r.len() > 0 && r.last().1 == f {
            assert(out.drop_last() =~= r.drop_last());
            assert(joined(out) == joined(r.drop_last()) + r.last().0.push(c));
            assert(joined(r) == joined(r.drop_last()) + r.last().0);
            assert(joined(out) =~= joined(r).push(c));
            assert(chars =~= chars.drop_last().push(c));
        } else {
            assert(out.drop_last() =~= r);
            assert(joined(out) =~= joined(r) + seq![c]);
            assert(chars =~= chars.drop_last().push(c));
        }
        assert forall|k: int| 0 <= k < out.len() - 1 implies #[trigger] out[k].1 != out[k + 1].1 by {
            if k + 1 < r.len() {
                assert(out[k] == r[k]);
            }
        }
    }
}

} // verus!
