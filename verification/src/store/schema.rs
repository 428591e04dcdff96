use vstd::prelude::*;

use crate::text::{split_on, split_on_char, trim, trimmed};

verus! {

/// The statements of a migration script: its pieces between semicolons,
/// without surrounding white space, leaving out the empty ones.
pub open spec fn script_statements(script: Seq<char>) -> Seq<Seq<char>> {
    split_on(script, ';').map_values(|p: Seq<char>| trimmed(p)).filter(|p: Seq<char>| p.len() > 0)
}

/// The statements of a migration script, in order.
pub fn migration_statements(script: &str) -> (r: Vec<String>)
    ensures
        r@.map_values(|s: String| s@) == script_statements(script@),
{
    let ghost nonempty = |p: Seq<char>| p.len() > 0;
    let pieces = split_on_char(script, ';');
    let ghost texts = split_on(script@, ';').map_values(|p: Seq<char>| trimmed(p));
    let mut out: Vec<String> = Vec::new();
    let mut i: usize = 0;
    proof {
        assert(texts.take(0) =~= Seq::<Seq<char>>::empty());
        reveal_with_fuel(Seq::<Seq<char>>::filter, 1);
    }
    while i < pieces.len()
        invariant
            nonempty == (|p: Seq<char>| p.len() > 0),
            pieces@.map_values(|p: String| p@) == split_on(script@, ';'),
            texts == split_on(script@, ';').map_values(|p: Seq<char>| trimmed(p)),
            i <= pieces@.len(),
            out@.map_values(|s: String| s@) == texts.take(i as int).filter(nonempty),
        decreases pieces@.len() - i,
    {
        let t = trim(pieces[i].as_str());
        let ghost prefix = texts.take(i as int);
        let ghost next = texts.take(i + 1);
        proof {
            assert(pieces@.map_values(|p: String| p@)[i as int] == pieces@[i as int]@);
            assert(t@ == texts[i as int]);
            assert(next.drop_last() =~= prefix);
            assert(next.last() == t@);
            reveal_with_fuel(Seq::<Seq<char>>::filter, 1);
            assert(next.filter(nonempty) == if nonempty(t@) {
                prefix.filter(nonempty).push(t@)
            } else {
                prefix.filter(nonempty)
            });
        }
        let ghost before = out@;
        if !t.as_str().is_empty() {
            out.push(t);
            proof {
                assert(out@.map_values(|s: String| s@) =~= before.map_values(|s: String| s@).push(
                    t@,
                ));
            }
        }
        i = i + 1;
    }
    proof {
        assert(texts.take(i as int) =~= texts);
    }
    out
}

} // verus!
