//! Turning the raw line-read results of the input file into the ordered
//! identifier sequence, and building each identifier's page address.

use vstd::prelude::*;

verus! {

/// The identifiers kept from the raw line reads: lines that could not be
/// read (`None`) are dropped, every other line — the empty one included —
/// is kept, in file order.
pub open spec fn kept_lines(ls: Seq<Option<Seq<char>>>) -> Seq<Seq<char>>
    decreases ls.len(),
{
    if ls.len() == 0 {
        Seq::<Seq<char>>::empty()
    } else {
        let rest = kept_lines(ls.drop_first());
        match ls[0] {
            Some(l) => seq![l] + rest,
            None => rest,
        }
    }
}

proof fn lemma_kept_lines_step(ls: Seq<Option<Seq<char>>>, k: int)
    requires
        0 <= k < ls.len(),
    ensures
        kept_lines(ls.skip(k)) == match ls[k] {
            Some(l) => seq![l] + kept_lines(ls.skip(k + 1)),
            None => kept_lines(ls.skip(k + 1)),
        },
{
    assert(ls.skip(k).len() > 0);
    assert(ls.skip(k)[0] == ls[k]);
    assert(ls.skip(k).drop_first() =~= ls.skip(k + 1));
}

/// Keep the lines that were read, in order: one identifier per readable
/// line, unreadable lines dropped, empty lines kept as empty identifiers.
pub fn collect_ids(lines: &Vec<Option<String>>) -> (r: Vec<String>)
    ensures
        r.deep_view() == kept_lines(lines.deep_view()),
{
    let ghost dv = lines.deep_view();
    let mut ids: Vec<String> = Vec::new();
    proof {
        assert(dv.skip(0) =~= dv);
    }
    let mut k: usize = 0;
    while k < lines.len()
        invariant
            k <= lines@.len(),
            dv == lines.deep_view(),
            dv.len() == lines@.len(),
            ids.deep_view() + kept_lines(dv.skip(k as int)) =~= kept_lines(dv),
        decreases lines@.len() - k,
    {
        let ghost pre = ids.deep_view();
        match &lines[k] {
            Some(l) => {
                ids.push(l.clone());
                proof {
                    assert(ids.deep_view() =~= pre.push(l@));
                }
            },
            None => {},
        }
        proof {
            assert(dv[k as int] == lines@[k as int].deep_view());
            lemma_kept_lines_step(dv, k as int);
            assert(ids.deep_view() + kept_lines(dv.skip(k + 1)) =~= kept_lines(dv));
        }
        k += 1;
    }
    proof {
        assert(dv.skip(k as int) =~= Seq::<Option<Seq<char>>>::empty());
        assert(ids.deep_view() =~= kept_lines(dv));
    }
    ids
}

/// The fixed base address of the marketplace product pages.
pub open spec fn url_base() -> Seq<char> {
    "https://marketplace.fedramp.gov/products/"@
}

/// The page address for an identifier: the base address with the
/// identifier appended as it stands, without any escaping.
pub fn url_for(id: &str) -> (r: String)
    ensures
        r@ == url_base() + id@,
{
    let mut u = String::from_str("https://marketplace.fedramp.gov/products/");
    u.append(id);
    u
}

} // verus!
