//! What the spell engine's findings mean. The shell launches the
//! engine and hands back, for each misspelling it reported, the list
//! of suggestions; the function here turns those lists into the
//! tool's answer.

use vstd::prelude::*;
use vstd::string::*;

use crate::WordsError;

verus! {

/// The suggestions of the first `k` findings, in the engine's order.
pub open spec fn suggestions_upto(errs: Seq<Vec<String>>, k: int) -> Seq<Seq<char>>
    decreases k,
{
    if k <= 0 {
        Seq::<Seq<char>>::empty()
    } else {
        suggestions_upto(errs, k - 1) + errs[k - 1]@.map_values(|s: String| s@)
    }
}

/// Whether every finding carries at least one suggestion.
pub open spec fn each_has_suggestions(errs: Seq<Vec<String>>) -> bool {
    forall|i: int| 0 <= i < errs.len() ==> (#[trigger] errs[i]@).len() > 0
}

/// Interpret the spell engine's findings for one query: no findings
/// means the word may already be correct; a finding without any
/// suggestion is an error; otherwise every suggestion is handed on,
/// in the engine's order.
pub fn collect_suggestions(spell_errs: &Vec<Vec<String>>, query: &str) -> (r: Result<
    Option<Vec<String>>,
    WordsError,
>)
    ensures
        spell_errs@.len() == 0 ==> (r matches Ok(o) && o is None),
        spell_errs@.len() > 0 && each_has_suggestions(spell_errs@) ==> (r matches Ok(Some(v))
            && v@.map_values(|s: String| s@) == suggestions_upto(
            spell_errs@,
            spell_errs@.len() as int,
        )),
        spell_errs@.len() > 0 && !each_has_suggestions(spell_errs@) ==> (r matches Err(
            WordsError::Input(m),
        ) && m@ == "no suggestion for "@ + query@),
{
    if spell_errs.len() == 0 {
        return Ok(Option::None);
    }
    let mut output: Vec<String> = Vec::new();
    proof {
        assert(output@.map_values(|s: String| s@) =~= suggestions_upto(spell_errs@, 0));
    }
    let mut i: usize = 0;
    while i < spell_errs.len()
        invariant
            i <= spell_errs@.len(),
            forall|t: int| 0 <= t < i ==> (#[trigger] spell_errs@[t]@).len() > 0,
            output@.map_values(|s: String| s@) == suggestions_upto(spell_errs@, i as int),
        decreases spell_errs@.len() - i,
    {
        let se: &Vec<String> = &spell_errs[i];
        if se.len() == 0 {
            return Err(
                WordsError::Input(String::from_str("no suggestion for ").concat(query)),
            );
        }
        let ghost before = output@.map_values(|s: String| s@);
        let mut k: usize = 0;
        while k < se.len()
            invariant
                k <= se@.len(),
                *se == spell_errs@[i as int],
                i < spell_errs@.len(),
                before == suggestions_upto(spell_errs@, i as int),
                output@.map_values(|s: String| s@) == before + se@.map_values(
                    |s: String| s@,
                ).take(k as int),
            decreases se@.len() - k,
        {
            let suggestion: &String = &se[k];
            output.push(suggestion.clone());
            proof {
                assert(output@.map_values(|s: String| s@) =~= (before + se@.map_values(
                    |s: String| s@,
                ).take(k as int)).push(se@[k as int]@));
                assert(se@.map_values(|s: String| s@).take(k + 1) =~= se@.map_values(
                    |s: String| s@,
                ).take(k as int).push(se@[k as int]@));
                assert((before + se@.map_values(|s: String| s@).take(k as int)).push(
                    se@[k as int]@,
                ) =~= before + se@.map_values(|s: String| s@).take(k + 1));
            }
            k = k + 1;
        }
        proof {
            assert(se@.map_values(|s: String| s@).take(se@.len() as int) =~= se@.map_values(
                |s: String| s@,
            ));
            assert(output@.map_values(|s: String| s@) =~= suggestions_upto(spell_errs@, i + 1));
        }
        i = i + 1;
    }
    Ok(Option::Some(output))
}

} // verus!
