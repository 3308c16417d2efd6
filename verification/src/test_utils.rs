//! Building source texts for tests by textual substitution.

use vstd::prelude::*;

verus! {

/// `s` with every match of `from` replaced by `to`. Matches are found from the left
/// and do not overlap; an empty `from` matches at every character boundary, so `to`
/// is put before each character and at the end.
pub open spec fn str_replace(s: Seq<char>, from: Seq<char>, to: Seq<char>) -> Seq<char>
    decreases s.len(),
{
    if from.len() == 0 {
        if s.len() == 0 {
            to
        } else {
            to + seq![s[0]] + str_replace(s.skip(1), from, to)
        }
    } else if s.len() < from.len() {
        s
    } else if s.take(from.len() as int) == from {
        to + str_replace(s.skip(from.len() as int), from, to)
    } else {
        seq![s[0]] + str_replace(s.skip(1), from, to)
    }
}

/// `str::replace`: replaces all matches of `from` in `s` with `to`, leftmost first and
/// without overlap, as `str_replace` spells out.
#[verifier::external_body]
fn replace_all(s: &str, from: &str, to: &str) -> (res: String)
    ensures
        res@ == str_replace(s@, from@, to@),
{
    s.replace(from, to)
}

/// `original` after applying each replacement in turn.
pub open spec fn substituted(replacements: Seq<(Seq<char>, Seq<char>)>, original: Seq<char>) -> Seq<char>
    decreases replacements.len(),
{
    if replacements.len() == 0 {
        original
    } else {
        str_replace(
            substituted(replacements.drop_last(), original),
            replacements.last().0,
            replacements.last().1,
        )
    }
}

/// The replacements, where the replacement text of each pair has first had the
/// earlier replacements applied to it.
pub open spec fn compounded(pairs: Seq<(Seq<char>, Seq<char>)>) -> Seq<(Seq<char>, Seq<char>)>
    decreases pairs.len(),
{
    if pairs.len() == 0 {
        Seq::empty()
    } else {
        let earlier = compounded(pairs.drop_last());
        earlier.push((pairs.last().0, substituted(earlier, pairs.last().1)))
    }
}

pub open spec fn owned_pairs_view<'a>(r: Seq<(&'a str, String)>) -> Seq<(Seq<char>, Seq<char>)> {
    r.map_values(|p: (&'a str, String)| (p.0@, p.1@))
}

pub open spec fn pairs_view<'a>(r: Seq<(&'a str, &'a str)>) -> Seq<(Seq<char>, Seq<char>)> {
    r.map_values(|p: (&'a str, &'a str)| (p.0@, p.1@))
}

/// Applies each replacement to `original` in turn.
pub fn substitute_without_compounding(replacements: &[(&str, String)], original: &str) -> (res: String)
    ensures
        res@ == substituted(owned_pairs_view(replacements@), original@),
{
    let ghost reps = owned_pairs_view(replacements@);
    let mut result = original.to_owned();
    let mut i: usize = 0;
    while i < replacements.len()
        invariant
            i <= replacements@.len(),
            reps == owned_pairs_view(replacements@),
            result@ == substituted(reps.take(i as int), original@),
        decreases replacements@.len() - i,
    {
        let (from, to) = &replacements[i];
        result = replace_all(result.as_str(), from, to.as_str());
        proof {
            assert(reps.take(i + 1).drop_last() =~= reps.take(i as int));
            assert(reps.take(i + 1).last() == reps[i as int]);
        }
        i += 1;
    }
    assert(reps.take(replacements@.len() as int) =~= reps);
    result
}

/// Applies the replacements `pairs` to `last`, where each replacement text has
/// first had the earlier replacements applied to it.
pub fn substitute_with_compounding<'a>(pairs: &[(&'a str, &'a str)], last: &'a str) -> (res: String)
    ensures
        res@ == substituted(compounded(pairs_view(pairs@)), last@),
{
    let ghost ps = pairs_view(pairs@);
    let mut replacements: Vec<(&'a str, String)> = Vec::new();
    let mut i: usize = 0;
    while i < pairs.len()
        invariant
            i <= pairs@.len(),
            ps == pairs_view(pairs@),
            owned_pairs_view(replacements@) == compounded(ps.take(i as int)),
        decreases pairs@.len() - i,
    {
        let (from, unreplaced_to) = pairs[i];
        let to = substitute_without_compounding(replacements.as_slice(), unreplaced_to);
        let ghost before = replacements@;
        replacements.push((from, to));
        proof {
            assert(ps.take(i + 1).drop_last() =~= ps.take(i as int));
            assert(ps.take(i + 1).last() == ps[i as int]);
            assert(owned_pairs_view(replacements@) =~= owned_pairs_view(before).push((from@, to@)));
        }
        i += 1;
    }
    assert(ps.take(pairs@.len() as int) =~= ps);
    substitute_without_compounding(replacements.as_slice(), last)
}

} // verus!
