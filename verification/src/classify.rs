//! Protocol-generation classification from a device's advertised name.

use vstd::prelude::*;

verus! {

/// Which command encoding, if any, applies to a discovered device.
#[derive(Clone, Copy, PartialEq, Eq, Structural, Debug)]
pub enum Generation {
    Generation1,
    Generation2,
    NotApplicable,
}

/// The advertised-name prefix of a Generation-1 base station.
pub open spec fn gen1_prefix() -> Seq<char> {
    seq!['H', 'T', 'C', ' ', 'B', 'S']
}

/// The advertised-name prefix of a Generation-2 base station.
pub open spec fn gen2_prefix() -> Seq<char> {
    seq!['L', 'H', 'B', '-']
}

/// `s` starts with `p`.
pub open spec fn has_prefix(s: Seq<char>, p: Seq<char>) -> bool {
    p.len() <= s.len() && s.subrange(0, p.len() as int) == p
}

/// The generation an advertised name classifies as: a pure function of the
/// name's prefix.
pub open spec fn spec_classify(name: Seq<char>) -> Generation {
    if has_prefix(name, gen1_prefix()) {
        Generation::Generation1
    } else if has_prefix(name, gen2_prefix()) {
        Generation::Generation2
    } else {
        Generation::NotApplicable
    }
}

/// A device with no advertised name is never applicable.
pub open spec fn spec_classify_opt(name: Option<Seq<char>>) -> Generation {
    match name {
        Some(n) => spec_classify(n),
        None => Generation::NotApplicable,
    }
}

/// `s` starts with `p`, decided character by character.
fn has_prefix_exec(s: &str, p: &str) -> (b: bool)
    ensures
        b == has_prefix(s@, p@),
{
    let n = s.unicode_len();
    let m = p.unicode_len();
    if n < m {
        assert(!has_prefix(s@, p@));
        return false;
    }
    for i in 0..m
        invariant
            n == s@.len(),
            m == p@.len(),
            m <= n,
            forall|j: int| 0 <= j < i ==> s@[j] == p@[j],
    {
        if s.get_char(i) != p.get_char(i) {
            assert(s@.subrange(0, p@.len() as int)[i as int] != p@[i as int]);
            return false;
        }
    }
    assert(s@.subrange(0, p@.len() as int) =~= p@);
    true
}

/// Classify an advertised name: "HTC BS…" is Generation 1, "LHB-…" is
/// Generation 2, anything else is not applicable.
pub fn classify(name: &str) -> (g: Generation)
    ensures
        g == spec_classify(name@),
{
    proof {
        reveal_strlit("HTC BS");
        reveal_strlit("LHB-");
        assert("HTC BS"@ =~= gen1_prefix());
        assert("LHB-"@ =~= gen2_prefix());
    }
    if has_prefix_exec(name, "HTC BS") {
        Generation::Generation1
    } else if has_prefix_exec(name, "LHB-") {
        Generation::Generation2
    } else {
        Generation::NotApplicable
    }
}

/// Classify a device that may not have advertised a name at all.
pub fn classify_opt(name: &Option<String>) -> (g: Generation)
    ensures
        g == spec_classify_opt(match *name {
            Some(ref n) => Some(n@),
            None => None,
        }),
{
    match name {
        Some(n) => classify(n.as_str()),
        None => Generation::NotApplicable,
    }
}

/// A name that starts with the Generation-1 prefix classifies as
/// Generation 1, whatever its suffix; one that starts with the Generation-2
/// prefix classifies as Generation 2; one that starts with neither is not
/// applicable.
pub proof fn lemma_classify_prefix_only(name: Seq<char>)
    ensures
        has_prefix(name, gen1_prefix()) ==> spec_classify(name) is Generation1,
        has_prefix(name, gen2_prefix()) ==> spec_classify(name) is Generation2,
        !has_prefix(name, gen1_prefix()) && !has_prefix(name, gen2_prefix()) ==> spec_classify(
            name,
        ) is NotApplicable,
{
    if has_prefix(name, gen2_prefix()) {
        assert(!has_prefix(name, gen1_prefix())) by {
            if has_prefix(name, gen1_prefix()) {
                assert(name.subrange(0, 6)[0] == 'H');
                assert(name.subrange(0, 4)[0] == 'L');
                assert(name[0] == 'H' && name[0] == 'L');
            }
        }
    }
}

/// Any suffix appended to a generation's prefix classifies as that
/// generation.
pub proof fn lemma_classify_any_suffix(suffix: Seq<char>)
    ensures
        spec_classify(gen1_prefix() + suffix) is Generation1,
        spec_classify(gen2_prefix() + suffix) is Generation2,
{
    assert((gen1_prefix() + suffix).subrange(0, 6) =~= gen1_prefix());
    assert((gen2_prefix() + suffix).subrange(0, 4) =~= gen2_prefix());
    lemma_classify_prefix_only(gen1_prefix() + suffix);
    lemma_classify_prefix_only(gen2_prefix() + suffix);
}

} // verus!
