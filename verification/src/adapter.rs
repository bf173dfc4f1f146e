//! The version-selection adapter.
//!
//! The external matrix library ships as a family of mutually exclusive,
//! ABI-incompatible releases, each behind its own build capability. A
//! capability is named `opencv-<suffix>` and stands for the dependency
//! named `opencv_<suffix>`. This module maps capability names to the
//! dependency names they select, one re-export rule per recognized
//! capability, so that a build step can forward exactly one release's
//! symbols into the one fixed internal namespace. Names are handled as
//! byte strings; build capability names are plain ASCII.

use vstd::prelude::*;
use vstd::assert_seqs_equal;

verus! {

/// The recognized capability name prefix, the bytes of `"opencv-"`.
pub open spec fn capability_prefix() -> Seq<u8> {
    seq!['o' as u8, 'p' as u8, 'e' as u8, 'n' as u8, 'c' as u8, 'v' as u8, '-' as u8]
}

/// The dependency name prefix, the bytes of `"opencv_"`.
pub open spec fn dependency_prefix() -> Seq<u8> {
    seq!['o' as u8, 'p' as u8, 'e' as u8, 'n' as u8, 'c' as u8, 'v' as u8, '_' as u8]
}

/// Whether `name` is a capability of the recognized family: it carries
/// the capability prefix.
pub open spec fn is_capability(name: Seq<u8>) -> bool {
    name.len() >= 7 && name.subrange(0, 7) == capability_prefix()
}

/// The dependency a capability selects: the capability prefix replaced by
/// the dependency prefix, with the same suffix.
pub open spec fn dependency_of(name: Seq<u8>) -> Seq<u8> {
    dependency_prefix() + name.skip(7)
}

/// Maps a declared capability name to the dependency it selects, or
/// `None` when the name is not of the recognized family.
pub fn select_dependency(feature: &[u8]) -> (r: Option<Vec<u8>>)
    ensures
        r matches Some(dep) ==> is_capability(feature@) && dep@ == dependency_of(feature@),
        r is Some <==> is_capability(feature@),
{
    if feature.len() < 7 {
        return None;
    }
    let matched = feature[0] == 'o' as u8 && feature[1] == 'p' as u8 && feature[2] == 'e' as u8
        && feature[3] == 'n' as u8 && feature[4] == 'c' as u8 && feature[5] == 'v' as u8
        && feature[6] == '-' as u8;
    if !matched {
        proof {
            if is_capability(feature@) {
                assert(feature@.subrange(0, 7)[0] == feature@[0]);
                assert(feature@.subrange(0, 7)[1] == feature@[1]);
                assert(feature@.subrange(0, 7)[2] == feature@[2]);
                assert(feature@.subrange(0, 7)[3] == feature@[3]);
                assert(feature@.subrange(0, 7)[4] == feature@[4]);
                assert(feature@.subrange(0, 7)[5] == feature@[5]);
                assert(feature@.subrange(0, 7)[6] == feature@[6]);
            }
        }
        return None;
    }
    proof {
        assert_seqs_equal!(feature@.subrange(0, 7) == capability_prefix());
    }
    let mut dep: Vec<u8> = Vec::new();
    dep.push('o' as u8);
    dep.push('p' as u8);
    dep.push('e' as u8);
    dep.push('n' as u8);
    dep.push('c' as u8);
    dep.push('v' as u8);
    dep.push('_' as u8);
    proof {
        assert_seqs_equal!(dep@ == dependency_prefix() + feature@.subrange(7, 7));
    }
    let mut i: usize = 7;
    while i < feature.len()
        invariant
            7 <= i <= feature@.len(),
            dep@ == dependency_prefix() + feature@.subrange(7, i as int),
        decreases feature@.len() - i,
    {
        dep.push(feature[i]);
        proof {
            assert_seqs_equal!(dep@ == dependency_prefix() + feature@.subrange(7, i + 1));
        }
        i = i + 1;
    }
    proof {
        assert_seqs_equal!(dep@ == dependency_of(feature@));
    }
    Some(dep)
}

/// One generated re-export rule: the capability it is guarded by and the
/// dependency whose symbols it forwards.
pub struct ReexportRule {
    pub capability: Vec<u8>,
    pub dependency: Vec<u8>,
}

/// The mathematical value of a re-export rule.
pub struct SpecRule {
    pub capability: Seq<u8>,
    pub dependency: Seq<u8>,
}

impl View for ReexportRule {
    type V = SpecRule;

    open spec fn view(&self) -> SpecRule {
        SpecRule { capability: self.capability@, dependency: self.dependency@ }
    }
}

/// The rules a capability list generates: one per capability of the
/// recognized family, in the order declared, each binding the capability
/// to the dependency it selects.
pub open spec fn spec_rules(features: Seq<Seq<u8>>) -> Seq<SpecRule>
    decreases features.len(),
{
    if features.len() == 0 {
        Seq::empty()
    } else {
        let rest = spec_rules(features.drop_last());
        if is_capability(features.last()) {
            rest.push(
                SpecRule {
                    capability: features.last(),
                    dependency: dependency_of(features.last()),
                },
            )
        } else {
            rest
        }
    }
}

/// Generates the re-export rules for a declared capability list: exactly
/// one rule per name of the recognized family, in declaration order.
pub fn reexport_rules(features: &Vec<Vec<u8>>) -> (r: Vec<ReexportRule>)
    ensures
        r@.map_values(|rule: ReexportRule| rule@) == spec_rules(features.deep_view()),
{
    let ghost all: Seq<Seq<u8>> = features.deep_view();
    let mut out: Vec<ReexportRule> = Vec::new();
    let mut i: usize = 0;
    proof {
        assert(all.take(0) =~= Seq::<Seq<u8>>::empty());
        assert(out@.map_values(|rule: ReexportRule| rule@) =~= spec_rules(all.take(0)));
    }
    while i < features.len()
        invariant
            i <= features@.len(),
            all == features.deep_view(),
            out@.map_values(|rule: ReexportRule| rule@) == spec_rules(all.take(i as int)),
        decreases features@.len() - i,
    {
        proof {
            assert(all[i as int] =~= features@[i as int]@);
        }
        match select_dependency(features[i].as_slice()) {
            Some(dep) => {
                let capability = vstd::slice::slice_to_vec(features[i].as_slice());
                out.push(ReexportRule { capability, dependency: dep });
            },
            None => {},
        }
        proof {
            assert(all.take(i + 1).drop_last() =~= all.take(i as int));
            assert(all.take(i + 1).last() == all[i as int]);
            assert(out@.map_values(|rule: ReexportRule| rule@) =~= spec_rules(all.take(i + 1)));
        }
        i = i + 1;
    }
    proof {
        assert(all.take(features@.len() as int) =~= all);
    }
    out
}

/// The selection law: the capability `opencv-` followed by any suffix is
/// recognized, and it selects exactly the dependency `opencv_` followed
/// by the same suffix.
pub proof fn lemma_capability_selects_matching_version(suffix: Seq<u8>)
    ensures
        is_capability(capability_prefix() + suffix),
        dependency_of(capability_prefix() + suffix) == dependency_prefix() + suffix,
{
    assert_seqs_equal!((capability_prefix() + suffix).subrange(0, 7) == capability_prefix());
    assert_seqs_equal!((capability_prefix() + suffix).skip(7) == suffix);
}

/// No two capabilities select the same dependency: the mapping from a
/// recognized capability to its dependency is injective, so a build that
/// enables one capability resolves to that release's dependency and no
/// other's.
pub proof fn lemma_selection_is_injective(a: Seq<u8>, b: Seq<u8>)
    requires
        is_capability(a),
        is_capability(b),
        dependency_of(a) == dependency_of(b),
    ensures
        a == b,
{
    assert((dependency_prefix() + a.skip(7)).len() == 7 + a.skip(7).len());
    assert((dependency_prefix() + b.skip(7)).len() == 7 + b.skip(7).len());
    assert(a.skip(7).len() == b.skip(7).len());
    assert forall|j: int| 0 <= j < a.skip(7).len() implies a.skip(7)[j] == b.skip(7)[j] by {
        assert((dependency_prefix() + a.skip(7))[j + 7] == a.skip(7)[j]);
        assert((dependency_prefix() + b.skip(7))[j + 7] == b.skip(7)[j]);
    }
    assert(a.skip(7) =~= b.skip(7));
    assert_seqs_equal!(a == b, j => {
        if j < 7 {
            assert(a.subrange(0, 7)[j] == a[j]);
            assert(b.subrange(0, 7)[j] == b[j]);
        } else {
            assert(a.skip(7)[j - 7] == a[j]);
            assert(b.skip(7)[j - 7] == b[j]);
        }
    });
}

} // verus!
