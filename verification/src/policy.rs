//! The depth-aware verification policy applied once per certificate of a
//! peer-presented chain during the TLS handshake. The trust engine owns
//! cryptographic path validation and hands this policy its per-link verdict
//! (`preverified`) together with the link's depth (0 = leaf); the policy's
//! sole addition is the trusted-device attribute gate, enforced only on the
//! leaf certificate.

use vstd::prelude::*;
use crate::subject::{SubjectEntry, has_trusted_ou, has_trusted_device_ou};

verus! {

/// What the policy reads of the trust engine's verification state for one
/// certificate: the depth under examination (0 = leaf, increasing toward the
/// root), the subject of the certificate under examination if one is
/// available, and the subjects of the whole presented chain, kept for
/// diagnostics only.
pub struct VerifyContext {
    pub depth: u32,
    pub current: Option<Vec<SubjectEntry>>,
    pub chain: Vec<Vec<SubjectEntry>>,
}

/// The policy decision for one certificate:
/// - a failed `preverified` verdict rejects at any depth (never override a
///   path-validation failure);
/// - a preverified non-leaf certificate is accepted with no further check
///   (the attribute gate applies to the leaf alone);
/// - a preverified leaf is accepted exactly when its subject carries
///   `OU=TrustedDevices`;
/// - a missing current certificate at the leaf rejects defensively.
pub open spec fn spec_decision(preverified: bool, depth: int, current: Option<
    Seq<SubjectEntry>,
>) -> bool {
    if !preverified {
        false
    } else if depth != 0 {
        true
    } else {
        match current {
            Option::Some(s) => has_trusted_ou(s),
            Option::None => false,
        }
    }
}

/// The subject under examination, as the specification sees it.
pub open spec fn spec_current_subject(ctx: VerifyContext) -> Option<Seq<SubjectEntry>> {
    match ctx.current {
        Option::Some(v) => Option::Some(v@),
        Option::None => Option::None,
    }
}

/// The per-certificate verification callback: combines the trust engine's
/// preverified verdict with the leaf-only attribute gate.
pub fn verifier_cb(preverified: bool, ctx: &VerifyContext) -> (r: bool)
    ensures
        r == spec_decision(preverified, ctx.depth as int, spec_current_subject(*ctx)),
{
    if !preverified {
        return false;
    }
    if ctx.depth != 0 {
        return true;
    }
    match &ctx.current {
        Option::Some(entries) => has_trusted_device_ou(entries),
        Option::None => false,
    }
}

/// A callback that waives the policy entirely and accepts every certificate;
/// kept for diagnosis of trust-engine behaviour, never for production use.
pub fn verifier_always_true_cb(preverified: bool, ctx: &VerifyContext) -> (r: bool)
    ensures
        r,
{
    let _ = preverified;
    let _ = ctx;
    true
}

/// A whole chain is accepted only if every examined certificate's decision
/// is accept. The engine invokes the policy once per certificate; index `i`
/// of the two sequences holds the preverified verdict and the subject of the
/// certificate at depth `i`.
pub open spec fn spec_chain_accepts(pre: Seq<bool>, subjects: Seq<Seq<SubjectEntry>>) -> bool {
    forall|i: int|
        0 <= i < pre.len() ==> spec_decision(pre[i], i, Option::Some(#[trigger] subjects[i]))
}

/// Law: for a two-certificate chain (leaf at depth 0, root at depth 1) whose
/// links are both preverified, the overall decision turns exactly on whether
/// the leaf subject carries `OU=TrustedDevices`.
pub proof fn lemma_leaf_only_enforcement(leaf: Seq<SubjectEntry>, root: Seq<SubjectEntry>)
    ensures
        spec_chain_accepts(seq![true, true], seq![leaf, root]) <==> has_trusted_ou(leaf),
{
    let pre = seq![true, true];
    let subjects = seq![leaf, root];
    if has_trusted_ou(leaf) {
        assert forall|i: int| 0 <= i < pre.len() implies spec_decision(
            pre[i],
            i,
            Option::Some(#[trigger] subjects[i]),
        ) by {
            if i == 0 {
                assert(subjects[0] == leaf);
            }
        }
    } else {
        assert(!spec_decision(pre[0], 0, Option::Some(subjects[0])));
    }
}

/// Law: a failed preverified verdict at any depth rejects the whole chain,
/// whatever any subject of it holds.
pub proof fn lemma_preverified_short_circuit(pre: Seq<bool>, subjects: Seq<Seq<SubjectEntry>>, i: int)
    requires
        0 <= i < pre.len(),
        !pre[i],
    ensures
        !spec_chain_accepts(pre, subjects),
{
    assert(!spec_decision(pre[i], i, Option::Some(subjects[i])));
}

} // verus!
