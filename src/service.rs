use vstd::prelude::*;

use crate::build_info::{BuildConstants, BuildInfo};

verus! {

/// Answers a request for build metadata: a fresh record whose ten values are
/// copies of the build constants, unmodified and each in its own field.
pub fn get_build_info(constants: &BuildConstants) -> (info: BuildInfo)
    ensures
        info@ == constants@,
{
    BuildInfo {
        git_commit: constants.git_commit.to_owned(),
        profile: constants.profile.to_owned(),
        debug: constants.debug.to_owned(),
        opt_level: constants.opt_level.to_owned(),
        debug_assertions: constants.debug_assertions.to_owned(),
        target_arch: constants.target_arch.to_owned(),
        target_feature: constants.target_feature.to_owned(),
        rustflags: constants.rustflags.to_owned(),
        sgx_mode: constants.sgx_mode.to_owned(),
        ias_mode: constants.ias_mode.to_owned(),
    }
}

/// Answering twice gives the same record: two responses built from the same
/// build constants agree on every one of their ten values.
pub proof fn lemma_get_build_info_idempotent(
    constants: BuildConstants,
    first: BuildInfo,
    second: BuildInfo,
)
    requires
        first@ == constants@,
        second@ == constants@,
    ensures
        first@ == second@,
        first.git_commit@ == second.git_commit@,
        first.profile@ == second.profile@,
        first.debug@ == second.debug@,
        first.opt_level@ == second.opt_level@,
        first.debug_assertions@ == second.debug_assertions@,
        first.target_arch@ == second.target_arch@,
        first.target_feature@ == second.target_feature@,
        first.rustflags@ == second.rustflags@,
        first.sgx_mode@ == second.sgx_mode@,
        first.ias_mode@ == second.ias_mode@,
{
}

} // verus!
