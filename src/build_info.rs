use vstd::prelude::*;

verus! {

/// The mathematical content of a build record: its ten values as character
/// sequences.
pub struct BuildInfoView {
    pub git_commit: Seq<char>,
    pub profile: Seq<char>,
    pub debug: Seq<char>,
    pub opt_level: Seq<char>,
    pub debug_assertions: Seq<char>,
    pub target_arch: Seq<char>,
    pub target_feature: Seq<char>,
    pub rustflags: Seq<char>,
    pub sgx_mode: Seq<char>,
    pub ias_mode: Seq<char>,
}

/// The values fixed when the binary was built, as the build supplies them.
#[derive(Clone, Copy, Debug)]
pub struct BuildConstants {
    pub git_commit: &'static str,
    pub profile: &'static str,
    pub debug: &'static str,
    pub opt_level: &'static str,
    pub debug_assertions: &'static str,
    pub target_arch: &'static str,
    pub target_feature: &'static str,
    pub rustflags: &'static str,
    pub sgx_mode: &'static str,
    pub ias_mode: &'static str,
}

impl View for BuildConstants {
    type V = BuildInfoView;

    open spec fn view(&self) -> BuildInfoView {
        BuildInfoView {
            git_commit: self.git_commit@,
            profile: self.profile@,
            debug: self.debug@,
            opt_level: self.opt_level@,
            debug_assertions: self.debug_assertions@,
            target_arch: self.target_arch@,
            target_feature: self.target_feature@,
            rustflags: self.rustflags@,
            sgx_mode: self.sgx_mode@,
            ias_mode: self.ias_mode@,
        }
    }
}

/// The record returned to a caller that asks how the binary was built.
#[derive(Clone, Debug, PartialEq, Eq)]
pub struct BuildInfo {
    pub git_commit: String,
    pub profile: String,
    pub debug: String,
    pub opt_level: String,
    pub debug_assertions: String,
    pub target_arch: String,
    pub target_feature: String,
    pub rustflags: String,
    pub sgx_mode: String,
    pub ias_mode: String,
}

impl View for BuildInfo {
    type V = BuildInfoView;

    open spec fn view(&self) -> BuildInfoView {
        BuildInfoView {
            git_commit: self.git_commit@,
            profile: self.profile@,
            debug: self.debug@,
            opt_level: self.opt_level@,
            debug_assertions: self.debug_assertions@,
            target_arch: self.target_arch@,
            target_feature: self.target_feature@,
            rustflags: self.rustflags@,
            sgx_mode: self.sgx_mode@,
            ias_mode: self.ias_mode@,
        }
    }
}

} // verus!
