//! The container-build driver.
//!
//! One `DockerBuild` describes one package or image build: the exact
//! argument vector of every container-builder invocation, the abstract
//! socket names of its descriptor brokers, and the marker directory used
//! to account for its artifacts. The unverified front end runs the
//! subprocesses and sockets in the order given by [`BuildStep`]; every
//! command it passes to the container builder is constructed and pinned
//! down here.

use rand::Rng;
use vstd::prelude::*;
use vstd::string::{StrSliceExecFns, StringExecFns};

use crate::args::{
    secrets_args, BuildType, ImageFeature, ImageFormat, PartitionPlan, SecretFile, SupportedArch,
    TargetBuildArgs, PackageBuildArgs, VariantBuildArgs,
    build_arg_tokens, push_build_arg,
};
use crate::broker::Server;
use crate::text::{dec_rep, lemma_deep_view_index, u32_to_dec};
use crate::token::{append_token, spec_token};

verus! {

/// The UID of unprivileged processes inside the build container; only
/// they may fetch the jobserver descriptors.
pub const BUILDER_UID: u32 = 1000;

/// The image-layout section of the parsed manifest, with sizes in GiB.
#[derive(Clone, Copy, Debug, PartialEq, Eq, Structural)]
pub struct ImageLayout {
    pub os_image_size_gib: i32,
    pub data_image_size_gib: i32,
    pub os_image_publish_size_gib: i32,
    pub data_image_publish_size_gib: i32,
    pub partition_plan: PartitionPlan,
}

impl ImageLayout {
    /// Size fields are non-negative.
    pub open spec fn wf(self) -> bool {
        &&& self.os_image_size_gib >= 0
        &&& self.data_image_size_gib >= 0
        &&& self.os_image_publish_size_gib >= 0
        &&& self.data_image_publish_size_gib >= 0
    }

    /// The sizes the published images are grown to.
    pub fn publish_image_sizes_gib(&self) -> (r: (i32, i32))
        ensures
            r.0 == self.os_image_publish_size_gib,
            r.1 == self.data_image_publish_size_gib,
    {
        (self.os_image_publish_size_gib, self.data_image_publish_size_gib)
    }
}

impl Default for ImageLayout {
    /// The layout used when the manifest gives none: a two-GiB OS image
    /// and a one-GiB data image, published at build size, split plan.
    fn default() -> (r: Self)
        ensures
            r.os_image_size_gib == 2,
            r.data_image_size_gib == 1,
            r.os_image_publish_size_gib == 2,
            r.data_image_publish_size_gib == 1,
            r.partition_plan == PartitionPlan::Split,
            r.wf(),
    {
        ImageLayout {
            os_image_size_gib: 2,
            data_image_size_gib: 1,
            os_image_publish_size_gib: 2,
            data_image_publish_size_gib: 1,
            partition_plan: PartitionPlan::Split,
        }
    }
}

/// What the driver reads from the parsed manifest, as plain values.
pub struct ManifestInfo {
    pub package_name: Option<String>,
    pub image_layout: Option<ImageLayout>,
    pub image_format: Option<ImageFormat>,
    pub image_features: Option<Vec<ImageFeature>>,
    pub kernel_parameters: Option<Vec<String>>,
    pub included_packages: Option<Vec<String>>,
}

impl ManifestInfo {
    /// Any layout the manifest carries has non-negative sizes.
    pub open spec fn wf(self) -> bool {
        self.image_layout matches Some(l) ==> l.wf()
    }
}

/// The values every build receives from the outer command line.
pub struct CommonArgs {
    pub arch: SupportedArch,
    pub sdk_image: String,
    pub root_dir: String,
    pub state_dir: String,
    pub tools_dir: String,
}

/// The outer command-line values of a package build.
pub struct BuildPackageArgs {
    pub common: CommonArgs,
    pub cargo_package_name: String,
    pub packages_dir: String,
    pub publish_repo: String,
    pub variant: String,
    pub variant_family: String,
    pub variant_flavor: String,
    pub variant_platform: String,
    pub variant_runtime: String,
}

/// The outer command-line values of a variant image build.
pub struct BuildVariantArgs {
    pub common: CommonArgs,
    pub image_arch_variant_dir: String,
    pub name: String,
    pub pretty_name: String,
    pub variant: String,
    pub variant_family: String,
    pub variant_flavor: String,
    pub variant_platform: String,
    pub variant_runtime: String,
    pub version_build: String,
    pub version_image: String,
}

/// Relies on `rand::thread_rng` and `rand::Rng::gen`: a freshly drawn
/// random 32-bit value, used to defeat layer caching of one build step.
#[verifier::external_body]
fn fresh_cache_buster() -> u32 {
    rand::thread_rng().gen()
}

/// The values shared by both build kinds: architecture, builder image,
/// cache buster, per-checkout token, and the jobserver socket name.
pub struct CommonBuildArgs {
    pub arch: SupportedArch,
    pub sdk: String,
    pub nocache: String,
    pub token: String,
    pub jobs_socket: String,
}

impl CommonBuildArgs {
    /// The fields are derived from the given root, builder image and
    /// architecture: the token from the root path, the cache buster as
    /// the decimal rendering of some 32-bit value, and the jobserver
    /// socket name from both.
    pub open spec fn wf_for(self, root: Seq<char>, sdk: Seq<char>, arch: SupportedArch) -> bool {
        &&& self.arch == arch
        &&& self.sdk@ == sdk
        &&& self.token@ == spec_token(root)
        &&& (exists|v: u32| self.nocache@ == dec_rep(v as nat))
        &&& self.jobs_socket@ == "buildsys-jobserver-"@ + self.token@ + "-"@ + self.nocache@
    }

    pub fn new(root: &str, sdk: String, arch: SupportedArch) -> (s: Self)
        ensures
            s.wf_for(root@, sdk@, arch),
    {
        let token = crate::token::token(root);
        let buster = fresh_cache_buster();
        let nocache = u32_to_dec(buster);
        let mut jobs_socket = String::from_str("buildsys-jobserver-");
        jobs_socket.append(token.as_str());
        jobs_socket.append("-");
        jobs_socket.append(nocache.as_str());
        let s = CommonBuildArgs { arch, sdk, nocache, token, jobs_socket };
        proof {
            assert(s.nocache@ == dec_rep(buster as nat));
        }
        s
    }
}

/// Joins strings with single spaces.
pub open spec fn spec_join_space(items: Seq<Seq<char>>) -> Seq<char>
    decreases items.len(),
{
    if items.len() == 0 {
        Seq::empty()
    } else if items.len() == 1 {
        items[0]
    } else {
        spec_join_space(items.drop_last()) + " "@ + items.last()
    }
}

/// Joins strings with single spaces, executably.
pub fn join_space(items: &Vec<String>) -> (r: String)
    ensures
        r@ == spec_join_space(items.deep_view()),
{
    let mut r = String::new();
    let mut i: usize = 0;
    proof {
        assert(items.deep_view().subrange(0, 0) =~= Seq::<Seq<char>>::empty());
    }
    while i < items.len()
        invariant
            i <= items@.len(),
            r@ == spec_join_space(items.deep_view().subrange(0, i as int)),
        decreases items@.len() - i,
    {
        if i > 0 {
            r.append(" ");
        }
        r.append(items[i].as_str());
        proof {
            lemma_deep_view_index(items);
            let pre = items.deep_view().subrange(0, i as int);
            let post = items.deep_view().subrange(0, i + 1 as int);
            assert(post.drop_last() =~= pre);
            assert(post.last() == items.deep_view()[i as int]);
            if i == 0 {
                assert(r@ =~= spec_join_space(post));
            } else {
                assert(r@ =~= spec_join_space(post));
            }
        }
        i += 1;
    }
    proof {
        assert(items.deep_view().subrange(0, items.deep_view().len() as int)
            =~= items.deep_view());
    }
    r
}

/// Copies a feature list.
fn copy_features(feats: &Vec<ImageFeature>) -> (r: Vec<ImageFeature>)
    ensures
        r@ == feats@,
{
    let mut r: Vec<ImageFeature> = Vec::new();
    let mut i: usize = 0;
    while i < feats.len()
        invariant
            i <= feats@.len(),
            r@ == feats@.subrange(0, i as int),
        decreases feats@.len() - i,
    {
        r.push(feats[i]);
        proof {
            assert(r@ =~= feats@.subrange(0, i + 1 as int));
        }
        i += 1;
    }
    proof {
        assert(feats@.subrange(0, feats@.len() as int) =~= feats@);
    }
    r
}

/// Copies a string list.
fn copy_strings(items: &Vec<String>) -> (r: Vec<String>)
    ensures
        r.deep_view() == items.deep_view(),
{
    let mut r: Vec<String> = Vec::new();
    let mut i: usize = 0;
    while i < items.len()
        invariant
            i <= items@.len(),
            r@.len() == i,
            r.deep_view() == items.deep_view().subrange(0, i as int),
        decreases items@.len() - i,
    {
        let ghost r0 = r@;
        let c = items[i].clone();
        r.push(c);
        proof {
            assert(r@ == r0.push(c));
            lemma_deep_view_index(&r);
            lemma_deep_view_index(items);
            assert(r.deep_view() =~~= items.deep_view().subrange(0, i + 1 as int));
        }
        i += 1;
    }
    proof {
        assert(items.deep_view().subrange(0, items.deep_view().len() as int)
            =~= items.deep_view());
    }
    r
}

/// One build of a package or a variant image: every value the container
/// builder is invoked with.
pub struct DockerBuild {
    pub dockerfile: String,
    pub context: String,
    pub target: String,
    pub tag: String,
    pub root_dir: String,
    pub artifacts_dir: String,
    pub state_dir: String,
    pub artifact_name: String,
    pub common_build_args: CommonBuildArgs,
    pub target_build_args: TargetBuildArgs,
    pub secrets_args: Vec<String>,
}

/// The path of the marker directory for one (kind, name, arch) triple:
/// `<state_dir>/<arch>/{packages|variants}/<name>`. The front end creates
/// it before the clean step.
pub open spec fn spec_marker_dir(
    kind: BuildType,
    name: Seq<char>,
    arch: Seq<char>,
    state_dir: Seq<char>,
) -> Seq<char> {
    let prefix = match kind {
        BuildType::Package => "packages"@,
        BuildType::Variant => "variants"@,
    };
    state_dir + "/"@ + arch + "/"@ + prefix + "/"@ + name
}

/// Computes the marker directory path for one build.
pub fn marker_dir_path(kind: BuildType, name: &str, arch: &str, state_dir: &str) -> (r: String)
    ensures
        r@ == spec_marker_dir(kind, name@, arch@, state_dir@),
{
    let mut r = String::from_str(state_dir);
    r.append("/");
    r.append(arch);
    r.append("/");
    match kind {
        BuildType::Package => r.append("packages"),
        BuildType::Variant => r.append("variants"),
    }
    r.append("/");
    r.append(name);
    r
}

impl DockerBuild {
    /// Size fields carried by the build arguments are non-negative.
    pub open spec fn wf(self) -> bool {
        self.target_build_args.wf()
    }

    /// Creates a build for a package. The package name is the manifest's
    /// override if present, the outer cargo package name otherwise.
    pub fn new_package(
        args: BuildPackageArgs,
        manifest: &ManifestInfo,
        image_features: Vec<ImageFeature>,
    ) -> (d: DockerBuild)
        ensures
            d.wf(),
            d.dockerfile@ == args.common.tools_dir@ + "/Dockerfile"@,
            d.context@ == args.common.root_dir@,
            d.target@ == "package"@,
            d.root_dir@ == args.common.root_dir@,
            d.artifacts_dir@ == args.packages_dir@,
            d.state_dir@ == args.common.state_dir@,
            d.common_build_args.wf_for(
                args.common.root_dir@,
                args.common.sdk_image@,
                args.common.arch,
            ),
            d.secrets_args@.len() == 0,
            d.target_build_args matches TargetBuildArgs::Package(p) && {
                &&& p.package@ == match manifest.package_name {
                    Some(n) => n@,
                    None => args.cargo_package_name@,
                }
                &&& d.artifact_name@ == p.package@
                &&& d.tag@ == "buildsys-pkg-"@ + p.package@ + "-"@ + args.common.arch.spec_name()
                    + "-"@ + spec_token(args.common.root_dir@)
                &&& p.image_features@ == image_features@
                &&& p.publish_repo@ == args.publish_repo@
                &&& p.variant@ == args.variant@
                &&& p.variant_family@ == args.variant_family@
                &&& p.variant_flavor@ == args.variant_flavor@
                &&& p.variant_platform@ == args.variant_platform@
                &&& p.variant_runtime@ == args.variant_runtime@
            },
    {
        let package = match &manifest.package_name {
            Some(name_override) => name_override.clone(),
            None => args.cargo_package_name,
        };
        let mut dockerfile = String::from_str(args.common.tools_dir.as_str());
        dockerfile.append("/Dockerfile");
        let mut bare_tag = String::from_str("buildsys-pkg-");
        bare_tag.append(package.as_str());
        bare_tag.append("-");
        bare_tag.append(args.common.arch.as_str());
        let tag = append_token(bare_tag.as_str(), args.common.root_dir.as_str());
        let common_build_args = CommonBuildArgs::new(
            args.common.root_dir.as_str(),
            args.common.sdk_image,
            args.common.arch,
        );
        DockerBuild {
            dockerfile,
            context: args.common.root_dir.clone(),
            target: String::from_str("package"),
            tag,
            root_dir: args.common.root_dir,
            artifacts_dir: args.packages_dir,
            state_dir: args.common.state_dir,
            artifact_name: package.clone(),
            common_build_args,
            target_build_args: TargetBuildArgs::Package(
                PackageBuildArgs {
                    image_features,
                    package,
                    publish_repo: args.publish_repo,
                    variant: args.variant,
                    variant_family: args.variant_family,
                    variant_flavor: args.variant_flavor,
                    variant_platform: args.variant_platform,
                    variant_runtime: args.variant_runtime,
                },
            ),
            secrets_args: Vec::new(),
        }
    }

    /// Creates a build for a variant image. Layout, format, features,
    /// kernel parameters and the package list come from the manifest,
    /// with documented defaults where the manifest is silent; the
    /// `--secret` arguments are built from the secrets profile entries
    /// enumerated by the caller.
    pub fn new_variant(
        args: BuildVariantArgs,
        manifest: &ManifestInfo,
        secret_files: &Vec<SecretFile>,
    ) -> (d: DockerBuild)
        requires
            manifest.wf(),
        ensures
            d.wf(),
            d.dockerfile@ == args.common.tools_dir@ + "/Dockerfile"@,
            d.context@ == args.common.root_dir@,
            d.target@ == "variant"@,
            d.root_dir@ == args.common.root_dir@,
            d.artifacts_dir@ == args.image_arch_variant_dir@,
            d.state_dir@ == args.common.state_dir@,
            d.artifact_name@ == args.variant@,
            d.tag@ == "buildsys-var-"@ + args.variant@ + "-"@ + args.common.arch.spec_name()
                + "-"@ + spec_token(args.common.root_dir@),
            d.common_build_args.wf_for(
                args.common.root_dir@,
                args.common.sdk_image@,
                args.common.arch,
            ),
            d.secrets_args.deep_view() == crate::args::file_secret_args(secret_files@)
                + crate::args::env_secret_args(),
            d.target_build_args matches TargetBuildArgs::Variant(v) && {
                let layout = match manifest.image_layout {
                    Some(l) => l,
                    None => ImageLayout {
                        os_image_size_gib: 2,
                        data_image_size_gib: 1,
                        os_image_publish_size_gib: 2,
                        data_image_publish_size_gib: 1,
                        partition_plan: PartitionPlan::Split,
                    },
                };
                &&& v.data_image_publish_size_gib == layout.data_image_publish_size_gib
                &&& v.data_image_size_gib@ == dec_rep(layout.data_image_size_gib as nat)
                &&& v.os_image_publish_size_gib@ == dec_rep(
                    layout.os_image_publish_size_gib as nat,
                )
                &&& v.os_image_size_gib@ == dec_rep(layout.os_image_size_gib as nat)
                &&& v.partition_plan@ == layout.partition_plan.spec_name()
                &&& v.image_format@ == match manifest.image_format {
                    Some(f) => f.spec_name(),
                    None => "raw"@,
                }
                &&& v.image_features@ == match manifest.image_features {
                    Some(f) => f@,
                    None => Seq::<ImageFeature>::empty(),
                }
                &&& v.kernel_parameters@ == spec_join_space(
                    match manifest.kernel_parameters {
                        Some(k) => k.deep_view(),
                        None => Seq::<Seq<char>>::empty(),
                    },
                )
                &&& v.packages@ == spec_join_space(
                    match manifest.included_packages {
                        Some(p) => p.deep_view(),
                        None => Seq::<Seq<char>>::empty(),
                    },
                )
                &&& v.name@ == args.name@
                &&& v.pretty_name@ == args.pretty_name@
                &&& v.variant@ == args.variant@
                &&& v.variant_family@ == args.variant_family@
                &&& v.variant_flavor@ == args.variant_flavor@
                &&& v.variant_platform@ == args.variant_platform@
                &&& v.variant_runtime@ == args.variant_runtime@
                &&& v.version_build@ == args.version_build@
                &&& v.version_image@ == args.version_image@
            },
    {
        let image_layout = match &manifest.image_layout {
            Some(l) => *l,
            None => ImageLayout::default(),
        };
        let (os_image_publish_size_gib, data_image_publish_size_gib) =
            image_layout.publish_image_sizes_gib();
        let mut dockerfile = String::from_str(args.common.tools_dir.as_str());
        dockerfile.append("/Dockerfile");
        let mut bare_tag = String::from_str("buildsys-var-");
        bare_tag.append(args.variant.as_str());
        bare_tag.append("-");
        bare_tag.append(args.common.arch.as_str());
        let tag = append_token(bare_tag.as_str(), args.common.root_dir.as_str());
        let common_build_args = CommonBuildArgs::new(
            args.common.root_dir.as_str(),
            args.common.sdk_image,
            args.common.arch,
        );
        let image_format = match &manifest.image_format {
            Some(f) => String::from_str(f.as_str()),
            None => String::from_str("raw"),
        };
        let image_features = match &manifest.image_features {
            Some(f) => copy_features(f),
            None => Vec::new(),
        };
        let kernel_parameters = match &manifest.kernel_parameters {
            Some(k) => join_space(k),
            None => {
                let empty: Vec<String> = Vec::new();
                proof {
                    assert(empty.deep_view() =~= Seq::<Seq<char>>::empty());
                }
                join_space(&empty)
            },
        };
        let packages = match &manifest.included_packages {
            Some(p) => join_space(p),
            None => {
                let empty: Vec<String> = Vec::new();
                proof {
                    assert(empty.deep_view() =~= Seq::<Seq<char>>::empty());
                }
                join_space(&empty)
            },
        };
        DockerBuild {
            dockerfile,
            context: args.common.root_dir.clone(),
            target: String::from_str("variant"),
            tag,
            root_dir: args.common.root_dir,
            artifacts_dir: args.image_arch_variant_dir,
            state_dir: args.common.state_dir,
            artifact_name: args.variant.clone(),
            common_build_args,
            target_build_args: TargetBuildArgs::Variant(
                VariantBuildArgs {
                    data_image_publish_size_gib,
                    data_image_size_gib: crate::text::i32_to_dec(image_layout.data_image_size_gib),
                    image_features,
                    image_format,
                    kernel_parameters,
                    name: args.name,
                    os_image_publish_size_gib: crate::text::i32_to_dec(os_image_publish_size_gib),
                    os_image_size_gib: crate::text::i32_to_dec(image_layout.os_image_size_gib),
                    packages,
                    partition_plan: String::from_str(image_layout.partition_plan.as_str()),
                    pretty_name: args.pretty_name,
                    variant: args.variant,
                    variant_family: args.variant_family,
                    variant_flavor: args.variant_flavor,
                    variant_platform: args.variant_platform,
                    variant_runtime: args.variant_runtime,
                    version_build: args.version_build,
                    version_image: args.version_image,
                },
            ),
            secrets_args: secrets_args(secret_files),
        }
    }

    /// The abstract socket name of the bypass sidecar's broker.
    pub fn bypass_socket(&self) -> (r: String)
        ensures
            r@ == self.tag@ + "-bypass"@,
    {
        let mut r = String::from_str(self.tag.as_str());
        r.append("-bypass");
        r
    }

    /// The `--build-arg` pairs common to both kinds, appended to the
    /// per-kind pairs.
    pub open spec fn spec_build_args(self) -> Seq<Seq<char>> {
        self.target_build_args.spec_build_args() + build_arg_tokens(
            "ARCH"@,
            self.common_build_args.arch.spec_name(),
        ) + build_arg_tokens("GOARCH"@, self.common_build_args.arch.spec_goarch())
            + build_arg_tokens("SDK"@, self.common_build_args.sdk@) + build_arg_tokens(
            "NOCACHE"@,
            self.common_build_args.nocache@,
        ) + build_arg_tokens("TOKEN"@, self.common_build_args.token@) + build_arg_tokens(
            "JOBS_SOCKET"@,
            self.common_build_args.jobs_socket@,
        )
    }

    /// Builds every `--build-arg` pair of this build.
    pub fn build_args(&self) -> (args: Vec<String>)
        requires
            self.wf(),
        ensures
            args.deep_view() == self.spec_build_args(),
    {
        let mut args = self.target_build_args.build_args();
        push_build_arg(&mut args, "ARCH", self.common_build_args.arch.as_str());
        push_build_arg(&mut args, "GOARCH", self.common_build_args.arch.goarch());
        push_build_arg(&mut args, "SDK", self.common_build_args.sdk.as_str());
        push_build_arg(&mut args, "NOCACHE", self.common_build_args.nocache.as_str());
        push_build_arg(&mut args, "TOKEN", self.common_build_args.token.as_str());
        push_build_arg(&mut args, "JOBS_SOCKET", self.common_build_args.jobs_socket.as_str());
        proof {
            assert(args.deep_view() =~= self.spec_build_args());
        }
        args
    }

    /// The argument vector of the container build command.
    pub open spec fn spec_build_command(self) -> Seq<Seq<char>> {
        seq![
            "build"@,
            self.context@,
            "--target"@,
            self.target@,
            "--tag"@,
            self.tag@,
            "--network"@,
            "host"@,
            "--file"@,
            self.dockerfile@,
        ] + build_arg_tokens("BYPASS_SOCKET"@, self.tag@ + "-bypass"@) + self.spec_build_args()
            + self.secrets_args.deep_view()
    }

    /// Builds the container build command: the build itself, steered by
    /// the `--build-arg` and `--secret` pairs.
    pub fn build_command(&self) -> (cmd: Vec<String>)
        requires
            self.wf(),
        ensures
            cmd.deep_view() == self.spec_build_command(),
    {
        let mut cmd: Vec<String> = Vec::new();
        cmd.push(String::from_str("build"));
        cmd.push(self.context.clone());
        cmd.push(String::from_str("--target"));
        cmd.push(self.target.clone());
        cmd.push(String::from_str("--tag"));
        cmd.push(self.tag.clone());
        cmd.push(String::from_str("--network"));
        cmd.push(String::from_str("host"));
        cmd.push(String::from_str("--file"));
        cmd.push(self.dockerfile.clone());
        let bypass = self.bypass_socket();
        push_build_arg(&mut cmd, "BYPASS_SOCKET", bypass.as_str());
        let mut rest = self.build_args();
        let ghost cmd_v0 = cmd@;
        let ghost mid = cmd.deep_view();
        let ghost rest_v0 = rest@;
        let ghost rest_dv = rest.deep_view();
        proof {
            lemma_deep_view_index(&cmd);
            lemma_deep_view_index(&rest);
            assert(forall|k: int|
                0 <= k < cmd_v0.len() ==> mid[k] == #[trigger] cmd_v0[k].deep_view());
            assert(forall|k: int|
                0 <= k < rest_v0.len() ==> rest_dv[k] == #[trigger] rest_v0[k].deep_view());
        }
        cmd.append(&mut rest);
        proof {
            lemma_deep_view_index(&cmd);
            assert(cmd@ == cmd_v0 + rest_v0);
            assert(cmd.deep_view() =~~= mid + rest_dv);
        }
        let mut secrets = copy_strings(&self.secrets_args);
        let ghost cmd_v1 = cmd@;
        let ghost mid2 = cmd.deep_view();
        let ghost sec_v0 = secrets@;
        let ghost sec_dv = secrets.deep_view();
        proof {
            lemma_deep_view_index(&cmd);
            lemma_deep_view_index(&secrets);
            assert(forall|k: int|
                0 <= k < cmd_v1.len() ==> mid2[k] == #[trigger] cmd_v1[k].deep_view());
            assert(forall|k: int|
                0 <= k < sec_v0.len() ==> sec_dv[k] == #[trigger] sec_v0[k].deep_view());
        }
        cmd.append(&mut secrets);
        proof {
            lemma_deep_view_index(&cmd);
            assert(cmd@ == cmd_v1 + sec_v0);
            assert(cmd.deep_view() =~~= mid2 + sec_dv);
            assert(cmd.deep_view() =~~= self.spec_build_command());
        }
        cmd
    }

    /// The argument vector of the bypass sidecar: a short-lived container
    /// with the project root bind-mounted read-only, running a broker
    /// that serves the root directory descriptor to its sibling build.
    pub open spec fn spec_run_bypass_command(self) -> Seq<Seq<char>> {
        seq![
            "run"@,
            "--name"@,
            self.tag@ + "-bypass"@,
            "--rm"@,
            "--init"@,
            "--net"@,
            "host"@,
            "--pid"@,
            "host"@,
            "-u"@,
            "0"@,
            "-v"@,
            self.root_dir@ + ":/bypass:ro"@,
            "-v"@,
            self.root_dir@ + "/build/tools/pipesys:/usr/local/bin/pipesys:ro"@,
            self.common_build_args.sdk@,
            "pipesys"@,
            "serve"@,
            "--socket"@,
            self.tag@ + "-bypass"@,
            "--client-uid"@,
            "0"@,
            "--path"@,
            "/bypass"@,
        ]
    }

    /// Builds the bypass sidecar command.
    pub fn run_bypass_command(&self) -> (cmd: Vec<String>)
        ensures
            cmd.deep_view() == self.spec_run_bypass_command(),
    {
        let mut cmd: Vec<String> = Vec::new();
        cmd.push(String::from_str("run"));
        cmd.push(String::from_str("--name"));
        cmd.push(self.bypass_socket());
        cmd.push(String::from_str("--rm"));
        cmd.push(String::from_str("--init"));
        cmd.push(String::from_str("--net"));
        cmd.push(String::from_str("host"));
        cmd.push(String::from_str("--pid"));
        cmd.push(String::from_str("host"));
        cmd.push(String::from_str("-u"));
        cmd.push(String::from_str("0"));
        cmd.push(String::from_str("-v"));
        let mut root_mount = String::from_str(self.root_dir.as_str());
        root_mount.append(":/bypass:ro");
        cmd.push(root_mount);
        cmd.push(String::from_str("-v"));
        let mut helper_mount = String::from_str(self.root_dir.as_str());
        helper_mount.append("/build/tools/pipesys:/usr/local/bin/pipesys:ro");
        cmd.push(helper_mount);
        cmd.push(self.common_build_args.sdk.clone());
        cmd.push(String::from_str("pipesys"));
        cmd.push(String::from_str("serve"));
        cmd.push(String::from_str("--socket"));
        cmd.push(self.bypass_socket());
        cmd.push(String::from_str("--client-uid"));
        cmd.push(String::from_str("0"));
        cmd.push(String::from_str("--path"));
        cmd.push(String::from_str("/bypass"));
        proof {
            lemma_deep_view_index(&cmd);
            assert(cmd.deep_view() =~~= self.spec_run_bypass_command());
        }
        cmd
    }

    /// The command that force-removes the bypass sidecar container.
    pub fn rm_bypass_command(&self) -> (cmd: Vec<String>)
        ensures
            cmd.deep_view() == seq!["rm"@, "--force"@, self.tag@ + "-bypass"@],
    {
        let mut cmd: Vec<String> = Vec::new();
        cmd.push(String::from_str("rm"));
        cmd.push(String::from_str("--force"));
        cmd.push(self.bypass_socket());
        proof {
            lemma_deep_view_index(&cmd);
            assert(cmd.deep_view() =~~= seq!["rm"@, "--force"@, self.tag@ + "-bypass"@]);
        }
        cmd
    }

    /// The command that creates the stopped scratch container from the
    /// just-built image, so artifacts can be copied out.
    pub fn create_command(&self) -> (cmd: Vec<String>)
        ensures
            cmd.deep_view() == seq!["create"@, "--name"@, self.tag@, self.tag@, "true"@],
    {
        let mut cmd: Vec<String> = Vec::new();
        cmd.push(String::from_str("create"));
        cmd.push(String::from_str("--name"));
        cmd.push(self.tag.clone());
        cmd.push(self.tag.clone());
        cmd.push(String::from_str("true"));
        proof {
            lemma_deep_view_index(&cmd);
            assert(cmd.deep_view() =~~= seq!["create"@, "--name"@, self.tag@, self.tag@, "true"@]);
        }
        cmd
    }

    /// The command that copies the scratch container's `/output/.` tree
    /// into the marker directory.
    pub fn cp_command(&self, marker_dir: &str) -> (cmd: Vec<String>)
        ensures
            cmd.deep_view() == seq!["cp"@, self.tag@ + ":/output/."@, marker_dir@],
    {
        let mut cmd: Vec<String> = Vec::new();
        cmd.push(String::from_str("cp"));
        let mut src = String::from_str(self.tag.as_str());
        src.append(":/output/.");
        cmd.push(src);
        cmd.push(String::from_str(marker_dir));
        proof {
            lemma_deep_view_index(&cmd);
            assert(cmd.deep_view() =~~= seq!["cp"@, self.tag@ + ":/output/."@, marker_dir@]);
        }
        cmd
    }

    /// The command that force-removes the build or scratch container.
    pub fn rm_command(&self) -> (cmd: Vec<String>)
        ensures
            cmd.deep_view() == seq!["rm"@, "--force"@, self.tag@],
    {
        let mut cmd: Vec<String> = Vec::new();
        cmd.push(String::from_str("rm"));
        cmd.push(String::from_str("--force"));
        cmd.push(self.tag.clone());
        proof {
            lemma_deep_view_index(&cmd);
            assert(cmd.deep_view() =~~= seq!["rm"@, "--force"@, self.tag@]);
        }
        cmd
    }

    /// The command that force-removes the built image.
    pub fn rmi_command(&self) -> (cmd: Vec<String>)
        ensures
            cmd.deep_view() == seq!["rmi"@, "--force"@, self.tag@],
    {
        let mut cmd: Vec<String> = Vec::new();
        cmd.push(String::from_str("rmi"));
        cmd.push(String::from_str("--force"));
        cmd.push(self.tag.clone());
        proof {
            lemma_deep_view_index(&cmd);
            assert(cmd.deep_view() =~~= seq!["rmi"@, "--force"@, self.tag@]);
        }
        cmd
    }

    /// The marker directory of this build.
    pub fn marker_dir(&self) -> (r: String)
        ensures
            r@ == spec_marker_dir(
                match self.target_build_args {
                    TargetBuildArgs::Package(_) => BuildType::Package,
                    TargetBuildArgs::Variant(_) => BuildType::Variant,
                },
                self.artifact_name@,
                self.common_build_args.arch.spec_name(),
                self.state_dir@,
            ),
    {
        let kind = self.target_build_args.build_type();
        marker_dir_path(
            kind,
            self.artifact_name.as_str(),
            self.common_build_args.arch.as_str(),
            self.state_dir.as_str(),
        )
    }

    /// The jobserver broker this build runs beside the container build:
    /// fd mode, serving the parsed pair on the build's jobserver socket,
    /// for the unprivileged builder UID only.
    pub fn jobserver_broker(&self, read_fd: i32, write_fd: i32) -> (s: Server)
        ensures
            s.wf(),
            s.socket@ == self.common_build_args.jobs_socket@,
            s.client_uid == BUILDER_UID,
            s.paths is None,
            s.fds matches Some(f) && f@ == seq![read_fd, write_fd],
    {
        let mut fds: Vec<i32> = Vec::new();
        fds.push(read_fd);
        fds.push(write_fd);
        proof {
            assert(fds@ =~= seq![read_fd, write_fd]);
        }
        Server::for_fds(self.common_build_args.jobs_socket.as_str(), BUILDER_UID, fds)
    }
}

/// The phases of one build, in order. The front end drives them with
/// [`next_step`]; the brokers listed for `StartBrokers` must both be
/// bound before `RunBuild` begins, and harvesting must not begin before
/// `CopyArtifacts` has completed.
#[derive(Clone, Copy, Debug, PartialEq, Eq, Structural)]
pub enum BuildStep {
    /// Create the marker directory.
    PrepareMarkerDir,
    /// Remove the artifacts and markers of the previous build.
    CleanOutputs,
    /// Start the jobserver broker and the bypass sidecar.
    StartBrokers,
    /// Run the container build, retried under the retry policy.
    RunBuild,
    /// Remove the sidecar and stop the brokers, whatever the outcome.
    StopBrokers,
    /// Create the scratch container from the built image.
    CreateScratch,
    /// Copy the artifact tree into the marker directory.
    CopyArtifacts,
    /// Remove the scratch container.
    RemoveScratch,
    /// Remove the built image.
    RemoveImage,
    /// Create markers and move artifacts into the output tree.
    Harvest,
    /// The build succeeded.
    Done,
    /// The build failed; cleanup has still run.
    Failed,
}

/// The phase that follows `step`. `build_ok` reports the outcome of the
/// container build and is consulted once the brokers are stopped: a
/// failed build skips the scratch and harvest phases.
pub open spec fn spec_next_step(step: BuildStep, build_ok: bool) -> BuildStep {
    match step {
        BuildStep::PrepareMarkerDir => BuildStep::CleanOutputs,
        BuildStep::CleanOutputs => BuildStep::StartBrokers,
        BuildStep::StartBrokers => BuildStep::RunBuild,
        BuildStep::RunBuild => BuildStep::StopBrokers,
        BuildStep::StopBrokers => if build_ok {
            BuildStep::CreateScratch
        } else {
            BuildStep::Failed
        },
        BuildStep::CreateScratch => BuildStep::CopyArtifacts,
        BuildStep::CopyArtifacts => BuildStep::RemoveScratch,
        BuildStep::RemoveScratch => BuildStep::RemoveImage,
        BuildStep::RemoveImage => BuildStep::Harvest,
        BuildStep::Harvest => BuildStep::Done,
        BuildStep::Done => BuildStep::Done,
        BuildStep::Failed => BuildStep::Failed,
    }
}

/// Advances the build state machine by one phase.
pub fn next_step(step: BuildStep, build_ok: bool) -> (n: BuildStep)
    ensures
        n == spec_next_step(step, build_ok),
{
    match step {
        BuildStep::PrepareMarkerDir => BuildStep::CleanOutputs,
        BuildStep::CleanOutputs => BuildStep::StartBrokers,
        BuildStep::StartBrokers => BuildStep::RunBuild,
        BuildStep::RunBuild => BuildStep::StopBrokers,
        BuildStep::StopBrokers => if build_ok {
            BuildStep::CreateScratch
        } else {
            BuildStep::Failed
        },
        BuildStep::CreateScratch => BuildStep::CopyArtifacts,
        BuildStep::CopyArtifacts => BuildStep::RemoveScratch,
        BuildStep::RemoveScratch => BuildStep::RemoveImage,
        BuildStep::RemoveImage => BuildStep::Harvest,
        BuildStep::Harvest => BuildStep::Done,
        BuildStep::Done => BuildStep::Done,
        BuildStep::Failed => BuildStep::Failed,
    }
}

} // verus!
