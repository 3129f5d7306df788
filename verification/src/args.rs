//! Build-argument construction.
//!
//! The container build is steered entirely through `--build-arg` and
//! `--secret` pairs. The key set is fixed per build kind; every value is a
//! plain string prepared by the caller. The builders here return the exact
//! token sequence that is appended to the container builder's argument
//! vector.

use vstd::prelude::*;
use vstd::string::StringExecFns;

verus! {

/// The kind of artifact one build produces.
#[derive(Clone, Copy, Debug, PartialEq, Eq, Structural)]
pub enum BuildType {
    Package,
    Variant,
}

/// The closed set of target architectures.
#[derive(Clone, Copy, Debug, PartialEq, Eq, Structural)]
pub enum SupportedArch {
    X86_64,
    Aarch64,
}

impl SupportedArch {
    /// The architecture tag as it appears in arguments and paths.
    pub open spec fn spec_name(self) -> Seq<char> {
        match self {
            SupportedArch::X86_64 => "x86_64"@,
            SupportedArch::Aarch64 => "aarch64"@,
        }
    }

    /// The Go architecture tag, mapped from the architecture by a fixed
    /// table.
    pub open spec fn spec_goarch(self) -> Seq<char> {
        match self {
            SupportedArch::X86_64 => "amd64"@,
            SupportedArch::Aarch64 => "arm64"@,
        }
    }

    pub fn as_str(&self) -> (s: &str)
        ensures
            s@ == self.spec_name(),
    {
        match self {
            SupportedArch::X86_64 => "x86_64",
            SupportedArch::Aarch64 => "aarch64",
        }
    }

    pub fn goarch(&self) -> (s: &str)
        ensures
            s@ == self.spec_goarch(),
    {
        match self {
            SupportedArch::X86_64 => "amd64",
            SupportedArch::Aarch64 => "arm64",
        }
    }
}

/// The on-disk format of a built image.
#[derive(Clone, Copy, Debug, PartialEq, Eq, Structural)]
pub enum ImageFormat {
    Raw,
    Qcow2,
    Vmdk,
}

impl ImageFormat {
    pub open spec fn spec_name(self) -> Seq<char> {
        match self {
            ImageFormat::Raw => "raw"@,
            ImageFormat::Qcow2 => "qcow2"@,
            ImageFormat::Vmdk => "vmdk"@,
        }
    }

    pub fn as_str(&self) -> (s: &str)
        ensures
            s@ == self.spec_name(),
    {
        match self {
            ImageFormat::Raw => "raw",
            ImageFormat::Qcow2 => "qcow2",
            ImageFormat::Vmdk => "vmdk",
        }
    }
}

/// How the image partitions are laid out.
#[derive(Clone, Copy, Debug, PartialEq, Eq, Structural)]
pub enum PartitionPlan {
    Split,
    Unified,
}

impl PartitionPlan {
    pub open spec fn spec_name(self) -> Seq<char> {
        match self {
            PartitionPlan::Split => "split"@,
            PartitionPlan::Unified => "unified"@,
        }
    }

    pub fn as_str(&self) -> (s: &str)
        ensures
            s@ == self.spec_name(),
    {
        match self {
            PartitionPlan::Split => "split",
            PartitionPlan::Unified => "unified",
        }
    }
}

/// An enumerated flag that steers conditional package compilation for an
/// image variant. Each feature serializes as an uppercase identifier and
/// is passed as a `--build-arg` with the value `1`.
#[derive(Clone, Copy, Debug, PartialEq, Eq, Structural)]
pub enum ImageFeature {
    GrubSetPrivateVar,
    SystemdNetworkd,
    UnifiedCgroupHierarchy,
    XfsDataPartition,
    UefiSecureBoot,
    InPlaceUpdates,
}

impl ImageFeature {
    pub open spec fn spec_name(self) -> Seq<char> {
        match self {
            ImageFeature::GrubSetPrivateVar => "GRUB_SET_PRIVATE_VAR"@,
            ImageFeature::SystemdNetworkd => "SYSTEMD_NETWORKD"@,
            ImageFeature::UnifiedCgroupHierarchy => "UNIFIED_CGROUP_HIERARCHY"@,
            ImageFeature::XfsDataPartition => "XFS_DATA_PARTITION"@,
            ImageFeature::UefiSecureBoot => "UEFI_SECURE_BOOT"@,
            ImageFeature::InPlaceUpdates => "IN_PLACE_UPDATES"@,
        }
    }

    pub fn as_str(&self) -> (s: &str)
        ensures
            s@ == self.spec_name(),
    {
        match self {
            ImageFeature::GrubSetPrivateVar => "GRUB_SET_PRIVATE_VAR",
            ImageFeature::SystemdNetworkd => "SYSTEMD_NETWORKD",
            ImageFeature::UnifiedCgroupHierarchy => "UNIFIED_CGROUP_HIERARCHY",
            ImageFeature::XfsDataPartition => "XFS_DATA_PARTITION",
            ImageFeature::UefiSecureBoot => "UEFI_SECURE_BOOT",
            ImageFeature::InPlaceUpdates => "IN_PLACE_UPDATES",
        }
    }
}

/// The two tokens of one `--build-arg KEY=VALUE` pair.
pub open spec fn build_arg_tokens(key: Seq<char>, value: Seq<char>) -> Seq<Seq<char>> {
    seq!["--build-arg"@, key + "="@ + value]
}

/// The two tokens of one `--secret type=..,id=..,src=..` pair.
pub open spec fn secret_tokens(typ: Seq<char>, id: Seq<char>, src: Seq<char>) -> Seq<Seq<char>> {
    seq!["--secret"@, "type="@ + typ + ",id="@ + id + ",src="@ + src]
}

/// Appends one `--build-arg KEY=VALUE` pair.
pub fn push_build_arg(args: &mut Vec<String>, key: &str, value: &str)
    ensures
        final(args).deep_view() == old(args).deep_view() + build_arg_tokens(key@, value@),
{
    args.push(String::from_str("--build-arg"));
    let mut kv = String::from_str(key);
    kv.append("=");
    kv.append(value);
    args.push(kv);
    proof {
        assert(final(args).deep_view() =~~= old(args).deep_view() + build_arg_tokens(
            key@,
            value@,
        ));
    }
}

/// Appends one `--secret type=..,id=..,src=..` pair.
pub fn push_build_secret(args: &mut Vec<String>, typ: &str, id: &str, src: &str)
    ensures
        final(args).deep_view() == old(args).deep_view() + secret_tokens(typ@, id@, src@),
{
    args.push(String::from_str("--secret"));
    let mut entry = String::from_str("type=");
    entry.append(typ);
    entry.append(",id=");
    entry.append(id);
    entry.append(",src=");
    entry.append(src);
    args.push(entry);
    proof {
        assert(final(args).deep_view() =~~= old(args).deep_view() + secret_tokens(
            typ@,
            id@,
            src@,
        ));
    }
}

/// One `--build-arg` pair per feature, with the value `1`, in list order.
pub open spec fn feature_args(feats: Seq<ImageFeature>) -> Seq<Seq<char>>
    decreases feats.len(),
{
    if feats.len() == 0 {
        Seq::empty()
    } else {
        feature_args(feats.drop_last()) + build_arg_tokens(feats.last().spec_name(), "1"@)
    }
}

/// Appends one feature pair per entry of `feats`.
fn push_feature_args(args: &mut Vec<String>, feats: &Vec<ImageFeature>)
    ensures
        final(args).deep_view() == old(args).deep_view() + feature_args(feats@),
{
    let ghost base = args.deep_view();
    let mut i: usize = 0;
    proof {
        assert(feats@.subrange(0, 0) =~= Seq::<ImageFeature>::empty());
    }
    while i < feats.len()
        invariant
            i <= feats@.len(),
            args.deep_view() == base + feature_args(feats@.subrange(0, i as int)),
        decreases feats@.len() - i,
    {
        let f = feats[i];
        push_build_arg(args, f.as_str(), "1");
        proof {
            let pre = feats@.subrange(0, i as int);
            let post = feats@.subrange(0, i + 1 as int);
            assert(post.drop_last() =~= pre);
            assert(post.last() == f);
        }
        i += 1;
    }
    proof {
        assert(feats@.subrange(0, feats@.len() as int) =~= feats@);
    }
}

/// The values steering a package build.
pub struct PackageBuildArgs {
    pub image_features: Vec<ImageFeature>,
    pub package: String,
    pub publish_repo: String,
    pub variant: String,
    pub variant_family: String,
    pub variant_flavor: String,
    pub variant_platform: String,
    pub variant_runtime: String,
}

impl PackageBuildArgs {
    /// The exact argument tokens a package build receives.
    pub open spec fn spec_build_args(self) -> Seq<Seq<char>> {
        build_arg_tokens("PACKAGE"@, self.package@) + build_arg_tokens("REPO"@, self.publish_repo@)
            + build_arg_tokens("VARIANT"@, self.variant@) + build_arg_tokens(
            "VARIANT_FAMILY"@,
            self.variant_family@,
        ) + build_arg_tokens("VARIANT_FLAVOR"@, self.variant_flavor@) + build_arg_tokens(
            "VARIANT_PLATFORM"@,
            self.variant_platform@,
        ) + build_arg_tokens("VARIANT_RUNTIME"@, self.variant_runtime@) + feature_args(
            self.image_features@,
        )
    }

    /// Builds the `--build-arg` pairs for a package build.
    pub fn build_args(&self) -> (args: Vec<String>)
        ensures
            args.deep_view() == self.spec_build_args(),
    {
        let mut args: Vec<String> = Vec::new();
        push_build_arg(&mut args, "PACKAGE", self.package.as_str());
        push_build_arg(&mut args, "REPO", self.publish_repo.as_str());
        push_build_arg(&mut args, "VARIANT", self.variant.as_str());
        push_build_arg(&mut args, "VARIANT_FAMILY", self.variant_family.as_str());
        push_build_arg(&mut args, "VARIANT_FLAVOR", self.variant_flavor.as_str());
        push_build_arg(&mut args, "VARIANT_PLATFORM", self.variant_platform.as_str());
        push_build_arg(&mut args, "VARIANT_RUNTIME", self.variant_runtime.as_str());
        push_feature_args(&mut args, &self.image_features);
        proof {
            assert(args.deep_view() =~= self.spec_build_args());
        }
        args
    }
}

/// The values steering a variant image build.
pub struct VariantBuildArgs {
    pub data_image_publish_size_gib: i32,
    pub data_image_size_gib: String,
    pub image_features: Vec<ImageFeature>,
    pub image_format: String,
    pub kernel_parameters: String,
    pub name: String,
    pub os_image_publish_size_gib: String,
    pub os_image_size_gib: String,
    pub packages: String,
    pub partition_plan: String,
    pub pretty_name: String,
    pub variant: String,
    pub variant_family: String,
    pub variant_flavor: String,
    pub variant_platform: String,
    pub variant_runtime: String,
    pub version_build: String,
    pub version_image: String,
}

impl VariantBuildArgs {
    /// Size fields are non-negative.
    pub open spec fn wf(self) -> bool {
        self.data_image_publish_size_gib >= 0
    }

    /// The exact argument tokens a variant image build receives.
    pub open spec fn spec_build_args(self) -> Seq<Seq<char>> {
        build_arg_tokens(
            "DATA_IMAGE_PUBLISH_SIZE_GIB"@,
            crate::text::dec_rep(self.data_image_publish_size_gib as nat),
        ) + build_arg_tokens("DATA_IMAGE_SIZE_GIB"@, self.data_image_size_gib@) + build_arg_tokens(
            "IMAGE_FORMAT"@,
            self.image_format@,
        ) + build_arg_tokens("KERNEL_PARAMETERS"@, self.kernel_parameters@) + build_arg_tokens(
            "IMAGE_NAME"@,
            self.name@,
        ) + build_arg_tokens("OS_IMAGE_PUBLISH_SIZE_GIB"@, self.os_image_publish_size_gib@)
            + build_arg_tokens("OS_IMAGE_SIZE_GIB"@, self.os_image_size_gib@) + build_arg_tokens(
            "PACKAGES"@,
            self.packages@,
        ) + build_arg_tokens("PARTITION_PLAN"@, self.partition_plan@) + build_arg_tokens(
            "PRETTY_NAME"@,
            self.pretty_name@,
        ) + build_arg_tokens("VARIANT"@, self.variant@) + build_arg_tokens(
            "VARIANT_FAMILY"@,
            self.variant_family@,
        ) + build_arg_tokens("VARIANT_FLAVOR"@, self.variant_flavor@) + build_arg_tokens(
            "VARIANT_PLATFORM"@,
            self.variant_platform@,
        ) + build_arg_tokens("VARIANT_RUNTIME"@, self.variant_runtime@) + build_arg_tokens(
            "BUILD_ID"@,
            self.version_build@,
        ) + build_arg_tokens("VERSION_ID"@, self.version_image@) + feature_args(
            self.image_features@,
        )
    }

    /// Builds the `--build-arg` pairs for a variant image build.
    pub fn build_args(&self) -> (args: Vec<String>)
        requires
            self.wf(),
        ensures
            args.deep_view() == self.spec_build_args(),
    {
        let mut args: Vec<String> = Vec::new();
        let publish_size = crate::text::i32_to_dec(self.data_image_publish_size_gib);
        push_build_arg(&mut args, "DATA_IMAGE_PUBLISH_SIZE_GIB", publish_size.as_str());
        push_build_arg(&mut args, "DATA_IMAGE_SIZE_GIB", self.data_image_size_gib.as_str());
        push_build_arg(&mut args, "IMAGE_FORMAT", self.image_format.as_str());
        push_build_arg(&mut args, "KERNEL_PARAMETERS", self.kernel_parameters.as_str());
        push_build_arg(&mut args, "IMAGE_NAME", self.name.as_str());
        push_build_arg(&mut args, "OS_IMAGE_PUBLISH_SIZE_GIB", self.os_image_publish_size_gib.as_str());
        push_build_arg(&mut args, "OS_IMAGE_SIZE_GIB", self.os_image_size_gib.as_str());
        push_build_arg(&mut args, "PACKAGES", self.packages.as_str());
        push_build_arg(&mut args, "PARTITION_PLAN", self.partition_plan.as_str());
        push_build_arg(&mut args, "PRETTY_NAME", self.pretty_name.as_str());
        push_build_arg(&mut args, "VARIANT", self.variant.as_str());
        push_build_arg(&mut args, "VARIANT_FAMILY", self.variant_family.as_str());
        push_build_arg(&mut args, "VARIANT_FLAVOR", self.variant_flavor.as_str());
        push_build_arg(&mut args, "VARIANT_PLATFORM", self.variant_platform.as_str());
        push_build_arg(&mut args, "VARIANT_RUNTIME", self.variant_runtime.as_str());
        push_build_arg(&mut args, "BUILD_ID", self.version_build.as_str());
        push_build_arg(&mut args, "VERSION_ID", self.version_image.as_str());
        push_feature_args(&mut args, &self.image_features);
        proof {
            assert(args.deep_view() =~= self.spec_build_args());
        }
        args
    }
}

/// The per-kind argument values of one build.
pub enum TargetBuildArgs {
    Package(PackageBuildArgs),
    Variant(VariantBuildArgs),
}

impl TargetBuildArgs {
    /// The build kind these arguments belong to.
    pub fn build_type(&self) -> (t: BuildType)
        ensures
            t == match self {
                TargetBuildArgs::Package(_) => BuildType::Package,
                TargetBuildArgs::Variant(_) => BuildType::Variant,
            },
    {
        match self {
            TargetBuildArgs::Package(_) => BuildType::Package,
            TargetBuildArgs::Variant(_) => BuildType::Variant,
        }
    }

    /// Size fields are non-negative.
    pub open spec fn wf(self) -> bool {
        match self {
            TargetBuildArgs::Package(_) => true,
            TargetBuildArgs::Variant(v) => v.wf(),
        }
    }

    /// The per-kind argument tokens.
    pub open spec fn spec_build_args(self) -> Seq<Seq<char>> {
        match self {
            TargetBuildArgs::Package(p) => p.spec_build_args(),
            TargetBuildArgs::Variant(v) => v.spec_build_args(),
        }
    }

    /// Builds the per-kind `--build-arg` pairs.
    pub fn build_args(&self) -> (args: Vec<String>)
        requires
            self.wf(),
        ensures
            args.deep_view() == self.spec_build_args(),
    {
        match self {
            TargetBuildArgs::Package(p) => p.build_args(),
            TargetBuildArgs::Variant(v) => v.build_args(),
        }
    }
}

/// One file from the secrets profile directory: its bare name and its full
/// path.
pub struct SecretFile {
    pub name: String,
    pub path: String,
}

/// One file secret per profile entry, in directory order.
pub open spec fn file_secret_args(files: Seq<SecretFile>) -> Seq<Seq<char>>
    decreases files.len(),
{
    if files.len() == 0 {
        Seq::empty()
    } else {
        file_secret_args(files.drop_last()) + secret_tokens(
            "file"@,
            files.last().name@,
            files.last().path@,
        )
    }
}

/// The three cloud credential variables, forwarded as env secrets under
/// their lower-hyphenated names; unset values are still forwarded.
pub open spec fn env_secret_args() -> Seq<Seq<char>> {
    secret_tokens("env"@, "aws-access-key-id.env"@, "AWS_ACCESS_KEY_ID"@) + secret_tokens(
        "env"@,
        "aws-secret-access-key.env"@,
        "AWS_SECRET_ACCESS_KEY"@,
    ) + secret_tokens("env"@, "aws-session-token.env"@, "AWS_SESSION_TOKEN"@)
}

/// Builds the `--secret` arguments for an image build: one file secret per
/// entry of the secrets profile directory (enumerated by the caller),
/// then the three cloud credential env secrets.
pub fn secrets_args(files: &Vec<SecretFile>) -> (args: Vec<String>)
    ensures
        args.deep_view() == file_secret_args(files@) + env_secret_args(),
{
    let mut args: Vec<String> = Vec::new();
    let mut i: usize = 0;
    proof {
        assert(files@.subrange(0, 0) =~= Seq::<SecretFile>::empty());
    }
    while i < files.len()
        invariant
            i <= files@.len(),
            args.deep_view() == file_secret_args(files@.subrange(0, i as int)),
        decreases files@.len() - i,
    {
        push_build_secret(&mut args, "file", files[i].name.as_str(), files[i].path.as_str());
        proof {
            let pre = files@.subrange(0, i as int);
            let post = files@.subrange(0, i + 1 as int);
            assert(post.drop_last() =~= pre);
            assert(post.last() == files@[i as int]);
        }
        i += 1;
    }
    proof {
        assert(files@.subrange(0, files@.len() as int) =~= files@);
    }
    push_build_secret(&mut args, "env", "aws-access-key-id.env", "AWS_ACCESS_KEY_ID");
    push_build_secret(&mut args, "env", "aws-secret-access-key.env", "AWS_SECRET_ACCESS_KEY");
    push_build_secret(&mut args, "env", "aws-session-token.env", "AWS_SESSION_TOKEN");
    proof {
        assert(args.deep_view() =~= file_secret_args(files@) + env_secret_args());
    }
    args
}

} // verus!
