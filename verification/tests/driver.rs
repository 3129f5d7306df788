use buildsys::args::{
    secrets_args, BuildType, ImageFeature, ImageFormat, PackageBuildArgs, SecretFile,
    SupportedArch, TargetBuildArgs, VariantBuildArgs,
};
use buildsys::driver::{
    marker_dir_path, next_step, BuildPackageArgs, BuildStep, BuildVariantArgs, CommonArgs,
    CommonBuildArgs, DockerBuild, ImageLayout, ManifestInfo,
};
use buildsys::token::token;

fn s(v: &str) -> String {
    v.to_string()
}

fn arg_pairs(args: &[String]) -> Vec<(String, String)> {
    // Collapse a `--build-arg KEY=VALUE` token stream into pairs.
    let mut pairs = Vec::new();
    let mut it = args.iter();
    while let Some(flag) = it.next() {
        assert_eq!(flag, "--build-arg");
        let kv = it.next().unwrap();
        let (k, v) = kv.split_once('=').unwrap();
        pairs.push((k.to_string(), v.to_string()));
    }
    pairs
}

fn package_args() -> PackageBuildArgs {
    PackageBuildArgs {
        image_features: vec![ImageFeature::XfsDataPartition],
        package: s("foo"),
        publish_repo: s("repo"),
        variant: s("aws-dev"),
        variant_family: s("aws"),
        variant_flavor: s("dev"),
        variant_platform: s("aws"),
        variant_runtime: s("host"),
    }
}

#[test]
fn package_build_args_exact() {
    let args = package_args().build_args();
    let pairs = arg_pairs(&args);
    assert_eq!(
        pairs,
        vec![
            (s("PACKAGE"), s("foo")),
            (s("REPO"), s("repo")),
            (s("VARIANT"), s("aws-dev")),
            (s("VARIANT_FAMILY"), s("aws")),
            (s("VARIANT_FLAVOR"), s("dev")),
            (s("VARIANT_PLATFORM"), s("aws")),
            (s("VARIANT_RUNTIME"), s("host")),
            (s("XFS_DATA_PARTITION"), s("1")),
        ]
    );
}

#[test]
fn variant_build_args_exact() {
    let v = VariantBuildArgs {
        data_image_publish_size_gib: 20,
        data_image_size_gib: s("1"),
        image_features: vec![],
        image_format: s("raw"),
        kernel_parameters: s("console=ttyS0 quiet"),
        name: s("img"),
        os_image_publish_size_gib: s("2"),
        os_image_size_gib: s("2"),
        packages: s("pkg-a pkg-b"),
        partition_plan: s("split"),
        pretty_name: s("My OS"),
        variant: s("aws-dev"),
        variant_family: s("aws"),
        variant_flavor: s("dev"),
        variant_platform: s("aws"),
        variant_runtime: s("host"),
        version_build: s("abcdef"),
        version_image: s("1.2.3"),
    };
    let pairs = arg_pairs(&v.build_args());
    assert_eq!(pairs[0], (s("DATA_IMAGE_PUBLISH_SIZE_GIB"), s("20")));
    assert_eq!(pairs[1], (s("DATA_IMAGE_SIZE_GIB"), s("1")));
    assert_eq!(pairs[2], (s("IMAGE_FORMAT"), s("raw")));
    assert_eq!(pairs[3], (s("KERNEL_PARAMETERS"), s("console=ttyS0 quiet")));
    assert_eq!(pairs[4], (s("IMAGE_NAME"), s("img")));
    assert_eq!(pairs[7], (s("PACKAGES"), s("pkg-a pkg-b")));
    assert_eq!(pairs[9], (s("PRETTY_NAME"), s("My OS")));
    assert_eq!(pairs[15], (s("BUILD_ID"), s("abcdef")));
    assert_eq!(pairs[16], (s("VERSION_ID"), s("1.2.3")));
    assert_eq!(pairs.len(), 17);
}

#[test]
fn build_type_of_target_args() {
    let p = TargetBuildArgs::Package(package_args());
    assert_eq!(p.build_type(), BuildType::Package);
}

#[test]
fn secrets_args_exact() {
    let files = vec![SecretFile { name: s("key.pem"), path: s("/sb/key.pem") }];
    let args = secrets_args(&files);
    assert_eq!(
        args,
        vec![
            s("--secret"),
            s("type=file,id=key.pem,src=/sb/key.pem"),
            s("--secret"),
            s("type=env,id=aws-access-key-id.env,src=AWS_ACCESS_KEY_ID"),
            s("--secret"),
            s("type=env,id=aws-secret-access-key.env,src=AWS_SECRET_ACCESS_KEY"),
            s("--secret"),
            s("type=env,id=aws-session-token.env,src=AWS_SESSION_TOKEN"),
        ]
    );
}

fn common_args() -> CommonArgs {
    CommonArgs {
        arch: SupportedArch::X86_64,
        sdk_image: s("sdk:v1"),
        root_dir: s("/src"),
        state_dir: s("/src/build/state"),
        tools_dir: s("/src/tools"),
    }
}

fn empty_manifest() -> ManifestInfo {
    ManifestInfo {
        package_name: None,
        image_layout: None,
        image_format: None,
        image_features: None,
        kernel_parameters: None,
        included_packages: None,
    }
}

#[test]
fn common_build_args_shape() {
    let c = CommonBuildArgs::new("/src", s("sdk:v1"), SupportedArch::X86_64);
    let t = token("/src");
    assert_eq!(c.token, t);
    let nocache: u32 = c.nocache.parse().unwrap();
    assert_eq!(c.jobs_socket, format!("buildsys-jobserver-{t}-{nocache}"));
}

#[test]
fn new_package_fields() {
    let args = BuildPackageArgs {
        common: common_args(),
        cargo_package_name: s("foo"),
        packages_dir: s("/src/build/packages"),
        publish_repo: s("repo"),
        variant: s("aws-dev"),
        variant_family: s("aws"),
        variant_flavor: s("dev"),
        variant_platform: s("aws"),
        variant_runtime: s("host"),
    };
    let d = DockerBuild::new_package(args, &empty_manifest(), vec![]);
    assert_eq!(d.dockerfile, "/src/tools/Dockerfile");
    assert_eq!(d.context, "/src");
    assert_eq!(d.target, "package");
    assert_eq!(d.tag, format!("buildsys-pkg-foo-x86_64-{}", token("/src")));
    assert_eq!(d.artifact_name, "foo");
    assert_eq!(d.artifacts_dir, "/src/build/packages");
    assert!(d.secrets_args.is_empty());
}

#[test]
fn new_package_honors_name_override() {
    let mut manifest = empty_manifest();
    manifest.package_name = Some(s("bar"));
    let args = BuildPackageArgs {
        common: common_args(),
        cargo_package_name: s("foo"),
        packages_dir: s("/p"),
        publish_repo: s("repo"),
        variant: s("v"),
        variant_family: s("f"),
        variant_flavor: s("fl"),
        variant_platform: s("pl"),
        variant_runtime: s("rt"),
    };
    let d = DockerBuild::new_package(args, &manifest, vec![]);
    assert_eq!(d.artifact_name, "bar");
    assert_eq!(d.tag, format!("buildsys-pkg-bar-x86_64-{}", token("/src")));
}

fn variant_args() -> BuildVariantArgs {
    BuildVariantArgs {
        common: common_args(),
        image_arch_variant_dir: s("/src/build/images/x86_64/aws-dev"),
        name: s("img"),
        pretty_name: s("My OS"),
        variant: s("aws-dev"),
        variant_family: s("aws"),
        variant_flavor: s("dev"),
        variant_platform: s("aws"),
        variant_runtime: s("host"),
        version_build: s("abcdef"),
        version_image: s("1.2.3"),
    }
}

#[test]
fn new_variant_defaults() {
    let d = DockerBuild::new_variant(variant_args(), &empty_manifest(), &Vec::new());
    assert_eq!(d.target, "variant");
    assert_eq!(d.tag, format!("buildsys-var-aws-dev-x86_64-{}", token("/src")));
    match &d.target_build_args {
        TargetBuildArgs::Variant(v) => {
            assert_eq!(v.image_format, "raw");
            assert_eq!(v.partition_plan, "split");
            assert_eq!(v.os_image_size_gib, "2");
            assert_eq!(v.data_image_size_gib, "1");
            assert_eq!(v.data_image_publish_size_gib, 1);
            assert_eq!(v.kernel_parameters, "");
            assert_eq!(v.packages, "");
        },
        TargetBuildArgs::Package(_) => panic!("expected a variant build"),
    }
    // Env secrets are always forwarded, even with no profile files.
    assert_eq!(d.secrets_args.len(), 6);
}

#[test]
fn new_variant_reads_manifest() {
    let manifest = ManifestInfo {
        package_name: None,
        image_layout: Some(ImageLayout {
            os_image_size_gib: 4,
            data_image_size_gib: 3,
            os_image_publish_size_gib: 8,
            data_image_publish_size_gib: 20,
            partition_plan: buildsys::args::PartitionPlan::Unified,
        }),
        image_format: Some(ImageFormat::Vmdk),
        image_features: Some(vec![ImageFeature::GrubSetPrivateVar]),
        kernel_parameters: Some(vec![s("console=ttyS0"), s("quiet")]),
        included_packages: Some(vec![s("pkg-a"), s("pkg-b")]),
    };
    let d = DockerBuild::new_variant(variant_args(), &manifest, &Vec::new());
    match &d.target_build_args {
        TargetBuildArgs::Variant(v) => {
            assert_eq!(v.image_format, "vmdk");
            assert_eq!(v.partition_plan, "unified");
            assert_eq!(v.os_image_size_gib, "4");
            assert_eq!(v.os_image_publish_size_gib, "8");
            assert_eq!(v.data_image_size_gib, "3");
            assert_eq!(v.data_image_publish_size_gib, 20);
            assert_eq!(v.kernel_parameters, "console=ttyS0 quiet");
            assert_eq!(v.packages, "pkg-a pkg-b");
            assert_eq!(v.image_features, vec![ImageFeature::GrubSetPrivateVar]);
        },
        TargetBuildArgs::Package(_) => panic!("expected a variant build"),
    }
}

#[test]
fn build_command_shape() {
    let d = DockerBuild::new_variant(variant_args(), &empty_manifest(), &Vec::new());
    let cmd = d.build_command();
    let tag = d.tag.clone();
    assert_eq!(
        &cmd[..10],
        &[
            s("build"),
            s("/src"),
            s("--target"),
            s("variant"),
            s("--tag"),
            tag.clone(),
            s("--network"),
            s("host"),
            s("--file"),
            s("/src/tools/Dockerfile"),
        ]
    );
    assert_eq!(cmd[10], "--build-arg");
    assert_eq!(cmd[11], format!("BYPASS_SOCKET={tag}-bypass"));
    // The jobserver socket rides along as a build argument.
    let jobs = format!("JOBS_SOCKET={}", d.common_build_args.jobs_socket);
    assert!(cmd.iter().any(|t| *t == jobs));
    // The secrets close the vector.
    assert_eq!(cmd[cmd.len() - 1], "type=env,id=aws-session-token.env,src=AWS_SESSION_TOKEN");
}

#[test]
fn helper_commands_shape() {
    let d = DockerBuild::new_variant(variant_args(), &empty_manifest(), &Vec::new());
    let tag = d.tag.clone();
    assert_eq!(d.rm_command(), vec![s("rm"), s("--force"), tag.clone()]);
    assert_eq!(d.rmi_command(), vec![s("rmi"), s("--force"), tag.clone()]);
    assert_eq!(
        d.rm_bypass_command(),
        vec![s("rm"), s("--force"), format!("{tag}-bypass")]
    );
    assert_eq!(
        d.create_command(),
        vec![s("create"), s("--name"), tag.clone(), tag.clone(), s("true")]
    );
    assert_eq!(
        d.cp_command("/src/build/state/x86_64/variants/aws-dev"),
        vec![
            s("cp"),
            format!("{tag}:/output/."),
            s("/src/build/state/x86_64/variants/aws-dev"),
        ]
    );
    let bypass = d.run_bypass_command();
    assert_eq!(bypass[0], "run");
    assert_eq!(bypass[2], format!("{tag}-bypass"));
    assert_eq!(bypass[12], "/src:/bypass:ro");
    assert_eq!(
        &bypass[bypass.len() - 6..],
        &[
            s("--socket"),
            format!("{tag}-bypass"),
            s("--client-uid"),
            s("0"),
            s("--path"),
            s("/bypass"),
        ]
    );
}

#[test]
fn marker_dir_layout() {
    assert_eq!(
        marker_dir_path(BuildType::Package, "foo", "x86_64", "/state"),
        "/state/x86_64/packages/foo"
    );
    assert_eq!(
        marker_dir_path(BuildType::Variant, "aws-dev", "aarch64", "/state"),
        "/state/aarch64/variants/aws-dev"
    );
    let d = DockerBuild::new_variant(variant_args(), &empty_manifest(), &Vec::new());
    assert_eq!(d.marker_dir(), "/src/build/state/x86_64/variants/aws-dev");
}

#[test]
fn jobserver_broker_configuration() {
    let d = DockerBuild::new_variant(variant_args(), &empty_manifest(), &Vec::new());
    let broker = d.jobserver_broker(3, 4);
    assert_eq!(broker.socket, d.common_build_args.jobs_socket);
    assert_eq!(broker.client_uid, 1000);
    assert_eq!(broker.fds, Some(vec![3, 4]));
    assert!(broker.paths.is_none());
}

#[test]
fn build_steps_in_order() {
    let mut step = BuildStep::PrepareMarkerDir;
    let order = [
        BuildStep::CleanOutputs,
        BuildStep::StartBrokers,
        BuildStep::RunBuild,
        BuildStep::StopBrokers,
        BuildStep::CreateScratch,
        BuildStep::CopyArtifacts,
        BuildStep::RemoveScratch,
        BuildStep::RemoveImage,
        BuildStep::Harvest,
        BuildStep::Done,
        BuildStep::Done,
    ];
    for expected in order {
        step = next_step(step, true);
        assert_eq!(step, expected);
    }
}

#[test]
fn failed_build_skips_harvest() {
    let step = next_step(BuildStep::StopBrokers, false);
    assert_eq!(step, BuildStep::Failed);
    assert_eq!(next_step(step, false), BuildStep::Failed);
}
