use forme::m5::{
    legal_lifecycle_transition, normalize_resource_path, scope_contains, sha256_content_digest,
    sha256_digest_bytes, CapabilityContributionDescriptor, CapabilityEcosystemSnapshot,
    CapabilityInstallPlan, CapabilityLifecycleState, CapabilityPackageKind,
    CapabilityPackageManifest, CapabilityPackageOperation, CapabilityPackageResource,
    EcosystemAggregateVersion, PackageSignature, SignedCapabilityPackage,
};
use forme::primitives::{
    CapabilityAdmissionRef, CapabilityInstallPlanRef, CapabilityPackageRef, CapabilityPolicyRef,
    CapabilityPublisherRef, CapabilityRef, CapabilityReleaseRef, PermissionRef, PlanDigest, Risk,
    RollbackBoundary, SchemaDigest, SchemaVersion, Scope, Version,
};

fn hex64(c: char) -> String {
    std::iter::repeat(c).take(64).collect()
}

#[test]
fn package_signature_needs_ed25519_prefix_and_128_hex_digits() {
    let good = PackageSignature(format!("ed25519:{}", "ab".repeat(64)));
    assert!(good.validate().is_ok());
    assert!(PackageSignature(format!("ed25519:{}", "ab".repeat(63))).validate().is_err());
    assert!(PackageSignature(format!("ed25519:{}zz", "ab".repeat(63))).validate().is_err());
    assert!(PackageSignature(format!("rsa:{}", "ab".repeat(64))).validate().is_err());
}

#[test]
fn resource_paths_must_be_relative_and_normalized() {
    assert_eq!(normalize_resource_path("skills/review.md").unwrap(), "skills/review.md");
    for bad in ["", "  ", "/abs", "a\\b", "c:x", "a//b", "a/./b", "a/../b", "a/", ".", ".."] {
        assert!(normalize_resource_path(bad).is_err(), "{bad}");
    }
    assert!(normalize_resource_path(".hidden/x").is_ok());
    assert!(normalize_resource_path("a/...").is_ok());
}

#[test]
fn scope_containment_follows_separators() {
    let s = |t: &str| Scope(t.into());
    assert!(scope_contains(&s("*"), &s("anything")));
    assert!(scope_contains(&s("workspace:alpha"), &s("workspace:alpha")));
    assert!(scope_contains(&s("workspace:alpha"), &s("workspace:alpha/project")));
    assert!(scope_contains(&s("workspace:alpha"), &s("workspace:alpha:beta")));
    assert!(!scope_contains(&s("workspace:alpha"), &s("workspace:alphabet")));
    assert!(!scope_contains(&s("workspace:alpha/project"), &s("workspace:alpha")));
}

#[test]
fn ecosystem_version_steps_by_one_until_exhausted() {
    let zero = EcosystemAggregateVersion::zero();
    assert_eq!(zero.value, 0);
    assert_eq!(zero.next().unwrap().value, 1);
    let last = EcosystemAggregateVersion { schema_version: SchemaVersion(1), value: u64::MAX };
    assert!(last.next().is_err());
    let invalid = EcosystemAggregateVersion { schema_version: SchemaVersion(0), value: 3 };
    assert!(invalid.next().is_err());
}

#[test]
fn lifecycle_moves_follow_the_package_state_machine() {
    type S = CapabilityLifecycleState;
    assert!(legal_lifecycle_transition(S::Admitted, S::Installed));
    assert!(legal_lifecycle_transition(S::Installed, S::Enabled));
    assert!(legal_lifecycle_transition(S::Enabled, S::Disabled));
    assert!(legal_lifecycle_transition(S::Disabled, S::Enabled));
    assert!(legal_lifecycle_transition(S::Enabled, S::Enabled));
    assert!(legal_lifecycle_transition(S::Disabled, S::Revoked));
    assert!(!legal_lifecycle_transition(S::Revoked, S::Enabled));
    assert!(!legal_lifecycle_transition(S::Quarantined, S::Admitted));
    assert!(!legal_lifecycle_transition(S::Installed, S::Disabled));
}

#[test]
fn content_digest_round_trips_through_digest_bytes() {
    let digest = sha256_content_digest(b"abc");
    assert_eq!(
        digest.0,
        "sha256:ba7816bf8f01cfea414140de5dae2223b00361a396177a9cb410ff61f20015ad"
    );
    let bytes = sha256_digest_bytes(&digest).unwrap();
    assert_eq!(bytes[0], 0xba);
    assert_eq!(bytes[31], 0xad);
    assert!(sha256_digest_bytes(&SchemaDigest("sha256:abc".into())).is_err());
    assert!(sha256_digest_bytes(&SchemaDigest(format!("md5:{}", hex64('a')))).is_err());
    assert!(sha256_digest_bytes(&SchemaDigest(format!("sha256:{}", hex64('A')))).is_ok());
}

fn resource(path: &str, content: &str) -> CapabilityPackageResource {
    CapabilityPackageResource {
        schema_version: SchemaVersion(1),
        relative_path: path.into(),
        content: content.into(),
        digest: SchemaDigest(String::new()),
    }
}

fn package() -> SignedCapabilityPackage {
    let first = sha256_content_digest("first body".as_bytes());
    let second = sha256_content_digest("second body".as_bytes());
    SignedCapabilityPackage {
        schema_version: SchemaVersion(1),
        manifest: CapabilityPackageManifest {
            schema_version: SchemaVersion(1),
            package: CapabilityPackageRef("package:review".into()),
            release: CapabilityReleaseRef("release:review:1".into()),
            version: Version(1),
            kind: CapabilityPackageKind::Skill,
            publisher: CapabilityPublisherRef("publisher:forme".into()),
            scope: Scope("workspace:alpha".into()),
            contributions: vec![
                CapabilityContributionDescriptor {
                    schema_version: SchemaVersion(1),
                    kind: CapabilityPackageKind::Skill,
                    capability: CapabilityRef("capability:a".into()),
                    payload_digest: second,
                    required_permissions: vec![PermissionRef("permission:read".into())],
                    risk: Risk::Low,
                    network: false,
                    hook: false,
                },
                CapabilityContributionDescriptor {
                    schema_version: SchemaVersion(1),
                    kind: CapabilityPackageKind::Skill,
                    capability: CapabilityRef("capability:b".into()),
                    payload_digest: first,
                    required_permissions: Vec::new(),
                    risk: Risk::Medium,
                    network: false,
                    hook: false,
                },
            ],
            dependencies: Vec::new(),
            sbom_digest: SchemaDigest(format!("sha256:{}", hex64('1'))),
            license_expression: "MIT".into(),
            body_digest: SchemaDigest(format!("sha256:{}", hex64('2'))),
            max_unpacked_bytes: 1024,
            contains_executable: false,
        },
        resources: vec![resource("skills/z.md", "first body"), resource("skills/a.md", "second body")],
        package_digest: SchemaDigest(format!("sha256:{}", hex64('3'))),
        signature: PackageSignature(format!("ed25519:{}", "cd".repeat(64))),
    }
}

#[test]
fn refreshed_package_is_sorted_digested_and_valid() {
    let mut package = package();
    assert!(package.validate().is_err());
    package.refresh_digests().unwrap();
    assert_eq!(package.resources[0].relative_path, "skills/a.md");
    assert_eq!(package.resources[1].relative_path, "skills/z.md");
    assert_eq!(package.resources[0].digest, sha256_content_digest("second body".as_bytes()));
    package.validate().expect("refreshed package");
}

#[test]
fn refreshing_keeps_equal_paths_in_order_and_a_second_refresh_changes_nothing() {
    let mut package = package();
    package.resources = vec![
        resource("skills/b.md", "second"),
        resource("skills/a.md", "first copy"),
        resource("skills/a.md", "first again"),
    ];
    package.refresh_digests().unwrap();
    let contents: Vec<&str> = package.resources.iter().map(|r| r.content.as_str()).collect();
    assert_eq!(contents, vec!["first copy", "first again", "second"]);
    let once = package.clone();
    package.refresh_digests().unwrap();
    assert_eq!(package, once);
}

#[test]
fn package_rejects_case_folded_duplicates_and_oversize() {
    let mut package = package();
    package.resources[1].relative_path = "skills/Z.md".into();
    package.resources[0].relative_path = "skills/z.md".into();
    package.refresh_digests().unwrap();
    assert!(package.validate().is_err());

    let mut package = package_small_limit();
    package.refresh_digests().unwrap();
    assert!(package.validate().is_err());
}

fn package_small_limit() -> SignedCapabilityPackage {
    let mut p = package();
    p.manifest.max_unpacked_bytes = 5;
    p
}

#[test]
fn install_plan_digest_is_refreshed_and_checked() {
    let mut plan = CapabilityInstallPlan {
        schema_version: SchemaVersion(1),
        reference: CapabilityInstallPlanRef("plan:1".into()),
        operation: CapabilityPackageOperation::Update,
        package: CapabilityPackageRef("package:review".into()),
        release: CapabilityReleaseRef("release:review:2".into()),
        package_digest: SchemaDigest(format!("sha256:{}", hex64('4'))),
        admission: CapabilityAdmissionRef("admission:1".into()),
        scope: Scope("workspace:alpha".into()),
        policy: CapabilityPolicyRef("policy:1".into()),
        policy_version: Version(1),
        expected_version: EcosystemAggregateVersion::zero(),
        previous_release: None,
        rollback_boundary: RollbackBoundary("release:review:1".into()),
        digest: PlanDigest(String::new()),
    };
    plan.refresh_digest().unwrap();
    assert!(plan.validate().is_err(), "an update names the release it replaces");
    plan.previous_release = Some(CapabilityReleaseRef("release:review:1".into()));
    assert!(plan.validate().is_err(), "the digest covers the previous release");
    plan.refresh_digest().unwrap();
    plan.validate().expect("complete update plan");
}

#[test]
fn empty_ecosystem_snapshot_is_valid() {
    let snapshot = CapabilityEcosystemSnapshot::empty(Scope("workspace:alpha".into()));
    snapshot.validate().expect("empty snapshot");
    assert!(snapshot.digest.0.starts_with("sha256:"));
    let mut changed = snapshot.clone();
    changed.version = changed.version.next().unwrap();
    assert!(changed.validate().is_err());
    changed.refresh_digest().unwrap();
    changed.validate().expect("refreshed snapshot");
    assert!(CapabilityEcosystemSnapshot::empty(Scope(" ".into())).validate().is_err());
}
