use pixi_list::{
    ApiContext, GitAttributes, InitOptions, Interface, LockFileUsage, LockFileUsageConfig,
    LockFileUsageError, PackageExt, CondaPackageData,
};

struct Silent;

impl Interface for Silent {}

#[test]
fn api_context_keeps_interface() {
    let ctx = ApiContext::new(Silent);
    let _: &Silent = ctx.interface();
}

#[test]
fn github_and_codeberg_share_template() {
    assert_eq!(GitAttributes::Github.template(), GitAttributes::Codeberg.template());
    assert!(GitAttributes::Github.template().contains("linguist-language=YAML"));
    assert!(GitAttributes::Gitlab.template().starts_with("# GitLab syntax highlighting"));
    assert!(GitAttributes::Gitlab.template().ends_with("gitlab-generated=true\n"));
}

#[test]
fn init_options_default() {
    let o = InitOptions::default();
    assert_eq!(o.path, ".");
    assert!(o.channels.is_none());
    assert!(o.platforms.is_empty());
    assert!(o.env_file.is_none());
    assert!(o.format.is_none());
    assert!(!o.pyproject_toml);
    assert!(o.scm.is_none());
}

#[test]
fn frozen_and_locked_conflict() {
    let c = LockFileUsageConfig { frozen: true, locked: true };
    assert_eq!(c.validate(), Err(LockFileUsageError::FrozenAndLocked));
    assert_eq!(c.lock_file_usage(), Err(LockFileUsageError::FrozenAndLocked));
    let msg = LockFileUsageError::FrozenAndLocked.message();
    assert!(msg.contains("--locked") && msg.contains("--frozen"));
}

#[test]
fn lock_file_usage_modes() {
    let f = LockFileUsageConfig { frozen: true, locked: false };
    let l = LockFileUsageConfig { frozen: false, locked: true };
    let u = LockFileUsageConfig::default();
    assert_eq!(f.validate(), Ok(()));
    assert_eq!(f.lock_file_usage(), Ok(LockFileUsage::Frozen));
    assert_eq!(l.lock_file_usage(), Ok(LockFileUsage::Locked));
    assert_eq!(u.lock_file_usage(), Ok(LockFileUsage::Update));
}

#[test]
fn record_accessors() {
    let rec = PackageExt::Conda(CondaPackageData::Source {
        name: "mylib".to_string(),
        version: "0.1.0".to_string(),
        build: "h0".to_string(),
        location: "../mylib".to_string(),
    });
    assert_eq!(rec.name(), "mylib");
    assert_eq!(rec.version(), "0.1.0");
    assert!(rec.as_conda().is_some());
}
