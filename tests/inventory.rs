use pixi_list::{
    build_inventory, filter_packages, list_packages, serde_skip_is_editable, sort_packages,
    total_size, CondaPackageData, DiskUsage, ListError, Package, PackageExt, PackageKind,
    PathUsage, PypiPackageData, RegistryEntry, RegistryWheelIndex, SortBy, UrlOrPath,
};

fn numpy() -> PackageExt {
    PackageExt::Conda(CondaPackageData::Binary {
        name: "numpy".to_string(),
        version: "1.26.0".to_string(),
        build: "py311h_0".to_string(),
        size: Some(5_000_000),
        channel: Some("conda-forge".to_string()),
    })
}

fn requests() -> PackageExt {
    PackageExt::PyPI(
        PypiPackageData {
            name: "requests".to_string(),
            version: "2.31.0".to_string(),
            hash: None,
            editable: true,
            location: UrlOrPath::Path("/work/requests".to_string()),
        },
        "requests".to_string(),
    )
}

fn disk() -> DiskUsage {
    DiskUsage {
        paths: vec![PathUsage {
            path: "/work/requests".to_string(),
            file_sizes: Some(vec![100_000, 15_000, 5_000]),
        }],
    }
}

fn names() -> Vec<String> {
    vec!["numpy".to_string()]
}

fn inventory() -> Vec<Package> {
    build_inventory(&vec![numpy(), requests()], &names(), None, &disk()).unwrap()
}

fn package_names(packages: &[Package]) -> Vec<String> {
    packages.iter().map(|p| p.name.clone()).collect()
}

#[test]
fn two_ecosystems_normalized() {
    let packages = inventory();
    assert_eq!(packages.len(), 2);
    let n = &packages[0];
    assert_eq!(n.name, "numpy");
    assert_eq!(n.version, "1.26.0");
    assert_eq!(n.build.as_deref(), Some("py311h_0"));
    assert_eq!(n.kind, PackageKind::Conda);
    assert!(n.is_explicit);
    assert!(!n.is_editable);
    assert_eq!(n.size_bytes, Some(5_000_000));
    assert_eq!(n.source.as_deref(), Some("conda-forge"));
    let r = &packages[1];
    assert_eq!(r.name, "requests");
    assert_eq!(r.kind, PackageKind::Pypi);
    assert!(!r.is_explicit);
    assert!(r.is_editable);
    assert_eq!(r.build, None);
    assert_eq!(r.size_bytes, Some(120_000));
    assert_eq!(r.source.as_deref(), Some("/work/requests"));
}

#[test]
fn sort_by_size_puts_smaller_first() {
    let mut packages = inventory();
    sort_packages(&mut packages, SortBy::Size);
    assert_eq!(package_names(&packages), vec!["requests", "numpy"]);
}

#[test]
fn explicit_only_keeps_declared() {
    let packages = filter_packages(inventory(), &None, true).unwrap();
    assert_eq!(package_names(&packages), vec!["numpy"]);
    assert!(packages.iter().all(|p| p.is_explicit));
}

#[test]
fn regex_keeps_matching_names() {
    let packages = filter_packages(inventory(), &Some("^req".to_string()), false).unwrap();
    assert_eq!(package_names(&packages), vec!["requests"]);
}

#[test]
fn regex_matching_nothing_is_no_packages() {
    let r = filter_packages(inventory(), &Some("^zzz".to_string()), false);
    assert_eq!(r, Err(ListError::NoPackages));
}

#[test]
fn invalid_regex_is_rejected() {
    let r = filter_packages(inventory(), &Some("(".to_string()), false);
    assert_eq!(r, Err(ListError::InvalidRegex));
}

#[test]
fn regex_and_explicit_together() {
    let r = filter_packages(inventory(), &Some("^req".to_string()), true);
    assert_eq!(r, Err(ListError::NoPackages));
}

#[test]
fn list_packages_filters_the_inventory() {
    let r = list_packages(
        &vec![numpy(), requests()],
        &names(),
        None,
        &disk(),
        &Some("py".to_string()),
        false,
    )
    .unwrap();
    assert_eq!(package_names(&r), vec!["numpy"]);
}

#[test]
fn list_packages_empty_lock_data() {
    let r = list_packages(&vec![], &names(), None, &disk(), &None, false);
    assert_eq!(r, Err(ListError::NoPackages));
}

fn hashed_pypi(version: &str) -> PackageExt {
    PackageExt::PyPI(
        PypiPackageData {
            name: "Flask".to_string(),
            version: version.to_string(),
            hash: Some("sha256:00ff".to_string()),
            editable: false,
            location: UrlOrPath::Path("/work/flask".to_string()),
        },
        "flask".to_string(),
    )
}

fn registry() -> RegistryWheelIndex {
    RegistryWheelIndex {
        entries: vec![
            RegistryEntry {
                name: "flask".to_string(),
                version: "2.0.0".to_string(),
                filename: "flask-2.0.0-py3-none-any.whl".to_string(),
                path: "/cache/flask-2.0.0".to_string(),
            },
            RegistryEntry {
                name: "flask".to_string(),
                version: "3.0.0".to_string(),
                filename: "flask-3.0.0-py3-none-any.whl".to_string(),
                path: "/cache/flask-3.0.0".to_string(),
            },
        ],
    }
}

fn cache_disk() -> DiskUsage {
    DiskUsage {
        paths: vec![
            PathUsage { path: "/work/flask".to_string(), file_sizes: Some(vec![7]) },
            PathUsage { path: "/cache/flask-3.0.0".to_string(), file_sizes: Some(vec![300, 45]) },
        ],
    }
}

#[test]
fn hashed_package_without_registry_match_has_no_size() {
    let index = registry();
    let p = Package::new(&hashed_pypi("9.9.9"), &vec![], Some(&index), &cache_disk()).unwrap();
    assert_eq!(p.size_bytes, None);
    assert_eq!(p.source, None);
    assert_eq!(p.kind, PackageKind::Pypi);
}

#[test]
fn hashed_package_found_in_registry() {
    let index = registry();
    let p = Package::new(&hashed_pypi("3.0.0"), &vec![], Some(&index), &cache_disk()).unwrap();
    assert_eq!(p.size_bytes, Some(345));
    assert_eq!(p.source.as_deref(), Some("flask-3.0.0-py3-none-any.whl"));
}

#[test]
fn hashed_package_without_registry_uses_location() {
    let p = Package::new(&hashed_pypi("3.0.0"), &vec![], None, &cache_disk()).unwrap();
    assert_eq!(p.size_bytes, Some(7));
    assert_eq!(p.source.as_deref(), Some("/work/flask"));
}

#[test]
fn registry_entry_without_disk_read_has_no_size() {
    let index = registry();
    let p = Package::new(&hashed_pypi("2.0.0"), &vec![], Some(&index), &cache_disk()).unwrap();
    assert_eq!(p.size_bytes, None);
    assert_eq!(p.source.as_deref(), Some("flask-2.0.0-py3-none-any.whl"));
}

#[test]
fn url_location_has_no_size() {
    let rec = PackageExt::PyPI(
        PypiPackageData {
            name: "six".to_string(),
            version: "1.16.0".to_string(),
            hash: None,
            editable: false,
            location: UrlOrPath::Url("https://files.example/six.whl".to_string()),
        },
        "six".to_string(),
    );
    let p = Package::new(&rec, &vec!["six".to_string()], None, &DiskUsage { paths: vec![] }).unwrap();
    assert_eq!(p.size_bytes, None);
    assert_eq!(p.source.as_deref(), Some("https://files.example/six.whl"));
    assert!(p.is_explicit);
}

#[test]
fn failed_walk_is_an_error() {
    let d = DiskUsage {
        paths: vec![PathUsage { path: "/work/requests".to_string(), file_sizes: None }],
    };
    assert_eq!(Package::new(&requests(), &vec![], None, &d), Err(ListError::SizeUnreadable));
    let r = list_packages(&vec![numpy(), requests()], &names(), None, &d, &None, false);
    assert_eq!(r, Err(ListError::SizeUnreadable));
}

#[test]
fn path_never_read_has_no_size() {
    let p = Package::new(&requests(), &vec![], None, &DiskUsage { paths: vec![] }).unwrap();
    assert_eq!(p.size_bytes, None);
    assert_eq!(p.source.as_deref(), Some("/work/requests"));
}

#[test]
fn failed_walk_of_registry_entry_is_an_error() {
    let index = registry();
    let d = DiskUsage {
        paths: vec![PathUsage { path: "/cache/flask-3.0.0".to_string(), file_sizes: None }],
    };
    let r = Package::new(&hashed_pypi("3.0.0"), &vec![], Some(&index), &d);
    assert_eq!(r, Err(ListError::SizeUnreadable));
}

#[test]
fn registry_versions_compare_as_pep440() {
    let index = registry();
    let p = Package::new(&hashed_pypi("3.0"), &vec![], Some(&index), &cache_disk()).unwrap();
    assert_eq!(p.size_bytes, Some(345));
    assert_eq!(p.source.as_deref(), Some("flask-3.0.0-py3-none-any.whl"));
}

#[test]
fn unparsable_version_in_registry_lookup_is_an_error() {
    let index = registry();
    let r = Package::new(&hashed_pypi("not a version"), &vec![], Some(&index), &cache_disk());
    assert_eq!(r, Err(ListError::InvalidVersion));
    let empty = RegistryWheelIndex { entries: vec![] };
    let p = Package::new(&hashed_pypi("not a version"), &vec![], Some(&empty), &cache_disk()).unwrap();
    assert_eq!(p.size_bytes, None);
    assert_eq!(p.source, None);
}

#[test]
fn conda_source_record_has_location_and_no_size() {
    let rec = PackageExt::Conda(CondaPackageData::Source {
        name: "mylib".to_string(),
        version: "0.1.0".to_string(),
        build: "h0".to_string(),
        location: "../mylib".to_string(),
    });
    let p = Package::new(&rec, &vec![], None, &DiskUsage { paths: vec![] }).unwrap();
    assert_eq!(p.size_bytes, None);
    assert_eq!(p.source.as_deref(), Some("../mylib"));
    assert_eq!(p.build.as_deref(), Some("h0"));
    assert!(!p.is_editable);
}

#[test]
fn conda_binary_without_channel_has_no_source() {
    let rec = PackageExt::Conda(CondaPackageData::Binary {
        name: "zlib".to_string(),
        version: "1.3".to_string(),
        build: "h0".to_string(),
        size: None,
        channel: None,
    });
    let p = Package::new(&rec, &vec![], None, &DiskUsage { paths: vec![] }).unwrap();
    assert_eq!(p.source, None);
    assert_eq!(p.size_bytes, None);
}

#[test]
fn sort_by_name_is_lexicographic() {
    let mut packages = inventory();
    packages.reverse();
    sort_packages(&mut packages, SortBy::Name);
    assert_eq!(package_names(&packages), vec!["numpy", "requests"]);
    let mut v: Vec<Package> = ["b", "ab", "a", "B", "abc"]
        .iter()
        .map(|n| {
            Package::new(
                &PackageExt::PyPI(
                    PypiPackageData {
                        name: n.to_string(),
                        version: "1".to_string(),
                        hash: None,
                        editable: false,
                        location: UrlOrPath::Url("u".to_string()),
                    },
                    n.to_string(),
                ),
                &vec![],
                None,
                &DiskUsage { paths: vec![] },
            )
            .unwrap()
        })
        .collect();
    sort_packages(&mut v, SortBy::Name);
    assert_eq!(package_names(&v), vec!["B", "a", "ab", "abc", "b"]);
}

#[test]
fn sort_by_kind_puts_conda_first_and_is_stable() {
    let mut packages = vec![
        Package::new(&requests(), &vec![], None, &disk()).unwrap(),
        Package::new(&numpy(), &vec![], None, &disk()).unwrap(),
        Package::new(&hashed_pypi("1.0"), &vec![], None, &cache_disk()).unwrap(),
    ];
    sort_packages(&mut packages, SortBy::Kind);
    assert_eq!(package_names(&packages), vec!["numpy", "requests", "Flask"]);
}

#[test]
fn sort_by_size_treats_absent_as_zero() {
    let mut packages = vec![
        Package::new(&numpy(), &vec![], None, &disk()).unwrap(),
        Package::new(&requests(), &vec![], None, &DiskUsage { paths: vec![] }).unwrap(),
    ];
    sort_packages(&mut packages, SortBy::Size);
    assert_eq!(package_names(&packages), vec!["requests", "numpy"]);
    assert_eq!(packages[0].size_bytes, None);
}

#[test]
fn total_size_sums_and_detects_overflow() {
    assert_eq!(total_size(&vec![]), Some(0));
    assert_eq!(total_size(&vec![1, 2, 3]), Some(6));
    assert_eq!(total_size(&vec![u64::MAX, 0]), Some(u64::MAX));
    assert_eq!(total_size(&vec![u64::MAX, 1]), None);
}

#[test]
fn is_editable_skipped_only_when_false() {
    assert!(serde_skip_is_editable(&false));
    assert!(!serde_skip_is_editable(&true));
}

#[test]
fn kind_follows_record_variant() {
    assert_eq!(PackageKind::from(&numpy()), PackageKind::Conda);
    assert_eq!(PackageKind::from(&requests()), PackageKind::Pypi);
    assert!(PackageKind::Conda < PackageKind::Pypi);
}

#[test]
fn invalid_regex_is_rejected_even_on_empty_input() {
    let r = filter_packages(vec![], &Some("(".to_string()), false);
    assert_eq!(r, Err(ListError::InvalidRegex));
    let r = list_packages(&vec![], &names(), None, &disk(), &Some("[".to_string()), false);
    assert_eq!(r, Err(ListError::InvalidRegex));
}
