use std::str::FromStr;

use vstd::prelude::*;

use crate::text::{clone_opt, contains_name, contains_string};

verus! {

/// The ecosystem a package comes from.
#[derive(Clone, Copy, Debug, PartialEq, Eq, Structural, PartialOrd, Ord, Hash)]
pub enum PackageKind {
    Conda,
    Pypi,
}

/// One package of the inventory, the same shape for both ecosystems.
#[derive(Clone, Debug, PartialEq, Eq)]
pub struct Package {
    pub name: String,
    pub version: String,
    pub build: Option<String>,
    pub size_bytes: Option<u64>,
    pub kind: PackageKind,
    pub source: Option<String>,
    pub is_explicit: bool,
    pub is_editable: bool,
}

impl Package {
    /// What holds of every package this library builds: a conda package is
    /// never editable, and a build string is present exactly for conda.
    pub open spec fn wf(&self) -> bool {
        &&& (self.kind == PackageKind::Conda ==> !self.is_editable)
        &&& (self.kind == PackageKind::Pypi <==> self.build is None)
    }
}

/// A conda record of the lock data.
pub enum CondaPackageData {
    /// A built package, fetched from a channel; its size is recorded.
    Binary {
        name: String,
        version: String,
        build: String,
        size: Option<u64>,
        channel: Option<String>,
    },
    /// A package built from a source location; its size is not known.
    Source { name: String, version: String, build: String, location: String },
}

/// Where a Python distribution was taken from.
pub enum UrlOrPath {
    Url(String),
    Path(String),
}

/// A Python-ecosystem record of the lock data.
pub struct PypiPackageData {
    pub name: String,
    pub version: String,
    pub hash: Option<String>,
    pub editable: bool,
    pub location: UrlOrPath,
}

/// A lock-data record of either ecosystem. The Python variant carries the
/// normalized name under which the registry index files the distribution.
pub enum PackageExt {
    PyPI(PypiPackageData, String),
    Conda(CondaPackageData),
}

/// What was read from disk under one path: the lengths of all files below it,
/// or `None` where the walk failed with an I/O error.
pub struct PathUsage {
    pub path: String,
    pub file_sizes: Option<Vec<u64>>,
}

/// The disk reads available to the normalizer, one per path.
pub struct DiskUsage {
    pub paths: Vec<PathUsage>,
}

/// One distribution of the registry cache.
pub struct RegistryEntry {
    pub name: String,
    pub version: String,
    pub filename: String,
    pub path: String,
}

/// The cache of installed Python distributions.
pub struct RegistryWheelIndex {
    pub entries: Vec<RegistryEntry>,
}

/// Why an inventory could not be built or listed.
#[derive(Clone, Copy, Debug, PartialEq, Eq, Structural)]
pub enum ListError {
    /// The name filter is not a valid regular expression.
    InvalidRegex,
    /// No package is left after filtering.
    NoPackages,
    /// Walking a path to measure a package failed with an I/O error.
    SizeUnreadable,
    /// A record's version, looked up in the registry index, is not a valid
    /// PEP 440 version.
    InvalidVersion,
}

/// Whether a text parses as a PEP 440 version.
pub uninterp spec fn pep440_valid(version: Seq<char>) -> bool;

/// Whether two texts that parse as PEP 440 versions denote the same version.
pub uninterp spec fn pep440_eq(a: Seq<char>, b: Seq<char>) -> bool;

/// Relies on `pep440_rs::Version::from_str`, which fails on exactly the texts
/// that are not PEP 440 versions, and on `Version`'s `==`, equality of the
/// parsed versions.
#[verifier::external_body]
fn versions_match(candidate: &str, wanted: &str) -> (r: Result<bool, ()>)
    ensures
        r is Err <==> !pep440_valid(wanted@),
        r matches Ok(m) ==> m == (pep440_valid(candidate@) && pep440_eq(candidate@, wanted@)),
{
    match pep440_rs::Version::from_str(wanted) {
        Err(_) => Err(()),
        Ok(w) => match pep440_rs::Version::from_str(candidate) {
            Ok(c) => Ok(c == w),
            Err(_) => Ok(false),
        },
    }
}

/// The sum of a list of byte counts.
pub open spec fn sum_sizes(s: Seq<u64>) -> int
    decreases s.len(),
{
    if s.len() == 0 {
        0
    } else {
        sum_sizes(s.drop_last()) + s.last()
    }
}

proof fn lemma_sum_monotone(s: Seq<u64>, i: int)
    requires
        0 <= i <= s.len(),
    ensures
        sum_sizes(s.subrange(0, i)) <= sum_sizes(s),
    decreases s.len() - i,
{
    if i < s.len() {
        lemma_sum_monotone(s, i + 1);
        assert(s.subrange(0, i + 1).drop_last() =~= s.subrange(0, i));
    } else {
        assert(s.subrange(0, i) =~= s);
    }
}

/// A byte total, absent when it does not fit in a `u64`.
pub open spec fn fitting_total(s: Seq<u64>) -> Option<u64> {
    if sum_sizes(s) <= u64::MAX {
        Some(sum_sizes(s) as u64)
    } else {
        None
    }
}

/// Adds up the file lengths of one walk.
pub fn total_size(file_sizes: &Vec<u64>) -> (r: Option<u64>)
    ensures
        r == fitting_total(file_sizes@),
{
    let mut total: u64 = 0;
    let mut i: usize = 0;
    while i < file_sizes.len()
        invariant
            i <= file_sizes@.len(),
            total == sum_sizes(file_sizes@.subrange(0, i as int)),
        decreases file_sizes@.len() - i,
    {
        proof {
            assert(file_sizes@.subrange(0, i + 1).drop_last() =~= file_sizes@.subrange(0, i as int));
        }
        match total.checked_add(file_sizes[i]) {
            Some(t) => {
                total = t;
            },
            None => {
                proof {
                    lemma_sum_monotone(file_sizes@, i + 1);
                }
                return None;
            },
        }
        i = i + 1;
    }
    assert(file_sizes@.subrange(0, i as int) =~= file_sizes@);
    Some(total)
}

/// The first read of the listing taken at `path`, if any.
pub open spec fn usage_at(paths: Seq<PathUsage>, path: Seq<char>) -> Option<PathUsage>
    decreases paths.len(),
{
    if paths.len() == 0 {
        None
    } else if paths[0].path@ == path {
        Some(paths[0])
    } else {
        usage_at(paths.drop_first(), path)
    }
}

/// The size of what lies at `path`: the sum of its file lengths when the walk
/// succeeded and the sum fits in a `u64`, else absent.
pub open spec fn size_at(disk: DiskUsage, path: Seq<char>) -> Option<u64> {
    match usage_at(disk.paths@, path) {
        Some(u) => match u.file_sizes {
            Some(files) => fitting_total(files@),
            None => None,
        },
        None => None,
    }
}

/// Whether the walk recorded for `path` failed.
pub open spec fn walk_failed(disk: DiskUsage, path: Seq<char>) -> bool {
    usage_at(disk.paths@, path) matches Some(u) && u.file_sizes is None
}

impl DiskUsage {
    /// The byte size of what lies at `path`; an error where its walk failed.
    pub fn size_of(&self, path: &String) -> (r: Result<Option<u64>, ListError>)
        ensures
            walk_failed(*self, path@) ==> r == Err::<Option<u64>, ListError>(ListError::SizeUnreadable),
            !walk_failed(*self, path@) ==> r == Ok::<Option<u64>, ListError>(size_at(*self, path@)),
    {
        let mut i: usize = 0;
        assert(self.paths@.skip(0) =~= self.paths@);
        while i < self.paths.len()
            invariant
                i <= self.paths@.len(),
                usage_at(self.paths@, path@) == usage_at(self.paths@.skip(i as int), path@),
            decreases self.paths@.len() - i,
        {
            assert(self.paths@.skip(i as int).drop_first() =~= self.paths@.skip(i + 1));
            if self.paths[i].path == *path {
                return match &self.paths[i].file_sizes {
                    Some(files) => Ok(total_size(files)),
                    None => Err(ListError::SizeUnreadable),
                };
            }
            i = i + 1;
        }
        Ok(None)
    }
}

/// `e` is filed under `name` and its version equals `version` as a PEP 440
/// version.
pub open spec fn entry_matches(e: RegistryEntry, name: Seq<char>, version: Seq<char>) -> bool {
    e.name@ == name && pep440_valid(e.version@) && pep440_eq(e.version@, version)
}

/// Whether some entry is filed under `name`.
pub open spec fn has_name(entries: Seq<RegistryEntry>, name: Seq<char>) -> bool {
    exists|k: int| 0 <= k < entries.len() && #[trigger] entries[k].name@ == name
}

/// Index of the first entry filed under `name` whose version equals `version`.
pub open spec fn find_entry(entries: Seq<RegistryEntry>, name: Seq<char>, version: Seq<char>) -> Option<int>
    decreases entries.len(),
{
    if entries.len() == 0 {
        None
    } else if entry_matches(entries[0], name, version) {
        Some(0)
    } else {
        match find_entry(entries.drop_first(), name, version) {
            Some(i) => Some(i + 1),
            None => None,
        }
    }
}

proof fn lemma_find_entry_bounds(entries: Seq<RegistryEntry>, name: Seq<char>, version: Seq<char>)
    ensures
        find_entry(entries, name, version) matches Some(i) ==> 0 <= i < entries.len()
            && entry_matches(entries[i], name, version),
    decreases entries.len(),
{
    if entries.len() > 0 {
        lemma_find_entry_bounds(entries.drop_first(), name, version);
    }
}

impl RegistryWheelIndex {
    /// Finds the first distribution filed under `name` whose version equals
    /// `version` as a PEP 440 version. A `version` that does not parse is an
    /// error once an entry is filed under `name`.
    pub fn find(&self, name: &String, version: &String) -> (r: Result<Option<usize>, ListError>)
        ensures
            r is Err <==> !pep440_valid(version@) && has_name(self.entries@, name@),
            r is Err ==> r == Err::<Option<usize>, ListError>(ListError::InvalidVersion),
            r matches Ok(Some(i)) ==> find_entry(self.entries@, name@, version@) == Some(i as int)
                && i < self.entries@.len(),
            r matches Ok(None) ==> find_entry(self.entries@, name@, version@) is None,
    {
        let mut i: usize = 0;
        while i < self.entries.len()
            invariant
                i <= self.entries@.len(),
                forall|k: int| 0 <= k < i ==> !entry_matches(#[trigger] self.entries@[k], name@, version@),
                (exists|k: int| 0 <= k < i && #[trigger] self.entries@[k].name@ == name@) ==> pep440_valid(version@),
            decreases self.entries@.len() - i,
        {
            if self.entries[i].name == *name {
                match versions_match(self.entries[i].version.as_str(), version.as_str()) {
                    Err(()) => {
                        return Err(ListError::InvalidVersion);
                    },
                    Ok(true) => {
                        proof {
                            lemma_find_first(self.entries@, name@, version@, i as int);
                        }
                        return Ok(Some(i));
                    },
                    Ok(false) => {},
                }
            }
            i = i + 1;
        }
        proof {
            lemma_find_first(self.entries@, name@, version@, self.entries@.len() as int);
        }
        Ok(None)
    }
}

proof fn lemma_find_first(entries: Seq<RegistryEntry>, name: Seq<char>, version: Seq<char>, i: int)
    requires
        0 <= i <= entries.len(),
        forall|k: int| 0 <= k < i ==> !entry_matches(#[trigger] entries[k], name, version),
        i < entries.len() ==> entry_matches(entries[i], name, version),
    ensures
        i < entries.len() ==> find_entry(entries, name, version) == Some(i),
        i == entries.len() ==> find_entry(entries, name, version) is None,
    decreases i,
{
    if i > 0 {
        let rest = entries.drop_first();
        assert forall|k: int| 0 <= k < i - 1 implies !entry_matches(#[trigger] rest[k], name, version) by {
            assert(rest[k] == entries[k + 1]);
        }
        lemma_find_first(rest, name, version, i - 1);
        assert(!entry_matches(entries[0], name, version));
    }
}

/// Optional text, seen as characters.
pub open spec fn opt_chars(o: Option<String>) -> Option<Seq<char>> {
    match o {
        Some(s) => Some(s@),
        None => None,
    }
}

impl CondaPackageData {
    /// The package name the record carries.
    pub open spec fn name_spec(&self) -> Seq<char> {
        match self {
            CondaPackageData::Binary { name, .. } => name@,
            CondaPackageData::Source { name, .. } => name@,
        }
    }

    pub open spec fn version_spec(&self) -> Seq<char> {
        match self {
            CondaPackageData::Binary { version, .. } => version@,
            CondaPackageData::Source { version, .. } => version@,
        }
    }

    pub open spec fn build_spec(&self) -> Seq<char> {
        match self {
            CondaPackageData::Binary { build, .. } => build@,
            CondaPackageData::Source { build, .. } => build@,
        }
    }

    /// The recorded size of a binary package; a source package has none.
    pub open spec fn size_spec(&self) -> Option<u64> {
        match self {
            CondaPackageData::Binary { size, .. } => *size,
            CondaPackageData::Source { .. } => None,
        }
    }

    /// The channel of a binary package, the location of a source package.
    pub open spec fn source_spec(&self) -> Option<Seq<char>> {
        match self {
            CondaPackageData::Binary { channel, .. } => opt_chars(*channel),
            CondaPackageData::Source { location, .. } => Some(location@),
        }
    }
}

impl PackageExt {
    /// A record names its package: the name is never empty.
    pub open spec fn wf(&self) -> bool {
        self.name_spec().len() > 0
    }

    /// The package name the record carries.
    pub open spec fn name_spec(&self) -> Seq<char> {
        match self {
            PackageExt::Conda(c) => c.name_spec(),
            PackageExt::PyPI(p, _) => p.name@,
        }
    }

    pub open spec fn version_spec(&self) -> Seq<char> {
        match self {
            PackageExt::Conda(c) => c.version_spec(),
            PackageExt::PyPI(p, _) => p.version@,
        }
    }

    pub open spec fn kind_spec(&self) -> PackageKind {
        match self {
            PackageExt::Conda(_) => PackageKind::Conda,
            PackageExt::PyPI(_, _) => PackageKind::Pypi,
        }
    }

    /// Returns the conda record, if this is one.
    pub fn as_conda(&self) -> (r: Option<&CondaPackageData>)
        ensures
            r matches Some(c) ==> *self == PackageExt::Conda(*c),
            r is None <==> self is PyPI,
    {
        match self {
            PackageExt::Conda(c) => Some(c),
            _ => None,
        }
    }

    /// Returns the name of the package.
    pub fn name(&self) -> (r: &String)
        ensures
            r@ == self.name_spec(),
            self.wf() ==> r@.len() > 0,
    {
        match self {
            PackageExt::Conda(CondaPackageData::Binary { name, .. }) => name,
            PackageExt::Conda(CondaPackageData::Source { name, .. }) => name,
            PackageExt::PyPI(p, _) => &p.name,
        }
    }

    /// Returns the version string of the package.
    pub fn version(&self) -> (r: &String)
        ensures
            r@ == self.version_spec(),
    {
        match self {
            PackageExt::Conda(CondaPackageData::Binary { version, .. }) => version,
            PackageExt::Conda(CondaPackageData::Source { version, .. }) => version,
            PackageExt::PyPI(p, _) => &p.version,
        }
    }
}

impl<'a> From<&'a PackageExt> for PackageKind {
    /// The kind follows from the record's variant alone.
    fn from(package: &'a PackageExt) -> (r: PackageKind) {
        match package {
            PackageExt::Conda(_) => PackageKind::Conda,
            PackageExt::PyPI(_, _) => PackageKind::Pypi,
        }
    }
}

impl<'a> vstd::std_specs::convert::FromSpecImpl<&'a PackageExt> for PackageKind {
    open spec fn obeys_from_spec() -> bool {
        true
    }

    open spec fn from_spec(package: &'a PackageExt) -> PackageKind {
        package.kind_spec()
    }
}

/// Size and source of a Python distribution read from its location: a URL
/// has no size; a local path is measured on disk.
pub open spec fn location_info(location: UrlOrPath, disk: DiskUsage) -> (Option<u64>, Option<Seq<char>>) {
    match location {
        UrlOrPath::Url(u) => (None, Some(u@)),
        UrlOrPath::Path(p) => (size_at(disk, p@), Some(p@)),
    }
}

/// Size and source of a Python distribution. One with a hash came from an
/// index: where a registry index is at hand it is looked up there, by name and
/// exact version, and nothing else is tried. The others are measured at their
/// location.
pub open spec fn pypi_info(
    p: PypiPackageData,
    index_name: Seq<char>,
    registry: Option<RegistryWheelIndex>,
    disk: DiskUsage,
) -> (Option<u64>, Option<Seq<char>>) {
    if p.hash is Some && registry is Some {
        let entries = registry->0.entries@;
        match find_entry(entries, index_name, p.version@) {
            Some(i) => (size_at(disk, entries[i].path@), Some(entries[i].filename@)),
            None => (None, None),
        }
    } else {
        location_info(p.location, disk)
    }
}

/// Size and source of any record.
pub open spec fn size_and_source(
    package: PackageExt,
    registry: Option<RegistryWheelIndex>,
    disk: DiskUsage,
) -> (Option<u64>, Option<Seq<char>>) {
    match package {
        PackageExt::Conda(c) => (c.size_spec(), c.source_spec()),
        PackageExt::PyPI(p, index_name) => pypi_info(p, index_name@, registry, disk),
    }
}

/// Where normalizing `package` fails: a version that the registry lookup
/// cannot parse, or a failed walk of the path whose size is wanted.
pub open spec fn normalize_error(
    package: PackageExt,
    registry: Option<RegistryWheelIndex>,
    disk: DiskUsage,
) -> Option<ListError> {
    match package {
        PackageExt::Conda(_) => None,
        PackageExt::PyPI(p, index_name) => if p.hash is Some && registry is Some {
            let entries = registry->0.entries@;
            if !pep440_valid(p.version@) && has_name(entries, index_name@) {
                Some(ListError::InvalidVersion)
            } else {
                match find_entry(entries, index_name@, p.version@) {
                    Some(i) => if walk_failed(disk, entries[i].path@) {
                        Some(ListError::SizeUnreadable)
                    } else {
                        None
                    },
                    None => None,
                }
            }
        } else {
            if location_failed(p.location, disk) {
                Some(ListError::SizeUnreadable)
            } else {
                None
            }
        },
    }
}

/// `r` is the normalized form of `package`, given the declared dependency
/// names, the registry index and the disk reads.
pub open spec fn normalizes(
    r: Package,
    package: PackageExt,
    names: Seq<String>,
    registry: Option<RegistryWheelIndex>,
    disk: DiskUsage,
) -> bool {
    &&& r.name@ == package.name_spec()
    &&& r.version@ == package.version_spec()
    &&& r.kind == package.kind_spec()
    &&& opt_chars(r.build) == match package {
        PackageExt::Conda(c) => Some(c.build_spec()),
        PackageExt::PyPI(_, _) => None,
    }
    &&& r.size_bytes == size_and_source(package, registry, disk).0
    &&& opt_chars(r.source) == size_and_source(package, registry, disk).1
    &&& r.is_explicit == contains_name(names, package.name_spec())
    &&& r.is_editable == match package {
        PackageExt::Conda(_) => false,
        PackageExt::PyPI(p, _) => p.editable,
    }
}

/// Whether the walk of a local location failed.
pub open spec fn location_failed(location: UrlOrPath, disk: DiskUsage) -> bool {
    match location {
        UrlOrPath::Path(p) => walk_failed(disk, p@),
        UrlOrPath::Url(_) => false,
    }
}

fn location_information(location: &UrlOrPath, disk: &DiskUsage) -> (r: Result<(Option<u64>, Option<String>), ListError>)
    ensures
        location_failed(*location, *disk)
            ==> r == Err::<(Option<u64>, Option<String>), ListError>(ListError::SizeUnreadable),
        !location_failed(*location, *disk) ==> (r matches Ok(v)
            && v.0 == location_info(*location, *disk).0
            && opt_chars(v.1) == location_info(*location, *disk).1),
{
    match location {
        UrlOrPath::Url(url) => Ok((None, Some(url.clone()))),
        UrlOrPath::Path(path) => match disk.size_of(path) {
            Ok(size) => Ok((size, Some(path.clone()))),
            Err(e) => Err(e),
        },
    }
}

impl Package {
    /// Normalizes one lock-data record. It fails only where a disk walk that
    /// it needs failed, or where the registry lookup meets a version that
    /// does not parse.
    pub fn new(
        package: &PackageExt,
        project_dependency_names: &Vec<String>,
        registry_index: Option<&RegistryWheelIndex>,
        disk: &DiskUsage,
    ) -> (r: Result<Package, ListError>)
        requires
            package.wf(),
        ensures
            ({
                let registry = match registry_index {
                    Some(x) => Some(*x),
                    None => None,
                };
                match normalize_error(*package, registry, *disk) {
                    Some(e) => r == Err::<Package, ListError>(e),
                    None => (r matches Ok(p) && normalizes(p, *package, project_dependency_names@, registry, *disk)
                        && p.wf() && p.name@.len() > 0),
                }
            }),
    {
        let name = package.name().clone();
        let version = package.version().clone();
        let kind = PackageKind::from(package);
        let (build, size_bytes, source, is_editable) = match package {
            PackageExt::Conda(CondaPackageData::Binary { build, size, channel, .. }) => {
                (Some(build.clone()), *size, clone_opt(channel), false)
            },
            PackageExt::Conda(CondaPackageData::Source { build, location, .. }) => {
                (Some(build.clone()), None, Some(location.clone()), false)
            },
            PackageExt::PyPI(p, index_name) => {
                let (size, source) = match (&p.hash, registry_index) {
                    (Some(_), Some(index)) => {
                        match index.find(index_name, &p.version) {
                            Err(e) => {
                                return Err(e);
                            },
                            Ok(Some(i)) => {
                                proof {
                                    lemma_find_entry_bounds(index.entries@, index_name@, p.version@);
                                }
                                let entry = &index.entries[i];
                                match disk.size_of(&entry.path) {
                                    Ok(size) => (size, Some(entry.filename.clone())),
                                    Err(e) => {
                                        return Err(e);
                                    },
                                }
                            },
                            Ok(None) => (None, None),
                        }
                    },
                    _ => match location_information(&p.location, disk) {
                        Ok(info) => info,
                        Err(e) => {
                            return Err(e);
                        },
                    },
                };
                (None, size, source, p.editable)
            },
        };
        let is_explicit = contains_string(project_dependency_names, &name);
        Ok(Package { name, version, build, size_bytes, kind, source, is_explicit, is_editable })
    }
}

/// Whether the `is_editable` field is left out of the JSON form of a package:
/// it is, exactly when it is `false`.
pub fn serde_skip_is_editable(editable: &bool) -> (r: bool)
    ensures
        r == !*editable,
{
    !*editable
}

/// Every normalized package is well formed: a conda package is never
/// editable, and a Python package has no build string.
pub proof fn lemma_normalized_well_formed(
    r: Package,
    package: PackageExt,
    names: Seq<String>,
    registry: Option<RegistryWheelIndex>,
    disk: DiskUsage,
)
    requires
        normalizes(r, package, names, registry, disk),
    ensures
        r.kind == PackageKind::Conda ==> !r.is_editable,
        r.kind == PackageKind::Pypi ==> r.build is None,
{
}

/// The size of a Python package measured at a local path is the true byte
/// size of what lies there: the sum of the lengths of all its files.
pub proof fn lemma_local_path_size(
    r: Package,
    package: PackageExt,
    names: Seq<String>,
    registry: Option<RegistryWheelIndex>,
    disk: DiskUsage,
    path: String,
    files: Vec<u64>,
)
    requires
        normalizes(r, package, names, registry, disk),
        package matches PackageExt::PyPI(p, _) && (p.hash is None || registry is None)
            && p.location == UrlOrPath::Path(path),
        usage_at(disk.paths@, path@) matches Some(u) && u.file_sizes == Some(files),
        sum_sizes(files@) <= u64::MAX,
    ensures
        r.size_bytes == Some(sum_sizes(files@) as u64),
        opt_chars(r.source) == Some(path@),
{
}

/// A Python package with a hash, looked up in a registry index that holds no
/// entry of its version, has neither size nor source: its location is not
/// used instead.
pub proof fn lemma_no_registry_match(
    r: Package,
    p: PypiPackageData,
    index_name: String,
    names: Seq<String>,
    registry: RegistryWheelIndex,
    disk: DiskUsage,
)
    requires
        normalizes(r, PackageExt::PyPI(p, index_name), names, Some(registry), disk),
        p.hash is Some,
        find_entry(registry.entries@, index_name@, p.version@) is None,
    ensures
        r.size_bytes is None,
        r.source is None,
        r.kind == PackageKind::Pypi,
{
}

} // verus!
