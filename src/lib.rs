//! The package inventory of a locked workspace: lock-data records of the
//! conda and Python ecosystems normalized into one shape, sized, classified,
//! filtered and sorted.
pub mod context;
pub mod inventory;
pub mod lock_usage;
pub mod options;
pub mod package;
pub mod sort;
pub mod text;

pub use context::{ApiContext, Interface};
pub use inventory::{build_inventory, filter_packages, list_packages};
pub use lock_usage::{LockFileUsage, LockFileUsageConfig, LockFileUsageError};
pub use options::{GitAttributes, InitOptions, ManifestFormat};
pub use package::{
    serde_skip_is_editable, total_size, CondaPackageData, DiskUsage, ListError, Package, PackageExt,
    PackageKind, PathUsage, PypiPackageData, RegistryEntry, RegistryWheelIndex, UrlOrPath,
};
pub use sort::{sort_packages, SortBy};
