//! Package registries: which registry a name means, where a package is looked
//! up, how a reply is judged, and the messages shown for each failure.
//! The HTTP request itself is made by the caller.
use vstd::prelude::*;
use crate::text;

verus! {

/// A package registry that can be searched.
#[derive(Debug, Clone, Copy, PartialEq, Eq, Structural)]
pub enum Registry {
    Npm,
    CratesIo,
    PyPI,
}

/// What a search found.
#[derive(Debug, Clone)]
pub struct PackageInfo {
    pub name: String,
    pub version: String,
    pub description: Option<String>,
    pub downloads: Option<u64>,
}

/// Why a search failed.
#[derive(Debug, Clone)]
pub enum RegistryError {
    /// The registry name is none of the known ones.
    Unsupported { name: String },
    /// The HTTP client could not be built.
    Client { detail: String },
    /// The request did not get a reply.
    Network { registry: Registry, detail: String },
    /// The registry answered 404.
    NotFound { registry: Registry, package: String },
    /// The registry answered another status that is not a success;
    /// `status` is the status as the HTTP client prints it.
    BadStatus { registry: Registry, status: String, package: String },
    /// The reply could not be read as the registry's JSON.
    Parse { registry: Registry, detail: String },
}

/// The registry a lowercase name means.
pub open spec fn registry_named(n: Seq<char>) -> Option<Registry> {
    if n == "npm"@ || n == "npmjs"@ || n == "npmjs.com"@ || n == "node"@ || n == "javascript"@ {
        Some(Registry::Npm)
    } else if n == "crates.io"@ || n == "crates"@ || n == "cargo"@ || n == "rust"@ {
        Some(Registry::CratesIo)
    } else if n == "pypi"@ || n == "pip"@ || n == "python"@ {
        Some(Registry::PyPI)
    } else {
        None
    }
}

fn is(n: &String, lit: &str) -> (r: bool)
    ensures
        r == (n@ == lit@),
{
    *n == String::from_str(lit)
}

/// The registry named by `name`, already lowercase.
pub fn registry_from_lowercase(name: &str) -> (r: Option<Registry>)
    ensures
        r == registry_named(name@),
{
    let n = text::owned(name);
    if is(&n, "npm") || is(&n, "npmjs") || is(&n, "npmjs.com") || is(&n, "node") || is(&n, "javascript") {
        Some(Registry::Npm)
    } else if is(&n, "crates.io") || is(&n, "crates") || is(&n, "cargo") || is(&n, "rust") {
        Some(Registry::CratesIo)
    } else if is(&n, "pypi") || is(&n, "pip") || is(&n, "python") {
        Some(Registry::PyPI)
    } else {
        None
    }
}

/// The registry named by `name`, compared case-insensitively.
pub fn resolve_registry(name: &str) -> (r: Result<Registry, RegistryError>)
    ensures
        match r {
            Ok(reg) => registry_named(text::lowercase(name@)) == Some(reg),
            Err(e) => registry_named(text::lowercase(name@)) is None && (e matches RegistryError::Unsupported { name: n } && n@ == name@),
        },
{
    let lower = text::to_lowercase(name);
    match registry_from_lowercase(lower.as_str()) {
        Some(reg) => Ok(reg),
        None => Err(RegistryError::Unsupported { name: text::owned(name) }),
    }
}

/// The URL at which `registry` describes `package`.
pub open spec fn package_url_of(registry: Registry, package: Seq<char>) -> Seq<char> {
    match registry {
        Registry::Npm => "https://registry.npmjs.org/"@ + package,
        Registry::CratesIo => "https://crates.io/api/v1/crates/"@ + package,
        Registry::PyPI => "https://pypi.org/pypi/"@ + package + "/json"@,
    }
}

/// The URL at which `registry` describes `package`.
pub fn package_url(registry: Registry, package: &str) -> (r: String)
    ensures
        r@ == package_url_of(registry, package@),
{
    match registry {
        Registry::Npm => text::concat("https://registry.npmjs.org/", package),
        Registry::CratesIo => text::concat("https://crates.io/api/v1/crates/", package),
        Registry::PyPI => text::concat3("https://pypi.org/pypi/", package, "/json"),
    }
}

/// How a reply with HTTP status `status` is judged: 404 means the package is
/// unknown, any other status outside 200..=299 is an error, the rest is read.
pub fn check_status(registry: Registry, package: &str, status: u16, status_text: &str) -> (r: Result<(), RegistryError>)
    ensures
        status == 404 ==> (r matches Err(RegistryError::NotFound { registry: g, package: p }) && g == registry
            && p@ == package@),
        status != 404 && !(200 <= status < 300) ==> (r matches Err(RegistryError::BadStatus { registry: g, status: t, package: p })
            && g == registry && t@ == status_text@ && p@ == package@),
        200 <= status < 300 ==> r is Ok,
{
    if status == 404 {
        Err(RegistryError::NotFound { registry, package: text::owned(package) })
    } else if !(200 <= status && status < 300) {
        Err(RegistryError::BadStatus { registry, status: text::owned(status_text), package: text::owned(package) })
    } else {
        Ok(())
    }
}

/// The name that the registry's messages use for it.
pub open spec fn display_name(registry: Registry) -> Seq<char> {
    match registry {
        Registry::Npm => "npm"@,
        Registry::CratesIo => "crates.io"@,
        Registry::PyPI => "PyPI"@,
    }
}

fn display_name_of(registry: Registry) -> (r: &'static str)
    ensures
        r@ == display_name(registry),
{
    match registry {
        Registry::Npm => "npm",
        Registry::CratesIo => "crates.io",
        Registry::PyPI => "PyPI",
    }
}

impl RegistryError {
    /// The message shown to the user.
    pub open spec fn message_of(self) -> Seq<char> {
        match self {
            RegistryError::Unsupported { name } => "Unsupported registry: '"@ + name@
                + "'. Supported: npm, crates.io, pypi"@,
            RegistryError::Client { detail } => "Failed to create HTTP client: "@ + detail@,
            RegistryError::Network { registry, detail } => "Network error searching "@ + display_name(
                registry,
            ) + ": "@ + detail@,
            RegistryError::NotFound { registry, package } => match registry {
                Registry::CratesIo => "Crate '"@ + package@ + "' not found on crates.io"@,
                _ => "Package '"@ + package@ + "' not found on "@ + display_name(registry),
            },
            RegistryError::BadStatus { registry, status, package } => match registry {
                Registry::Npm => "npm registry returned status "@ + status@ + " for '"@ + package@
                    + "'"@,
                _ => display_name(registry) + " returned status "@ + status@ + " for '"@ + package@
                    + "'"@,
            },
            RegistryError::Parse { registry, detail } => "Failed to parse "@ + display_name(registry)
                + " response: "@ + detail@,
        }
    }

    /// The message shown to the user.
    pub fn message(&self) -> (r: String)
        ensures
            r@ == self.message_of(),
    {
        match self {
            RegistryError::Unsupported { name } => text::concat3(
                "Unsupported registry: '",
                name.as_str(),
                "'. Supported: npm, crates.io, pypi",
            ),
            RegistryError::Client { detail } => text::concat("Failed to create HTTP client: ", detail.as_str()),
            RegistryError::Network { registry, detail } => {
                let mut r = text::concat("Network error searching ", display_name_of(*registry));
                r.append(": ");
                r.append(detail.as_str());
                r
            },
            RegistryError::NotFound { registry, package } => match registry {
                Registry::CratesIo => text::concat3("Crate '", package.as_str(), "' not found on crates.io"),
                _ => {
                    let mut r = text::concat3("Package '", package.as_str(), "' not found on ");
                    r.append(display_name_of(*registry));
                    r
                },
            },
            RegistryError::BadStatus { registry, status, package } => {
                let mut r = match registry {
                    Registry::Npm => text::concat("npm registry returned status ", status.as_str()),
                    _ => text::concat3(display_name_of(*registry), " returned status ", status.as_str()),
                };
                r.append(" for '");
                r.append(package.as_str());
                r.append("'");
                r
            },
            RegistryError::Parse { registry, detail } => {
                let mut r = text::concat3("Failed to parse ", display_name_of(*registry), " response: ");
                r.append(detail.as_str());
                r
            },
        }
    }
}

/// What an npm reply describes: its `dist-tags.latest` is the version,
/// `"unknown"` when there is none.
pub fn npm_package_info(name: String, latest: Option<String>, description: Option<String>) -> (r: PackageInfo)
    ensures
        r.name@ == name@,
        r.version@ == match latest {
            Some(v) => v@,
            None => "unknown"@,
        },
        r.description == description,
        r.downloads is None,
{
    let version = match latest {
        Some(v) => v,
        None => String::from_str("unknown"),
    };
    PackageInfo { name, version, description, downloads: None }
}

/// What a crates.io reply describes: `max_version` is the version.
pub fn crates_io_package_info(name: String, max_version: String, description: Option<String>, downloads: u64) -> (r: PackageInfo)
    ensures
        r.name == name,
        r.version == max_version,
        r.description == description,
        r.downloads == Some(downloads),
{
    PackageInfo { name, version: max_version, description, downloads: Some(downloads) }
}

/// What a PyPI reply describes: `info.version` is the version, `info.summary` the description.
pub fn pypi_package_info(name: String, version: String, summary: Option<String>) -> (r: PackageInfo)
    ensures
        r.name == name,
        r.version == version,
        r.description == summary,
        r.downloads is None,
{
    PackageInfo { name, version, description: summary, downloads: None }
}

/// The label shown for a found package: `"<name> v<version>"`.
pub fn version_label(info: &PackageInfo) -> (r: String)
    ensures
        r@ == info.name@ + " v"@ + info.version@,
{
    text::concat3(info.name.as_str(), " v", info.version.as_str())
}

} // verus!
