use yerkoku::registry::{
    check_status, crates_io_package_info, npm_package_info, package_url, pypi_package_info, registry_from_lowercase,
    resolve_registry, version_label, Registry, RegistryError,
};

#[test]
fn registry_names_ignore_case() {
    assert_eq!(resolve_registry("NPM").unwrap(), Registry::Npm);
    assert_eq!(resolve_registry("Node").unwrap(), Registry::Npm);
    assert_eq!(resolve_registry("Crates.IO").unwrap(), Registry::CratesIo);
    assert_eq!(resolve_registry("cargo").unwrap(), Registry::CratesIo);
    assert_eq!(resolve_registry("PyPI").unwrap(), Registry::PyPI);
    assert_eq!(resolve_registry("Python").unwrap(), Registry::PyPI);
    assert_eq!(registry_from_lowercase("NPM"), None);
    assert_eq!(registry_from_lowercase("npmjs.com"), Some(Registry::Npm));
}

#[test]
fn unknown_registry_is_refused() {
    match resolve_registry("Maven") {
        Err(e @ RegistryError::Unsupported { .. }) => {
            assert_eq!(e.message(), "Unsupported registry: 'Maven'. Supported: npm, crates.io, pypi");
        },
        other => panic!("unexpected {:?}", other),
    }
}

#[test]
fn package_urls() {
    assert_eq!(package_url(Registry::Npm, "axios"), "https://registry.npmjs.org/axios");
    assert_eq!(package_url(Registry::CratesIo, "tokio"), "https://crates.io/api/v1/crates/tokio");
    assert_eq!(package_url(Registry::PyPI, "flask"), "https://pypi.org/pypi/flask/json");
}

#[test]
fn status_codes_decide_errors() {
    assert!(check_status(Registry::Npm, "axios", 200, "200 OK").is_ok());
    match check_status(Registry::CratesIo, "nope", 404, "404 Not Found") {
        Err(e) => assert_eq!(e.message(), "Crate 'nope' not found on crates.io"),
        Ok(()) => panic!("expected an error"),
    }
    match check_status(Registry::Npm, "nope", 404, "404 Not Found") {
        Err(e) => assert_eq!(e.message(), "Package 'nope' not found on npm"),
        Ok(()) => panic!("expected an error"),
    }
    match check_status(Registry::PyPI, "nope", 404, "404 Not Found") {
        Err(e) => assert_eq!(e.message(), "Package 'nope' not found on PyPI"),
        Ok(()) => panic!("expected an error"),
    }
    match check_status(Registry::Npm, "x", 500, "500 Internal Server Error") {
        Err(e) => assert_eq!(e.message(), "npm registry returned status 500 Internal Server Error for 'x'"),
        Ok(()) => panic!("expected an error"),
    }
    match check_status(Registry::CratesIo, "x", 503, "503 Service Unavailable") {
        Err(e) => assert_eq!(e.message(), "crates.io returned status 503 Service Unavailable for 'x'"),
        Ok(()) => panic!("expected an error"),
    }
}

#[test]
fn other_error_messages() {
    let client = RegistryError::Client { detail: "no tls".to_string() };
    assert_eq!(client.message(), "Failed to create HTTP client: no tls");
    let net = RegistryError::Network { registry: Registry::PyPI, detail: "timeout".to_string() };
    assert_eq!(net.message(), "Network error searching PyPI: timeout");
    let parse = RegistryError::Parse { registry: Registry::CratesIo, detail: "eof".to_string() };
    assert_eq!(parse.message(), "Failed to parse crates.io response: eof");
}

#[test]
fn package_infos_and_labels() {
    let npm = npm_package_info("axios".to_string(), Some("1.7.2".to_string()), None);
    assert_eq!(npm.version, "1.7.2");
    assert_eq!(version_label(&npm), "axios v1.7.2");
    let unknown = npm_package_info("x".to_string(), None, Some("d".to_string()));
    assert_eq!(unknown.version, "unknown");
    assert_eq!(unknown.description, Some("d".to_string()));
    let krate = crates_io_package_info("tokio".to_string(), "1.38.0".to_string(), None, 42);
    assert_eq!(krate.downloads, Some(42));
    assert_eq!(version_label(&krate), "tokio v1.38.0");
    let py = pypi_package_info("flask".to_string(), "3.0.3".to_string(), Some("web".to_string()));
    assert_eq!(py.description, Some("web".to_string()));
    assert_eq!(py.downloads, None);
}
