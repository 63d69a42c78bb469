use std::sync::Mutex;

use rogga::error::FetchError;
use rogga::npm::{NpmFetcher, Transport};
use rogga::package_spec::PackageSpec;
use rogga::resolution::{Package, PackageResolution};

/// A stub transport that serves one fixed body, recording every request.
struct StubTransport {
    body: Result<String, String>,
    requests: Mutex<Vec<(String, String)>>,
}

impl StubTransport {
    fn ok(body: &str) -> Self {
        StubTransport {
            body: Ok(body.to_string()),
            requests: Mutex::new(Vec::new()),
        }
    }

    fn failing(message: &str) -> Self {
        StubTransport {
            body: Err(message.to_string()),
            requests: Mutex::new(Vec::new()),
        }
    }

    fn request_count(&self) -> usize {
        self.requests.lock().unwrap().len()
    }

    fn requests(&self) -> Vec<(String, String)> {
        self.requests.lock().unwrap().clone()
    }
}

impl Transport for StubTransport {
    fn get(&self, url: &String, accept: &String) -> Result<String, String> {
        self.requests.lock().unwrap().push((url.clone(), accept.clone()));
        self.body.clone()
    }

    fn get_bytes(&self, url: &String) -> Result<Vec<u8>, String> {
        self.requests.lock().unwrap().push((url.clone(), String::new()));
        self.body.clone().map(String::into_bytes)
    }
}

fn bar_body() -> &'static str {
    "{\"name\":\"bar\",\"versions\":{\"1.0.0\":{\"dist\":{\
     \"tarball\":\"https://registry.npmjs.org/bar/-/bar-1.0.0.tgz\"}}}}"
}

#[test]
fn cache_hit_avoids_network() {
    let client = StubTransport::ok(bar_body());
    let mut fetcher = NpmFetcher::new(false, vec![]);
    let first = fetcher
        .packument_from_name(&client, &None, &"bar".to_string())
        .unwrap();
    assert_eq!(client.request_count(), 1);
    let second = fetcher
        .packument_from_name(&client, &None, &"bar".to_string())
        .unwrap();
    assert_eq!(client.request_count(), 1);
    assert_eq!(first, second);
}

#[test]
fn packument_requests_joined_registry_url() {
    let client = StubTransport::ok(bar_body());
    let mut fetcher = NpmFetcher::new(false, vec![]);
    fetcher
        .packument_from_name(&client, &None, &"bar".to_string())
        .unwrap();
    let reqs = client.requests();
    assert_eq!(reqs[0].0, "https://registry.npmjs.org/bar".to_string());
}

#[test]
fn corgi_flag_selects_accept_header() {
    let corgi_client = StubTransport::ok(bar_body());
    let mut corgi = NpmFetcher::new(true, vec![]);
    corgi
        .packument_from_name(&corgi_client, &None, &"bar".to_string())
        .unwrap();
    assert_eq!(
        corgi_client.requests()[0].1,
        "application/vnd.npm.install-v1+json; q=1.0, application/json; q=0.8, */*".to_string()
    );

    let full_client = StubTransport::ok(bar_body());
    let mut full = NpmFetcher::new(false, vec![]);
    full.packument_from_name(&full_client, &None, &"bar".to_string())
        .unwrap();
    assert_eq!(full_client.requests()[0].1, "application/json".to_string());
}

#[test]
fn alias_resolves_target_not_self() {
    let client = StubTransport::ok(bar_body());
    let mut fetcher = NpmFetcher::new(false, vec![]);
    let alias = PackageSpec::Alias {
        name: "foo".to_string(),
        package: Box::new(PackageSpec::Npm {
            scope: None,
            name: "bar".to_string(),
        }),
    };
    let packument = fetcher.packument(&client, &alias).unwrap();
    assert_eq!(packument.name, Some("bar".to_string()));
    assert_eq!(
        client.requests()[0].0,
        "https://registry.npmjs.org/bar".to_string()
    );
    assert_eq!(fetcher.name(&alias).unwrap(), "foo".to_string());
}

#[test]
fn unsupported_specs_are_rejected() {
    let client = StubTransport::ok(bar_body());
    let mut fetcher = NpmFetcher::new(false, vec![]);
    let dir = PackageSpec::Dir { path: "./pkg".to_string() };
    let git = PackageSpec::Git { url: "https://example.com/r.git".to_string() };
    assert_eq!(fetcher.name(&dir), Err(FetchError::UnsupportedSpec));
    assert_eq!(fetcher.packument(&client, &git), Err(FetchError::UnsupportedSpec));
    assert_eq!(client.request_count(), 0);
}

#[test]
fn malformed_body_surfaces_raw_content() {
    let client = StubTransport::ok("<html>down for maintenance</html>");
    let mut fetcher = NpmFetcher::new(false, vec![]);
    match fetcher.packument_from_name(&client, &None, &"bar".to_string()) {
        Err(FetchError::MetadataParseError { name, raw_body, cause: _ }) => {
            assert_eq!(name, "bar".to_string());
            assert_eq!(raw_body, "<html>down for maintenance</html>".to_string());
        }
        other => panic!("expected MetadataParseError, got {:?}", other),
    }
    // A failed parse fills no cache entry: the next call fetches again.
    let _ = fetcher.packument_from_name(&client, &None, &"bar".to_string());
    assert_eq!(client.request_count(), 2);
}

#[test]
fn transport_failure_is_fetch_failed() {
    let client = StubTransport::failing("connection refused");
    let mut fetcher = NpmFetcher::new(false, vec![]);
    match fetcher.packument_from_name(&client, &None, &"bar".to_string()) {
        Err(FetchError::FetchFailed { name, message }) => {
            assert_eq!(name, "bar".to_string());
            assert_eq!(message, "connection refused".to_string());
        }
        other => panic!("expected FetchFailed, got {:?}", other),
    }
}

#[test]
fn invalid_registry_base_is_invalid_package_name() {
    let client = StubTransport::ok(bar_body());
    let mut fetcher = NpmFetcher::new(false, vec![("".to_string(), "not a url".to_string())]);
    assert_eq!(
        fetcher.packument_from_name(&client, &None, &"bar".to_string()),
        Err(FetchError::InvalidPackageName { name: "bar".to_string() })
    );
    assert_eq!(client.request_count(), 0);
}

#[test]
fn metadata_returns_resolved_version() {
    let client = StubTransport::ok(bar_body());
    let mut fetcher = NpmFetcher::new(false, vec![]);
    let from = PackageSpec::Npm { scope: None, name: "bar".to_string() };
    let pkg = Package {
        from,
        resolved: PackageResolution::Npm {
            version: "1.0.0".to_string(),
            tarball: "https://registry.npmjs.org/bar/-/bar-1.0.0.tgz".to_string(),
        },
    };
    let meta = fetcher.metadata(&client, &pkg).unwrap();
    assert_eq!(meta.version, "1.0.0".to_string());
    assert_eq!(
        meta.tarball,
        Some("https://registry.npmjs.org/bar/-/bar-1.0.0.tgz".to_string())
    );
}

#[test]
fn metadata_missing_version_is_version_not_found() {
    let client = StubTransport::ok(bar_body());
    let mut fetcher = NpmFetcher::new(false, vec![]);
    let from = PackageSpec::Npm { scope: None, name: "bar".to_string() };
    let pkg = Package {
        from,
        resolved: PackageResolution::Npm {
            version: "9.9.9".to_string(),
            tarball: "https://registry.npmjs.org/bar/-/bar-9.9.9.tgz".to_string(),
        },
    };
    assert_eq!(
        fetcher.metadata(&client, &pkg),
        Err(FetchError::VersionNotFound { version: "9.9.9".to_string() })
    );
}

#[test]
fn scoped_registry_routes_packument_request() {
    let client = StubTransport::ok(bar_body());
    let mut fetcher = NpmFetcher::new(
        false,
        vec![("@foo".to_string(), "https://private.example.com/".to_string())],
    );
    fetcher
        .packument_from_name(&client, &Some("@foo".to_string()), &"bar".to_string())
        .unwrap();
    assert_eq!(
        client.requests()[0].0,
        "https://private.example.com/bar".to_string()
    );
}
