use std::sync::Arc;

use rogga::npm::{NpmFetcher, Transport};
use rogga::package_spec::PackageSpec;
use rogga::resolution::{Package, PackageResolution};

/// A stub transport that serves distinguishable bytes per URL.
struct ByUrlTransport;

impl Transport for ByUrlTransport {
    fn get(&self, url: &String, _accept: &String) -> Result<String, String> {
        Err(format!("no packument for {}", url))
    }

    fn get_bytes(&self, url: &String) -> Result<Vec<u8>, String> {
        Ok(format!("tarball bytes of {}", url).into_bytes())
    }
}

fn npm_package(name: &str, tarball: &str) -> Package {
    Package {
        from: PackageSpec::Npm { scope: None, name: name.to_string() },
        resolved: PackageResolution::Npm {
            version: "1.0.0".to_string(),
            tarball: tarball.to_string(),
        },
    }
}

#[test]
fn tarball_fetches_resolved_url() {
    let fetcher = NpmFetcher::new(false, vec![]);
    let pkg = npm_package("a", "https://registry.npmjs.org/a/-/a-1.0.0.tgz");
    let bytes = fetcher.tarball(&ByUrlTransport, &pkg).unwrap();
    assert_eq!(
        bytes,
        b"tarball bytes of https://registry.npmjs.org/a/-/a-1.0.0.tgz".to_vec()
    );
}

#[test]
fn tarball_failure_carries_url_context() {
    struct FailingTransport;

    impl Transport for FailingTransport {
        fn get(&self, _url: &String, _accept: &String) -> Result<String, String> {
            Err("unused".to_string())
        }

        fn get_bytes(&self, _url: &String) -> Result<Vec<u8>, String> {
            Err("status 500".to_string())
        }
    }

    let fetcher = NpmFetcher::new(false, vec![]);
    let pkg = npm_package("a", "https://registry.npmjs.org/a/-/a-1.0.0.tgz");
    match fetcher.tarball(&FailingTransport, &pkg) {
        Err(rogga::error::FetchError::FetchFailed { name, message }) => {
            assert_eq!(name, "https://registry.npmjs.org/a/-/a-1.0.0.tgz".to_string());
            assert_eq!(message, "status 500".to_string());
        }
        other => panic!("expected FetchFailed, got {:?}", other),
    }
}

#[test]
fn tarball_stream_independence() {
    // Two concurrent tarball retrievals against different resolutions each
    // complete with their own distinct content, sharing one fetcher.
    let fetcher = Arc::new(NpmFetcher::new(false, vec![]));
    let f1 = Arc::clone(&fetcher);
    let f2 = Arc::clone(&fetcher);
    let t1 = async_std::task::spawn(async move {
        let pkg = npm_package("a", "https://registry.npmjs.org/a/-/a-1.0.0.tgz");
        f1.tarball(&ByUrlTransport, &pkg).unwrap()
    });
    let t2 = async_std::task::spawn(async move {
        let pkg = npm_package("b", "https://registry.npmjs.org/b/-/b-1.0.0.tgz");
        f2.tarball(&ByUrlTransport, &pkg).unwrap()
    });
    let (b1, b2) = async_std::task::block_on(async { (t1.await, t2.await) });
    assert_eq!(
        b1,
        b"tarball bytes of https://registry.npmjs.org/a/-/a-1.0.0.tgz".to_vec()
    );
    assert_eq!(
        b2,
        b"tarball bytes of https://registry.npmjs.org/b/-/b-1.0.0.tgz".to_vec()
    );
    assert_ne!(b1, b2);
}
