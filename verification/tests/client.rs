use snowdrop::client::{classify, status_to_failure, Exchange, IndexClient, CLIENT_VERSION};
use snowdrop::credential::Credential;
use snowdrop::error::IndexClientError;
use snowdrop::metadata::PackageDocument;

const INDEX: &str = "https://index.example.invalid/main";

fn versioned() -> IndexClient {
    let handshake = IndexClient::from_index_and_user_version(INDEX.to_string(), "1.2.3");
    match handshake.complete(Exchange::Completed { status: 200, body: "3\n".to_string() }) {
        Ok(client) => client,
        Err(error) => panic!("handshake failed: {error:?}"),
    }
}

fn authenticated() -> IndexClient {
    let mut client = versioned();
    client.with_pat(Some(Credential::new("ghp_token".to_string())));
    client
}

fn document(repo: &[&str]) -> PackageDocument {
    PackageDocument {
        name: "ripgrep".to_string(),
        pretty_name: "ripgrep (rg)".to_string(),
        repo: repo.iter().map(|part| part.to_string()).collect(),
        naming_scheme: "ripgrep-*-{{llvm_triple}}.tar.gz".to_string(),
    }
}

fn handshake_error(reply: Exchange<String>) -> Option<IndexClientError> {
    IndexClient::from_index_and_user_version(INDEX.to_string(), "1.2.3").complete(reply).err()
}

fn package_error(reply: Exchange<PackageDocument>) -> Option<IndexClientError> {
    match authenticated().get_package("ripgrep") {
        Ok(query) => query.complete(reply).err(),
        Err(error) => panic!("no query: {error:?}"),
    }
}

#[test]
fn handshake_asks_for_the_protocol_version() {
    let handshake = IndexClient::from_index_and_user_version(INDEX.to_string(), "1.2.3");
    assert_eq!(handshake.endpoint(), "https://index.example.invalid/main/proto_version");
}

#[test]
fn handshake_states_the_user_agent() {
    let handshake = IndexClient::from_index_and_user_version(INDEX.to_string(), "1.2.3");
    assert_eq!(CLIENT_VERSION, "0.1.0");
    assert_eq!(handshake.user_agent(), "SnowdropIndexClient/0.1.0 SnowdropCLI/1.2.3");
}

#[test]
fn handshake_succeeds_on_the_expected_version() {
    let client = versioned();
    assert_eq!(client.index(), INDEX);
    assert_eq!(client.user_agent(), "SnowdropIndexClient/0.1.0 SnowdropCLI/1.2.3");
}

#[test]
fn handshake_fails_on_any_other_version() {
    for version in [0u8, 1, 2, 4, 5, 30, 255] {
        assert_eq!(
            handshake_error(Exchange::Completed { status: 200, body: format!("{version}\n") }),
            Some(IndexClientError::ProtocolVersionMismatch(3, version))
        );
    }
}

#[test]
fn handshake_fails_to_parse_text_that_is_no_version() {
    for body in ["", "three", "3.1", "-3", "256", "v3"] {
        assert_eq!(
            handshake_error(Exchange::Completed { status: 200, body: body.to_string() }),
            Some(IndexClientError::ProtocolVersionParseError)
        );
    }
}

#[test]
fn handshake_reads_the_body_whatever_the_status() {
    let handshake = IndexClient::from_index_and_user_version(INDEX.to_string(), "1.2.3");
    assert!(handshake.complete(Exchange::Completed { status: 404, body: "3".to_string() }).is_ok());
    assert_eq!(
        handshake_error(Exchange::Completed { status: 404, body: "404: Not Found".to_string() }),
        Some(IndexClientError::ProtocolVersionParseError)
    );
    assert_eq!(
        handshake_error(Exchange::Completed { status: 500, body: "4".to_string() }),
        Some(IndexClientError::ProtocolVersionMismatch(3, 4))
    );
}

#[test]
fn handshake_fails_without_an_exchange() {
    assert_eq!(handshake_error(Exchange::NoBackend), Some(IndexClientError::TlsBackendInitError));
    assert_eq!(handshake_error(Exchange::Failed), Some(IndexClientError::RequestError));
    assert_eq!(
        handshake_error(Exchange::Undecodable { status: 200 }),
        Some(IndexClientError::ProtocolVersionParseError)
    );
}

#[test]
fn get_package_without_a_credential_is_no_pat() {
    let client = versioned();
    assert_eq!(client.get_package("ripgrep").err(), Some(IndexClientError::NoPat));
    assert_eq!(client.get_package("does-not-exist").err(), Some(IndexClientError::NoPat));
}

#[test]
fn credential_can_be_set_and_taken_away() {
    let mut client = versioned();
    assert!(client.with_pat(Some(Credential::new("t".to_string()))).get_package("a").is_ok());
    assert!(client.get_package("a").is_ok());
    assert_eq!(client.with_pat(None).get_package("a").err(), Some(IndexClientError::NoPat));
    assert_eq!(client.index(), INDEX);
}

#[test]
fn get_package_asks_for_the_package_document() {
    match authenticated().get_package("ripgrep") {
        Ok(query) => {
            assert_eq!(query.endpoint(), "https://index.example.invalid/main/packages/ripgrep.json");
            assert_eq!(query.credential().expose(), "ghp_token");
        }
        Err(error) => panic!("no query: {error:?}"),
    }
}

#[test]
fn get_package_on_a_404_is_package_not_found() {
    let query = match authenticated().get_package("does-not-exist") {
        Ok(query) => query,
        Err(error) => panic!("no query: {error:?}"),
    };
    assert_eq!(query.endpoint(), "https://index.example.invalid/main/packages/does-not-exist.json");
    assert_eq!(
        query.complete(Exchange::Undecodable { status: 404 }).err(),
        Some(IndexClientError::PackageNotFound)
    );
    assert_eq!(
        package_error(Exchange::Completed { status: 404, body: document(&["a", "b"]) }),
        Some(IndexClientError::PackageNotFound)
    );
}

#[test]
fn get_package_hands_other_failing_statuses_on() {
    for status in [100u16, 199, 300, 301, 400, 401, 403, 405, 429, 500, 503, 599, 0, 65535] {
        assert_eq!(
            package_error(Exchange::Completed { status, body: document(&["a", "b"]) }),
            Some(IndexClientError::StatusCodeNotOk(status))
        );
        assert_eq!(
            package_error(Exchange::Undecodable { status }),
            Some(IndexClientError::StatusCodeNotOk(status))
        );
    }
}

#[test]
fn get_package_tells_transport_from_decoding() {
    assert_eq!(package_error(Exchange::Failed), Some(IndexClientError::RequestError));
    assert_eq!(package_error(Exchange::NoBackend), Some(IndexClientError::TlsBackendInitError));
    assert_eq!(
        package_error(Exchange::Undecodable { status: 200 }),
        Some(IndexClientError::JsonParsingError)
    );
}

#[test]
fn get_package_wants_the_repository_to_be_a_pair() {
    for repo in [&[][..], &["owner"][..], &["owner", "repo", "extra"][..]] {
        assert_eq!(
            package_error(Exchange::Completed { status: 200, body: document(repo) }),
            Some(IndexClientError::JsonParsingError)
        );
    }
}

#[test]
fn get_package_yields_the_metadata() {
    let query = match authenticated().get_package("ripgrep") {
        Ok(query) => query,
        Err(error) => panic!("no query: {error:?}"),
    };
    for status in [200u16, 201, 204, 299] {
        let query = match authenticated().get_package("ripgrep") {
            Ok(query) => query,
            Err(error) => panic!("no query: {error:?}"),
        };
        assert!(query
            .complete(Exchange::Completed { status, body: document(&["BurntSushi", "ripgrep"]) })
            .is_ok());
    }
    match query.complete(Exchange::Completed { status: 200, body: document(&["BurntSushi", "ripgrep"]) }) {
        Ok(metadata) => {
            assert_eq!(metadata.name(), "ripgrep");
            assert_eq!(metadata.pretty_name(), "ripgrep (rg)");
            assert_eq!(metadata.repo(), &["BurntSushi".to_string(), "ripgrep".to_string()]);
            assert_eq!(metadata.naming_scheme(), "ripgrep-*-{{llvm_triple}}.tar.gz");
            match metadata.get_latest_release() {
                Ok(lookup) => assert_eq!(lookup.credential().expose(), "ghp_token"),
                Err(error) => panic!("no lookup: {error:?}"),
            }
        }
        Err(error) => panic!("no metadata: {error:?}"),
    }
}

#[test]
fn get_names_asks_for_the_catalog() {
    assert_eq!(versioned().get_names().endpoint(), "https://index.example.invalid/main/names.json");
}

#[test]
fn get_names_yields_the_names_in_order() {
    let names = vec!["ripgrep".to_string(), "bat".to_string(), "fd".to_string()];
    assert_eq!(
        versioned().get_names().complete(Exchange::Completed { status: 200, body: names.clone() }),
        Ok(names)
    );
    assert_eq!(
        versioned().get_names().complete(Exchange::Completed { status: 200, body: vec![] }),
        Ok(vec![])
    );
}

#[test]
fn get_names_fails_as_get_package_does() {
    let complete = |reply: Exchange<Vec<String>>| versioned().get_names().complete(reply);
    assert_eq!(complete(Exchange::Failed), Err(IndexClientError::RequestError));
    assert_eq!(complete(Exchange::NoBackend), Err(IndexClientError::TlsBackendInitError));
    assert_eq!(complete(Exchange::Undecodable { status: 200 }), Err(IndexClientError::JsonParsingError));
    assert_eq!(complete(Exchange::Undecodable { status: 404 }), Err(IndexClientError::PackageNotFound));
    assert_eq!(
        complete(Exchange::Completed { status: 502, body: vec!["x".to_string()] }),
        Err(IndexClientError::StatusCodeNotOk(502))
    );
}

#[test]
fn statuses_are_sorted_into_failures() {
    assert_eq!(status_to_failure(404), Some(IndexClientError::PackageNotFound));
    assert_eq!(status_to_failure(200), None);
    assert_eq!(status_to_failure(299), None);
    assert_eq!(status_to_failure(199), Some(IndexClientError::StatusCodeNotOk(199)));
    assert_eq!(status_to_failure(300), Some(IndexClientError::StatusCodeNotOk(300)));
    assert_eq!(status_to_failure(403), Some(IndexClientError::StatusCodeNotOk(403)));
}

#[test]
fn classify_hands_the_body_of_a_success_out() {
    assert_eq!(classify(Exchange::Completed { status: 200, body: 7u8 }), Ok(7));
    assert_eq!(classify(Exchange::Completed { status: 404, body: 7u8 }), Err(IndexClientError::PackageNotFound));
    assert_eq!(classify(Exchange::<u8>::Undecodable { status: 204 }), Err(IndexClientError::JsonParsingError));
    assert_eq!(classify(Exchange::<u8>::Failed), Err(IndexClientError::RequestError));
    assert_eq!(classify(Exchange::<u8>::NoBackend), Err(IndexClientError::TlsBackendInitError));
}
