use jamf_package_updater::credentials::{trim_base_url, Credentials};
use jamf_package_updater::package::{Package, PackageCreateRequest, PackageSearchResponse};
use jamf_package_updater::policy::{
    affected_count_line, extract_section, find_policies_with_package, references_package,
    AffectedPolicy, Fetched, PolicyListResponse, PolicySummary, ScannedPolicy,
};
use jamf_package_updater::request::{
    accept, accept_header, token_form, is_server_error, is_success, package_url, packages_url, policies_url, policy_url,
    refresh_inventory_url, search_url, token_url, upload_url, urlencoding, Operation, Response,
};

fn sample_package() -> Package {
    Package {
        id: "17".to_string(),
        package_name: "Demo".to_string(),
        file_name: "demo-1.0.pkg".to_string(),
        category_id: "5".to_string(),
        priority: 9,
        fill_user_template: true,
        fill_existing_users: false,
        reboot_required: true,
        os_install: false,
        suppress_updates: true,
        suppress_from_dock: false,
        suppress_eula: true,
        suppress_registration: false,
    }
}

#[test]
fn name_filter_escapes_quotes_and_hashes() {
    let name = "Test \"Pkg\" #1";
    let encoded = urlencoding(name);
    assert_eq!(encoded, "Test%20%22Pkg%22%20%231");
    assert!(!encoded.contains('"'));
    assert!(!encoded.contains('#'));
    assert!(!encoded.contains(' '));
    let url = search_url("https://jamf.example", name);
    assert_eq!(
        url,
        "https://jamf.example/api/v1/packages?page=0&page-size=100&filter=packageName%3D%3D%22Test%20%22Pkg%22%20%231%22"
    );
    assert!(!url.contains(name));
}

#[test]
fn every_reserved_character_is_escaped() {
    assert_eq!(urlencoding("%"), "%25");
    assert_eq!(urlencoding("a b"), "a%20b");
    assert_eq!(urlencoding("a&b+c"), "a%26b%2Bc");
    assert_eq!(urlencoding("100% \"#&+"), "100%25%20%22%23%26%2B");
    assert_eq!(urlencoding("plain-name_1.0"), "plain-name_1.0");
    assert_eq!(urlencoding(""), "");
    assert_eq!(urlencoding("é/ü"), "é/ü");
}

#[test]
fn resource_addresses() {
    let base = "https://jamf.example";
    assert_eq!(token_url(base), "https://jamf.example/api/oauth/token");
    assert_eq!(packages_url(base), "https://jamf.example/api/v1/packages");
    assert_eq!(package_url(base, "42"), "https://jamf.example/api/v1/packages/42");
    assert_eq!(upload_url(base, "42"), "https://jamf.example/api/v1/packages/42/upload");
    assert_eq!(refresh_inventory_url(base), "https://jamf.example/api/v1/jcds/refresh-inventory");
    assert_eq!(policies_url(base), "https://jamf.example/JSSResource/policies");
    assert_eq!(policy_url(base, 7), "https://jamf.example/JSSResource/policies/id/7");
    assert_eq!(policy_url(base, -12), "https://jamf.example/JSSResource/policies/id/-12");
    assert_eq!(policy_url(base, 0), "https://jamf.example/JSSResource/policies/id/0");
}

#[test]
fn status_classes() {
    assert!(is_success(200));
    assert!(is_success(299));
    assert!(!is_success(199));
    assert!(!is_success(300));
    assert!(is_server_error(500));
    assert!(is_server_error(599));
    assert!(!is_server_error(499));
    assert!(!is_server_error(600));
}

#[test]
fn new_request_has_the_defaults() {
    let r = PackageCreateRequest::new_default("Demo", "demo.pkg", None);
    assert_eq!(r.package_name, "Demo");
    assert_eq!(r.file_name, "demo.pkg");
    assert_eq!(r.category_id, "-1");
    assert_eq!(r.priority, 3);
    assert!(!r.fill_user_template && !r.fill_existing_users && !r.reboot_required && !r.os_install);
    assert!(!r.suppress_updates && !r.suppress_from_dock && !r.suppress_eula && !r.suppress_registration);
    let p = PackageCreateRequest::new_default("Demo", "demo.pkg", Some(12));
    assert_eq!(p.priority, 12);
}

#[test]
fn update_request_keeps_everything_but_the_file_name() {
    let old = sample_package();
    let r = PackageCreateRequest::from_old(&old, "demo-2.0.pkg", None);
    assert_eq!(r.package_name, "Demo");
    assert_eq!(r.file_name, "demo-2.0.pkg");
    assert_eq!(r.category_id, "5");
    assert_eq!(r.priority, 9);
    assert!(r.fill_user_template && r.reboot_required && r.suppress_updates && r.suppress_eula);
    assert!(!r.fill_existing_users && !r.os_install && !r.suppress_from_dock && !r.suppress_registration);
    let p = PackageCreateRequest::from_old(&old, "demo-2.0.pkg", Some(1));
    assert_eq!(p.priority, 1);
    assert_eq!(p.category_id, "5");
}

#[test]
fn created_record_takes_the_id_and_the_request() {
    let r = PackageCreateRequest::new_default("Demo", "demo.pkg", Some(4));
    let p = Package::created("42".to_string(), r);
    assert_eq!(p.id, "42");
    assert_eq!(p.package_name, "Demo");
    assert_eq!(p.file_name, "demo.pkg");
    assert_eq!(p.category_id, "-1");
    assert_eq!(p.priority, 4);
}

#[test]
fn first_match_of_a_search() {
    let mut second = sample_package();
    second.id = "18".to_string();
    let page = PackageSearchResponse { total_count: 2, results: vec![sample_package(), second] };
    assert_eq!(page.first_match().unwrap().id, "17");
    let none = PackageSearchResponse { total_count: 0, results: vec![] };
    assert!(none.first_match().is_none());
}

#[test]
fn section_runs_from_first_open_to_first_close() {
    let xml = "<policy><a>1</a><package_configuration><packages><name>x</name></packages></package_configuration><a>2</a></policy>";
    assert_eq!(
        extract_section(xml, "package_configuration"),
        Some("<package_configuration><packages><name>x</name></packages></package_configuration>")
    );
    assert_eq!(extract_section(xml, "a"), Some("<a>1</a>"));
    assert_eq!(extract_section(xml, "missing"), None);
    assert_eq!(extract_section("<t>open only", "t"), None);
    assert_eq!(extract_section("close only</t>", "t"), None);
    assert_eq!(extract_section("</t><t>", "t"), Some(""));
    assert_eq!(extract_section("</t>....<t>", "t"), None);
    assert_eq!(extract_section("é<t>ü</t>é", "t"), Some("<t>ü</t>"));
}

#[test]
fn policy_with_the_file_name_in_its_section_is_affected() {
    let xml = "<policy><general><name>Install Demo</name></general><package_configuration><packages><package><id>3</id><name>demo-1.0.pkg</name></package></packages></package_configuration></policy>";
    assert!(references_package(xml, "Demo", "demo-1.0.pkg"));
    assert!(references_package(xml, "demo-1.0.pkg", "other.pkg"));
    assert!(!references_package(xml, "Demo", "demo-2.0.pkg"));
    // The name outside the section does not count.
    assert!(!references_package(xml, "Install Demo", "x.pkg"));
    // A longer name that only contains the package's is another package.
    assert!(!references_package(xml, "demo-1.0", "1.0.pkg"));
}

#[test]
fn policy_without_a_section_is_excluded() {
    let xml = "<policy><general><name>demo-1.0.pkg</name></general></policy>";
    assert!(!references_package(xml, "Demo", "demo-1.0.pkg"));
    assert!(!references_package("", "Demo", "demo-1.0.pkg"));
}

fn policies() -> Vec<PolicySummary> {
    vec![
        PolicySummary { id: 1, name: "One".to_string() },
        PolicySummary { id: 2, name: "Two".to_string() },
        PolicySummary { id: 3, name: "Three".to_string() },
    ]
}

fn document(name: &str) -> Fetched {
    Fetched::Document(format!(
        "<policy><package_configuration><packages><package><name>{}</name></package></packages></package_configuration></policy>",
        name
    ))
}

fn scanned(fetched: Vec<Fetched>) -> Vec<ScannedPolicy> {
    policies()
        .into_iter()
        .zip(fetched)
        .map(|(policy, fetched)| ScannedPolicy { policy, fetched })
        .collect()
}

#[test]
fn scan_lists_the_affected_policies_in_order() {
    let fetched = vec![document("demo.pkg"), document("other.pkg"), document("Demo")];
    let affected = find_policies_with_package(&scanned(fetched), "Demo", "demo.pkg").unwrap();
    assert_eq!(affected.len(), 2);
    assert_eq!(affected[0].id, 1);
    assert_eq!(affected[0].name, "One");
    assert_eq!(affected[1].id, 3);
    assert_eq!(affected[1].name, "Three");
    let nothing = find_policies_with_package(&vec![], "Demo", "demo.pkg").unwrap();
    assert!(nothing.is_empty());
}

#[test]
fn scan_fails_on_the_first_refusal_without_a_partial_list() {
    let fetched = vec![
        document("demo.pkg"),
        Fetched::Refused { status: 502, body: "bad gateway".to_string() },
        Fetched::Refused { status: 404, body: "gone".to_string() },
    ];
    let e = find_policies_with_package(&scanned(fetched), "Demo", "demo.pkg").unwrap_err();
    assert_eq!(e.policy_id, 2);
    assert_eq!(e.status, 502);
    assert_eq!(e.body, "bad gateway");
}

#[test]
fn policy_list_without_a_list_is_empty() {
    assert!(PolicyListResponse { policies: None }.into_summaries().is_empty());
    let list = PolicyListResponse { policies: Some(policies()) }.into_summaries();
    assert_eq!(list.len(), 3);
    assert_eq!(list[1].id, 2);
}

#[test]
fn base_address_loses_its_trailing_slashes() {
    assert_eq!(trim_base_url("https://jamf.example/"), "https://jamf.example");
    assert_eq!(trim_base_url("https://jamf.example///"), "https://jamf.example");
    assert_eq!(trim_base_url("https://jamf.example"), "https://jamf.example");
    assert_eq!(trim_base_url("https://jamf.example/a/"), "https://jamf.example/a");
    assert_eq!(trim_base_url("//"), "");
    assert_eq!(trim_base_url(""), "");
}

#[test]
fn environment_overrides_the_store() {
    let env = Credentials::from_environment(
        Some("id".to_string()),
        Some("secret".to_string()),
        Some("https://env.example/".to_string()),
    );
    let stored = Credentials {
        client_id: "stored".to_string(),
        client_secret: "s".to_string(),
        url: "https://stored.example".to_string(),
    };
    let chosen = Credentials::select(env, Some(stored)).unwrap();
    assert_eq!(chosen.client_id, "id");
    assert_eq!(chosen.client_secret, "secret");
    assert_eq!(chosen.url, "https://env.example");
    let partial = Credentials::from_environment(Some("id".to_string()), None, Some("u".to_string()));
    assert!(partial.is_none());
    let stored = Credentials {
        client_id: "stored".to_string(),
        client_secret: "s".to_string(),
        url: "https://stored.example".to_string(),
    };
    assert_eq!(Credentials::select(partial, Some(stored)).unwrap().client_id, "stored");
    assert!(Credentials::select(None, None).is_none());
}

#[test]
fn accepted_answers_hand_over_their_body() {
    let ok = accept(Operation::FindPackage, Response { status: 200, body: "{}".to_string() });
    assert_eq!(ok.unwrap(), "{}");
    let created = accept(Operation::CreatePackage, Response { status: 201, body: "x".to_string() });
    assert_eq!(created.unwrap(), "x");
}

#[test]
fn refused_answers_carry_status_and_body() {
    let e = accept(Operation::Authenticate, Response { status: 401, body: "denied".to_string() })
        .unwrap_err();
    assert_eq!(e.operation, Operation::Authenticate);
    assert_eq!(e.status, 401);
    assert_eq!(e.body, "denied");
    assert_eq!(e.message(), "Authentication failed (HTTP 401): denied");
    let e = accept(Operation::UpdatePackage, Response { status: 500, body: "".to_string() })
        .unwrap_err();
    assert_eq!(e.message(), "Failed to update package metadata (HTTP 500): ");
    let e = accept(Operation::ReadPolicy, Response { status: 302, body: "moved".to_string() })
        .unwrap_err();
    assert_eq!(e.message(), "Failed to fetch policy (HTTP 302): moved");
    let cases = [
        (Operation::FindPackage, "Failed to search packages (HTTP 404): b"),
        (Operation::CreatePackage, "Failed to create package (HTTP 404): b"),
        (Operation::UploadFile, "Failed to upload package (HTTP 404): b"),
        (Operation::TriggerReindex, "Failed to refresh JCDS inventory (HTTP 404): b"),
        (Operation::ReadDigest, "Failed to read package details (HTTP 404): b"),
        (Operation::ListPolicies, "Failed to list policies (HTTP 404): b"),
    ];
    for (operation, expected) in cases {
        let e = accept(operation, Response { status: 404, body: "b".to_string() }).unwrap_err();
        assert_eq!(e.message(), expected);
    }
}

#[test]
fn count_line_knows_the_singular() {
    let one = vec![AffectedPolicy { id: 1, name: "One".to_string() }];
    assert_eq!(affected_count_line(&one), "Found 1 policy referencing this package.");
    assert_eq!(affected_count_line(&vec![]), "Found 0 policies referencing this package.");
    let two = vec![
        AffectedPolicy { id: 1, name: "One".to_string() },
        AffectedPolicy { id: 2, name: "Two".to_string() },
    ];
    assert_eq!(affected_count_line(&two), "Found 2 policies referencing this package.");
}

#[test]
fn new_credentials_are_trimmed() {
    let c = Credentials::new("id".to_string(), "secret".to_string(), "https://jamf.example//");
    assert_eq!(c.client_id, "id");
    assert_eq!(c.client_secret, "secret");
    assert_eq!(c.url, "https://jamf.example");
}

#[test]
fn token_exchange_is_a_client_credentials_grant() {
    let form = token_form("my-id", "my-secret");
    assert_eq!(
        form,
        vec![
            ("client_id".to_string(), "my-id".to_string()),
            ("client_secret".to_string(), "my-secret".to_string()),
            ("grant_type".to_string(), "client_credentials".to_string()),
        ]
    );
}

#[test]
fn policy_details_are_asked_for_as_xml() {
    assert_eq!(accept_header(Operation::ReadPolicy), Some("application/xml"));
    assert_eq!(accept_header(Operation::ListPolicies), Some("application/json"));
    assert_eq!(accept_header(Operation::FindPackage), Some("application/json"));
    assert_eq!(accept_header(Operation::ReadDigest), Some("application/json"));
    assert_eq!(accept_header(Operation::UploadFile), Some("application/json"));
    assert_eq!(accept_header(Operation::TriggerReindex), Some("application/json"));
    assert_eq!(accept_header(Operation::Authenticate), None);
    assert_eq!(accept_header(Operation::UpdatePackage), None);
    assert_eq!(accept_header(Operation::CreatePackage), None);
}
