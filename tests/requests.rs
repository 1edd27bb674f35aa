use anitya::v2::{
    ModifyProjectRequest, NewPackage, NewPackageRequest, NewProjectRequest, NewVersions,
    PackagePage, PackageQuery, ProjectPage, ProjectPageQuery, ProjectQuery, VersionQuery, Versions,
};
use anitya::{PaginatedRequest, RequestMethod, SingleRequest};

fn project_page(query: &ProjectQuery, page: u32) -> ProjectPageQuery<'_> {
    <ProjectQuery as PaginatedRequest<ProjectPage<u32>, Vec<u32>, ProjectPageQuery>>::page_request(query, page)
}

#[test]
fn package_page_path_holds_filters_and_page() {
    let query = PackageQuery::new()
        .distribution(String::from("Fedora"))
        .name(String::from("python requests"));
    let request = query.page_request(2);
    let path = SingleRequest::<PackagePage, _>::path(&request).ok().unwrap();
    assert_eq!(
        path,
        "/api/v2/packages/?distribution=Fedora&name=python+requests&page=2&items_per_page=25"
    );
    assert_eq!(SingleRequest::<PackagePage, _>::method(&request), RequestMethod::GET);
    assert_eq!(SingleRequest::<PackagePage, _>::body(&request).ok().unwrap(), None);
}

#[test]
fn items_per_page_is_clamped() {
    let low = PackageQuery::new().items_per_page(0);
    let path = SingleRequest::<PackagePage, _>::path(&low.page_request(1)).ok().unwrap();
    assert_eq!(path, "/api/v2/packages/?page=1&items_per_page=1");
    let high = PackageQuery::new().items_per_page(1000);
    let path = SingleRequest::<PackagePage, _>::path(&high.page_request(1)).ok().unwrap();
    assert_eq!(path, "/api/v2/packages/?page=1&items_per_page=250");
    let fine = ProjectQuery::new().items_per_page(100).ecosystem(String::from("pypi"));
    let request = project_page(&fine, 1);
    let path = SingleRequest::<ProjectPage<u32>, Vec<u32>>::path(&request).ok().unwrap();
    assert_eq!(path, "/api/v2/projects/?ecosystem=pypi&page=1&items_per_page=100");
    let high = ProjectQuery::new().items_per_page(251);
    let request = project_page(&high, 4);
    let path = SingleRequest::<ProjectPage<u32>, Vec<u32>>::path(&request).ok().unwrap();
    assert_eq!(path, "/api/v2/projects/?page=4&items_per_page=250");
}

#[test]
fn version_query_path() {
    let request = VersionQuery::new(7635);
    assert_eq!(request.path().ok().unwrap(), "/api/v2/versions/?project_id=7635");
    assert_eq!(request.method(), RequestMethod::GET);
    assert_eq!(request.body().ok().unwrap(), None);
}

#[test]
fn new_package_body() {
    let request = NewPackageRequest::new(
        String::from("Fedora"),
        String::from("python-requests"),
        String::from("pypi"),
        String::from("requests"),
    );
    assert_eq!(SingleRequest::<NewPackage, NewPackage>::method(&request), RequestMethod::POST);
    assert_eq!(SingleRequest::<NewPackage, NewPackage>::path(&request).ok().unwrap(), "/api/v2/packages/");
    let body = SingleRequest::<NewPackage, NewPackage>::body(&request).ok().unwrap().unwrap();
    let value: serde_json::Value = serde_json::from_str(&body).unwrap();
    assert_eq!(value["distribution"], "Fedora");
    assert_eq!(value["package_name"], "python-requests");
    assert_eq!(value["project_ecosystem"], "pypi");
    assert_eq!(value["project_name"], "requests");
}

#[test]
fn new_project_body_leaves_out_unset_options() {
    let request = NewProjectRequest::new(
        String::from("requests"),
        String::from("https://requests.readthedocs.io"),
        String::from("PyPI"),
    )
    .insecure(false)
    .regex(String::from("v(.*)"));
    assert_eq!(SingleRequest::<u8, u8>::method(&request), RequestMethod::POST);
    assert_eq!(SingleRequest::<u8, u8>::path(&request).ok().unwrap(), "/api/v2/projects/");
    let body = SingleRequest::<u8, u8>::body(&request).ok().unwrap().unwrap();
    assert_eq!(
        body,
        "{\n  \"name\": \"requests\",\n  \"homepage\": \"https://requests.readthedocs.io\",\n  \"backend\": \"PyPI\",\n  \"regex\": \"v(.*)\",\n  \"insecure\": false\n}"
    );
    assert_eq!(SingleRequest::<u8, u8>::extract(&request, 7), 7);
}

#[test]
fn modify_project_body() {
    let request = ModifyProjectRequest::new()
        .backend(String::from("GitHub"))
        .version_url(String::from("psf/requests"))
        .version_scheme(String::from("RPM"))
        .version_pattern(String::from("v*"))
        .version_prefix(String::from("v"))
        .pre_release_filter(String::from("rc"))
        .version_filter(String::from("beta"))
        .regex(String::from(".*"))
        .insecure(true)
        .releases_only(false)
        .dry_run(true);
    assert_eq!(request.method(), RequestMethod::POST);
    assert_eq!(request.path().ok().unwrap(), "/api/v2/versions/");
    let body = request.body().ok().unwrap().unwrap();
    let value: serde_json::Value = serde_json::from_str(&body).unwrap();
    let object = value.as_object().unwrap();
    assert_eq!(object.len(), 11);
    assert_eq!(value["backend"], "GitHub");
    assert_eq!(value["version_url"], "psf/requests");
    assert_eq!(value["version_scheme"], "RPM");
    assert_eq!(value["version_pattern"], "v*");
    assert_eq!(value["version_prefix"], "v");
    assert_eq!(value["pre_release_filter"], "rc");
    assert_eq!(value["version_filter"], "beta");
    assert_eq!(value["regex"], ".*");
    assert_eq!(value["insecure"], true);
    assert_eq!(value["releases_only"], false);
    assert_eq!(value["dry_run"], true);
    let empty = ModifyProjectRequest::new().body().ok().unwrap().unwrap();
    assert_eq!(empty, "{}");
}

#[test]
fn single_resources_pass_through() {
    let request = ModifyProjectRequest::new();
    let found = NewVersions {
        found_versions: vec![String::from("1.1")],
        latest_version: String::from("1.1"),
        versions: vec![String::from("1.1"), String::from("1.0")],
        stable_versions: vec![String::from("1.1")],
    };
    assert_eq!(request.extract(found.clone()), found);
    let query = VersionQuery::new(1);
    let versions = Versions {
        latest_version: String::from("1.0"),
        versions: vec![String::from("1.0")],
        stable_versions: vec![],
    };
    assert_eq!(query.extract(versions.clone()), versions);
}
