//! Versions: asking the service to check a project for new versions, and
//! reading the versions it knows.
use vstd::prelude::*;

use crate::errors::QueryError;
use crate::params::{distinct_names, 
    encode_json_object, encode_url_params, fields_view, flag_param, json_object_of, number_param,
    opt_field, opt_flag_value, opt_number_value, push_field, text_param, text_value,
    url_params_of, Param, ParamValue,
};
use crate::request::{opt_text, RequestMethod, SingleRequest};

verus! {

/// Asks the service to check a project for new versions, or, with the
/// release-backend options, to try them on a temporary project.
#[derive(Debug)]
pub struct ModifyProjectRequest {
    id: Option<u32>,
    name: Option<String>,
    homepage: Option<String>,
    backend: Option<String>,
    version_url: Option<String>,
    version_scheme: Option<String>,
    version_pattern: Option<String>,
    version_prefix: Option<String>,
    pre_release_filter: Option<String>,
    version_filter: Option<String>,
    regex: Option<String>,
    insecure: Option<bool>,
    releases_only: Option<bool>,
    dry_run: Option<bool>,
}

/// What a version check holds.
pub struct ModifyProjectView {
    pub id: Option<u32>,
    pub name: Option<Seq<char>>,
    pub homepage: Option<Seq<char>>,
    pub backend: Option<Seq<char>>,
    pub version_url: Option<Seq<char>>,
    pub version_scheme: Option<Seq<char>>,
    pub version_pattern: Option<Seq<char>>,
    pub version_prefix: Option<Seq<char>>,
    pub pre_release_filter: Option<Seq<char>>,
    pub version_filter: Option<Seq<char>>,
    pub regex: Option<Seq<char>>,
    pub insecure: Option<bool>,
    pub releases_only: Option<bool>,
    pub dry_run: Option<bool>,
}

impl View for ModifyProjectRequest {
    type V = ModifyProjectView;

    closed spec fn view(&self) -> ModifyProjectView {
        ModifyProjectView {
            id: self.id,
            name: opt_text(self.name),
            homepage: opt_text(self.homepage),
            backend: opt_text(self.backend),
            version_url: opt_text(self.version_url),
            version_scheme: opt_text(self.version_scheme),
            version_pattern: opt_text(self.version_pattern),
            version_prefix: opt_text(self.version_prefix),
            pre_release_filter: opt_text(self.pre_release_filter),
            version_filter: opt_text(self.version_filter),
            regex: opt_text(self.regex),
            insecure: self.insecure,
            releases_only: self.releases_only,
            dry_run: self.dry_run,
        }
    }
}

/// The fields of a version check, in order; an option without a value is
/// left out.
pub open spec fn modify_project_fields(v: ModifyProjectView) -> Seq<(Seq<char>, ParamValue)> {
    opt_field("id"@, opt_number_value(v.id)) + opt_field("name"@, text_value(v.name)) + opt_field(
        "homepage"@,
        text_value(v.homepage),
    ) + opt_field("backend"@, text_value(v.backend)) + opt_field(
        "version_url"@,
        text_value(v.version_url),
    ) + opt_field("version_scheme"@, text_value(v.version_scheme)) + opt_field(
        "version_pattern"@,
        text_value(v.version_pattern),
    ) + opt_field("version_prefix"@, text_value(v.version_prefix)) + opt_field(
        "pre_release_filter"@,
        text_value(v.pre_release_filter),
    ) + opt_field("version_filter"@, text_value(v.version_filter)) + opt_field(
        "regex"@,
        text_value(v.regex),
    ) + opt_field("insecure"@, opt_flag_value(v.insecure)) + opt_field(
        "releases_only"@,
        opt_flag_value(v.releases_only),
    ) + opt_field("dry_run"@, opt_flag_value(v.dry_run))
}

impl ModifyProjectRequest {
    /// A version check with no field set.
    pub fn new() -> (r: Self)
        ensures
            r@ == (ModifyProjectView {
                id: None,
                name: None,
                homepage: None,
                backend: None,
                version_url: None,
                version_scheme: None,
                version_pattern: None,
                version_prefix: None,
                pre_release_filter: None,
                version_filter: None,
                regex: None,
                insecure: None,
                releases_only: None,
                dry_run: None,
            }),
    {
        ModifyProjectRequest {
            id: None,
            name: None,
            homepage: None,
            backend: None,
            version_url: None,
            version_scheme: None,
            version_pattern: None,
            version_prefix: None,
            pre_release_filter: None,
            version_filter: None,
            regex: None,
            insecure: None,
            releases_only: None,
            dry_run: None,
        }
    }

    pub fn backend(self, backend: String) -> (r: Self)
        ensures
            r@ == (ModifyProjectView { backend: Some(backend@), ..self@ }),
    {
        ModifyProjectRequest { backend: Some(backend), ..self }
    }

    pub fn version_url(self, version_url: String) -> (r: Self)
        ensures
            r@ == (ModifyProjectView { version_url: Some(version_url@), ..self@ }),
    {
        ModifyProjectRequest { version_url: Some(version_url), ..self }
    }

    pub fn version_scheme(self, version_scheme: String) -> (r: Self)
        ensures
            r@ == (ModifyProjectView { version_scheme: Some(version_scheme@), ..self@ }),
    {
        ModifyProjectRequest { version_scheme: Some(version_scheme), ..self }
    }

    pub fn version_pattern(self, version_pattern: String) -> (r: Self)
        ensures
            r@ == (ModifyProjectView { version_pattern: Some(version_pattern@), ..self@ }),
    {
        ModifyProjectRequest { version_pattern: Some(version_pattern), ..self }
    }

    pub fn version_prefix(self, version_prefix: String) -> (r: Self)
        ensures
            r@ == (ModifyProjectView { version_prefix: Some(version_prefix@), ..self@ }),
    {
        ModifyProjectRequest { version_prefix: Some(version_prefix), ..self }
    }

    pub fn pre_release_filter(self, pre_release_filter: String) -> (r: Self)
        ensures
            r@ == (ModifyProjectView { pre_release_filter: Some(pre_release_filter@), ..self@ }),
    {
        ModifyProjectRequest { pre_release_filter: Some(pre_release_filter), ..self }
    }

    pub fn version_filter(self, version_filter: String) -> (r: Self)
        ensures
            r@ == (ModifyProjectView { version_filter: Some(version_filter@), ..self@ }),
    {
        ModifyProjectRequest { version_filter: Some(version_filter), ..self }
    }

    pub fn regex(self, regex: String) -> (r: Self)
        ensures
            r@ == (ModifyProjectView { regex: Some(regex@), ..self@ }),
    {
        ModifyProjectRequest { regex: Some(regex), ..self }
    }

    pub fn insecure(self, insecure: bool) -> (r: Self)
        ensures
            r@ == (ModifyProjectView { insecure: Some(insecure), ..self@ }),
    {
        ModifyProjectRequest { insecure: Some(insecure), ..self }
    }

    pub fn releases_only(self, releases_only: bool) -> (r: Self)
        ensures
            r@ == (ModifyProjectView { releases_only: Some(releases_only), ..self@ }),
    {
        ModifyProjectRequest { releases_only: Some(releases_only), ..self }
    }

    pub fn dry_run(self, dry_run: bool) -> (r: Self)
        ensures
            r@ == (ModifyProjectView { dry_run: Some(dry_run), ..self@ }),
    {
        ModifyProjectRequest { dry_run: Some(dry_run), ..self }
    }

    fn fields(&self) -> (f: Vec<(String, Param)>)
        ensures
            distinct_names(fields_view(f@)),
            fields_view(f@) == modify_project_fields(self@),
    {
        let mut f: Vec<(String, Param)> = Vec::new();
        // the field names differ in length or in one character
        proof {
            reveal_strlit("id");
            assert("id"@.len() == 2);
            reveal_strlit("name");
            assert("name"@.len() == 4);
            reveal_strlit("homepage");
            assert("homepage"@.len() == 8 && "homepage"@[0] == 'h');
            reveal_strlit("backend");
            assert("backend"@.len() == 7 && "backend"@[0] == 'b');
            reveal_strlit("version_url");
            assert("version_url"@.len() == 11);
            reveal_strlit("version_scheme");
            assert("version_scheme"@.len() == 14 && "version_scheme"@[8] == 's');
            reveal_strlit("version_pattern");
            assert("version_pattern"@.len() == 15);
            reveal_strlit("version_prefix");
            assert("version_prefix"@.len() == 14 && "version_prefix"@[8] == 'p');
            reveal_strlit("pre_release_filter");
            assert("pre_release_filter"@.len() == 18);
            reveal_strlit("version_filter");
            assert("version_filter"@.len() == 14 && "version_filter"@[8] == 'f');
            reveal_strlit("regex");
            assert("regex"@.len() == 5);
            reveal_strlit("insecure");
            assert("insecure"@.len() == 8 && "insecure"@[0] == 'i');
            reveal_strlit("releases_only");
            assert("releases_only"@.len() == 13);
            reveal_strlit("dry_run");
            assert("dry_run"@.len() == 7 && "dry_run"@[0] == 'd');
        }
        assert(fields_view(f@) =~= Seq::empty());
        push_field(&mut f, "id", number_param(self.id));
        assert(fields_view(f@) =~= opt_field("id"@, opt_number_value(self@.id)));
        push_field(&mut f, "name", text_param(&self.name));
        push_field(&mut f, "homepage", text_param(&self.homepage));
        push_field(&mut f, "backend", text_param(&self.backend));
        push_field(&mut f, "version_url", text_param(&self.version_url));
        push_field(&mut f, "version_scheme", text_param(&self.version_scheme));
        push_field(&mut f, "version_pattern", text_param(&self.version_pattern));
        push_field(&mut f, "version_prefix", text_param(&self.version_prefix));
        push_field(&mut f, "pre_release_filter", text_param(&self.pre_release_filter));
        push_field(&mut f, "version_filter", text_param(&self.version_filter));
        push_field(&mut f, "regex", text_param(&self.regex));
        push_field(&mut f, "insecure", flag_param(self.insecure));
        push_field(&mut f, "releases_only", flag_param(self.releases_only));
        push_field(&mut f, "dry_run", flag_param(self.dry_run));
        f
    }
}

/// The versions that a check found, and those the project has.
#[derive(Debug, Clone, PartialEq)]
pub struct NewVersions {
    pub found_versions: Vec<String>,
    pub latest_version: String,
    pub versions: Vec<String>,
    pub stable_versions: Vec<String>,
}

impl SingleRequest<NewVersions, NewVersions> for ModifyProjectRequest {
    open spec fn method_spec(&self) -> RequestMethod {
        RequestMethod::POST
    }

    open spec fn path_spec(&self) -> Option<Seq<char>> {
        Some("/api/v2/versions/"@)
    }

    open spec fn body_spec(&self) -> Option<Option<Seq<char>>> {
        Some(Some(json_object_of(modify_project_fields(self@))))
    }

    open spec fn extract_spec(&self, page: NewVersions) -> NewVersions {
        page
    }

    fn method(&self) -> (m: RequestMethod) {
        RequestMethod::POST
    }

    fn path(&self) -> (r: Result<String, QueryError>) {
        Ok(String::from_str("/api/v2/versions/"))
    }

    fn body(&self) -> (r: Result<Option<String>, QueryError>) {
        match encode_json_object(&self.fields()) {
            Ok(t) => Ok(Some(t)),
            Err(error) => Err(QueryError::DeSerialization { error }),
        }
    }

    fn extract(&self, page: NewVersions) -> (t: NewVersions) {
        page
    }
}

/// Reads the versions of the project with this id.
#[derive(Debug)]
pub struct VersionQuery {
    project_id: u32,
}

impl VersionQuery {
    pub fn new(project_id: u32) -> (r: Self)
        ensures
            r.project_id_spec() == project_id,
    {
        VersionQuery { project_id }
    }

    pub closed spec fn project_id_spec(&self) -> u32 {
        self.project_id
    }

    fn fields(&self) -> (f: Vec<(String, Param)>)
        ensures
            distinct_names(fields_view(f@)),
            fields_view(f@) == seq![("project_id"@, ParamValue::Number(self.project_id_spec() as nat))],
    {
        let mut f: Vec<(String, Param)> = Vec::new();
        // the field names differ in length or in one character
        proof {
            reveal_strlit("project_id");
            assert("project_id"@.len() == 10);
        }
        assert(fields_view(f@) =~= Seq::empty());
        push_field(&mut f, "project_id", number_param(Some(self.project_id)));
        assert(fields_view(f@) =~= seq![("project_id"@, ParamValue::Number(self.project_id_spec() as nat))]);
        f
    }
}

/// The versions that the service knows of a project.
#[derive(Debug, Clone, PartialEq)]
pub struct Versions {
    pub latest_version: String,
    pub versions: Vec<String>,
    pub stable_versions: Vec<String>,
}

impl SingleRequest<Versions, Versions> for VersionQuery {
    open spec fn method_spec(&self) -> RequestMethod {
        RequestMethod::GET
    }

    open spec fn path_spec(&self) -> Option<Seq<char>> {
        Some(
            "/api/v2/versions/?"@ + url_params_of(
                seq![("project_id"@, ParamValue::Number(self.project_id_spec() as nat))],
            ),
        )
    }

    open spec fn body_spec(&self) -> Option<Option<Seq<char>>> {
        Some(None)
    }

    open spec fn extract_spec(&self, page: Versions) -> Versions {
        page
    }

    fn method(&self) -> (m: RequestMethod) {
        RequestMethod::GET
    }

    fn path(&self) -> (r: Result<String, QueryError>) {
        match encode_url_params(&self.fields()) {
            Ok(t) => Ok(String::from_str("/api/v2/versions/?").concat(t.as_str())),
            Err(error) => Err(QueryError::InvalidQueryString { error }),
        }
    }

    fn body(&self) -> (r: Result<Option<String>, QueryError>) {
        Ok(None)
    }

    fn extract(&self, page: Versions) -> (t: Versions) {
        page
    }
}

} // verus!
