//! Projects: registering one, and listing them page by page.
use vstd::prelude::*;

use crate::errors::QueryError;
use crate::params::{distinct_names, 
    encode_json_object, encode_url_params, fields_view, flag_param, json_object_of, number_param,
    opt_field, opt_flag_value, opt_owned, opt_ref, owned, push_field,
    text_param, text_value, url_params_of, Param, ParamValue,
};
use crate::request::{opt_text, PaginatedRequest, Pagination, RequestMethod, SingleRequest};
use crate::v2::{clamp_per_page, num_pages, page_count, DEFAULT_PER_PAGE};

verus! {

/// Registers a project with the service.
#[derive(Debug)]
pub struct NewProjectRequest {
    name: String,
    homepage: String,
    backend: String,
    version_url: Option<String>,
    version_prefix: Option<String>,
    regex: Option<String>,
    insecure: Option<bool>,
    check_release: Option<bool>,
}

/// What a project registration holds.
pub struct NewProjectView {
    pub name: Seq<char>,
    pub homepage: Seq<char>,
    pub backend: Seq<char>,
    pub version_url: Option<Seq<char>>,
    pub version_prefix: Option<Seq<char>>,
    pub regex: Option<Seq<char>>,
    pub insecure: Option<bool>,
    pub check_release: Option<bool>,
}

impl View for NewProjectRequest {
    type V = NewProjectView;

    closed spec fn view(&self) -> NewProjectView {
        NewProjectView {
            name: self.name@,
            homepage: self.homepage@,
            backend: self.backend@,
            version_url: opt_text(self.version_url),
            version_prefix: opt_text(self.version_prefix),
            regex: opt_text(self.regex),
            insecure: self.insecure,
            check_release: self.check_release,
        }
    }
}

/// The fields of a project registration, in order; an option without a
/// value is left out.
pub open spec fn new_project_fields(v: NewProjectView) -> Seq<(Seq<char>, ParamValue)> {
    seq![
        ("name"@, ParamValue::Text(v.name)),
        ("homepage"@, ParamValue::Text(v.homepage)),
        ("backend"@, ParamValue::Text(v.backend)),
    ] + opt_field("version_url"@, text_value(v.version_url)) + opt_field(
        "version_prefix"@,
        text_value(v.version_prefix),
    ) + opt_field("regex"@, text_value(v.regex)) + opt_field("insecure"@, opt_flag_value(v.insecure))
        + opt_field("check_release"@, opt_flag_value(v.check_release))
}


impl NewProjectRequest {
    /// A project of this name, home page and release backend, with no
    /// option set.
    pub fn new(name: String, homepage: String, backend: String) -> (r: Self)
        ensures
            r@ == (NewProjectView {
                name: name@,
                homepage: homepage@,
                backend: backend@,
                version_url: None,
                version_prefix: None,
                regex: None,
                insecure: None,
                check_release: None,
            }),
    {
        NewProjectRequest {
            name,
            homepage,
            backend,
            version_url: None,
            version_prefix: None,
            regex: None,
            insecure: None,
            check_release: None,
        }
    }

    pub fn version_url(self, version_url: String) -> (r: Self)
        ensures
            r@ == (NewProjectView { version_url: Some(version_url@), ..self@ }),
    {
        NewProjectRequest { version_url: Some(version_url), ..self }
    }

    pub fn version_prefix(self, version_prefix: String) -> (r: Self)
        ensures
            r@ == (NewProjectView { version_prefix: Some(version_prefix@), ..self@ }),
    {
        NewProjectRequest { version_prefix: Some(version_prefix), ..self }
    }

    pub fn regex(self, regex: String) -> (r: Self)
        ensures
            r@ == (NewProjectView { regex: Some(regex@), ..self@ }),
    {
        NewProjectRequest { regex: Some(regex), ..self }
    }

    pub fn insecure(self, insecure: bool) -> (r: Self)
        ensures
            r@ == (NewProjectView { insecure: Some(insecure), ..self@ }),
    {
        NewProjectRequest { insecure: Some(insecure), ..self }
    }

    pub fn check_release(self, check_release: bool) -> (r: Self)
        ensures
            r@ == (NewProjectView { check_release: Some(check_release), ..self@ }),
    {
        NewProjectRequest { check_release: Some(check_release), ..self }
    }

    fn fields(&self) -> (f: Vec<(String, Param)>)
        ensures
            distinct_names(fields_view(f@)),
            fields_view(f@) == new_project_fields(self@),
    {
        let mut f: Vec<(String, Param)> = Vec::new();
        // the field names differ in length or in one character
        proof {
            reveal_strlit("name");
            assert("name"@.len() == 4);
            reveal_strlit("homepage");
            assert("homepage"@.len() == 8 && "homepage"@[0] == 'h');
            reveal_strlit("backend");
            assert("backend"@.len() == 7);
            reveal_strlit("version_url");
            assert("version_url"@.len() == 11);
            reveal_strlit("version_prefix");
            assert("version_prefix"@.len() == 14);
            reveal_strlit("regex");
            assert("regex"@.len() == 5);
            reveal_strlit("insecure");
            assert("insecure"@.len() == 8 && "insecure"@[0] == 'i');
            reveal_strlit("check_release");
            assert("check_release"@.len() == 13);
        }
        assert(fields_view(f@) =~= Seq::empty());
        push_field(&mut f, "name", text_param(&Some(self.name.clone())));
        push_field(&mut f, "homepage", text_param(&Some(self.homepage.clone())));
        push_field(&mut f, "backend", text_param(&Some(self.backend.clone())));
        push_field(&mut f, "version_url", text_param(&self.version_url));
        push_field(&mut f, "version_prefix", text_param(&self.version_prefix));
        push_field(&mut f, "regex", text_param(&self.regex));
        push_field(&mut f, "insecure", flag_param(self.insecure));
        push_field(&mut f, "check_release", flag_param(self.check_release));
        assert(fields_view(f@) =~= new_project_fields(self@));
        f
    }
}

/// The registration answers with the project that was created, whatever
/// record type `P` the caller reads it into.
impl<P> SingleRequest<P, P> for NewProjectRequest {
    open spec fn method_spec(&self) -> RequestMethod {
        RequestMethod::POST
    }

    open spec fn path_spec(&self) -> Option<Seq<char>> {
        Some("/api/v2/projects/"@)
    }

    open spec fn body_spec(&self) -> Option<Option<Seq<char>>> {
        Some(Some(json_object_of(new_project_fields(self@))))
    }

    open spec fn extract_spec(&self, page: P) -> P {
        page
    }

    fn method(&self) -> (m: RequestMethod) {
        RequestMethod::POST
    }

    fn path(&self) -> (r: Result<String, QueryError>) {
        Ok(String::from_str("/api/v2/projects/"))
    }

    fn body(&self) -> (r: Result<Option<String>, QueryError>) {
        match encode_json_object(&self.fields()) {
            Ok(t) => Ok(Some(t)),
            Err(error) => Err(QueryError::DeSerialization { error }),
        }
    }

    fn extract(&self, page: P) -> (t: P) {
        page
    }
}

/// A filter over the projects that the service knows; it lists them page
/// by page.
#[derive(Debug)]
pub struct ProjectQuery {
    ecosystem: Option<String>,
    name: Option<String>,
    items_per_page: u32,
}

/// What a project query asks for.
pub struct ProjectQueryView {
    pub ecosystem: Option<Seq<char>>,
    pub name: Option<Seq<char>>,
    pub items_per_page: u32,
}

impl View for ProjectQuery {
    type V = ProjectQueryView;

    closed spec fn view(&self) -> ProjectQueryView {
        ProjectQueryView {
            ecosystem: opt_text(self.ecosystem),
            name: opt_text(self.name),
            items_per_page: self.items_per_page,
        }
    }
}

impl ProjectQuery {
    /// All projects, 25 a page.
    pub fn new() -> (r: Self)
        ensures
            r@ == (ProjectQueryView { ecosystem: None, name: None, items_per_page: DEFAULT_PER_PAGE }),
    {
        ProjectQuery { ecosystem: None, name: None, items_per_page: DEFAULT_PER_PAGE }
    }

    /// Only the projects of this ecosystem.
    pub fn ecosystem(self, ecosystem: String) -> (r: Self)
        ensures
            r@ == (ProjectQueryView { ecosystem: Some(ecosystem@), ..self@ }),
    {
        ProjectQuery { ecosystem: Some(ecosystem), ..self }
    }

    /// Only the projects of this name.
    pub fn name(self, name: String) -> (r: Self)
        ensures
            r@ == (ProjectQueryView { name: Some(name@), ..self@ }),
    {
        ProjectQuery { name: Some(name), ..self }
    }

    /// Asks for `items_per_page` projects a page, brought into the range of
    /// 1 to 250 that the service accepts.
    pub fn items_per_page(self, items_per_page: u32) -> (r: Self)
        ensures
            r@ == (ProjectQueryView {
                items_per_page: if items_per_page < 1 {
                    1
                } else if items_per_page > 250 {
                    250
                } else {
                    items_per_page
                },
                ..self@
            }),
    {
        ProjectQuery { items_per_page: clamp_per_page(items_per_page), ..self }
    }
}

impl Default for ProjectQuery {
    fn default() -> (r: Self)
        ensures
            r@ == (ProjectQueryView { ecosystem: None, name: None, items_per_page: DEFAULT_PER_PAGE }),
    {
        Self::new()
    }
}

/// The request for one page of a project query.
#[derive(Debug)]
pub struct ProjectPageQuery<'a> {
    ecosystem: Option<&'a String>,
    name: Option<&'a String>,
    page: u32,
    items_per_page: u32,
}

/// What the request for one page asks for.
pub struct ProjectPageView {
    pub ecosystem: Option<Seq<char>>,
    pub name: Option<Seq<char>>,
    pub page: u32,
    pub items_per_page: u32,
}

impl<'a> View for ProjectPageQuery<'a> {
    type V = ProjectPageView;

    closed spec fn view(&self) -> ProjectPageView {
        ProjectPageView {
            ecosystem: opt_text(opt_owned(self.ecosystem)),
            name: opt_text(opt_owned(self.name)),
            page: self.page,
            items_per_page: self.items_per_page,
        }
    }
}

impl<'a> ProjectPageQuery<'a> {
    /// The query-string fields, in order; a filter without a value is left out.
    pub open spec fn fields_spec(&self) -> Seq<(Seq<char>, ParamValue)> {
        opt_field("ecosystem"@, text_value(self@.ecosystem)) + opt_field("name"@, text_value(self@.name))
            + seq![
            ("page"@, ParamValue::Number(self@.page as nat)),
            ("items_per_page"@, ParamValue::Number(self@.items_per_page as nat)),
        ]
    }

    fn fields(&self) -> (f: Vec<(String, Param)>)
        ensures
            distinct_names(fields_view(f@)),
            fields_view(f@) == self.fields_spec(),
    {
        let mut f: Vec<(String, Param)> = Vec::new();
        // the field names differ in length or in one character
        proof {
            reveal_strlit("ecosystem");
            assert("ecosystem"@.len() == 9);
            reveal_strlit("name");
            assert("name"@.len() == 4 && "name"@[0] == 'n');
            reveal_strlit("page");
            assert("page"@.len() == 4 && "page"@[0] == 'p');
            reveal_strlit("items_per_page");
            assert("items_per_page"@.len() == 14);
        }
        assert(fields_view(f@) =~= Seq::empty());
        push_field(&mut f, "ecosystem", text_param(&owned(self.ecosystem)));
        push_field(&mut f, "name", text_param(&owned(self.name)));
        push_field(&mut f, "page", number_param(Some(self.page)));
        push_field(&mut f, "items_per_page", number_param(Some(self.items_per_page)));
        assert(fields_view(f@) =~= self.fields_spec());
        f
    }
}

/// One page of projects, read into the record type `I`, with the counts
/// that tell how many pages there are.
#[derive(Debug, PartialEq)]
pub struct ProjectPage<I> {
    items: Vec<I>,
    page: u32,
    items_per_page: u32,
    total_items: u32,
}

impl<I> ProjectPage<I> {
    #[verifier::type_invariant]
    closed spec fn countable(self) -> bool {
        self.total_items == 0 || self.items_per_page > 0
    }

    /// A page as the server reports it. A page of a non-empty collection
    /// holds at least one item a page.
    pub fn new(items: Vec<I>, page: u32, items_per_page: u32, total_items: u32) -> (r: Self)
        requires
            total_items == 0 || items_per_page > 0,
        ensures
            r.items_spec() == items,
            r.page_spec() == page,
            r.items_per_page_spec() == items_per_page,
            r.total_items_spec() == total_items,
    {
        ProjectPage { items, page, items_per_page, total_items }
    }

    pub closed spec fn items_spec(&self) -> Vec<I> {
        self.items
    }

    pub closed spec fn page_spec(&self) -> u32 {
        self.page
    }

    pub closed spec fn items_per_page_spec(&self) -> u32 {
        self.items_per_page
    }

    pub closed spec fn total_items_spec(&self) -> u32 {
        self.total_items
    }
}

impl<'a, I> SingleRequest<ProjectPage<I>, Vec<I>> for ProjectPageQuery<'a> {
    open spec fn method_spec(&self) -> RequestMethod {
        RequestMethod::GET
    }

    open spec fn path_spec(&self) -> Option<Seq<char>> {
        Some("/api/v2/projects/?"@ + url_params_of(self.fields_spec()))
    }

    open spec fn body_spec(&self) -> Option<Option<Seq<char>>> {
        Some(None)
    }

    open spec fn extract_spec(&self, page: ProjectPage<I>) -> Vec<I> {
        page.items_spec()
    }

    fn method(&self) -> (m: RequestMethod) {
        RequestMethod::GET
    }

    fn path(&self) -> (r: Result<String, QueryError>) {
        match encode_url_params(&self.fields()) {
            Ok(t) => Ok(String::from_str("/api/v2/projects/?").concat(t.as_str())),
            Err(error) => Err(QueryError::InvalidQueryString { error }),
        }
    }

    fn body(&self) -> (r: Result<Option<String>, QueryError>) {
        Ok(None)
    }

    fn extract(&self, page: ProjectPage<I>) -> (t: Vec<I>) {
        page.items
    }
}

impl<I> Pagination for ProjectPage<I> {
    open spec fn pages_spec(&self) -> u32 {
        page_count(self.total_items_spec() as nat, self.items_per_page_spec() as nat) as u32
    }

    fn pages(&self) -> (r: u32) {
        proof {
            use_type_invariant(self);
        }
        num_pages(self.total_items, self.items_per_page)
    }
}

impl<'a, I> PaginatedRequest<'a, ProjectPage<I>, Vec<I>, ProjectPageQuery<'a>> for ProjectQuery {
    closed spec fn page_request_spec(&self, page: u32) -> ProjectPageQuery<'a> {
        ProjectPageQuery {
            ecosystem: opt_ref(&self.ecosystem),
            name: opt_ref(&self.name),
            page,
            items_per_page: self.items_per_page,
        }
    }

    fn page_request(&'a self, page: u32) -> (s: ProjectPageQuery<'a>) {
        ProjectPageQuery {
            ecosystem: self.ecosystem.as_ref(),
            name: self.name.as_ref(),
            page,
            items_per_page: self.items_per_page,
        }
    }
}

/// The request for page `page` copies the filters and the page size of the
/// query, and carries the page number.
pub proof fn project_page_request_fields<'a, I>(query: &'a ProjectQuery, page: u32)
    ensures
        <ProjectQuery as PaginatedRequest<'a, ProjectPage<I>, Vec<I>, ProjectPageQuery<'a>>>::page_request_spec(query, page)@
            == (ProjectPageView {
            ecosystem: query@.ecosystem,
            name: query@.name,
            page,
            items_per_page: query@.items_per_page,
        }),
{
}

} // verus!
