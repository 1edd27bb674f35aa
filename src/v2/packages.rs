//! Packages: registering one, and listing them page by page.
use vstd::prelude::*;

use crate::errors::QueryError;
use crate::params::{distinct_names, 
    encode_json_object, encode_url_params, fields_view, number_param, opt_field,
    push_field, text_param, Param, ParamValue, json_object_of, url_params_of, opt_ref, opt_owned, owned, text_value,
};
use crate::request::{opt_text, PaginatedRequest, Pagination, RequestMethod, SingleRequest};
use crate::v2::{clamp_per_page, num_pages, page_count, DEFAULT_PER_PAGE};

verus! {

/// Registers a package of a distribution as belonging to a project.
#[derive(Debug)]
pub struct NewPackageRequest {
    distribution: String,
    package_name: String,
    project_name: String,
    project_ecosystem: String,
}

impl NewPackageRequest {
    pub fn new(
        distribution: String,
        package_name: String,
        project_ecosystem: String,
        project_name: String,
    ) -> (r: Self)
        ensures
            r.fields_spec() == seq![
                ("distribution"@, ParamValue::Text(distribution@)),
                ("package_name"@, ParamValue::Text(package_name@)),
                ("project_name"@, ParamValue::Text(project_name@)),
                ("project_ecosystem"@, ParamValue::Text(project_ecosystem@)),
            ],
    {
        NewPackageRequest { distribution, package_name, project_ecosystem, project_name }
    }

    /// The fields of the request body, in order.
    pub closed spec fn fields_spec(&self) -> Seq<(Seq<char>, ParamValue)> {
        seq![
            ("distribution"@, ParamValue::Text(self.distribution@)),
            ("package_name"@, ParamValue::Text(self.package_name@)),
            ("project_name"@, ParamValue::Text(self.project_name@)),
            ("project_ecosystem"@, ParamValue::Text(self.project_ecosystem@)),
        ]
    }

    fn fields(&self) -> (f: Vec<(String, Param)>)
        ensures
            distinct_names(fields_view(f@)),
            fields_view(f@) == self.fields_spec(),
    {
        let mut f: Vec<(String, Param)> = Vec::new();
        // the field names differ in length or in one character
        proof {
            reveal_strlit("distribution");
            assert("distribution"@.len() == 12 && "distribution"@[0] == 'd');
            reveal_strlit("package_name");
            assert("package_name"@.len() == 12 && "package_name"@[0] == 'p' && "package_name"@[1] == 'a');
            reveal_strlit("project_name");
            assert("project_name"@.len() == 12 && "project_name"@[0] == 'p' && "project_name"@[1] == 'r');
            reveal_strlit("project_ecosystem");
            assert("project_ecosystem"@.len() == 17);
        }
        assert(fields_view(f@) =~= Seq::empty());
        push_field(&mut f, "distribution", text_param(&Some(self.distribution.clone())));
        push_field(&mut f, "package_name", text_param(&Some(self.package_name.clone())));
        push_field(&mut f, "project_name", text_param(&Some(self.project_name.clone())));
        push_field(&mut f, "project_ecosystem", text_param(&Some(self.project_ecosystem.clone())));
        assert(fields_view(f@) =~= self.fields_spec());
        f
    }
}

/// The package that the server registered.
#[derive(Debug, Clone, PartialEq)]
pub struct NewPackage {
    pub distribution: String,
    pub name: String,
}

impl SingleRequest<NewPackage, NewPackage> for NewPackageRequest {
    open spec fn method_spec(&self) -> RequestMethod {
        RequestMethod::POST
    }

    open spec fn path_spec(&self) -> Option<Seq<char>> {
        Some("/api/v2/packages/"@)
    }

    open spec fn body_spec(&self) -> Option<Option<Seq<char>>> {
        Some(Some(json_object_of(self.fields_spec())))
    }

    open spec fn extract_spec(&self, page: NewPackage) -> NewPackage {
        page
    }

    fn method(&self) -> (m: RequestMethod) {
        RequestMethod::POST
    }

    fn path(&self) -> (r: Result<String, QueryError>) {
        Ok(String::from_str("/api/v2/packages/"))
    }

    fn body(&self) -> (r: Result<Option<String>, QueryError>) {
        match encode_json_object(&self.fields()) {
            Ok(t) => Ok(Some(t)),
            Err(error) => Err(QueryError::DeSerialization { error }),
        }
    }

    fn extract(&self, page: NewPackage) -> (t: NewPackage) {
        page
    }
}

/// A filter over the packages that the service knows; it lists them page
/// by page.
#[derive(Debug)]
pub struct PackageQuery {
    distribution: Option<String>,
    name: Option<String>,
    items_per_page: u32,
}

/// What a package query asks for.
pub struct PackageQueryView {
    pub distribution: Option<Seq<char>>,
    pub name: Option<Seq<char>>,
    pub items_per_page: u32,
}

impl View for PackageQuery {
    type V = PackageQueryView;

    closed spec fn view(&self) -> PackageQueryView {
        PackageQueryView {
            distribution: opt_text(self.distribution),
            name: opt_text(self.name),
            items_per_page: self.items_per_page,
        }
    }
}

impl PackageQuery {
    /// All packages, 25 a page.
    pub fn new() -> (r: Self)
        ensures
            r@.distribution is None,
            r@.name is None,
            r@.items_per_page == DEFAULT_PER_PAGE,
    {
        PackageQuery { distribution: None, name: None, items_per_page: DEFAULT_PER_PAGE }
    }

    /// Only the packages of this distribution.
    pub fn distribution(self, distribution: String) -> (r: Self)
        ensures
            r@.distribution == Some(distribution@),
            r@.name == self@.name,
            r@.items_per_page == self@.items_per_page,
    {
        PackageQuery { distribution: Some(distribution), ..self }
    }

    /// Only the packages of this name.
    pub fn name(self, name: String) -> (r: Self)
        ensures
            r@.distribution == self@.distribution,
            r@.name == Some(name@),
            r@.items_per_page == self@.items_per_page,
    {
        PackageQuery { name: Some(name), ..self }
    }

    /// Asks for `items_per_page` packages a page, brought into the range of
    /// 1 to 250 that the service accepts.
    pub fn items_per_page(self, items_per_page: u32) -> (r: Self)
        ensures
            r@.distribution == self@.distribution,
            r@.name == self@.name,
            r@.items_per_page == (if items_per_page < 1 {
                1
            } else if items_per_page > 250 {
                250
            } else {
                items_per_page
            }),
    {
        PackageQuery { items_per_page: clamp_per_page(items_per_page), ..self }
    }
}

impl Default for PackageQuery {
    fn default() -> (r: Self)
        ensures
            r@.distribution is None,
            r@.name is None,
            r@.items_per_page == DEFAULT_PER_PAGE,
    {
        Self::new()
    }
}

/// The request for one page of a package query.
#[derive(Debug)]
pub struct PackagePageQuery<'a> {
    distribution: Option<&'a String>,
    name: Option<&'a String>,
    page: u32,
    items_per_page: u32,
}

/// What the request for one page asks for.
pub struct PackagePageView {
    pub distribution: Option<Seq<char>>,
    pub name: Option<Seq<char>>,
    pub page: u32,
    pub items_per_page: u32,
}

impl<'a> View for PackagePageQuery<'a> {
    type V = PackagePageView;

    closed spec fn view(&self) -> PackagePageView {
        PackagePageView {
            distribution: opt_text(opt_owned(self.distribution)),
            name: opt_text(opt_owned(self.name)),
            page: self.page,
            items_per_page: self.items_per_page,
        }
    }
}

impl<'a> PackagePageQuery<'a> {
    /// The query-string fields, in order; a filter without a value is left out.
    pub open spec fn fields_spec(&self) -> Seq<(Seq<char>, ParamValue)> {
        opt_field("distribution"@, text_value(self@.distribution)) + opt_field("name"@, text_value(self@.name))
            + seq![
            ("page"@, ParamValue::Number(self@.page as nat)),
            ("items_per_page"@, ParamValue::Number(self@.items_per_page as nat)),
        ]
    }

    fn fields(&self) -> (f: Vec<(String, Param)>)
        ensures
            distinct_names(fields_view(f@)),
            fields_view(f@) == self.fields_spec(),
    {
        let mut f: Vec<(String, Param)> = Vec::new();
        // the field names differ in length or in one character
        proof {
            reveal_strlit("distribution");
            assert("distribution"@.len() == 12);
            reveal_strlit("name");
            assert("name"@.len() == 4 && "name"@[0] == 'n');
            reveal_strlit("page");
            assert("page"@.len() == 4 && "page"@[0] == 'p');
            reveal_strlit("items_per_page");
            assert("items_per_page"@.len() == 14);
        }
        assert(fields_view(f@) =~= Seq::empty());
        push_field(&mut f, "distribution", text_param(&owned(self.distribution)));
        push_field(&mut f, "name", text_param(&owned(self.name)));
        push_field(&mut f, "page", number_param(Some(self.page)));
        push_field(&mut f, "items_per_page", number_param(Some(self.items_per_page)));
        assert(fields_view(f@) =~= self.fields_spec());
        f
    }
}

/// One page of packages, with the counts that tell how many pages there are.
#[derive(Debug, PartialEq)]
pub struct PackagePage {
    items: Vec<Package>,
    page: u32,
    items_per_page: u32,
    total_items: u32,
}

impl PackagePage {
    #[verifier::type_invariant]
    closed spec fn countable(self) -> bool {
        self.total_items == 0 || self.items_per_page > 0
    }

    /// A page as the server reports it. A page of a non-empty collection
    /// holds at least one item a page.
    pub fn new(items: Vec<Package>, page: u32, items_per_page: u32, total_items: u32) -> (r: Self)
        requires
            total_items == 0 || items_per_page > 0,
        ensures
            r.items_spec() == items,
            r.page_spec() == page,
            r.items_per_page_spec() == items_per_page,
            r.total_items_spec() == total_items,
    {
        PackagePage { items, page, items_per_page, total_items }
    }

    pub closed spec fn items_spec(&self) -> Vec<Package> {
        self.items
    }

    pub closed spec fn page_spec(&self) -> u32 {
        self.page
    }

    pub closed spec fn items_per_page_spec(&self) -> u32 {
        self.items_per_page
    }

    pub closed spec fn total_items_spec(&self) -> u32 {
        self.total_items
    }
}

/// A package of a distribution, and the project it belongs to.
#[derive(Debug, Clone, PartialEq)]
pub struct Package {
    pub distribution: String,
    pub name: String,
    pub project: String,
    pub ecosystem: String,
    pub version: Option<String>,
}

impl<'a> SingleRequest<PackagePage, Vec<Package>> for PackagePageQuery<'a> {
    open spec fn method_spec(&self) -> RequestMethod {
        RequestMethod::GET
    }

    open spec fn path_spec(&self) -> Option<Seq<char>> {
        Some("/api/v2/packages/?"@ + url_params_of(self.fields_spec()))
    }

    open spec fn body_spec(&self) -> Option<Option<Seq<char>>> {
        Some(None)
    }

    open spec fn extract_spec(&self, page: PackagePage) -> Vec<Package> {
        page.items_spec()
    }

    fn method(&self) -> (m: RequestMethod) {
        RequestMethod::GET
    }

    fn path(&self) -> (r: Result<String, QueryError>) {
        match encode_url_params(&self.fields()) {
            Ok(t) => Ok(String::from_str("/api/v2/packages/?").concat(t.as_str())),
            Err(error) => Err(QueryError::InvalidQueryString { error }),
        }
    }

    fn body(&self) -> (r: Result<Option<String>, QueryError>) {
        Ok(None)
    }

    fn extract(&self, page: PackagePage) -> (t: Vec<Package>) {
        page.items
    }
}

impl Pagination for PackagePage {
    open spec fn pages_spec(&self) -> u32 {
        page_count(self.total_items_spec() as nat, self.items_per_page_spec() as nat) as u32
    }

    fn pages(&self) -> (r: u32) {
        proof {
            use_type_invariant(self);
        }
        num_pages(self.total_items, self.items_per_page)
    }
}

impl<'a> PaginatedRequest<'a, PackagePage, Vec<Package>, PackagePageQuery<'a>> for PackageQuery {
    closed spec fn page_request_spec(&self, page: u32) -> PackagePageQuery<'a> {
        PackagePageQuery {
            distribution: opt_ref(&self.distribution),
            name: opt_ref(&self.name),
            page,
            items_per_page: self.items_per_page,
        }
    }

    fn page_request(&'a self, page: u32) -> (s: PackagePageQuery<'a>) {
        PackagePageQuery {
            distribution: self.distribution.as_ref(),
            name: self.name.as_ref(),
            page,
            items_per_page: self.items_per_page,
        }
    }
}

/// The request for page `page` copies the filters and the page size of the
/// query, and carries the page number.
pub proof fn package_page_request_fields<'a>(query: &'a PackageQuery, page: u32)
    ensures
        <PackageQuery as PaginatedRequest<'a, PackagePage, Vec<Package>, PackagePageQuery<'a>>>::page_request_spec(query, page)@
            == (PackagePageView {
            distribution: query@.distribution,
            name: query@.name,
            page,
            items_per_page: query@.items_per_page,
        }),
{
}

} // verus!
