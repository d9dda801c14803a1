use vstd::prelude::*;
use vstd::string::StringExecFns;
use crate::error::{ConvertError, ErrorView};
use crate::outside::{parse_region, region_parsing};
use crate::request::S3Details;

verus! {

/// The storage region an upload goes to.
#[derive(Clone, Debug)]
pub enum StorageRegion {
    /// An explicit endpoint, with a region name that only fills the field.
    Custom { name: String, endpoint: String },
    /// A known region, by its canonical name.
    Named(String),
}

/// What a `StorageRegion` stands for.
pub enum RegionView {
    Custom { name: Seq<char>, endpoint: Seq<char> },
    Named(Seq<char>),
}

impl View for StorageRegion {
    type V = RegionView;

    open spec fn view(&self) -> RegionView {
        match self {
            StorageRegion::Custom { name, endpoint } => RegionView::Custom {
                name: name@,
                endpoint: endpoint@,
            },
            StorageRegion::Named(n) => RegionView::Named(n@),
        }
    }
}

/// An optional text as an optional character sequence.
pub open spec fn opt_text(o: Option<String>) -> Option<Seq<char>> {
    match o {
        Some(s) => Some(s@),
        None => None,
    }
}

/// The region used when neither an endpoint nor a region is given.
pub open spec fn default_region() -> Seq<char> {
    "ap-southeast-2"@
}

/// The region name that goes with an explicit endpoint.
pub open spec fn custom_region_name() -> Seq<char> {
    "us-east-1"@
}

/// The region of an upload: an explicit endpoint wins; else the target's
/// region, which must parse; else the default region.
pub open spec fn region_choice(endpoint: Option<Seq<char>>, region: Option<Seq<char>>) -> Result<
    RegionView,
    ErrorView,
> {
    match endpoint {
        Some(e) => Ok(RegionView::Custom { name: custom_region_name(), endpoint: e }),
        None => match region {
            Some(r) => match region_parsing(r) {
                Ok(n) => Ok(RegionView::Named(n)),
                Err(m) => Err(ErrorView::InvalidRegion(m)),
            },
            None => Ok(RegionView::Named(default_region())),
        },
    }
}

/// Resolves the region of an upload from an endpoint override, if one is
/// configured, and the target's region field.
pub fn resolve_region(endpoint_override: &Option<String>, region: &Option<String>) -> (r: Result<
    StorageRegion,
    ConvertError,
>)
    ensures
        match r {
            Ok(reg) => region_choice(opt_text(*endpoint_override), opt_text(*region)) == Ok::<
                RegionView,
                ErrorView,
            >(reg@),
            Err(e) => region_choice(opt_text(*endpoint_override), opt_text(*region)) == Err::<
                RegionView,
                ErrorView,
            >(e@),
        },
{
    match endpoint_override {
        Some(endpoint) => Ok(
            StorageRegion::Custom {
                name: String::from_str("us-east-1"),
                endpoint: endpoint.clone(),
            },
        ),
        None => match region {
            Some(name) => match parse_region(name) {
                Ok(canonical) => Ok(StorageRegion::Named(canonical)),
                Err(m) => Err(ConvertError::InvalidRegion(m)),
            },
            None => Ok(StorageRegion::Named(String::from_str("ap-southeast-2"))),
        },
    }
}

/// One object to store.
#[derive(Clone, Debug)]
pub struct UploadRequest {
    pub region: StorageRegion,
    pub bucket: String,
    pub key: String,
    pub content_type: String,
    pub body: Vec<u8>,
}

/// What an `UploadRequest` stands for.
pub struct UploadView {
    pub region: RegionView,
    pub bucket: Seq<char>,
    pub key: Seq<char>,
    pub content_type: Seq<char>,
    pub body: Seq<u8>,
}

impl View for UploadRequest {
    type V = UploadView;

    open spec fn view(&self) -> UploadView {
        UploadView {
            region: self.region@,
            bucket: self.bucket@,
            key: self.key@,
            content_type: self.content_type@,
            body: self.body@,
        }
    }
}

/// The upload of a rendered document: empty output is an error; otherwise the
/// whole output goes, as a PDF, to the target's bucket and key in the region
/// that `region_choice` gives.
pub open spec fn upload_plan(contents: Seq<u8>, target: S3Details, endpoint: Option<Seq<char>>) -> Result<
    UploadView,
    ErrorView,
> {
    if contents.len() == 0 {
        Err(ErrorView::EmptyOutput)
    } else {
        match region_choice(endpoint, opt_text(target.region)) {
            Ok(region) => Ok(
                UploadView {
                    region,
                    bucket: target.bucket@,
                    key: target.object_key@,
                    content_type: "application/pdf"@,
                    body: contents,
                },
            ),
            Err(e) => Err(e),
        }
    }
}

/// Prepares the upload of the renderer's output `contents` to `target`.
pub fn prepare_upload(contents: Vec<u8>, target: &S3Details, endpoint_override: &Option<String>) -> (r:
    Result<UploadRequest, ConvertError>)
    ensures
        match r {
            Ok(u) => upload_plan(contents@, *target, opt_text(*endpoint_override)) == Ok::<
                UploadView,
                ErrorView,
            >(u@),
            Err(e) => upload_plan(contents@, *target, opt_text(*endpoint_override)) == Err::<
                UploadView,
                ErrorView,
            >(e@),
        },
{
    if contents.len() == 0 {
        return Err(ConvertError::EmptyOutput);
    }
    let region = match resolve_region(endpoint_override, &target.region) {
        Ok(region) => region,
        Err(e) => {
            return Err(e);
        },
    };
    Ok(
        UploadRequest {
            region,
            bucket: target.bucket.clone(),
            key: target.object_key.clone(),
            content_type: String::from_str("application/pdf"),
            body: contents,
        },
    )
}

/// With an endpoint override the region field of the target makes no
/// difference: the custom endpoint is used.
pub proof fn lemma_endpoint_override_wins(e: Seq<char>, r1: Option<Seq<char>>, r2: Option<Seq<char>>)
    ensures
        region_choice(Some(e), r1) == region_choice(Some(e), r2),
        region_choice(Some(e), r1) == Ok::<RegionView, ErrorView>(
            RegionView::Custom { name: custom_region_name(), endpoint: e },
        ),
{
}

/// Without an override, a region that parses is used under its canonical
/// name, and with no region at all the default region is used.
pub proof fn lemma_region_fallbacks(r: Seq<char>)
    ensures
        region_parsing(r) is Ok ==> region_choice(None, Some(r)) == Ok::<RegionView, ErrorView>(
            RegionView::Named(region_parsing(r)->Ok_0),
        ),
        region_choice(None, None) == Ok::<RegionView, ErrorView>(RegionView::Named(default_region())),
{
}

/// Empty renderer output is never uploaded: whatever the target and the
/// configured endpoint, it is an empty-output error.
pub proof fn lemma_empty_output_is_fatal(target: S3Details, endpoint: Option<Seq<char>>)
    ensures
        upload_plan(Seq::<u8>::empty(), target, endpoint) == Err::<UploadView, ErrorView>(
            ErrorView::EmptyOutput,
        ),
{
}

} // verus!
