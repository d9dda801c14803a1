use vstd::prelude::*;

verus! {

/// The kind of one page of a document.
#[derive(PartialEq, Eq, Structural, Clone, Copy, Debug)]
pub enum PageType {
    Cover,
    Content,
    TableOfContents,
}

/// One renderer flag: a switch, with a value unless it is a boolean flag.
#[derive(Clone, Debug)]
pub struct PdfOption {
    pub name: String,
    pub value: Option<String>,
}

/// One document to render, from a URL or from inlined base64-encoded HTML.
#[derive(Clone, Debug)]
pub struct Page {
    pub page_type: PageType,
    pub html_url: Option<String>,
    pub html_base64: Option<String>,
    pub options: Vec<PdfOption>,
}

/// Where the rendered PDF is stored.
#[derive(Clone, Debug)]
pub struct S3Details {
    pub bucket: String,
    pub object_key: String,
    pub region: Option<String>,
}

/// A conversion request: pages in render order, global options, destination.
#[derive(Clone, Debug)]
pub struct PdfRequest {
    pub pages: Vec<Page>,
    pub options: Vec<PdfOption>,
    pub output: S3Details,
}

/// The outcome of one request.
#[derive(Clone, Debug)]
pub struct PdfResponse {
    pub success: bool,
    pub messages: Vec<String>,
}

impl PdfResponse {
    /// The messages as character sequences.
    pub open spec fn messages_view(self) -> Seq<Seq<char>> {
        self.messages@.map_values(|m: String| m@)
    }
}

} // verus!
