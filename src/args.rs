use vstd::prelude::*;
use vstd::string::StringExecFns;
use crate::error::{ConvertError, ErrorView};
use crate::outside::{base64_decoding, decode_base64};
use crate::request::{Page, PageType, PdfOption, PdfRequest};

verus! {

/// One token of the renderer's argument list, before temporary files exist.
#[derive(Clone, Debug)]
pub enum ArgToken {
    /// A token passed as it is.
    Text(String),
    /// The path of the temporary file that holds the inlined page of this index.
    InlineFile(usize),
}

/// What an `ArgToken` stands for.
pub enum TokenView {
    Text(Seq<char>),
    InlineFile(nat),
}

impl View for ArgToken {
    type V = TokenView;

    open spec fn view(&self) -> TokenView {
        match self {
            ArgToken::Text(s) => TokenView::Text(s@),
            ArgToken::InlineFile(k) => TokenView::InlineFile(*k as nat),
        }
    }
}

/// The flag that lets the renderer read local files.
pub open spec fn local_access_flag() -> Seq<char> {
    "--enable-local-file-access"@
}

/// The token that introduces a page of the given type.
pub open spec fn page_type_token(t: PageType) -> Seq<char> {
    match t {
        PageType::Cover => "cover"@,
        PageType::Content => "content"@,
        PageType::TableOfContents => "toc"@,
    }
}

/// The tokens of one option: its name, then its value if it has one.
pub open spec fn option_tokens(o: PdfOption) -> Seq<Seq<char>> {
    match o.value {
        Some(v) => seq![o.name@, v@],
        None => seq![o.name@],
    }
}

/// The tokens of a list of options, in order.
pub open spec fn options_tokens(os: Seq<PdfOption>) -> Seq<Seq<char>>
    decreases os.len(),
{
    if os.len() == 0 {
        seq![]
    } else {
        options_tokens(os.drop_last()) + option_tokens(os.last())
    }
}

/// Texts as tokens passed as they are.
pub open spec fn texts(ts: Seq<Seq<char>>) -> Seq<TokenView> {
    ts.map_values(|t: Seq<char>| TokenView::Text(t))
}

/// The tokens of one page, and the decoded content of its temporary file if it
/// has one, given the index that file would take.
pub open spec fn page_plan(p: Page, k: nat) -> Result<(Seq<TokenView>, Option<Seq<u8>>), ErrorView> {
    let head = seq![TokenView::Text(page_type_token(p.page_type))];
    let opts = texts(options_tokens(p.options@));
    let tail = if p.html_base64 is Some {
        seq![TokenView::Text(local_access_flag())]
    } else {
        seq![]
    };
    if p.page_type == PageType::TableOfContents {
        Ok((head, None))
    } else if p.html_url is Some {
        Ok((head + seq![TokenView::Text(p.html_url->Some_0@)] + opts + tail, None))
    } else if p.html_base64 is Some {
        match base64_decoding(p.html_base64->Some_0@) {
            Ok(bytes) => Ok((head + seq![TokenView::InlineFile(k)] + opts + tail, Some(bytes))),
            Err(m) => Err(ErrorView::Decode(m)),
        }
    } else {
        Err(ErrorView::MissingSource)
    }
}

/// The tokens of a list of pages and the contents of their temporary files, in
/// order; the first page that fails decides the error.
pub open spec fn pages_plan(ps: Seq<Page>) -> Result<(Seq<TokenView>, Seq<Seq<u8>>), ErrorView>
    decreases ps.len(),
{
    if ps.len() == 0 {
        Ok((seq![], seq![]))
    } else {
        match pages_plan(ps.drop_last()) {
            Err(e) => Err(e),
            Ok((ts, files)) => match page_plan(ps.last(), files.len()) {
                Err(e) => Err(e),
                Ok((pt, f)) => Ok(
                    (
                        ts + pt,
                        match f {
                            Some(b) => files.push(b),
                            None => files,
                        },
                    ),
                ),
            },
        }
    }
}

/// The plan of a whole request: global options first, then the pages.
pub open spec fn request_plan(req: PdfRequest) -> Result<(Seq<TokenView>, Seq<Seq<u8>>), ErrorView> {
    match pages_plan(req.pages@) {
        Ok((ts, files)) => Ok((texts(options_tokens(req.options@)) + ts, files)),
        Err(e) => Err(e),
    }
}

/// Every temporary-file token refers to one of `n` files.
pub open spec fn refs_within(ts: Seq<TokenView>, n: nat) -> bool {
    forall|i: int| 0 <= i < ts.len() ==> match #[trigger] ts[i] {
        TokenView::InlineFile(k) => k < n,
        TokenView::Text(_) => true,
    }
}

/// The renderer's arguments for a request, with the decoded content of each
/// page given inline; each such page becomes a temporary file, whose path
/// takes the place of its `InlineFile` token.
#[derive(Debug)]
pub struct ArgPlan {
    tokens: Vec<ArgToken>,
    inline_html: Vec<Vec<u8>>,
}

impl ArgPlan {
    #[verifier::type_invariant]
    spec fn refs_valid(self) -> bool {
        refs_within(self.tokens_view(), self.inline_html@.len())
    }

    /// The tokens, in order.
    pub closed spec fn tokens_view(self) -> Seq<TokenView> {
        token_views(self.tokens@)
    }

    /// The contents of the temporary files, in order of their indices.
    pub closed spec fn inline_view(self) -> Seq<Seq<u8>> {
        byte_views(self.inline_html@)
    }

    /// The tokens.
    pub fn tokens(&self) -> (r: &Vec<ArgToken>)
        ensures
            token_views(r@) == self.tokens_view(),
    {
        &self.tokens
    }

    /// The contents of the temporary files, in order of their indices.
    pub fn inline_html(&self) -> (r: &Vec<Vec<u8>>)
        ensures
            byte_views(r@) == self.inline_view(),
    {
        &self.inline_html
    }

    /// The renderer's arguments once the temporary files exist: each
    /// `InlineFile` token is replaced by the path of its file, and the output
    /// path comes last.
    pub fn resolve(&self, inline_paths: &Vec<String>, output_path: String) -> (r: Vec<String>)
        requires
            inline_paths@.len() == self.inline_view().len(),
        ensures
            string_views(r@) == resolve_tokens(self.tokens_view(), string_views(inline_paths@)).push(
                output_path@,
            ),
    {
        proof {
            use_type_invariant(self);
        }
        let ghost paths = string_views(inline_paths@);
        let mut out: Vec<String> = Vec::new();
        let mut i: usize = 0;
        while i < self.tokens.len()
            invariant
                i <= self.tokens@.len(),
                paths == string_views(inline_paths@),
                inline_paths@.len() == self.inline_html@.len(),
                refs_within(token_views(self.tokens@), self.inline_html@.len() as nat),
                string_views(out@) == resolve_tokens(token_views(self.tokens@).take(i as int), paths),
            decreases self.tokens@.len() - i,
        {
            let ghost before = out@;
            proof {
                assert(token_views(self.tokens@)[i as int] == self.tokens@[i as int]@);
            }
            let s = match &self.tokens[i] {
                ArgToken::Text(t) => t.clone(),
                ArgToken::InlineFile(k) => inline_paths[*k].clone(),
            };
            out.push(s);
            i = i + 1;
            proof {
                let tv = token_views(self.tokens@);
                assert(tv.take(i as int).drop_last() =~= tv.take(i - 1));
                assert(string_views(out@) =~= string_views(before).push(s@));
            }
        }
        proof {
            assert(token_views(self.tokens@).take(i as int) =~= token_views(self.tokens@));
        }
        let ghost before = out@;
        out.push(output_path);
        proof {
            assert(string_views(out@) =~= string_views(before).push(output_path@));
        }
        out
    }
}

/// The views of a sequence of tokens.
pub open spec fn token_views(s: Seq<ArgToken>) -> Seq<TokenView> {
    s.map_values(|t: ArgToken| t@)
}

/// The views of a sequence of byte vectors.
pub open spec fn byte_views(s: Seq<Vec<u8>>) -> Seq<Seq<u8>> {
    s.map_values(|b: Vec<u8>| b@)
}

/// The views of a sequence of strings.
pub open spec fn string_views(s: Seq<String>) -> Seq<Seq<char>> {
    s.map_values(|x: String| x@)
}

/// The texts that tokens stand for, given the paths of the temporary files.
pub open spec fn resolve_tokens(ts: Seq<TokenView>, paths: Seq<Seq<char>>) -> Seq<Seq<char>>
    decreases ts.len(),
{
    if ts.len() == 0 {
        seq![]
    } else {
        resolve_tokens(ts.drop_last(), paths).push(
            match ts.last() {
                TokenView::Text(s) => s,
                TokenView::InlineFile(k) => paths[k as int],
            },
        )
    }
}

/// Appends the tokens of `opts` to `tokens`.
fn push_options(tokens: &mut Vec<ArgToken>, opts: &Vec<PdfOption>)
    ensures
        token_views(final(tokens)@) == token_views(old(tokens)@) + texts(options_tokens(opts@)),
{
    let ghost start = token_views(tokens@);
    let mut j: usize = 0;
    while j < opts.len()
        invariant
            j <= opts@.len(),
            token_views(tokens@) == start + texts(options_tokens(opts@.take(j as int))),
        decreases opts@.len() - j,
    {
        let ghost before = token_views(tokens@);
        let o = &opts[j];
        tokens.push(ArgToken::Text(o.name.clone()));
        match &o.value {
            Some(v) => {
                tokens.push(ArgToken::Text(v.clone()));
            },
            None => {},
        }
        j = j + 1;
        proof {
            assert(opts@.take(j as int).drop_last() =~= opts@.take(j - 1));
            assert(token_views(tokens@) =~= before + texts(option_tokens(*o)));
            lemma_texts_concat(options_tokens(opts@.take(j - 1)), option_tokens(*o));
        }
    }
    proof {
        assert(opts@.take(j as int) =~= opts@);
    }
}

proof fn lemma_texts_concat(a: Seq<Seq<char>>, b: Seq<Seq<char>>)
    ensures
        texts(a + b) == texts(a) + texts(b),
{
    assert(texts(a + b) =~= texts(a) + texts(b));
}

/// Builds the renderer's arguments for a request (without the output path):
/// global options, then for each page its type, its source, its options and,
/// for inlined content, the local-file-access flag. Inlined content is decoded
/// here and handed back for temporary files.
pub fn build_args(req: &PdfRequest) -> (r: Result<ArgPlan, ConvertError>)
    ensures
        match r {
            Ok(plan) => request_plan(*req) == Ok::<(Seq<TokenView>, Seq<Seq<u8>>), ErrorView>(
                (plan.tokens_view(), plan.inline_view()),
            ),
            Err(e) => request_plan(*req) == Err::<(Seq<TokenView>, Seq<Seq<u8>>), ErrorView>(e@),
        },
{
    let mut tokens: Vec<ArgToken> = Vec::new();
    push_options(&mut tokens, &req.options);
    let ghost global = texts(options_tokens(req.options@));
    let mut inline_html: Vec<Vec<u8>> = Vec::new();
    proof {
        assert(token_views(tokens@) =~= global);
        assert(req.pages@.take(0) =~= Seq::<Page>::empty());
        assert(token_views(tokens@).skip(global.len() as int) =~= Seq::<TokenView>::empty());
        assert(byte_views(inline_html@) =~= Seq::<Seq<u8>>::empty());
        assert(token_views(tokens@).take(global.len() as int) =~= global);
    }
    let mut i: usize = 0;
    while i < req.pages.len()
        invariant
            i <= req.pages@.len(),
            global == texts(options_tokens(req.options@)),
            refs_within(token_views(tokens@), inline_html@.len() as nat),
            pages_plan(req.pages@.take(i as int)) == Ok::<(Seq<TokenView>, Seq<Seq<u8>>), ErrorView>(
                (token_views(tokens@).skip(global.len() as int), byte_views(inline_html@)),
            ),
            token_views(tokens@).take(global.len() as int) == global,
            global.len() <= tokens@.len(),
        decreases req.pages@.len() - i,
    {
        let ghost before = token_views(tokens@);
        let ghost k = inline_html@.len() as nat;
        let page = &req.pages[i];
        proof {
            assert(req.pages@.take(i + 1).drop_last() =~= req.pages@.take(i as int));
        }
        let ghost mut pt: Seq<TokenView> = seq![];
        tokens.push(ArgToken::Text(page_type_text(page.page_type)));
        proof {
            pt = pt.push(tokens@.last()@);
            assert(token_views(tokens@) =~= before + pt);
        }
        if page.page_type != PageType::TableOfContents {
            match &page.html_url {
                Some(url) => {
                    tokens.push(ArgToken::Text(url.clone()));
                    proof {
                        pt = pt.push(tokens@.last()@);
                        assert(token_views(tokens@) =~= before + pt);
                    }
                },
                None => match &page.html_base64 {
                    Some(encoded) => {
                        match decode_base64(encoded) {
                            Ok(html) => {
                                tokens.push(ArgToken::InlineFile(inline_html.len()));
                                inline_html.push(html);
                                proof {
                                    pt = pt.push(tokens@.last()@);
                                    assert(token_views(tokens@) =~= before + pt);
                                }
                            },
                            Err(m) => {
                                proof {
                                    lemma_error_persists(req.pages@, i + 1);
                                }
                                return Err(ConvertError::Decode(m));
                            },
                        }
                    },
                    None => {
                        proof {
                            lemma_error_persists(req.pages@, i + 1);
                        }
                        return Err(ConvertError::MissingSource);
                    },
                },
            }
            push_options(&mut tokens, &page.options);
            proof {
                let x = texts(options_tokens(page.options@));
                assert((before + pt) + x =~= before + (pt + x));
                pt = pt + x;
                assert(token_views(tokens@) == before + pt);
            }
            if page.html_base64.is_some() {
                let ghost b1 = tokens@;
                tokens.push(ArgToken::Text(String::from_str("--enable-local-file-access")));
                proof {
                    assert(token_views(tokens@) =~= token_views(b1).push(tokens@.last()@));
                    pt = pt.push(tokens@.last()@);
                    assert(token_views(tokens@) =~= before + pt);
                }
            }
        }
        i = i + 1;
        proof {
            let after = token_views(tokens@);
            assert(after =~= before + pt);
            let prev = before.skip(global.len() as int);
            assert(after.skip(global.len() as int) =~= prev + pt);
            assert(after.take(global.len() as int) =~= before.take(global.len() as int));
            assert(page_plan(*page, k) is Ok);
            assert(page_plan(*page, k)->Ok_0.0 =~= pt);
            assert(byte_views(inline_html@) =~= match page_plan(*page, k)->Ok_0.1 {
                Some(b) => pages_plan(req.pages@.take(i - 1))->Ok_0.1.push(b),
                None => pages_plan(req.pages@.take(i - 1))->Ok_0.1,
            });
            assert(refs_within(after, inline_html@.len() as nat)) by {
                assert forall|j: int| 0 <= j < after.len() implies match #[trigger] after[j] {
                    TokenView::InlineFile(x) => x < inline_html@.len(),
                    TokenView::Text(_) => true,
                } by {
                    if j < before.len() {
                        assert(after[j] == before[j]);
                    } else {
                        assert(after[j] == pt[j - before.len()]);
                    }
                }
            }
        }
    }
    proof {
        assert(req.pages@.take(i as int) =~= req.pages@);
        let tv = token_views(tokens@);
        assert(tv =~= tv.take(global.len() as int) + tv.skip(global.len() as int));
    }
    Ok(ArgPlan { tokens, inline_html })
}

/// Once a prefix of the pages fails, the whole list fails with the same error.
proof fn lemma_error_persists(ps: Seq<Page>, n: int)
    requires
        0 <= n <= ps.len(),
        pages_plan(ps.take(n)) is Err,
    ensures
        pages_plan(ps) == pages_plan(ps.take(n)),
    decreases ps.len() - n,
{
    if n < ps.len() {
        assert(ps.take(n + 1).drop_last() =~= ps.take(n));
        lemma_error_persists(ps, n + 1);
    } else {
        assert(ps.take(n) =~= ps);
    }
}

/// The token that introduces a page of the given type.
pub fn page_type_text(t: PageType) -> (r: String)
    ensures
        r@ == page_type_token(t),
{
    match t {
        PageType::Cover => String::from_str("cover"),
        PageType::Content => String::from_str("content"),
        PageType::TableOfContents => String::from_str("toc"),
    }
}



/// A table-of-contents page contributes its type token and nothing else: no
/// source, no options, no temporary file.
pub proof fn lemma_toc_page_emits_only_type(p: Page, k: nat)
    requires
        p.page_type == PageType::TableOfContents,
    ensures
        page_plan(p, k) == Ok::<(Seq<TokenView>, Option<Seq<u8>>), ErrorView>(
            (seq![TokenView::Text("toc"@)], None),
        ),
{
}

/// The tokens of a page with inlined content end with the local-file-access
/// flag whenever the page has tokens of its own.
pub proof fn lemma_inline_page_ends_with_flag(p: Page, k: nat)
    requires
        p.page_type != PageType::TableOfContents,
        p.html_base64 is Some,
        page_plan(p, k) is Ok,
    ensures
        page_plan(p, k)->Ok_0.0.last() == TokenView::Text(local_access_flag()),
{
}

/// A page given by URL alone contributes its type, its URL and its options,
/// and no local-file-access flag of its own.
pub proof fn lemma_url_page_has_no_flag(p: Page, k: nat)
    requires
        p.page_type != PageType::TableOfContents,
        p.html_url is Some,
        p.html_base64 is None,
    ensures
        page_plan(p, k) == Ok::<(Seq<TokenView>, Option<Seq<u8>>), ErrorView>(
            (
                seq![
                    TokenView::Text(page_type_token(p.page_type)),
                    TokenView::Text(p.html_url->Some_0@),
                ] + texts(options_tokens(p.options@)),
                None,
            ),
        ),
{
    let head = seq![TokenView::Text(page_type_token(p.page_type))];
    assert(head + seq![TokenView::Text(p.html_url->Some_0@)] + texts(options_tokens(p.options@))
        + Seq::<TokenView>::empty() =~= seq![
        TokenView::Text(page_type_token(p.page_type)),
        TokenView::Text(p.html_url->Some_0@),
    ] + texts(options_tokens(p.options@)));
}

/// A page other than a table of contents with neither a URL nor inlined
/// content makes the request fail with a missing-source error, once the pages
/// before it are valid. No content is handed out for temporary files then.
pub proof fn lemma_missing_source_fails(req: PdfRequest, i: int)
    requires
        0 <= i < req.pages@.len(),
        req.pages@[i].page_type != PageType::TableOfContents,
        req.pages@[i].html_url is None,
        req.pages@[i].html_base64 is None,
        pages_plan(req.pages@.take(i)) is Ok,
    ensures
        request_plan(req) == Err::<(Seq<TokenView>, Seq<Seq<u8>>), ErrorView>(
            ErrorView::MissingSource,
        ),
{
    assert(req.pages@.take(i + 1).drop_last() =~= req.pages@.take(i));
    lemma_error_persists(req.pages@, i + 1);
}

} // verus!
