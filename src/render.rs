use vstd::prelude::*;
use crate::error::{error_text, ConvertError};
use crate::outside::{lossy_text, utf8_lossy};
use crate::request::PdfResponse;

verus! {

/// What follows the renderer's exit.
#[derive(Clone, Debug)]
pub enum RenderOutcome {
    /// The renderer succeeded: its output is uploaded next.
    Upload,
    /// The renderer failed: this response is returned and nothing is uploaded.
    Finished(PdfResponse),
}

/// The messages that report a failed render: the renderer's standard output,
/// then its standard error, each only if it is not empty.
pub open spec fn failure_messages(stdout: Seq<u8>, stderr: Seq<u8>) -> Seq<Seq<char>> {
    (if stdout.len() > 0 {
        seq![utf8_lossy(stdout)]
    } else {
        seq![]
    }) + (if stderr.len() > 0 {
        seq![utf8_lossy(stderr)]
    } else {
        seq![]
    })
}

/// Decides what follows the renderer's exit from whether it succeeded and
/// what it printed.
pub fn after_render(success: bool, stdout: &Vec<u8>, stderr: &Vec<u8>) -> (r: RenderOutcome)
    ensures
        success ==> r is Upload,
        !success ==> r is Finished && !r->Finished_0.success
            && r->Finished_0.messages_view() == failure_messages(stdout@, stderr@),
{
    if success {
        return RenderOutcome::Upload;
    }
    let mut messages: Vec<String> = Vec::new();
    if stdout.len() > 0 {
        messages.push(lossy_text(stdout));
    }
    if stderr.len() > 0 {
        messages.push(lossy_text(stderr));
    }
    let r = PdfResponse { success: false, messages };
    proof {
        assert(r.messages_view() =~= failure_messages(stdout@, stderr@));
    }
    RenderOutcome::Finished(r)
}

/// The response once the rendered document is stored.
pub fn uploaded_response() -> (r: PdfResponse)
    ensures
        r.success,
        r.messages@.len() == 0,
{
    PdfResponse { success: true, messages: Vec::new() }
}

/// The response that reports an error: not successful, with the error's text
/// as its one message.
pub fn error_response(e: &ConvertError) -> (r: PdfResponse)
    ensures
        !r.success,
        r.messages_view() == seq![error_text(e@)],
{
    let mut messages: Vec<String> = Vec::new();
    messages.push(e.message());
    let r = PdfResponse { success: false, messages };
    proof {
        assert(r.messages_view() =~= seq![error_text(e@)]);
    }
    r
}

/// The response to a request whatever happened: the pipeline's response, or
/// the report of the error that stopped it.
pub fn respond(result: Result<PdfResponse, ConvertError>) -> (r: PdfResponse)
    ensures
        match result {
            Ok(resp) => r == resp,
            Err(e) => !r.success && r.messages_view() == seq![error_text(e@)],
        },
{
    match result {
        Ok(resp) => resp,
        Err(e) => error_response(&e),
    }
}

} // verus!
