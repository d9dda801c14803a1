use vstd::prelude::*;

verus! {

/// What base64 0.13's `decode` (standard alphabet, padded) gives for a text:
/// the decoded bytes, or the description of the `DecodeError`.
pub uninterp spec fn base64_decoding(s: Seq<char>) -> Result<Seq<u8>, Seq<char>>;

/// What rusoto's `Region::from_str` gives for a text: the canonical name of the
/// region it parses to, or the description of the `ParseRegionError`.
pub uninterp spec fn region_parsing(s: Seq<char>) -> Result<Seq<char>, Seq<char>>;

/// What `String::from_utf8_lossy` gives for a byte sequence.
pub uninterp spec fn utf8_lossy(b: Seq<u8>) -> Seq<char>;

/// A result of two texts as a result of two character sequences.
pub open spec fn text_result(r: Result<String, String>) -> Result<Seq<char>, Seq<char>> {
    match r {
        Ok(s) => Ok(s@),
        Err(e) => Err(e@),
    }
}

/// Relies on `base64::decode` (0.13): decodes with the standard configuration
/// and returns the bytes or a `DecodeError`, whose `Display` text is kept. The
/// length computation it makes cannot overflow for the length of a `String`,
/// which never exceeds `isize::MAX` bytes.
#[verifier::external_body]
pub(crate) fn decode_base64(s: &String) -> (r: Result<Vec<u8>, String>)
    ensures
        match r {
            Ok(b) => base64_decoding(s@) == Ok::<Seq<u8>, Seq<char>>(b@),
            Err(m) => base64_decoding(s@) == Err::<Seq<u8>, Seq<char>>(m@),
        },
{
    base64::decode(s).map_err(|e| e.to_string())
}

/// Relies on rusoto's `Region::from_str`: a known region name (in any case) is
/// parsed to a region, which is kept as its canonical `Region::name()`;
/// anything else is a `ParseRegionError`, whose `Display` text is kept.
#[verifier::external_body]
pub(crate) fn parse_region(s: &String) -> (r: Result<String, String>)
    ensures
        text_result(r) == region_parsing(s@),
{
    match <rusoto_core::Region as std::str::FromStr>::from_str(s.as_str()) {
        Ok(region) => Ok(region.name().to_string()),
        Err(e) => Err(e.to_string()),
    }
}

/// Relies on `String::from_utf8_lossy`: the bytes as text, with invalid
/// sequences replaced.
#[verifier::external_body]
pub(crate) fn lossy_text(b: &Vec<u8>) -> (r: String)
    ensures
        r@ == utf8_lossy(b@),
{
    String::from_utf8_lossy(b.as_slice()).into_owned()
}

} // verus!
