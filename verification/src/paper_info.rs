//! The paper summary service: the request for a paper's project information and how
//! its answer becomes the project information that the platform shows.

use vstd::prelude::*;
use crate::dto::util_dto::{
    ExtractProjectInfoRequest, ExtractProjectInfoResponse, NerdNuggetsInfo, StrengthsLimitations,
};
use crate::text::append_str;

verus! {

/// The answer of the paper summary service.
#[derive(Debug, Clone)]
pub struct ExternalApiResponse {
    pub status: String,
    pub data: ExternalNerdNuggetsInfo,
}

/// The project information that the paper summary service extracts from a paper.
#[derive(Debug, Clone)]
pub struct ExternalNerdNuggetsInfo {
    pub title: String,
    pub description: String,
    pub research_objectives: Vec<String>,
    pub methodology: String,
    pub expected_outcomes: String,
    pub strengths_potential_limitations: ExternalStrengthsLimitations,
    pub commercial_applications: String,
    pub societal_benefit: String,
    pub risk_assessment: String,
    pub tags: Vec<String>,
}

/// The strengths and limitations that the service finds in a paper.
#[derive(Debug, Clone)]
pub struct ExternalStrengthsLimitations {
    pub strengths: Vec<String>,
    pub limitations: Vec<String>,
}

/// The bytes of a character in UTF-8.
pub open spec fn utf8_bytes(c: char) -> Seq<int> {
    let v = c as int;
    if v < 0x80 {
        seq![v]
    } else if v < 0x800 {
        seq![0xC0 + v / 64, 0x80 + v % 64]
    } else if v < 0x10000 {
        seq![0xE0 + v / 4096, 0x80 + (v / 64) % 64, 0x80 + v % 64]
    } else {
        seq![0xF0 + v / 262144, 0x80 + (v / 4096) % 64, 0x80 + (v / 64) % 64, 0x80 + v % 64]
    }
}

/// The upper-case hexadecimal digit of a number from 0 to 15.
pub open spec fn hex_digit(d: int) -> char {
    if d < 10 {
        ('0' as int + d) as char
    } else {
        ('A' as int + d - 10) as char
    }
}

/// Whether a byte is left as it is: an ASCII letter or digit, or `-`, `_`, `.`, `~`.
pub open spec fn is_unreserved_byte(b: int) -> bool {
    ('0' as int <= b <= '9' as int) || ('A' as int <= b <= 'Z' as int) || ('a' as int <= b <= 'z' as int)
        || b == '-' as int || b == '_' as int || b == '.' as int || b == '~' as int
}

/// A byte as the query writes it: itself where it is unreserved, else `%` and its two
/// upper-case hexadecimal digits.
pub open spec fn encoded_byte(b: int) -> Seq<char> {
    if is_unreserved_byte(b) {
        seq![b as char]
    } else {
        seq!['%', hex_digit(b / 16), hex_digit(b % 16)]
    }
}

/// The bytes of a sequence of bytes, each as the query writes it.
pub open spec fn encoded_bytes(bytes: Seq<int>) -> Seq<char>
    decreases bytes.len(),
{
    if bytes.len() == 0 {
        seq![]
    } else {
        encoded_bytes(bytes.drop_last()) + encoded_byte(bytes.last())
    }
}

/// The text with every byte of its UTF-8 form percent-encoded except ASCII letters,
/// digits and `-`, `_`, `.`, `~`.
pub open spec fn url_encoded(text: Seq<char>) -> Seq<char>
    decreases text.len(),
{
    if text.len() == 0 {
        seq![]
    } else {
        url_encoded(text.drop_last()) + encoded_bytes(utf8_bytes(text.last()))
    }
}

/// Percent-encodes a text for a URL query (`urlencoding::encode`, which writes every
/// byte of the text's UTF-8 form except ASCII letters, digits and `-`, `_`, `.`, `~` as
/// `%` and two upper-case hexadecimal digits, and keeps the others).
#[verifier::external_body]
fn encode_query_value(text: &str) -> (r: String)
    ensures
        r@ == url_encoded(text@),
{
    urlencoding::encode(text).into_owned()
}

/// The address at which the service extracts the project information of the paper
/// stored at `s3_paper`.
pub fn paper_info_url(request: &ExtractProjectInfoRequest) -> (url: String)
    ensures
        url@ == "https://www.nerdbunny.com/api/v1/papers/integrations/extract_nerdnuggets_info/?s3_paper="@
            + url_encoded(request.s3_paper@),
{
    let mut url = String::from_str(
        "https://www.nerdbunny.com/api/v1/papers/integrations/extract_nerdnuggets_info/?s3_paper=",
    );
    let encoded = encode_query_value(request.s3_paper.as_str());
    append_str(&mut url, encoded.as_str());
    url
}

/// The service's answer as the platform's project information: every field kept as it
/// came.
pub fn into_project_info(external: ExternalApiResponse) -> (r: ExtractProjectInfoResponse)
    ensures
        r.status == external.status,
        r.data.title == external.data.title,
        r.data.description == external.data.description,
        r.data.research_objectives == external.data.research_objectives,
        r.data.methodology == external.data.methodology,
        r.data.expected_outcomes == external.data.expected_outcomes,
        r.data.strengths_potential_limitations.strengths
            == external.data.strengths_potential_limitations.strengths,
        r.data.strengths_potential_limitations.limitations
            == external.data.strengths_potential_limitations.limitations,
        r.data.commercial_applications == external.data.commercial_applications,
        r.data.societal_benefit == external.data.societal_benefit,
        r.data.risk_assessment == external.data.risk_assessment,
        r.data.tags == external.data.tags,
{
    let data = external.data;
    ExtractProjectInfoResponse {
        status: external.status,
        data: NerdNuggetsInfo {
            title: data.title,
            description: data.description,
            research_objectives: data.research_objectives,
            methodology: data.methodology,
            expected_outcomes: data.expected_outcomes,
            strengths_potential_limitations: StrengthsLimitations {
                strengths: data.strengths_potential_limitations.strengths,
                limitations: data.strengths_potential_limitations.limitations,
            },
            commercial_applications: data.commercial_applications,
            societal_benefit: data.societal_benefit,
            risk_assessment: data.risk_assessment,
            tags: data.tags,
        },
    }
}

} // verus!
