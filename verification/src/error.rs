//! The errors of the loader that hands the runtimes' metadata over.

use vstd::prelude::*;
use vstd::string::StringExecFns;

verus! {

/// The text that the standard library's `Debug` formatting gives for a
/// string: the string between double quotes, with the characters that need
/// it escaped.
pub uninterp spec fn debug_text(s: Seq<char>) -> Seq<char>;

/// `format!("{:?}", s)` for a string `s`: the standard library's `Debug`
/// formatting of a string, which depends on the characters of `s` alone.
/// Nothing else is claimed of the result.
#[verifier::external_body]
fn format_debug(s: &String) -> (r: String)
    ensures
        r@ == debug_text(s@),
{
    format!("{:?}", s)
}

/// What can go wrong while the metadata of a runtime is fetched and read.
#[derive(Debug)]
pub enum WasmLoaderError {
    /// The address of the node could not be parsed.
    EndpointParsing(String),
    /// The reference to a block of the chain could not be parsed.
    OnchainBlockParsing(String),
    /// The metadata is in a version that is not supported.
    NotSupported(String),
    /// The transfer over HTTP failed.
    HttpClient(),
    /// The transfer over a web socket failed.
    WsClient(),
}

impl Clone for WasmLoaderError {
    fn clone(&self) -> (r: Self)
        ensures
            r == *self,
    {
        match self {
            WasmLoaderError::EndpointParsing(s) => WasmLoaderError::EndpointParsing(s.clone()),
            WasmLoaderError::OnchainBlockParsing(s) => WasmLoaderError::OnchainBlockParsing(
                s.clone(),
            ),
            WasmLoaderError::NotSupported(s) => WasmLoaderError::NotSupported(s.clone()),
            WasmLoaderError::HttpClient() => WasmLoaderError::HttpClient(),
            WasmLoaderError::WsClient() => WasmLoaderError::WsClient(),
        }
    }
}

impl WasmLoaderError {
    /// The detail that the error carries, if it carries one.
    pub open spec fn spec_detail(&self) -> Option<Seq<char>> {
        match self {
            WasmLoaderError::EndpointParsing(s) => Some(s@),
            WasmLoaderError::OnchainBlockParsing(s) => Some(s@),
            WasmLoaderError::NotSupported(s) => Some(s@),
            WasmLoaderError::HttpClient() => None,
            WasmLoaderError::WsClient() => None,
        }
    }

    /// The message of the error, given the text that stands for its detail.
    pub open spec fn spec_message(&self, detail: Seq<char>) -> Seq<char> {
        match self {
            WasmLoaderError::EndpointParsing(_) => "Parsing issue: "@ + detail,
            WasmLoaderError::OnchainBlockParsing(_) => "Parsing issue: "@ + detail,
            WasmLoaderError::NotSupported(_) => "Unsupported: "@ + detail,
            WasmLoaderError::HttpClient() => "HttpClient Error"@,
            WasmLoaderError::WsClient() => "WsClient Error"@,
        }
    }

    /// The detail that the error carries, if it carries one.
    pub fn detail(&self) -> (r: Option<&String>)
        ensures
            match r {
                Some(s) => self.spec_detail() == Some(s@),
                None => self.spec_detail() is None,
            },
    {
        match self {
            WasmLoaderError::EndpointParsing(s) => Some(s),
            WasmLoaderError::OnchainBlockParsing(s) => Some(s),
            WasmLoaderError::NotSupported(s) => Some(s),
            WasmLoaderError::HttpClient() => None,
            WasmLoaderError::WsClient() => None,
        }
    }

    /// The message of the error, given the text to show for its detail. The
    /// text is not used for an error that carries no detail.
    pub fn message_with(&self, detail: &str) -> (r: String)
        ensures
            r@ == self.spec_message(detail@),
    {
        match self {
            WasmLoaderError::EndpointParsing(_) | WasmLoaderError::OnchainBlockParsing(_) => {
                String::from_str("Parsing issue: ").concat(detail)
            },
            WasmLoaderError::NotSupported(_) => String::from_str("Unsupported: ").concat(detail),
            WasmLoaderError::HttpClient() => String::from_str("HttpClient Error"),
            WasmLoaderError::WsClient() => String::from_str("WsClient Error"),
        }
    }

    /// The message of the error. A detail is shown as `Debug` formatting
    /// shows a string.
    pub fn to_string(&self) -> (r: String)
        ensures
            r@ == self.spec_message(
                match self.spec_detail() {
                    Some(detail) => debug_text(detail),
                    None => Seq::empty(),
                },
            ),
    {
        match self.detail() {
            Some(detail) => {
                let shown = format_debug(detail);
                self.message_with(shown.as_str())
            },
            None => self.message_with(""),
        }
    }
}

} // verus!
