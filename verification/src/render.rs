//! Rendering a template with the configuration values of a context.
use vstd::prelude::*;
use vstd::string::{StrSliceExecFns, StringSliceAdditionalSpecFns};
use vstd::utf8::encode_utf8;
use crate::error::SuperfuseError;
use crate::filesystem::{read_slice, slice_of};

verus! {

/// What handlebars makes of a template and of configuration values given as
/// JSON text: the rendered text, or the description of what went wrong
/// (values that are not JSON, or a template that does not render).
pub uninterp spec fn handlebars_text(template: Seq<char>, values_json: Seq<char>) -> Result<
    Seq<char>,
    Seq<char>,
>;

/// Reads `values_json` with `serde_json::from_str` into a
/// `serde_json::Value`, then renders `template` with it by
/// `handlebars::Handlebars::new().render_template`, a fresh registry with the
/// default settings. Either error comes back as its description. Both steps
/// depend on their arguments alone, so the result is named
/// `handlebars_text`.
#[verifier::external_body]
fn render_with_handlebars(template: &str, values_json: &str) -> (r: Result<String, String>)
    ensures
        match handlebars_text(template@, values_json@) {
            Ok(text) => r matches Ok(s) && s@ == text,
            Err(cause) => r matches Err(s) && s@ == cause,
        },
{
    let values: serde_json::Value = match serde_json::from_str(values_json) {
        Ok(v) => v,
        Err(e) => return Err(e.to_string()),
    };
    match handlebars::Handlebars::new().render_template(template, &values) {
        Ok(text) => Ok(text),
        Err(e) => Err(e.to_string()),
    }
}

/// Renders `template` with the values of `values_json`: the UTF-8 bytes of
/// the rendered text, or a `Template` error with the description.
pub fn render(template: &str, values_json: &str) -> (r: Result<Vec<u8>, SuperfuseError>)
    ensures
        match handlebars_text(template@, values_json@) {
            Ok(text) => r matches Ok(bytes) && bytes@ == encode_utf8(text),
            Err(cause) => r matches Err(SuperfuseError::Template(s)) && s@ == cause,
        },
{
    match render_with_handlebars(template, values_json) {
        Ok(text) => Ok(text.as_str().as_bytes_vec()),
        Err(cause) => Err(SuperfuseError::Template(cause)),
    }
}

/// A read of a rendered file: the bytes `offset .. offset + size` of the
/// rendered template, cut at its end, or the `Template` error.
pub fn read_rendered(template: &str, values_json: &str, offset: u64, size: u32) -> (r: Result<
    Vec<u8>,
    SuperfuseError,
>)
    ensures
        match handlebars_text(template@, values_json@) {
            Ok(text) => r matches Ok(bytes) && bytes@ == slice_of(
                encode_utf8(text),
                offset as int,
                size as int,
            ),
            Err(cause) => r matches Err(SuperfuseError::Template(s)) && s@ == cause,
        },
{
    match render(template, values_json) {
        Ok(bytes) => Ok(read_slice(&bytes, offset, size)),
        Err(e) => Err(e),
    }
}

} // verus!
