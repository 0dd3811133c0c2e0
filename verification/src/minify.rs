use vstd::prelude::*;
use crate::config::Backend;
use crate::config::MinifyHtml;
use crate::config::OnepassConfig;
use crate::config::StandardConfig;

verus! {

/// What the general-purpose backend makes of the given bytes under the given
/// options: a pure function of its arguments, left unspecified here because
/// the minification ruleset is the backend's own.
pub uninterp spec fn standard_minified(
    input: Seq<u8>,
    keep_closing_tags: bool,
    keep_comments: bool,
    keep_html_and_head_opening_tags: bool,
) -> Seq<u8>;

/// What the single-pass backend makes of the given bytes under the given
/// options: the transformed bytes, or nothing when it rejects the input.
/// A pure function of its arguments.
pub uninterp spec fn onepass_minified(
    input: Seq<u8>,
    minify_js: bool,
    minify_css: bool,
) -> Option<Seq<u8>>;

/// Relies on `minify_html::minify`: a pure bytes-in bytes-out transform that
/// never fails, whose result depends only on the source bytes and the
/// configuration handed to it.
#[verifier::external_body]
fn standard_minify(input: &Vec<u8>, cfg: &StandardConfig) -> (r: Vec<u8>)
    ensures
        r@ == standard_minified(
            input@,
            cfg.keep_closing_tags,
            cfg.keep_comments,
            cfg.keep_html_and_head_opening_tags,
        ),
{
    let mut full = minify_html::Cfg::default();
    full.keep_closing_tags = cfg.keep_closing_tags;
    full.keep_comments = cfg.keep_comments;
    full.keep_html_and_head_opening_tags = cfg.keep_html_and_head_opening_tags;
    minify_html::minify(input.as_slice(), &full)
}

/// Relies on `minify_html_onepass::copy`: minifies a copy of the source bytes
/// in place and truncates it, or returns an error on malformed or unsupported
/// input; the outcome depends only on the source bytes and the configuration.
#[verifier::external_body]
fn onepass_minify(input: &Vec<u8>, cfg: &OnepassConfig) -> (r: Option<Vec<u8>>)
    ensures
        (r matches Option::Some(v) ==> onepass_minified(input@, cfg.minify_js, cfg.minify_css)
            == Option::Some(v@)),
        (r is None ==> onepass_minified(input@, cfg.minify_js, cfg.minify_css) is None),
{
    let full = minify_html_onepass::Cfg { minify_js: cfg.minify_js, minify_css: cfg.minify_css };
    match minify_html_onepass::copy(input.as_slice(), &full) {
        Ok(v) => Some(v),
        Err(_) => None,
    }
}

/// The outcome the configured backend owes for the given bytes: the
/// general-purpose backend always produces bytes, the single-pass backend
/// may reject the input.
pub open spec fn minify_outcome(
    backend: Backend,
    standard_config: StandardConfig,
    onepass_config: OnepassConfig,
    input: Seq<u8>,
) -> Option<Seq<u8>> {
    match backend {
        Backend::Standard => Option::Some(
            standard_minified(
                input,
                standard_config.keep_closing_tags,
                standard_config.keep_comments,
                standard_config.keep_html_and_head_opening_tags,
            ),
        ),
        Backend::Onepass => onepass_minified(
            input,
            onepass_config.minify_js,
            onepass_config.minify_css,
        ),
    }
}

impl<S> MinifyHtml<S> {
    /// Runs the selected backend over collected body bytes. Exactly the
    /// backend the instance was built with decides; the other is never tried,
    /// and a single-pass rejection is surfaced, never retried.
    pub fn minify_body(&self, input: &Vec<u8>) -> (r: Option<Vec<u8>>)
        ensures
            (r matches Option::Some(v) ==> minify_outcome(
                self.backend,
                self.standard_config,
                self.onepass_config,
                input@,
            ) == Option::Some(v@)),
            (r is None <==> minify_outcome(
                self.backend,
                self.standard_config,
                self.onepass_config,
                input@,
            ) is None),
    {
        match self.backend {
            Backend::Standard => Option::Some(standard_minify(input, &self.standard_config)),
            Backend::Onepass => onepass_minify(input, &self.onepass_config),
        }
    }
}

} // verus!
