use vstd::prelude::*;

verus! {

/// Which minification strategy a middleware instance runs on eligible bodies.
#[derive(Clone, Copy, Debug, PartialEq, Eq, Structural)]
pub enum Backend {
    /// General-purpose transform: never fails, malformed input degrades gracefully.
    Standard,
    /// Single-pass in-place transform: rejects malformed or unsupported input.
    Onepass,
}

impl Default for Backend {
    /// The general-purpose backend is preferred when nothing is selected.
    fn default() -> (r: Self)
        ensures
            r == Backend::Standard,
    {
        Backend::Standard
    }
}

/// Options for the general-purpose backend.
#[derive(Clone, Copy, Debug, PartialEq, Eq, Structural)]
pub struct StandardConfig {
    /// Do not omit closing tags when possible.
    pub keep_closing_tags: bool,
    /// Keep all comments.
    pub keep_comments: bool,
    /// Do not omit `<html>` and `<head>` opening tags when they have no attributes.
    pub keep_html_and_head_opening_tags: bool,
}

/// The option set the general-purpose backend starts from: everything off.
pub open spec fn default_standard_config() -> StandardConfig {
    StandardConfig {
        keep_closing_tags: false,
        keep_comments: false,
        keep_html_and_head_opening_tags: false,
    }
}

impl Default for StandardConfig {
    fn default() -> (r: Self)
        ensures
            r == default_standard_config(),
    {
        StandardConfig {
            keep_closing_tags: false,
            keep_comments: false,
            keep_html_and_head_opening_tags: false,
        }
    }
}

/// Options for the single-pass backend.
#[derive(Clone, Copy, Debug, PartialEq, Eq, Structural)]
pub struct OnepassConfig {
    /// Minify JavaScript in `<script>` tags.
    pub minify_js: bool,
    /// Minify CSS in `<style>` tags.
    pub minify_css: bool,
}

/// The option set the single-pass backend starts from: everything off.
pub open spec fn default_onepass_config() -> OnepassConfig {
    OnepassConfig { minify_js: false, minify_css: false }
}

impl Default for OnepassConfig {
    fn default() -> (r: Self)
        ensures
            r == default_onepass_config(),
    {
        OnepassConfig { minify_js: false, minify_css: false }
    }
}

/// Immutable configuration held by the layer factory; copied into every
/// middleware instance it produces and never mutated afterwards.
#[derive(Clone, Copy, Debug, PartialEq, Eq, Structural)]
pub struct MinifyHtmlLayer {
    pub backend: Backend,
    pub standard_config: StandardConfig,
    pub onepass_config: OnepassConfig,
}

impl MinifyHtmlLayer {
    pub fn builder() -> (r: MinifyHtmlLayerBuilder)
        ensures
            r.backend == Backend::Standard,
            r.standard_config == default_standard_config(),
            r.onepass_config == default_onepass_config(),
    {
        MinifyHtmlLayerBuilder::default()
    }

    /// A layer that runs the general-purpose backend with the given options.
    pub fn new(config: StandardConfig) -> (r: Self)
        ensures
            r.backend == Backend::Standard,
            r.standard_config == config,
            r.onepass_config == default_onepass_config(),
    {
        Self::builder().standard_config(config).build()
    }

    /// Binds the configuration to an inner handler, producing one middleware
    /// instance. Pure composition: no I/O and no failure mode.
    pub fn layer<S>(&self, inner: S) -> (r: MinifyHtml<S>)
        ensures
            r.inner == inner,
            r.backend == self.backend,
            r.standard_config == self.standard_config,
            r.onepass_config == self.onepass_config,
    {
        MinifyHtml {
            inner,
            backend: self.backend,
            standard_config: self.standard_config,
            onepass_config: self.onepass_config,
        }
    }
}

/// Builder for [`MinifyHtmlLayer`].
#[derive(Clone, Copy, Debug, PartialEq, Eq, Structural)]
pub struct MinifyHtmlLayerBuilder {
    pub backend: Backend,
    pub standard_config: StandardConfig,
    pub onepass_config: OnepassConfig,
}

impl Default for MinifyHtmlLayerBuilder {
    fn default() -> (r: Self)
        ensures
            r.backend == Backend::Standard,
            r.standard_config == default_standard_config(),
            r.onepass_config == default_onepass_config(),
    {
        MinifyHtmlLayerBuilder {
            backend: Backend::default(),
            standard_config: StandardConfig::default(),
            onepass_config: OnepassConfig::default(),
        }
    }
}

impl MinifyHtmlLayerBuilder {
    pub fn backend(self, backend: Backend) -> (r: Self)
        ensures
            r.backend == backend,
            r.standard_config == self.standard_config,
            r.onepass_config == self.onepass_config,
    {
        Self { backend, ..self }
    }

    pub fn standard_config(self, config: StandardConfig) -> (r: Self)
        ensures
            r.backend == self.backend,
            r.standard_config == config,
            r.onepass_config == self.onepass_config,
    {
        Self { standard_config: config, ..self }
    }

    pub fn onepass_config(self, config: OnepassConfig) -> (r: Self)
        ensures
            r.backend == self.backend,
            r.standard_config == self.standard_config,
            r.onepass_config == config,
    {
        Self { onepass_config: config, ..self }
    }

    pub fn build(self) -> (r: MinifyHtmlLayer)
        ensures
            r.backend == self.backend,
            r.standard_config == self.standard_config,
            r.onepass_config == self.onepass_config,
    {
        MinifyHtmlLayer {
            backend: self.backend,
            standard_config: self.standard_config,
            onepass_config: self.onepass_config,
        }
    }
}

/// The middleware instance: an inner handler plus the minification
/// configuration applied to its eligible responses.
#[derive(Clone)]
pub struct MinifyHtml<S> {
    pub inner: S,
    pub backend: Backend,
    pub standard_config: StandardConfig,
    pub onepass_config: OnepassConfig,
}

} // verus!
