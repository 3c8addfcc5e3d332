//! Filtering of warning messages before they are shown in the chat widget.
use vstd::prelude::*;

use crate::string_set::StringSet;
use crate::text::{str_strip_prefix, str_strip_suffix};

verus! {

/// What precedes the model slug in the fallback-model-metadata warning.
pub const FALLBACK_MODEL_METADATA_WARNING_PREFIX: &'static str = "Model metadata for `";

/// What follows the model slug in the fallback-model-metadata warning.
pub const FALLBACK_MODEL_METADATA_WARNING_SUFFIX: &'static str =
    "` not found. Defaulting to fallback metadata; this can degrade performance and cause issues.";

/// The slug named by a fallback-model-metadata warning: what lies between the
/// warning's fixed prefix and suffix, when `message` has that shape.
pub open spec fn fallback_slug(message: Seq<char>) -> Option<Seq<char>> {
    let prefix = FALLBACK_MODEL_METADATA_WARNING_PREFIX@;
    let suffix = FALLBACK_MODEL_METADATA_WARNING_SUFFIX@;
    if prefix.is_prefix_of(message) && suffix.is_suffix_of(message.skip(prefix.len() as int)) {
        let rest = message.skip(prefix.len() as int);
        Some(rest.take(rest.len() - suffix.len()))
    } else {
        None
    }
}

/// The slug of a fallback-model-metadata warning, or `None` for any other message.
pub fn fallback_model_metadata_warning_slug(message: &str) -> (r: Option<&str>)
    ensures
        match r {
            Some(slug) => fallback_slug(message@) == Some(slug@),
            None => fallback_slug(message@) is None,
        },
{
    match str_strip_prefix(message, FALLBACK_MODEL_METADATA_WARNING_PREFIX) {
        Some(rest) => str_strip_suffix(rest, FALLBACK_MODEL_METADATA_WARNING_SUFFIX),
        None => None,
    }
}

/// Which warnings the chat widget shows. Fallback-model-metadata warnings are
/// never shown: the models are fetched live and never appear in the bundled
/// catalog, so the warning would fire on every turn. Their slugs are recorded.
pub struct WarningDisplayState {
    fallback_model_metadata_slugs: StringSet,
}

impl View for WarningDisplayState {
    type V = Set<Seq<char>>;

    /// The slugs of the suppressed fallback-model-metadata warnings.
    closed spec fn view(&self) -> Set<Seq<char>> {
        self.fallback_model_metadata_slugs@
    }
}

impl WarningDisplayState {
    /// A state that has suppressed nothing yet.
    pub fn new() -> (r: WarningDisplayState)
        ensures
            r@ == Set::<Seq<char>>::empty(),
    {
        WarningDisplayState { fallback_model_metadata_slugs: StringSet::new() }
    }

    /// Whether `message` should be shown. A fallback-model-metadata warning is
    /// not shown, and its slug is recorded; every other message is shown.
    pub fn should_display(&mut self, message: &str) -> (r: bool)
        ensures
            r == fallback_slug(message@) is None,
            match fallback_slug(message@) {
                Some(slug) => final(self)@ == old(self)@.insert(slug),
                None => final(self)@ == old(self)@,
            },
    {
        if let Some(slug) = fallback_model_metadata_warning_slug(message) {
            let _ = self.fallback_model_metadata_slugs.insert(slug.to_string());
            return false;
        }
        true
    }

    /// Whether a fallback-model-metadata warning for `slug` has been suppressed.
    pub fn has_suppressed(&self, slug: &str) -> (r: bool)
        ensures
            r == self@.contains(slug@),
    {
        self.fallback_model_metadata_slugs.contains(slug)
    }
}

impl Default for WarningDisplayState {
    fn default() -> (r: WarningDisplayState)
        ensures
            r@ == Set::<Seq<char>>::empty(),
    {
        WarningDisplayState::new()
    }
}

/// The fallback-model-metadata warning for any slug names exactly that slug.
pub proof fn lemma_warning_names_its_slug(slug: Seq<char>)
    ensures
        fallback_slug(
            FALLBACK_MODEL_METADATA_WARNING_PREFIX@ + slug + FALLBACK_MODEL_METADATA_WARNING_SUFFIX@,
        ) == Some(slug),
{
    let prefix = FALLBACK_MODEL_METADATA_WARNING_PREFIX@;
    let suffix = FALLBACK_MODEL_METADATA_WARNING_SUFFIX@;
    let m = prefix + slug + suffix;
    assert(m.take(prefix.len() as int) =~= prefix);
    let rest = m.skip(prefix.len() as int);
    assert(rest =~= slug + suffix);
    assert(rest.skip(slug.len() as int) =~= suffix);
    assert(suffix.is_suffix_of(rest));
    assert(rest.take(rest.len() - suffix.len()) =~= slug);
}

} // verus!
