//! A parsed path: the final segment is read as a structured name, and the
//! full original path is kept so that rendering substitutes only that
//! segment, leaving every directory component exactly as given.

use vstd::prelude::*;
use vstd::string::*;

use crate::structured_name::{
    last_segment_start, lemma_render_round_trip, parses_to, round_trip_safe, spec_normalise_name,
    spec_render_name, StructuredName, StructuredNameConfiguration,
};
use crate::text::{lemma_rfind_occurs, rfind_str, substr_string};

verus! {

/// The result of a parsed path.
#[derive(Debug)]
pub struct StructuredPath<'c> {
    pub original_path: String,
    pub name: StructuredName<'c>,
}

/// The text a parsed path renders to: the directory part of the original
/// path, up to and including its last `/`, then the rendered name.
pub open spec fn spec_render_path(p: StructuredPath) -> Seq<char> {
    p.original_path@.take(last_segment_start(p.original_path@)) + spec_render_name(p.name)
}

impl<'c> StructuredPath<'c> {
    /// The held name can be rendered.
    pub open spec fn wf(&self) -> bool {
        self.name.wf()
    }

    /// Parse a path: the final segment becomes a structured name; the full
    /// path is retained unchanged.
    pub fn parse_from(path: &str, configuration: &'c StructuredNameConfiguration) -> (p:
        StructuredPath<'c>)
        ensures
            p.original_path@ == path@,
            parses_to(path@, configuration, p.name),
            p.wf(),
    {
        StructuredPath {
            name: StructuredName::parse_from(path, configuration),
            original_path: String::from_str(path),
        }
    }

    /// Normalisation is when we want to use the main format (listed first) to
    /// keep everything tidy, instead of the one previously used.
    pub fn normalise(&mut self)
        ensures
            final(self).original_path == old(self).original_path,
            final(self).name == spec_normalise_name(old(self).name),
    {
        self.name.normalise();
    }

    /// The text this path renders to: the re-rendered name substituted as the
    /// final segment of the original path.
    pub fn render(&self) -> (r: String)
        requires
            self.wf(),
        ensures
            r@ == spec_render_path(*self),
    {
        proof {
            reveal_strlit("/");
            assert("/"@ =~= seq!['/']);
        }
        let path_len: usize = self.original_path.as_str().unicode_len();
        let base_start: usize = match rfind_str(self.original_path.as_str(), "/") {
            Some(i) => {
                proof {
                    lemma_rfind_occurs(self.original_path@, "/"@);
                }
                i + 1
            },
            None => 0,
        };
        let mut out: String = substr_string(self.original_path.as_str(), 0, base_start);
        let rendered = self.name.render();
        out.append(rendered.as_str());
        out
    }
}

/// Law: rendering a freshly parsed path reproduces it exactly, on the inputs
/// where parsing loses nothing (see `round_trip_safe`). The directory part is
/// preserved verbatim in every case.
pub proof fn lemma_path_round_trip<'c>(
    path: Seq<char>,
    cfg: &'c StructuredNameConfiguration,
    p: StructuredPath<'c>,
)
    requires
        p.original_path@ == path,
        parses_to(path, cfg, p.name),
        round_trip_safe(path, *cfg),
    ensures
        spec_render_path(p) == path,
{
    lemma_render_round_trip(path, cfg, p.name);
    lemma_rfind_occurs(path, seq!['/']);
    assert(spec_render_path(p) =~= path);
}

} // verus!
