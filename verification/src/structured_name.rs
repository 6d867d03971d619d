//! A parsed file or directory name: an optional timestamp prefix, a free-form
//! filename, an optional tag suffix and an optional extension, split off the
//! final segment of a path and rendered back in fixed order.

use vstd::prelude::*;
use vstd::string::*;

use crate::tags::{
    lemma_tags_parse_round_trip, select_separator, spec_render_tags, tags_parse_outcome,
    TagConfiguration, Tags,
};
use crate::text::{blank, lemma_rfind_occurs, rfind, rfind_str, substr_string};
use crate::timestamp::configuration::TimestampConfiguration;
use crate::timestamp::{
    spec_render_timestamp, spec_timestamp_parse, timestamp_parse_outcome, Timestamp,
    TimestampValue,
};
use crate::timestamp::chrono_api::{date_format, date_time_format};

verus! {

/// Serialisation/deserialisation configuration for file/directory names.
#[derive(Debug)]
pub struct StructuredNameConfiguration {
    pub timestamp_configuration: TimestampConfiguration,
    pub tag_configuration: TagConfiguration,
}

/// The result of a parsed name of a file/directory.
#[derive(Debug)]
pub struct StructuredName<'c> {
    pub configuration: &'c StructuredNameConfiguration,
    pub timestamp: Option<Timestamp<'c>>,
    pub filename: Option<String>,
    pub tags: Option<Tags>,
    pub extension: Option<String>,
}

/// The number of characters of `path` up to and including its last `/`; zero
/// when no `/` occurs. The text from here on is the path's final segment.
pub open spec fn last_segment_start(path: Seq<char>) -> int {
    match rfind(path, seq!['/']) {
        Some(i) => i + 1,
        None => 0,
    }
}

/// The final segment of `path`: the text after its last `/`.
pub open spec fn spec_base_name(path: Seq<char>) -> Seq<char> {
    path.skip(last_segment_start(path))
}

/// Where the extension of a base name starts: the position of the last dot,
/// if a dot stands anywhere after the first character. A name that is empty,
/// holds no dot, or starts with its only dot has no extension.
pub open spec fn extension_cut(base: Seq<char>) -> Option<int> {
    match rfind(base, seq!['.']) {
        Some(i) => if i >= 1 {
            Some(i)
        } else {
            None
        },
        None => None,
    }
}

/// The stem of a base name: the text before the extension dot, or the whole
/// name; an empty base name has none.
pub open spec fn spec_stem(base: Seq<char>) -> Option<Seq<char>> {
    if base.len() == 0 {
        None
    } else {
        match extension_cut(base) {
            Some(i) => Some(base.take(i)),
            None => Some(base),
        }
    }
}

/// The extension of a base name: the text after the last dot, if any.
pub open spec fn spec_extension(base: Seq<char>) -> Option<Seq<char>> {
    if base.len() == 0 {
        None
    } else {
        match extension_cut(base) {
            Some(i) => Some(base.skip(i + 1)),
            None => None,
        }
    }
}

/// The text left of the stem once the timestamp prefix is consumed.
pub open spec fn spec_after_timestamp(cfg: TimestampConfiguration, stem: Seq<char>) -> Seq<char> {
    match spec_timestamp_parse(cfg, stem) {
        Some((dt, i, v, rest)) => rest,
        None => stem,
    }
}

/// The text left once the tag region is cut off.
pub open spec fn spec_after_tags(text: Seq<char>, tc: TagConfiguration) -> Seq<char> {
    match select_separator(text, tc.seps(), 0) {
        Some((si, cut)) => text.take(cut),
        None => text,
    }
}

/// The exact relation between a path and the structured name parsed from it.
pub open spec fn parses_to<'c>(
    path: Seq<char>,
    cfg: &'c StructuredNameConfiguration,
    n: StructuredName<'c>,
) -> bool {
    let base = spec_base_name(path);
    &&& n.configuration == cfg
    &&& match (n.extension, spec_extension(base)) {
        (Some(e), Some(se)) => e@ == se,
        (None, None) => true,
        _ => false,
    }
    &&& match spec_stem(base) {
        None => n.timestamp is None && n.tags is None && n.filename is None,
        Some(stem) => {
            let rest = spec_after_timestamp(cfg.timestamp_configuration, stem);
            let left = spec_after_tags(rest, cfg.tag_configuration);
            &&& timestamp_parse_outcome(cfg.timestamp_configuration, stem, n.timestamp, rest)
            &&& tags_parse_outcome(
                rest,
                cfg.tag_configuration.seps(),
                cfg.tag_configuration.betweens(),
                n.tags,
                left,
            )
            &&& match n.filename {
                Some(f) => f@ == left && left.len() > 0,
                None => left.len() == 0,
            }
        },
    }
}

/// The text a parsed name renders to: timestamp, filename, tags, then a dot
/// and the extension, each only if present, with nothing inserted between.
pub open spec fn spec_render_name(n: StructuredName) -> Seq<char> {
    (match n.timestamp {
        Some(ts) => spec_render_timestamp(ts),
        None => Seq::empty(),
    }) + (match n.filename {
        Some(f) => f@,
        None => Seq::empty(),
    }) + (match n.tags {
        Some(t) => spec_render_tags(t),
        None => Seq::empty(),
    }) + (match n.extension {
        Some(e) => seq!['.'] + e@,
        None => Seq::empty(),
    })
}

/// A name whose timestamp, if any, can be rendered: its stored format index
/// points into its format group.
pub open spec fn name_wf(n: StructuredName) -> bool {
    match n.timestamp {
        Some(ts) => ts.wf(),
        None => true,
    }
}

impl<'c> StructuredName<'c> {
    /// The timestamp, if any, points at a format of its group.
    pub open spec fn wf(&self) -> bool {
        name_wf(*self)
    }

    /// Parse the final segment of `path`: split off the extension at the last
    /// dot, consume a timestamp prefix of the stem, then cut the tag region
    /// off its end; what remains is the filename.
    pub fn parse_from(path: &str, configuration: &'c StructuredNameConfiguration) -> (n:
        StructuredName<'c>)
        ensures
            parses_to(path@, configuration, n),
            n.wf(),
    {
        proof {
            reveal_strlit("/");
            reveal_strlit(".");
            assert("/"@ =~= seq!['/']);
            assert("."@ =~= seq!['.']);
        }
        let path_len: usize = path.unicode_len();
        let base_start: usize = match rfind_str(path, "/") {
            Some(i) => {
                proof {
                    lemma_rfind_occurs(path@, "/"@);
                }
                i + 1
            },
            None => 0,
        };
        let base: String = substr_string(path, base_start, path_len);
        proof {
            assert(base@ =~= spec_base_name(path@));
        }
        let base_len: usize = base.as_str().unicode_len();
        let mut stem_opt: Option<String> = None;
        let mut extension: Option<String> = None;
        if base_len > 0 {
            match rfind_str(base.as_str(), ".") {
                Some(i) => {
                    proof {
                        lemma_rfind_occurs(base@, "."@);
                    }
                    if i >= 1 {
                        stem_opt = Some(substr_string(base.as_str(), 0, i));
                        extension = Some(substr_string(base.as_str(), i + 1, base_len));
                    } else {
                        stem_opt = Some(String::from_str(base.as_str()));
                    }
                },
                None => {
                    stem_opt = Some(String::from_str(base.as_str()));
                },
            }
        }
        match stem_opt {
            None => StructuredName {
                configuration,
                timestamp: None,
                filename: None,
                tags: None,
                extension,
            },
            Some(stem) => {
                let mut working: String = stem;
                let timestamp = configuration.timestamp_configuration.parse(&mut working);
                let tags = configuration.tag_configuration.parse(&mut working);
                let filename: Option<String> = if working.as_str().is_empty() {
                    None
                } else {
                    Some(working)
                };
                StructuredName { configuration, timestamp, filename, tags, extension }
            },
        }
    }

    /// Normalisation is when we want to use the main format (listed first) to
    /// keep everything tidy, instead of the one previously used.
    pub fn normalise(&mut self)
        ensures
            *final(self) == spec_normalise_name(*old(self)),
    {
        match &mut self.timestamp {
            Some(timestamp) => timestamp.normalise(),
            None => {},
        }
    }

    /// The text this name renders to.
    pub fn render(&self) -> (r: String)
        requires
            self.wf(),
        ensures
            r@ == spec_render_name(*self),
    {
        proof {
            reveal_strlit(".");
            assert("."@ =~= seq!['.']);
        }
        let mut out = String::new();
        match &self.timestamp {
            Some(timestamp) => {
                let piece = timestamp.render();
                out.append(piece.as_str());
            },
            None => {},
        }
        match &self.filename {
            Some(filename) => out.append(filename.as_str()),
            None => {},
        }
        match &self.tags {
            Some(tags) => {
                let piece = tags.render();
                out.append(piece.as_str());
            },
            None => {},
        }
        match &self.extension {
            Some(extension) => {
                out.append(".");
                out.append(extension.as_str());
            },
            None => {},
        }
        proof {
            assert(out@ =~= spec_render_name(*self));
        }
        out
    }
}

/// A timestamp with its format index forced back to the canonical pattern.
pub open spec fn spec_normalise_timestamp<'c>(ts: Timestamp<'c>) -> Timestamp<'c> {
    Timestamp { configuration: ts.configuration, format_index: 0, value: ts.value }
}

/// A name with its timestamp normalised; every other field is untouched.
pub open spec fn spec_normalise_name<'c>(n: StructuredName<'c>) -> StructuredName<'c> {
    StructuredName {
        configuration: n.configuration,
        timestamp: match n.timestamp {
            Some(ts) => Some(spec_normalise_timestamp(ts)),
            None => None,
        },
        filename: n.filename,
        tags: n.tags,
        extension: n.extension,
    }
}

/// Law: normalising is idempotent — a second normalisation changes nothing,
/// so it renders identically to the first.
pub proof fn lemma_normalise_idempotent(n: StructuredName)
    ensures
        spec_normalise_name(spec_normalise_name(n)) == spec_normalise_name(n),
        spec_render_name(spec_normalise_name(spec_normalise_name(n))) == spec_render_name(
            spec_normalise_name(n),
        ),
{
}

/// The timestamp parsed from `text`, if any, renders back to exactly the
/// prefix it consumed. This holds of chrono's strftime patterns whenever the
/// matched text is already in the pattern's own canonical spelling.
pub open spec fn timestamp_render_agrees(cfg: TimestampConfiguration, text: Seq<char>) -> bool {
    match spec_timestamp_parse(cfg, text) {
        None => true,
        Some((dt, i, v, rest)) => {
            let consumed = text.take(text.len() - rest.len());
            let fmt = if dt {
                cfg.date_time.formats_view()[i]
            } else {
                cfg.date.formats_view()[i]
            };
            match v {
                TimestampValue::Date(d) => date_format(d, fmt) == Some(consumed),
                TimestampValue::DateTime(t) => date_time_format(t, fmt) == Some(consumed),
            }
        },
    }
}

/// No separator-only marker swallows white space on this input: when the
/// chosen separator's tail is blank, it is empty.
pub open spec fn tags_keep_whitespace(text: Seq<char>, tc: TagConfiguration) -> bool {
    match select_separator(text, tc.seps(), 0) {
        None => true,
        Some((si, cut)) => blank(text.skip(cut + tc.seps()[si].len())) ==> text.skip(
            cut + tc.seps()[si].len(),
        ).len() == 0,
    }
}

/// The inputs on which parsing loses nothing: the timestamp format renders
/// the text it consumed, and no blank tag tail is dropped.
pub open spec fn round_trip_safe(path: Seq<char>, cfg: StructuredNameConfiguration) -> bool {
    match spec_stem(spec_base_name(path)) {
        None => true,
        Some(stem) => {
            &&& timestamp_render_agrees(cfg.timestamp_configuration, stem)
            &&& tags_keep_whitespace(
                spec_after_timestamp(cfg.timestamp_configuration, stem),
                cfg.tag_configuration,
            )
        },
    }
}

/// Law: rendering a parsed name reproduces the path's final segment exactly.
/// The two inputs excluded by `round_trip_safe` are a timestamp whose text
/// the matched pattern spells differently (say `2022-1-7` under `%Y-%m-%d`),
/// and a blank, non-empty tail behind the last separator.
pub proof fn lemma_render_round_trip<'c>(
    path: Seq<char>,
    cfg: &'c StructuredNameConfiguration,
    n: StructuredName<'c>,
)
    requires
        parses_to(path, cfg, n),
        round_trip_safe(path, *cfg),
    ensures
        spec_render_name(n) == spec_base_name(path),
{
    let base = spec_base_name(path);
    match spec_stem(base) {
        None => {
            assert(base.len() == 0);
            assert(spec_render_name(n) =~= base);
        },
        Some(stem) => {
            let rest = spec_after_timestamp(cfg.timestamp_configuration, stem);
            let left = spec_after_tags(rest, cfg.tag_configuration);
            // The timestamp piece renders to the prefix of the stem it consumed.
            let ts_piece = match n.timestamp {
                Some(ts) => spec_render_timestamp(ts),
                None => Seq::<char>::empty(),
            };
            match spec_timestamp_parse(cfg.timestamp_configuration, stem) {
                None => {
                    assert(ts_piece + rest =~= stem);
                },
                Some((dt, i, v, spec_rest)) => {
                    assert(ts_piece == stem.take(stem.len() - rest.len()));
                    assert(ts_piece + rest =~= stem);
                },
            }
            // The tag region renders to what follows the left-over text.
            lemma_tags_parse_round_trip(
                rest,
                cfg.tag_configuration.seps(),
                cfg.tag_configuration.betweens(),
                n.tags,
                left,
            );
            let tags_piece = match n.tags {
                Some(t) => spec_render_tags(t),
                None => Seq::<char>::empty(),
            };
            assert(left + tags_piece == rest);
            // The stem and the extension reassemble the base name.
            match extension_cut(base) {
                Some(c) => {
                    lemma_rfind_occurs(base, seq!['.']);
                    assert(base.subrange(c, c + 1)[0] == base[c]);
                    assert(base[c] == '.');
                    assert(stem + (seq!['.'] + base.skip(c + 1)) =~= base);
                },
                None => {
                    assert(stem == base);
                },
            }
            assert(spec_render_name(n) =~= base);
        },
    }
}

} // verus!
