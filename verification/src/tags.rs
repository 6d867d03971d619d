//! The tag suffix of a name: a configurable set of separators cuts the tail of
//! a stem into an ordered list of (separator, tag) pairs, kept exactly as they
//! stood in the input so that rendering reproduces it.

use vstd::prelude::*;
use vstd::string::*;

use crate::text::{
    blank, find_char_from, find_char_in, is_blank_str, lemma_find_char_from_bounds,
    lemma_rfind_occurs, occurs_at, rfind, rfind_str, substr_string,
};

verus! {

/// The parsed tag region: either a list of tags, or a bare separator that had
/// nothing but white space after it.
#[derive(Debug)]
pub enum Tags {
    Tags(Vec<Tag>),
    SeparatorOnly(String),
}

/// One tag together with the exact separator text that introduced it.
#[derive(Debug)]
pub struct Tag {
    pub separator: String,
    pub tag: String,
}

/// The (separator, tag) character sequences of a list of tags.
pub open spec fn tags_list_view(v: Seq<Tag>) -> Seq<(Seq<char>, Seq<char>)> {
    v.map_values(|t: Tag| (t.separator@, t.tag@))
}

/// The text of a list of (separator, tag) pairs: each separator immediately
/// followed by its tag, in order.
pub open spec fn render_tag_pairs(ps: Seq<(Seq<char>, Seq<char>)>) -> Seq<char>
    decreases ps.len(),
{
    if ps.len() == 0 {
        Seq::empty()
    } else {
        ps[0].0 + ps[0].1 + render_tag_pairs(ps.drop_first())
    }
}

/// The text a parsed tag region renders to.
pub open spec fn spec_render_tags(t: Tags) -> Seq<char> {
    match t {
        Tags::Tags(v) => render_tag_pairs(tags_list_view(v@)),
        Tags::SeparatorOnly(s) => s@,
    }
}

/// How a tag region is cut into tags: the text up to the first character of
/// `betweens` is a tag introduced by `sep`; the rest is cut again, introduced
/// by that very character.
pub open spec fn split_tags(sep: Seq<char>, rem: Seq<char>, betweens: Seq<char>) -> Seq<
    (Seq<char>, Seq<char>),
>
    decreases rem.len(),
    via split_tags_decreases
{
    match find_char_from(rem, betweens, 0) {
        None => seq![(sep, rem)],
        Some(i) => seq![(sep, rem.take(i))] + split_tags(seq![rem[i]], rem.skip(i + 1), betweens),
    }
}

#[via_fn]
proof fn split_tags_decreases(sep: Seq<char>, rem: Seq<char>, betweens: Seq<char>) {
    lemma_find_char_from_bounds(rem, betweens, 0);
}

/// The separator chosen for a text: the first of `seps`, from `i` on, that
/// occurs anywhere in the text, together with its rightmost occurrence.
pub open spec fn select_separator(text: Seq<char>, seps: Seq<Seq<char>>, i: int) -> Option<
    (int, int),
>
    decreases seps.len() - i,
{
    if i < 0 || i >= seps.len() {
        None
    } else {
        match rfind(text, seps[i]) {
            Some(cut) => Some((i, cut)),
            None => select_separator(text, seps, i + 1),
        }
    }
}

/// What a selected separator means: its index is in range and the cut is the
/// rightmost occurrence of that separator.
proof fn lemma_select_separator_facts(text: Seq<char>, seps: Seq<Seq<char>>, i: int)
    ensures
        match select_separator(text, seps, i) {
            Some((si, cut)) => {
                &&& i <= si < seps.len()
                &&& rfind(text, seps[si]) == Some(cut)
                &&& occurs_at(text, seps[si], cut)
            },
            None => true,
        },
    decreases seps.len() - i,
{
    if 0 <= i < seps.len() {
        match rfind(text, seps[i]) {
            Some(cut) => {
                lemma_rfind_occurs(text, seps[i]);
            },
            None => {
                lemma_select_separator_facts(text, seps, i + 1);
            },
        }
    }
}

/// Splitting a tag region and rendering it back reproduces the region:
/// `sep` followed by the whole remainder.
proof fn lemma_split_tags_render(sep: Seq<char>, rem: Seq<char>, betweens: Seq<char>)
    ensures
        render_tag_pairs(split_tags(sep, rem, betweens)) == sep + rem,
    decreases rem.len(),
{
    match find_char_from(rem, betweens, 0) {
        None => {
            let ps = seq![(sep, rem)];
            assert(ps.drop_first() =~= Seq::<(Seq<char>, Seq<char>)>::empty());
            assert(render_tag_pairs(Seq::<(Seq<char>, Seq<char>)>::empty())
                == Seq::<char>::empty());
            assert(render_tag_pairs(ps) =~= sep + rem);
        },
        Some(i) => {
            lemma_find_char_from_bounds(rem, betweens, 0);
            lemma_split_tags_render(seq![rem[i]], rem.skip(i + 1), betweens);
            let tail = split_tags(seq![rem[i]], rem.skip(i + 1), betweens);
            let ps = seq![(sep, rem.take(i))] + tail;
            assert(ps.drop_first() =~= tail);
            assert(render_tag_pairs(ps) == sep + rem.take(i) + (seq![rem[i]] + rem.skip(i + 1)));
            assert(sep + rem.take(i) + (seq![rem[i]] + rem.skip(i + 1)) =~= sep + rem);
        },
    }
}

/// Rendering a list of pairs with one more pair appends that pair's text.
proof fn lemma_render_pairs_push(ps: Seq<(Seq<char>, Seq<char>)>, p: (Seq<char>, Seq<char>))
    ensures
        render_tag_pairs(ps.push(p)) == render_tag_pairs(ps) + p.0 + p.1,
    decreases ps.len(),
{
    if ps.len() == 0 {
        assert(ps.push(p).drop_first() =~= Seq::<(Seq<char>, Seq<char>)>::empty());
        assert(render_tag_pairs(Seq::<(Seq<char>, Seq<char>)>::empty())
            == Seq::<char>::empty());
        assert(render_tag_pairs(ps.push(p)) =~= render_tag_pairs(ps) + p.0 + p.1);
    } else {
        lemma_render_pairs_push(ps.drop_first(), p);
        assert(ps.push(p).drop_first() =~= ps.drop_first().push(p));
        assert(render_tag_pairs(ps.push(p).drop_first()) == render_tag_pairs(ps.drop_first())
            + p.0 + p.1);
        assert(render_tag_pairs(ps.push(p)) == ps[0].0 + ps[0].1 + render_tag_pairs(
            ps.push(p).drop_first(),
        ));
        assert(render_tag_pairs(ps.push(p)) =~= render_tag_pairs(ps) + p.0 + p.1);
    }
}

/// The configured tag separators: an ordered list of main separators (the
/// first is the default) and the characters that may stand between two tags.
#[derive(Debug)]
pub struct TagConfiguration {
    /// First separator is the default one.
    pub tag_main_separators: Vec<String>,
    pub tag_between_separators: Vec<char>,
}

impl TagConfiguration {
    /// The main separators as character sequences, in configuration order.
    pub open spec fn seps(&self) -> Seq<Seq<char>> {
        self.tag_main_separators@.map_values(|s: String| s@)
    }

    /// The between-tag characters.
    pub open spec fn betweens(&self) -> Seq<char> {
        self.tag_between_separators@
    }
}

/// Law: the first configured separator that occurs anywhere in the text is
/// selected, at its rightmost occurrence — even if a separator listed later
/// has an occurrence further to the right.
pub proof fn lemma_separator_selection_order(text: Seq<char>, seps: Seq<Seq<char>>, i: int)
    requires
        0 <= i < seps.len(),
        rfind(text, seps[i]) is Some,
        forall|j: int| 0 <= j < i ==> rfind(text, seps[j]) is None,
    ensures
        select_separator(text, seps, 0) == Some((i, rfind(text, seps[i])->0)),
{
    lemma_select_separator_from(text, seps, 0, i);
}

proof fn lemma_select_separator_from(text: Seq<char>, seps: Seq<Seq<char>>, k: int, i: int)
    requires
        0 <= k <= i < seps.len(),
        rfind(text, seps[i]) is Some,
        forall|j: int| k <= j < i ==> rfind(text, seps[j]) is None,
    ensures
        select_separator(text, seps, k) == Some((i, rfind(text, seps[i])->0)),
    decreases i - k,
{
    if k < i {
        lemma_select_separator_from(text, seps, k + 1, i);
    }
}

/// The exact relation between a text and the outcome of parsing its tag
/// region: `r` is the parsed region and `left` the text that remains.
pub open spec fn tags_parse_outcome(
    text: Seq<char>,
    seps: Seq<Seq<char>>,
    betweens: Seq<char>,
    r: Option<Tags>,
    left: Seq<char>,
) -> bool {
    match select_separator(text, seps, 0) {
        None => r is None && left == text,
        Some((si, cut)) => {
            let sep = seps[si];
            let rem = text.skip(cut + sep.len());
            &&& left == text.take(cut)
            &&& if blank(rem) {
                r matches Some(t) && t matches Tags::SeparatorOnly(s) && s@ == sep
            } else {
                r matches Some(t) && t matches Tags::Tags(v) && tags_list_view(v@) == split_tags(
                    sep,
                    rem,
                    betweens,
                )
            }
        },
    }
}

/// Rendering the parsed tag region after the left-over text reproduces the
/// input, as long as a separator-only marker did not swallow white space: a
/// blank (but non-empty) tail after the matched separator is the one input
/// that parsing drops.
pub proof fn lemma_tags_parse_round_trip(
    text: Seq<char>,
    seps: Seq<Seq<char>>,
    betweens: Seq<char>,
    r: Option<Tags>,
    left: Seq<char>,
)
    requires
        tags_parse_outcome(text, seps, betweens, r, left),
        match select_separator(text, seps, 0) {
            None => true,
            Some((si, cut)) => blank(text.skip(cut + seps[si].len())) ==> text.skip(
                cut + seps[si].len(),
            ).len() == 0,
        },
    ensures
        left + (match r {
            Some(t) => spec_render_tags(t),
            None => Seq::<char>::empty(),
        }) == text,
{
    match select_separator(text, seps, 0) {
        None => {
            assert(left + Seq::<char>::empty() =~= text);
        },
        Some((si, cut)) => {
            lemma_select_separator_facts(text, seps, 0);
            let sep = seps[si];
            let rem = text.skip(cut + sep.len());
            if blank(rem) {
                assert(left + spec_render_tags(r->0) =~= text);
            } else {
                lemma_split_tags_render(sep, rem, betweens);
                assert(left + spec_render_tags(r->0) =~= text);
            }
        },
    }
}

/// Law: a trailing configured separator with nothing after it parses to the
/// separator-only marker, which renders back to exactly that trailing text.
pub proof fn lemma_separator_only_round_trip(
    text: Seq<char>,
    seps: Seq<Seq<char>>,
    betweens: Seq<char>,
    r: Option<Tags>,
    left: Seq<char>,
)
    requires
        tags_parse_outcome(text, seps, betweens, r, left),
        select_separator(text, seps, 0) matches Some(sc) && sc.1 + seps[sc.0].len()
            == text.len(),
    ensures
        r matches Some(t) && t matches Tags::SeparatorOnly(s) && left + s@ == text,
{
    lemma_select_separator_facts(text, seps, 0);
    let sc = select_separator(text, seps, 0)->0;
    let rem = text.skip(sc.1 + seps[sc.0].len());
    assert(rem.len() == 0);
    assert(blank(rem));
    assert(left + seps[sc.0] =~= text);
}

impl Tags {
    /// The text this tag region renders to: each separator immediately
    /// followed by its tag, or the bare separator alone.
    pub fn render(&self) -> (r: String)
        ensures
            r@ == spec_render_tags(*self),
    {
        match self {
            Tags::Tags(tags) => {
                let mut out = String::new();
                let mut i: usize = 0;
                while i < tags.len()
                    invariant
                        0 <= i <= tags@.len(),
                        out@ == render_tag_pairs(tags_list_view(tags@).take(i as int)),
                    decreases tags@.len() - i,
                {
                    out.append(tags[i].separator.as_str());
                    out.append(tags[i].tag.as_str());
                    proof {
                        let v = tags_list_view(tags@);
                        assert(v.take(i as int + 1) =~= v.take(i as int).push(v[i as int]));
                        lemma_render_pairs_push(v.take(i as int), v[i as int]);
                    }
                    i += 1;
                }
                proof {
                    assert(tags_list_view(tags@).take(tags@.len() as int) =~= tags_list_view(
                        tags@,
                    ));
                }
                out
            },
            Tags::SeparatorOnly(sep) => String::from_str(sep.as_str()),
        }
    }
}

impl TagConfiguration {
    /// Cut the tag region off the end of `filename`: the first configured main
    /// separator that occurs anywhere is selected, at its rightmost
    /// occurrence; everything from there on becomes the parsed region.
    pub fn parse(&self, filename: &mut String) -> (r: Option<Tags>)
        ensures
            tags_parse_outcome(old(filename)@, self.seps(), self.betweens(), r, final(filename)@),
    {
        let ghost text: Seq<char> = filename@;
        let mut si: usize = 0;
        while si < self.tag_main_separators.len()
            invariant
                text == old(filename)@,
                filename@ == text,
                0 <= si <= self.tag_main_separators@.len(),
                select_separator(text, self.seps(), 0) == select_separator(
                    text,
                    self.seps(),
                    si as int,
                ),
            decreases self.tag_main_separators@.len() - si,
        {
            let separator: &String = &self.tag_main_separators[si];
            assert(self.seps()[si as int] == separator@);
            match rfind_str(filename.as_str(), separator.as_str()) {
                Some(separator_index) => {
                    proof {
                        lemma_rfind_occurs(text, separator@);
                    }
                    let separator_len: usize = separator.as_str().unicode_len();
                    let text_len: usize = filename.as_str().unicode_len();
                    let left: String = substr_string(filename.as_str(), 0, separator_index);
                    let separator_text: String = substr_string(
                        filename.as_str(),
                        separator_index,
                        separator_index + separator_len,
                    );
                    let remainder: String = substr_string(
                        filename.as_str(),
                        separator_index + separator_len,
                        text_len,
                    );
                    proof {
                        assert(rfind(text, self.seps()[si as int]) == Some(
                            separator_index as int,
                        ));
                        assert(select_separator(text, self.seps(), si as int) == Some(
                            (si as int, separator_index as int),
                        ));
                        assert(select_separator(text, self.seps(), 0) == Some(
                            (si as int, separator_index as int),
                        ));
                        assert(left@ =~= text.take(separator_index as int));
                        assert(separator_text@ == separator@);
                        assert(remainder@ =~= text.skip(separator_index + separator@.len()));
                    }
                    *filename = left;
                    if is_blank_str(remainder.as_str()) {
                        return Some(Tags::SeparatorOnly(separator_text));
                    }
                    let tags = self.split_between(separator_text, remainder);
                    return Some(Tags::Tags(tags));
                },
                None => {
                    si += 1;
                },
            }
        }
        None
    }

    /// Cut a tag region into tags at the configured between-characters: the
    /// text before the first such character is a tag introduced by
    /// `separator`, and each later cut is introduced by the character found.
    fn split_between(&self, separator: String, remainder: String) -> (v: Vec<Tag>)
        ensures
            tags_list_view(v@) == split_tags(separator@, remainder@, self.betweens()),
    {
        let ghost orig_sep: Seq<char> = separator@;
        let ghost orig_rem: Seq<char> = remainder@;
        let mut tags: Vec<Tag> = Vec::new();
        let mut cur_sep: String = separator;
        let mut cur_rem: String = remainder;
        proof {
            assert(tags_list_view(tags@) =~= Seq::<(Seq<char>, Seq<char>)>::empty());
            assert(tags_list_view(tags@) + split_tags(cur_sep@, cur_rem@, self.betweens())
                =~= split_tags(orig_sep, orig_rem, self.betweens()));
        }
        loop
            invariant
                orig_sep == separator@,
                orig_rem == remainder@,
                split_tags(orig_sep, orig_rem, self.betweens()) == tags_list_view(tags@)
                    + split_tags(cur_sep@, cur_rem@, self.betweens()),
            decreases cur_rem@.len(),
        {
            let ghost prev_sep: Seq<char> = cur_sep@;
            let ghost prev_rem: Seq<char> = cur_rem@;
            let ghost prev_view = tags_list_view(tags@);
            match find_char_in(cur_rem.as_str(), &self.tag_between_separators) {
                Some(i) => {
                    let cur_len: usize = cur_rem.as_str().unicode_len();
                    let tag_text: String = substr_string(cur_rem.as_str(), 0, i);
                    let next_sep: String = substr_string(cur_rem.as_str(), i, i + 1);
                    let next_rem: String = substr_string(cur_rem.as_str(), i + 1, cur_len);
                    tags.push(Tag { separator: cur_sep, tag: tag_text });
                    cur_sep = next_sep;
                    cur_rem = next_rem;
                    proof {
                        assert(cur_sep@ =~= seq![prev_rem[i as int]]);
                        assert(cur_rem@ =~= prev_rem.skip(i as int + 1));
                        assert(tags_list_view(tags@) =~= prev_view.push(
                            (prev_sep, prev_rem.take(i as int)),
                        ));
                        assert(tags_list_view(tags@) + split_tags(
                            cur_sep@,
                            cur_rem@,
                            self.betweens(),
                        ) =~= prev_view + split_tags(prev_sep, prev_rem, self.betweens()));
                    }
                },
                None => {
                    tags.push(Tag { separator: cur_sep, tag: cur_rem });
                    proof {
                        assert(split_tags(prev_sep, prev_rem, self.betweens()) =~= seq![
                            (prev_sep, prev_rem),
                        ]);
                        assert(tags_list_view(tags@) =~= prev_view.push((prev_sep, prev_rem)));
                        assert(tags_list_view(tags@) =~= split_tags(
                            orig_sep,
                            orig_rem,
                            self.betweens(),
                        ));
                    }
                    return tags;
                },
            }
        }
    }
}

} // verus!
