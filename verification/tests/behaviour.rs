use tagger::configuration::{TimestampConfiguration, TimestampVariantConfiguration};
use tagger::{
    StructuredName, StructuredNameConfiguration, StructuredPath, TagConfiguration, Tags,
    TimestampValue,
};

fn base_configuration(
    date: Vec<&str>,
    date_time: Vec<&str>,
    seps: Vec<&str>,
    betweens: Vec<char>,
) -> StructuredNameConfiguration {
    StructuredNameConfiguration {
        timestamp_configuration: TimestampConfiguration {
            date: TimestampVariantConfiguration {
                formats: date.into_iter().map(|s| s.to_string()).collect(),
            },
            date_time: TimestampVariantConfiguration {
                formats: date_time.into_iter().map(|s| s.to_string()).collect(),
            },
        },
        tag_configuration: TagConfiguration {
            tag_main_separators: seps.into_iter().map(|s| s.to_string()).collect(),
            tag_between_separators: betweens,
        },
    }
}

#[test]
fn date_time_group_wins_over_date_group() {
    // The same prefix matches the date pattern as well; the date-time group
    // must win even so.
    let config = base_configuration(vec!["%Y-%m-%d"], vec!["%Y-%m-%d %Hh%M"], vec![], vec![]);
    let name = StructuredName::parse_from("2022-10-27 15h35 notes.txt", &config);
    match name.timestamp {
        Some(ts) => {
            assert!(matches!(ts.value, TimestampValue::DateTime(_)));
            assert_eq!(ts.format_index, 0);
        }
        None => panic!("expected a timestamp"),
    }
    assert_eq!(name.filename, Some(" notes".to_string()));
}

#[test]
fn first_date_pattern_wins_even_when_it_consumes_less() {
    // Both patterns match a prefix; the one listed first is chosen although
    // the later one would consume more text.
    let config = base_configuration(vec!["%Y-%m-%d", "%Y-%m-%d "], vec![], vec![], vec![]);
    let name = StructuredName::parse_from("2022-10-27 notes.txt", &config);
    match name.timestamp {
        Some(ts) => assert_eq!(ts.format_index, 0),
        None => panic!("expected a timestamp"),
    }
    // The first pattern consumed the date alone; the space stays in the
    // filename.
    assert_eq!(name.filename, Some(" notes".to_string()));
}

#[test]
fn separator_chosen_by_configuration_order_not_position() {
    // "_" occurs further right than " -- ", but " -- " is listed first.
    let config = base_configuration(vec![], vec![], vec![" -- ", "_"], vec![]);
    let name = StructuredName::parse_from("file -- a_b.txt", &config);
    assert_eq!(name.filename, Some("file".to_string()));
    match name.tags {
        Some(Tags::Tags(tags)) => {
            assert_eq!(tags.len(), 1);
            assert_eq!(tags[0].separator, " -- ");
            assert_eq!(tags[0].tag, "a_b");
        }
        _ => panic!("expected a tag list"),
    }
}

#[test]
fn trailing_separator_alone_is_preserved() {
    let config = base_configuration(vec![], vec![], vec![" -- "], vec![' ']);
    let name = StructuredName::parse_from("name -- .txt", &config);
    assert_eq!(name.filename, Some("name".to_string()));
    match &name.tags {
        Some(Tags::SeparatorOnly(sep)) => assert_eq!(sep, " -- "),
        _ => panic!("expected the separator-only marker"),
    }
    assert_eq!(name.render(), "name -- .txt".to_string());
}

#[test]
fn empty_configuration_matches_nothing() {
    let config = base_configuration(vec![], vec![], vec![], vec![]);
    let name = StructuredName::parse_from("2022-10-27 file -- a.txt", &config);
    assert!(name.timestamp.is_none());
    assert!(name.tags.is_none());
    assert_eq!(name.filename, Some("2022-10-27 file -- a".to_string()));
    assert_eq!(name.extension, Some("txt".to_string()));
    assert_eq!(name.render(), "2022-10-27 file -- a.txt".to_string());
}

#[test]
fn normalising_twice_renders_like_normalising_once() {
    let config = base_configuration(vec!["%Y-%m-%d", "%Y_%m_%d"], vec![], vec![], vec![]);
    let mut path = StructuredPath::parse_from("dir/2022_10_27 file.txt", &config);
    path.normalise();
    let once = path.render();
    path.normalise();
    let twice = path.render();
    assert_eq!(once, "dir/2022-10-27 file.txt".to_string());
    assert_eq!(once, twice);
}

#[test]
fn date_time_normalisation_rewrites_the_pattern() {
    // The second date-time pattern matched; the canonical one re-renders it.
    let config = base_configuration(
        vec![],
        vec!["%Y-%m-%d %Hh%M", "%Y%m%d-%H%M"],
        vec![],
        vec![],
    );
    let mut path = StructuredPath::parse_from("20221027-1535 file.pdf", &config);
    match &path.name.timestamp {
        Some(ts) => assert_eq!(ts.format_index, 1),
        None => panic!("expected a timestamp"),
    }
    assert_eq!(path.render(), "20221027-1535 file.pdf".to_string());
    path.normalise();
    assert_eq!(path.render(), "2022-10-27 15h35 file.pdf".to_string());
}

#[test]
fn directory_components_stay_verbatim() {
    let config = base_configuration(vec!["%Y-%m-%d"], vec![], vec![" -- "], vec![' ']);
    let path = StructuredPath::parse_from("a/b//2022-10-27 x -- t.md", &config);
    assert_eq!(path.render(), "a/b//2022-10-27 x -- t.md".to_string());
}

#[test]
fn name_without_dot_has_no_extension() {
    let config = base_configuration(vec![], vec![], vec![], vec![]);
    let name = StructuredName::parse_from("dir/README", &config);
    assert_eq!(name.filename, Some("README".to_string()));
    assert!(name.extension.is_none());
    assert_eq!(name.render(), "README".to_string());
}

#[test]
fn leading_dot_name_is_all_stem() {
    let config = base_configuration(vec![], vec![], vec![], vec![]);
    let name = StructuredName::parse_from(".gitignore", &config);
    assert_eq!(name.filename, Some(".gitignore".to_string()));
    assert!(name.extension.is_none());
    assert_eq!(name.render(), ".gitignore".to_string());
}

#[test]
fn blank_tail_after_separator_becomes_the_marker() {
    // White space (not nothing) follows the separator: the marker keeps the
    // separator alone, so rendering drops the blank tail.
    let config = base_configuration(vec![], vec![], vec![" -- "], vec![' ']);
    let name = StructuredName::parse_from("x --   .txt", &config);
    match &name.tags {
        Some(Tags::SeparatorOnly(sep)) => assert_eq!(sep, " -- "),
        _ => panic!("expected the separator-only marker"),
    }
    assert_eq!(name.render(), "x -- .txt".to_string());
}

#[test]
fn unpadded_date_is_reprinted_padded() {
    // chrono's parser is padding-agnostic, its printer is not: such an input
    // parses but renders in the pattern's own spelling.
    let config = base_configuration(vec!["%Y-%m-%d"], vec![], vec![], vec![]);
    let path = StructuredPath::parse_from("2022-1-7-file.txt", &config);
    assert!(path.name.timestamp.is_some());
    assert_eq!(path.name.filename, Some("-file".to_string()));
    assert_eq!(path.render(), "2022-01-07-file.txt".to_string());
}

#[test]
fn several_between_characters_are_remembered_exactly() {
    let config = base_configuration(vec![], vec![], vec![" -- "], vec![' ', ',']);
    let name = StructuredName::parse_from("file -- one,two three.txt", &config);
    match &name.tags {
        Some(Tags::Tags(tags)) => {
            assert_eq!(tags.len(), 3);
            assert_eq!(tags[0].separator, " -- ");
            assert_eq!(tags[0].tag, "one");
            assert_eq!(tags[1].separator, ",");
            assert_eq!(tags[1].tag, "two");
            assert_eq!(tags[2].separator, " ");
            assert_eq!(tags[2].tag, "three");
        }
        _ => panic!("expected a tag list"),
    }
    assert_eq!(name.render(), "file -- one,two three.txt".to_string());
}
