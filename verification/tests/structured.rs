use camino::{Utf8Path, Utf8PathBuf};
use tagger::configuration::{TimestampConfiguration, TimestampVariantConfiguration};
use tagger::{
    Date, DateTime, StructuredName, StructuredNameConfiguration, StructuredPath, Tag,
    TagConfiguration, Tags, Timestamp, TimestampValue,
};

/// Allow us to get valid OS-specific paths to not fail on inconsistent separators.
fn create_path() -> Utf8PathBuf {
    Utf8PathBuf::from("some").join("folder")
}

/// Configuration should not be super exotic.
fn create_configuration() -> StructuredNameConfiguration {
    StructuredNameConfiguration {
        timestamp_configuration: TimestampConfiguration {
            date: TimestampVariantConfiguration {
                formats: vec!["%Y-%m-%d".to_string(), "%Y_%m_%d".to_string()],
            },
            date_time: TimestampVariantConfiguration {
                formats: vec!["%Y-%m-%d %Hh%M".to_string()],
            },
        },
        tag_configuration: TagConfiguration {
            tag_main_separators: vec![" -- ".to_string()],
            tag_between_separators: vec![' '],
        },
    }
}

fn assert_same_name(actual: &StructuredName, expected: &StructuredName) {
    match (&actual.timestamp, &expected.timestamp) {
        (Some(a), Some(e)) => {
            assert_eq!(a.configuration.formats, e.configuration.formats);
            assert_eq!(a.format_index, e.format_index);
            assert!(a.value == e.value);
        }
        (None, None) => {}
        _ => panic!("timestamp presence differs"),
    }
    assert_eq!(actual.filename, expected.filename);
    match (&actual.tags, &expected.tags) {
        (Some(Tags::Tags(a)), Some(Tags::Tags(e))) => {
            assert_eq!(a.len(), e.len());
            for k in 0..a.len() {
                assert_eq!(a[k].separator, e[k].separator);
                assert_eq!(a[k].tag, e[k].tag);
            }
        }
        (Some(Tags::SeparatorOnly(a)), Some(Tags::SeparatorOnly(e))) => assert_eq!(a, e),
        (None, None) => {}
        _ => panic!("tags differ"),
    }
    assert_eq!(actual.extension, expected.extension);
}

/// Since we can cross-check everything from the content, test are simple to do.
fn check(path: StructuredPath, normalised_path: &Utf8Path) {
    let mut result =
        StructuredPath::parse_from(path.original_path.as_str(), path.name.configuration);

    // Since we have the original path, we can recompute the whole thing.
    assert_eq!(result.original_path, path.original_path);
    assert_same_name(&result.name, &path.name);
    // We want to keep everything as is.
    assert_eq!(result.render().as_str(), path.original_path.as_str());

    // The configuration allow multiple date formats and there is a way to
    // keep everything tidy.
    result.normalise();
    assert_eq!(result.render().as_str(), normalised_path.as_str());
}

#[test]
fn parse_path_without_date() {
    let config = create_configuration();
    let path = create_path().join("Some filename.txt");

    check(
        StructuredPath {
            original_path: path.as_str().to_string(),
            name: StructuredName {
                configuration: &config,
                timestamp: None,
                filename: Some("Some filename".to_string()),
                tags: None,
                extension: Some("txt".to_string()),
            },
        },
        &path,
    )
}

#[test]
fn parse_path_with_date() {
    let config = create_configuration();
    let path = create_path().join("2022-10-27-Some-filename.pdf");

    check(
        StructuredPath {
            original_path: path.as_str().to_string(),
            name: StructuredName {
                configuration: &config,
                timestamp: Some(Timestamp {
                    configuration: &config.timestamp_configuration.date,
                    format_index: 0,
                    value: TimestampValue::Date(Date { year: 2022, month: 10, day: 27 }),
                }),
                filename: Some("-Some-filename".to_string()),
                tags: None,
                extension: Some("pdf".to_string()),
            },
        },
        &path,
    );
}

#[test]
fn parse_path_with_date_time() {
    let config = create_configuration();
    let path = create_path().join("2022-10-27 15h35 Some filename.pdf");

    check(
        StructuredPath {
            original_path: path.as_str().to_string(),
            name: StructuredName {
                configuration: &config,
                timestamp: Some(Timestamp {
                    configuration: &config.timestamp_configuration.date_time,
                    format_index: 0,
                    value: TimestampValue::DateTime(DateTime {
                        date: Date { year: 2022, month: 10, day: 27 },
                        hour: 15,
                        minute: 35,
                        second: 0,
                        nanosecond: 0,
                    }),
                }),
                filename: Some(" Some filename".to_string()),
                tags: None,
                extension: Some("pdf".to_string()),
            },
        },
        &path,
    );
}

#[test]
fn parse_path_with_secondary_date() {
    let config = create_configuration();
    let path = create_path().join("2022_10_27 Some filename.pdf");
    let normalised_path = create_path().join("2022-10-27 Some filename.pdf");

    check(
        StructuredPath {
            original_path: path.as_str().to_string(),
            name: StructuredName {
                configuration: &config,
                timestamp: Some(Timestamp {
                    configuration: &config.timestamp_configuration.date,
                    format_index: 1,
                    value: TimestampValue::Date(Date { year: 2022, month: 10, day: 27 }),
                }),
                filename: Some(" Some filename".to_string()),
                tags: None,
                extension: Some("pdf".to_string()),
            },
        },
        &normalised_path,
    );
}

#[test]
fn parse_path_with_secondary_timestamp_and_tags() {
    let config = create_configuration();
    let path = create_path().join("2022_10_27 Some filename -- tag test.pdf");
    let normalised_path = create_path().join("2022-10-27 Some filename -- tag test.pdf");

    check(
        StructuredPath {
            original_path: path.as_str().to_string(),
            name: StructuredName {
                configuration: &config,
                timestamp: Some(Timestamp {
                    configuration: &config.timestamp_configuration.date,
                    format_index: 1,
                    value: TimestampValue::Date(Date { year: 2022, month: 10, day: 27 }),
                }),
                filename: Some(" Some filename".to_string()),
                tags: Some(Tags::Tags(vec![
                    Tag {
                        separator: " -- ".to_string(),
                        tag: "tag".to_string(),
                    },
                    Tag {
                        separator: " ".to_string(),
                        tag: "test".to_string(),
                    },
                ])),
                extension: Some("pdf".to_string()),
            },
        },
        &normalised_path,
    );
}
