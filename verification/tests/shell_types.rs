use tagger::configuration::TimestampVariantConfiguration;
use tagger::{TaggerCli, TaggerCommand, TaggerTrayEvent, TaggerTrayIcon, TrayClick};

#[test]
fn menu_events_are_recognised_by_identifier() {
    let tray = TaggerTrayIcon::new("tag-files".to_string(), "exit".to_string());
    let tag = "tag-files".to_string();
    let exit = "exit".to_string();
    let other = "about".to_string();
    assert!(matches!(
        tray.try_recv_menu(Some(&tag)),
        Some(TaggerTrayEvent::ClickOnTagFiles)
    ));
    assert!(matches!(tray.try_recv_menu(Some(&exit)), Some(TaggerTrayEvent::Exit)));
    assert!(tray.try_recv_menu(Some(&other)).is_none());
    assert!(tray.try_recv_menu(None).is_none());
}

#[test]
fn only_double_clicks_count_on_the_tray_icon() {
    let tray = TaggerTrayIcon::new("tag-files".to_string(), "exit".to_string());
    assert!(matches!(
        tray.try_recv_tray_icon(Some(TrayClick::Double)),
        Some(TaggerTrayEvent::DoubleClickOnTrayIcon)
    ));
    assert!(tray.try_recv_tray_icon(Some(TrayClick::Left)).is_none());
    assert!(tray.try_recv_tray_icon(Some(TrayClick::Right)).is_none());
    assert!(tray.try_recv_tray_icon(None).is_none());
}

#[test]
fn event_iterator_drains_menu_before_tray() {
    let tray = TaggerTrayIcon::new("tag-files".to_string(), "exit".to_string());
    let mut events = tray.events();
    let tag = "tag-files".to_string();
    // A recognised menu event comes through and the menu stays live.
    assert!(matches!(
        events.next(Some(&tag), Some(TrayClick::Double)),
        Some(TaggerTrayEvent::ClickOnTagFiles)
    ));
    // Once the menu channel runs dry, tray clicks are consulted.
    assert!(matches!(
        events.next(None, Some(TrayClick::Double)),
        Some(TaggerTrayEvent::DoubleClickOnTrayIcon)
    ));
    // From then on only the tray channel is read.
    assert!(events.next(Some(&tag), None).is_none());
}

#[test]
fn format_iterator_walks_the_table_in_order() {
    let group = TimestampVariantConfiguration {
        formats: vec!["%Y-%m-%d".to_string(), "%Y_%m_%d".to_string()],
    };
    let mut it = group.formats();
    let first = it.next().expect("first format");
    assert_eq!(first.format_index, 0);
    assert_eq!(first.format, "%Y-%m-%d");
    let second = it.next().expect("second format");
    assert_eq!(second.format_index, 1);
    assert_eq!(second.format, "%Y_%m_%d");
    assert!(it.next().is_none());
}

#[test]
fn command_line_values_hold_their_fields() {
    let args = TaggerCli {
        command: TaggerCommand::Edit {
            prefix: Some("p".to_string()),
            suffix: None,
            add_tag: vec!["todo".to_string()],
            remove_tag: vec![],
            add_date: true,
            add_datetime: false,
            add_time: false,
            targets_path: vec!["a.txt".to_string()],
        },
    };
    match args.command {
        TaggerCommand::Edit { prefix, add_tag, add_date, targets_path, .. } => {
            assert_eq!(prefix, Some("p".to_string()));
            assert_eq!(add_tag, vec!["todo".to_string()]);
            assert!(add_date);
            assert_eq!(targets_path, vec!["a.txt".to_string()]);
        }
        TaggerCommand::Daemon {} => panic!("expected the edit command"),
    }
}
