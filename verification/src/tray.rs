//! The decisions of the tray-icon presence: which received menu entry or
//! click maps to which event. Building the real icon and polling the channels
//! is windowing work that lives outside the library; the shell hands what it
//! received in as plain values and performs the actions decided here.

use vstd::prelude::*;
use vstd::string::*;

verus! {

/// An event of interest coming from the tray icon.
#[derive(Clone, Copy, PartialEq, Eq, Structural, Debug)]
pub enum TaggerTrayEvent {
    ClickOnTagFiles,
    DoubleClickOnTrayIcon,
    Exit,
}

/// A click on the tray icon itself, as the windowing shell reports it.
#[derive(Clone, Copy, PartialEq, Eq, Structural, Debug)]
pub enum TrayClick {
    Left,
    Right,
    Double,
}

/// The state the tray decisions need: the identifiers of the two menu
/// entries, as the shell registered them.
#[derive(Debug)]
pub struct TaggerTrayIcon {
    // To recognise the events
    pub tag_files_item: String,
    pub exit_item: String,
}

/// The event a received menu identifier maps to: the tag-files entry is
/// recognised first, then the exit entry.
pub open spec fn spec_menu_event(t: TaggerTrayIcon, received: Option<Seq<char>>) -> Option<
    TaggerTrayEvent,
> {
    match received {
        Some(id) => if id == t.tag_files_item@ {
            Some(TaggerTrayEvent::ClickOnTagFiles)
        } else if id == t.exit_item@ {
            Some(TaggerTrayEvent::Exit)
        } else {
            None
        },
        None => None,
    }
}

/// The event a received tray-icon click maps to: only a double click counts.
pub open spec fn spec_tray_event(received: Option<TrayClick>) -> Option<TaggerTrayEvent> {
    match received {
        Some(TrayClick::Double) => Some(TaggerTrayEvent::DoubleClickOnTrayIcon),
        _ => None,
    }
}

impl TaggerTrayIcon {
    /// The decision state over the two menu entry identifiers.
    pub fn new(tag_files_item: String, exit_item: String) -> (t: TaggerTrayIcon)
        ensures
            t.tag_files_item@ == tag_files_item@,
            t.exit_item@ == exit_item@,
    {
        TaggerTrayIcon { tag_files_item, exit_item }
    }

    /// Map an identifier received from the menu channel to its event.
    pub fn try_recv_menu(&self, received: Option<&String>) -> (r: Option<TaggerTrayEvent>)
        ensures
            r == spec_menu_event(
                *self,
                match received {
                    Some(id) => Some(id@),
                    None => None,
                },
            ),
    {
        match received {
            Some(id) => {
                if *id == self.tag_files_item {
                    Some(TaggerTrayEvent::ClickOnTagFiles)
                } else if *id == self.exit_item {
                    Some(TaggerTrayEvent::Exit)
                } else {
                    None
                }
            },
            None => None,
        }
    }

    /// Map a click received from the tray-icon channel to its event.
    pub fn try_recv_tray_icon(&self, received: Option<TrayClick>) -> (r: Option<TaggerTrayEvent>)
        ensures
            r == spec_tray_event(received),
    {
        match received {
            Some(TrayClick::Double) => Some(TaggerTrayEvent::DoubleClickOnTrayIcon),
            _ => None,
        }
    }

    /// A way to hide tray icon useless events and format useful ones.
    pub fn events(&self) -> (it: EventIterator)
        ensures
            it.tray_icon == self,
            it.menu_events_exhausted == false,
    {
        EventIterator { tray_icon: self, menu_events_exhausted: false }
    }
}

/// A way to hide tray icon useless events and format useful ones: menu
/// events are drained first, then tray-icon clicks.
#[derive(Debug)]
pub struct EventIterator<'a> {
    pub tray_icon: &'a TaggerTrayIcon,
    pub menu_events_exhausted: bool,
}

impl<'a> EventIterator<'a> {
    /// The next event, decided from what the two channels handed out this
    /// round: a recognised menu event first; once the menu channel runs dry,
    /// tray-icon clicks.
    pub fn next(&mut self, menu: Option<&String>, tray: Option<TrayClick>) -> (r: Option<
        TaggerTrayEvent,
    >)
        ensures
            final(self).tray_icon == old(self).tray_icon,
            ({
                let menu_event = spec_menu_event(
                    *old(self).tray_icon,
                    match menu {
                        Some(id) => Some(id@),
                        None => None,
                    },
                );
                if !old(self).menu_events_exhausted && menu_event is Some {
                    r == menu_event && final(self).menu_events_exhausted == old(
                        self,
                    ).menu_events_exhausted
                } else if !old(self).menu_events_exhausted {
                    r == spec_tray_event(tray) && final(self).menu_events_exhausted == true
                } else {
                    r == spec_tray_event(tray) && final(self).menu_events_exhausted == old(
                        self,
                    ).menu_events_exhausted
                }
            }),
    {
        if !self.menu_events_exhausted {
            match self.tray_icon.try_recv_menu(menu) {
                Some(event) => {
                    return Some(event);
                },
                None => {
                    self.menu_events_exhausted = true;
                },
            }
        }
        self.tray_icon.try_recv_tray_icon(tray)
    }
}

} // verus!
