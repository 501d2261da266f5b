//! The display controller: a state machine that takes one event at a time
//! (a tick, a click, a tray command, a picked folder, a decoded image) and
//! says what the surrounding event loop should do next.
use crate::config::{display_of, interval_of, same_but_refresh, AppConfig, ConfigRecord, record_of_config};
use crate::geometry::{
    clamp_axis, clamp_to_monitor, fits_i32, reposition_of, target_size, target_size_of,
    try_reposition_for_resize, Pos, Presets, Size,
};
use crate::playlist::{
    advance_step, is_permutation, path_views, selected, OrientationFilter, Playlist, PlaylistView,
    ScannedFile,
};
use vstd::prelude::*;

verus! {

/// Whether the widget shows images or its settings form.
#[derive(Clone, Copy, Debug, PartialEq, Eq, Structural)]
pub enum Mode {
    Browsing,
    SettingsOpen,
}

/// Commands from the tray menu.
#[derive(Clone, Copy, Debug, PartialEq, Eq, Structural)]
pub enum TrayMessage {
    ShowSettings,
    FocusWindow,
    Quit,
}

/// What the window should do in answer to a tray command.
#[derive(Clone, Copy, Debug, PartialEq, Eq, Structural)]
pub enum WindowCommand {
    /// Show the settings form with window decorations, and focus it.
    OpenSettings,
    Focus,
    Close,
}

/// A request to decode `path`, tagged with the generation it was issued as.
#[derive(Debug)]
pub struct LoadRequest {
    pub path: String,
    pub generation: u64,
}

/// The size to give the window, and where to move it first, if anywhere.
#[derive(Clone, Copy, Debug, PartialEq, Eq, Structural)]
pub struct Placement {
    pub size: Size,
    pub pos: Option<Pos>,
}

pub const SETTINGS_WIDTH: u32 = 500;
pub const SETTINGS_HEIGHT: u32 = 600;
/// Milliseconds between checks that the window is still on screen.
pub const BOUNDS_CHECK_MS: u64 = 1000;
/// Milliseconds without hover before the drag bar hides.
pub const HOVER_GRACE_MS: u64 = 100;

/// The controller's whole state.
#[derive(Debug)]
pub struct Controller {
    pub config: AppConfig,
    pub playlist: Playlist,
    pub mode: Mode,
    /// The generation of the latest load request; 0 before the first.
    pub issued: u64,
    /// The path of the latest load request.
    pub current_path: Option<String>,
    /// The dimensions of the image on display.
    pub shown: Option<Size>,
    /// When the image last changed, in milliseconds.
    pub last_change_ms: u64,
    pub last_window_size: Option<Size>,
    pub last_bounds_check_ms: u64,
    pub drag_bar: bool,
    /// When the pointer left the image and the drag bar, if it has.
    pub hover_left_ms: Option<u64>,
}

/// Milliseconds from `then` to `now`, zero if `now` is earlier.
pub open spec fn elapsed(now: u64, then: u64) -> u64 {
    if now >= then {
        (now - then) as u64
    } else {
        0
    }
}

fn elapsed_ms(now: u64, then: u64) -> (r: u64)
    ensures
        r == elapsed(now, then),
{
    if now >= then {
        now - then
    } else {
        0
    }
}

/// The generation after `g`; it stays at the top once there.
pub open spec fn next_generation(g: u64) -> u64 {
    if g < u64::MAX {
        (g + 1) as u64
    } else {
        g
    }
}

pub open spec fn presets_of(c: AppConfig) -> Presets {
    Presets {
        landscape: Size { width: c.landscape_width, height: c.landscape_height },
        portrait: Size { width: c.portrait_width, height: c.portrait_height },
    }
}

impl Controller {
    pub open spec fn wf(&self) -> bool {
        self.playlist@.wf()
    }

    /// The state is as before but for the playlist, the generation and the
    /// current path.
    pub open spec fn same_but_load(&self, other: &Controller) -> bool {
        &&& self.config == other.config
        &&& self.mode == other.mode
        &&& self.shown == other.shown
        &&& self.last_window_size == other.last_window_size
        &&& self.last_bounds_check_ms == other.last_bounds_check_ms
        &&& self.drag_bar == other.drag_bar
        &&& self.hover_left_ms == other.hover_left_ms
    }

    /// An automatic change is due: the settings are closed, the interval is
    /// not zero, and at least that many whole seconds have passed since the
    /// image last changed.
    pub open spec fn refresh_due(&self, now_ms: u64) -> bool {
        &&& self.mode == Mode::Browsing
        &&& self.config.refresh_interval > 0
        &&& elapsed(now_ms, self.last_change_ms) / 1000 >= self.config.refresh_interval
    }

    /// `r` is what moving to the next path gives, from `pre` to `self`:
    /// nothing on an empty playlist, else the next path as a new generation.
    pub open spec fn issued_next(&self, pre: &Controller, r: Option<LoadRequest>) -> bool {
        &&& self.wf()
        &&& pre.playlist@.order.len() == 0 ==> r.is_none() && self.playlist@ == pre.playlist@
            && self.issued == pre.issued && self.current_path == pre.current_path
        &&& pre.playlist@.order.len() > 0 ==> {
            &&& r.is_some()
            &&& advance_step(pre.playlist@, self.playlist@, r.unwrap().path@)
            &&& r.unwrap().generation == next_generation(pre.issued)
            &&& self.issued == r.unwrap().generation
            &&& self.current_path.is_some() && self.current_path.unwrap()@ == r.unwrap().path@
        }
    }

    /// The window size for the current state: the settings form's size, or
    /// the size for the image on display, or the landscape preset before any
    /// image arrives.
    pub open spec fn window_size_of(&self) -> Size {
        if self.mode == Mode::SettingsOpen {
            Size { width: SETTINGS_WIDTH, height: SETTINGS_HEIGHT }
        } else {
            match self.shown {
                Some(d) => target_size_of(d, self.config.fit_mode, presets_of(self.config)),
                None => presets_of(self.config).landscape,
            }
        }
    }

    /// A controller for `config` with an empty playlist, showing images. The
    /// refresh interval is shown in its largest whole unit.
    pub fn new(config: AppConfig, now_ms: u64) -> (r: Self)
        ensures
            r.wf(),
            r.mode == Mode::Browsing,
            r.playlist@.order.len() == 0,
            r.issued == 0,
            r.shown.is_none(),
            r.current_path.is_none(),
            r.last_change_ms == now_ms,
            r.last_bounds_check_ms == now_ms,
            same_but_refresh(r.config, config),
            r.config.refresh_interval == config.refresh_interval,
            config.refresh_interval > 0 ==> (r.config.refresh_value, r.config.refresh_unit)
                == display_of(config.refresh_interval),
    {
        let mut config = config;
        config.normalize_refresh_display();
        Controller {
            config,
            playlist: Playlist::new(),
            mode: Mode::Browsing,
            issued: 0,
            current_path: None,
            shown: None,
            last_change_ms: now_ms,
            last_window_size: None,
            last_bounds_check_ms: now_ms,
            drag_bar: false,
            hover_left_ms: None,
        }
    }

    /// Moves to the next path of the playlist and issues a load for it.
    fn issue_next(&mut self) -> (r: Option<LoadRequest>)
        requires
            old(self).wf(),
        ensures
            final(self).issued_next(old(self), r),
            final(self).same_but_load(old(self)),
            final(self).last_change_ms == old(self).last_change_ms,
    {
        match self.playlist.advance() {
            None => None,
            Some(path) => {
                if self.issued < u64::MAX {
                    self.issued = self.issued + 1;
                }
                self.current_path = Some(path.clone());
                Some(LoadRequest { path, generation: self.issued })
            },
        }
    }

    /// Replaces the playlist by the qualifying scanned files in random order,
    /// without loading anything.
    pub fn rescan(&mut self, files: &Vec<ScannedFile>)
        ensures
            final(self).wf(),
            final(self).playlist@.index == 0,
            is_permutation(
                final(self).playlist@.order,
                selected(files@, old(self).config.orientation_filter),
            ),
            final(self).same_but_load(old(self)),
            final(self).issued == old(self).issued,
            final(self).last_change_ms == old(self).last_change_ms,
    {
        let filter = self.config.orientation_filter;
        self.playlist.rebuild(files, filter);
    }

    /// Replaces the playlist by the qualifying scanned files in random order
    /// and issues a load for the first, if there is one.
    pub fn rebuild(&mut self, files: &Vec<ScannedFile>) -> (r: Option<LoadRequest>)
        ensures
            final(self).wf(),
            r.is_some() == (selected(files@, old(self).config.orientation_filter).len() > 0),
            r.is_some() ==> selected(files@, old(self).config.orientation_filter).contains(
                r.unwrap().path@,
            ) && r.unwrap().generation == next_generation(old(self).issued),
            is_permutation(
                final(self).playlist@.order,
                selected(files@, old(self).config.orientation_filter),
            ),
            final(self).same_but_load(old(self)),
    {
        self.rescan(files);
        let ghost mid = self.playlist@;
        let r = self.issue_next();
        proof {
            let sel = selected(files@, old(self).config.orientation_filter);
            mid.order.to_multiset_ensures();
            sel.to_multiset_ensures();
            if r.is_some() {
                assert(mid.order.contains(mid.order[0]));
                assert(sel.to_multiset().count(r.unwrap().path@) > 0);
                if mid.order.len() > 1 {
                    assert(final(self).playlist@.order == mid.order);
                } else {
                    final(self).playlist@.order.to_multiset_ensures();
                }
            } else {
                assert(sel.len() == 0);
            }
        }
        r
    }

    /// On each tick: when an automatic change is due, restarts the timer and
    /// issues a load for the next path; otherwise nothing changes.
    pub fn tick(&mut self, now_ms: u64) -> (r: Option<LoadRequest>)
        requires
            old(self).wf(),
        ensures
            !old(self).refresh_due(now_ms) ==> r.is_none() && *final(self) == *old(self),
            old(self).refresh_due(now_ms) ==> final(self).issued_next(old(self), r)
                && final(self).last_change_ms == now_ms,
            final(self).wf(),
            final(self).same_but_load(old(self)),
    {
        let due = self.mode == Mode::Browsing && self.config.refresh_interval > 0 && elapsed_ms(
            now_ms,
            self.last_change_ms,
        ) / 1000 >= self.config.refresh_interval;
        if !due {
            return None;
        }
        self.last_change_ms = now_ms;
        self.issue_next()
    }

    /// A primary click on the image while browsing shows the next image at
    /// once and restarts the timer; in the settings form it does nothing.
    pub fn primary_click(&mut self, now_ms: u64) -> (r: Option<LoadRequest>)
        requires
            old(self).wf(),
        ensures
            old(self).mode == Mode::SettingsOpen ==> r.is_none() && *final(self) == *old(self),
            old(self).mode == Mode::Browsing ==> final(self).issued_next(old(self), r)
                && final(self).last_change_ms == now_ms,
            final(self).wf(),
            final(self).same_but_load(old(self)),
    {
        if self.mode != Mode::Browsing {
            return None;
        }
        self.last_change_ms = now_ms;
        self.issue_next()
    }

    /// Opens the settings form (a secondary click on the image, the
    /// empty-state button, or the tray's settings entry).
    pub fn open_settings(&mut self)
        ensures
            final(self).mode == Mode::SettingsOpen,
            final(self).drag_bar == false,
            final(self).config == old(self).config,
            final(self).playlist@ == old(self).playlist@,
            final(self).issued == old(self).issued,
            final(self).shown == old(self).shown,
            final(self).last_change_ms == old(self).last_change_ms,
    {
        self.mode = Mode::SettingsOpen;
        self.drag_bar = false;
    }

    /// Answers a tray command: showing the settings also opens the form.
    pub fn on_tray(&mut self, msg: TrayMessage) -> (r: WindowCommand)
        ensures
            msg == TrayMessage::ShowSettings ==> r == WindowCommand::OpenSettings
                && final(self).mode == Mode::SettingsOpen,
            msg == TrayMessage::FocusWindow ==> r == WindowCommand::Focus && *final(self)
                == *old(self),
            msg == TrayMessage::Quit ==> r == WindowCommand::Close && *final(self) == *old(self),
            final(self).config == old(self).config,
            final(self).playlist@ == old(self).playlist@,
            final(self).issued == old(self).issued,
    {
        match msg {
            TrayMessage::ShowSettings => {
                self.open_settings();
                WindowCommand::OpenSettings
            },
            TrayMessage::FocusWindow => WindowCommand::Focus,
            TrayMessage::Quit => WindowCommand::Close,
        }
    }

    /// Adds a picked folder unless it is already in the list; tells whether
    /// it was added, in which case the folders are to be scanned again.
    pub fn add_folder(&mut self, folder: String) -> (r: bool)
        ensures
            r == !path_views(old(self).config.folders@).contains(folder@),
            r ==> final(self).config.folders@ == old(self).config.folders@.push(folder),
            !r ==> *final(self) == *old(self),
            final(self).playlist@ == old(self).playlist@,
            final(self).issued == old(self).issued,
            final(self).mode == old(self).mode,
    {
        let mut i: usize = 0;
        while i < self.config.folders.len()
            invariant
                i <= self.config.folders@.len(),
                *self == *old(self),
                forall|j: int| 0 <= j < i ==> self.config.folders@[j]@ != folder@,
            decreases self.config.folders@.len() - i,
        {
            if self.config.folders[i] == folder {
                assert(path_views(self.config.folders@)[i as int] == folder@);
                return false;
            }
            i += 1;
        }
        assert(!path_views(old(self).config.folders@).contains(folder@)) by {
            if path_views(old(self).config.folders@).contains(folder@) {
                let k = choose|k: int|
                    0 <= k < path_views(old(self).config.folders@).len() && path_views(
                        old(self).config.folders@,
                    )[k] == folder@;
                assert(self.config.folders@[k]@ == folder@);
            }
        }
        self.config.folders.push(folder);
        true
    }

    /// Removes the folder at `i`; the folders are then to be scanned again.
    pub fn remove_folder(&mut self, i: usize)
        requires
            i < old(self).config.folders@.len(),
        ensures
            final(self).config.folders@ == old(self).config.folders@.remove(i as int),
            final(self).playlist@ == old(self).playlist@,
            final(self).mode == old(self).mode,
    {
        self.config.folders.remove(i);
    }

    /// Sets the orientation filter; tells whether it changed, in which case
    /// the folders are to be scanned again.
    pub fn set_orientation_filter(&mut self, filter: OrientationFilter) -> (r: bool)
        ensures
            r == (filter != old(self).config.orientation_filter),
            final(self).config.orientation_filter == filter,
            final(self).playlist@ == old(self).playlist@,
            final(self).mode == old(self).mode,
    {
        let changed = filter != self.config.orientation_filter;
        self.config.orientation_filter = filter;
        changed
    }

    /// Saves and closes the settings form: the interval is set from the shown
    /// value and unit, the window position is kept if known, the timer
    /// restarts, and the record to persist is returned. The folders are then
    /// to be scanned again.
    pub fn save_and_close(&mut self, window_pos: Option<Pos>, now_ms: u64) -> (r: ConfigRecord)
        ensures
            final(self).mode == Mode::Browsing,
            final(self).config.refresh_interval == interval_of(
                old(self).config.refresh_value,
                old(self).config.refresh_unit,
            ),
            final(self).config.window_pos == (match window_pos {
                Some(p) => Some(p),
                None => old(self).config.window_pos,
            }),
            same_but_refresh(
                final(self).config,
                (AppConfig { window_pos: final(self).config.window_pos, ..old(self).config }),
            ),
            final(self).config.folders@ == old(self).config.folders@,
            final(self).last_change_ms == now_ms,
            final(self).playlist@ == old(self).playlist@,
            record_of_config(final(self).config, r),
    {
        self.config.apply_refresh_display();
        if let Some(p) = window_pos {
            self.config.window_pos = Some(p);
        }
        self.mode = Mode::Browsing;
        self.last_change_ms = now_ms;
        self.config.to_record()
    }

    /// Records where the window was dragged to and returns the record to
    /// persist.
    pub fn window_moved(&mut self, pos: Pos) -> (r: ConfigRecord)
        ensures
            final(self).config.window_pos == Some(pos),
            final(self).config.folders@ == old(self).config.folders@,
            final(self).mode == old(self).mode,
            record_of_config(final(self).config, r),
    {
        self.config.window_pos = Some(pos);
        self.config.to_record()
    }

    /// A decoded image arrived. It is shown only if it answers the latest
    /// load request; a result of a superseded request is dropped.
    pub fn image_decoded(&mut self, generation: u64, dims: Size) -> (r: bool)
        ensures
            r == (old(self).issued > 0 && generation == old(self).issued),
            r ==> final(self).shown == Some(dims),
            !r ==> *final(self) == *old(self),
            final(self).config == old(self).config,
            final(self).playlist@ == old(self).playlist@,
            final(self).issued == old(self).issued,
            final(self).mode == old(self).mode,
    {
        if self.issued > 0 && generation == self.issued {
            self.shown = Some(dims);
            true
        } else {
            false
        }
    }

    /// The window size for the current state.
    pub fn window_size(&self) -> (r: Size)
        ensures
            r == self.window_size_of(),
    {
        if self.mode == Mode::SettingsOpen {
            Size { width: SETTINGS_WIDTH, height: SETTINGS_HEIGHT }
        } else {
            let presets = self.config.presets();
            match self.shown {
                Some(d) => target_size(d, self.config.fit_mode, presets),
                None => presets.landscape,
            }
        }
    }

    /// Plans this tick's window size. When it differs from the last one and
    /// the window's position is known, the window is first moved so that the
    /// configured anchor stays where it was (unless that position is out of
    /// range).
    pub fn place_window(&mut self, current: Option<Pos>) -> (r: Placement)
        ensures
            r.size == old(self).window_size_of(),
            final(self).last_window_size == Some(r.size),
            r.pos.is_some() <==> ({
                &&& old(self).last_window_size.is_some()
                &&& old(self).last_window_size.unwrap() != r.size
                &&& current.is_some()
                &&& fits_i32(
                    reposition_of(
                        old(self).last_window_size.unwrap(),
                        r.size,
                        old(self).config.resize_anchor,
                        current.unwrap(),
                    ).0,
                )
                &&& fits_i32(
                    reposition_of(
                        old(self).last_window_size.unwrap(),
                        r.size,
                        old(self).config.resize_anchor,
                        current.unwrap(),
                    ).1,
                )
            }),
            r.pos.is_some() ==> r.pos.unwrap().x == reposition_of(
                old(self).last_window_size.unwrap(),
                r.size,
                old(self).config.resize_anchor,
                current.unwrap(),
            ).0 && r.pos.unwrap().y == reposition_of(
                old(self).last_window_size.unwrap(),
                r.size,
                old(self).config.resize_anchor,
                current.unwrap(),
            ).1,
            final(self).config == old(self).config,
            final(self).playlist@ == old(self).playlist@,
            final(self).mode == old(self).mode,
            final(self).shown == old(self).shown,
    {
        let size = self.window_size();
        let mut pos: Option<Pos> = None;
        if let Some(old_size) = self.last_window_size {
            if old_size != size {
                if let Some(p) = current {
                    pos = try_reposition_for_resize(old_size, size, self.config.resize_anchor, p);
                }
            }
        }
        self.last_window_size = Some(size);
        Placement { size, pos }
    }

    /// At most once a second, checks that the window lies on the monitor and
    /// returns where to move it when it does not.
    pub fn check_bounds(&mut self, now_ms: u64, pos: Pos, size: Size, monitor: Size) -> (r: Option<
        Pos,
    >)
        ensures
            elapsed(now_ms, old(self).last_bounds_check_ms) <= BOUNDS_CHECK_MS ==> r.is_none()
                && *final(self) == *old(self),
            elapsed(now_ms, old(self).last_bounds_check_ms) > BOUNDS_CHECK_MS ==> {
                &&& final(self).last_bounds_check_ms == now_ms
                &&& r.is_some() <==> (clamp_axis(pos.x as int, size.width as int, monitor.width as int)
                    != pos.x || clamp_axis(pos.y as int, size.height as int, monitor.height as int)
                    != pos.y)
                &&& r.is_some() ==> r.unwrap().x == clamp_axis(
                    pos.x as int,
                    size.width as int,
                    monitor.width as int,
                ) && r.unwrap().y == clamp_axis(pos.y as int, size.height as int, monitor.height as int)
            },
            final(self).config == old(self).config,
            final(self).playlist@ == old(self).playlist@,
            final(self).mode == old(self).mode,
    {
        if elapsed_ms(now_ms, self.last_bounds_check_ms) <= BOUNDS_CHECK_MS {
            return None;
        }
        self.last_bounds_check_ms = now_ms;
        let c = clamp_to_monitor(pos, size, monitor);
        if c != pos {
            Some(c)
        } else {
            None
        }
    }

    /// Updates the drag bar from whether the pointer is over the image or
    /// the bar: shown at once on hover, hidden only once the pointer has been
    /// away for more than the grace period. Returns whether it is shown.
    pub fn hover(&mut self, hovered: bool, now_ms: u64) -> (r: bool)
        ensures
            r == final(self).drag_bar,
            hovered ==> final(self).drag_bar && final(self).hover_left_ms.is_none(),
            !hovered ==> {
                let left = match old(self).hover_left_ms {
                    Some(t) => t,
                    None => now_ms,
                };
                &&& final(self).hover_left_ms == Some(left)
                &&& final(self).drag_bar == (old(self).drag_bar && elapsed(now_ms, left)
                    <= HOVER_GRACE_MS)
            },
            final(self).config == old(self).config,
            final(self).playlist@ == old(self).playlist@,
            final(self).mode == old(self).mode,
    {
        if hovered {
            self.drag_bar = true;
            self.hover_left_ms = None;
        } else {
            let left = match self.hover_left_ms {
                Some(t) => t,
                None => now_ms,
            };
            self.hover_left_ms = Some(left);
            if elapsed_ms(now_ms, left) > HOVER_GRACE_MS {
                self.drag_bar = false;
            }
        }
        self.drag_bar
    }
}

} // verus!
