//! One window's placement from start to exit.
//!
//! The host program reads the geometry file and starts a `Placement` with
//! what it found. It places the window as the start says and makes the
//! first native call. From then on it hands over every notification of the
//! window, every pin command and every reply of a native call, and does
//! what comes back: write the geometry file, or make the next call.
//!
//! The mode of a placement is what the process wants for the window. It
//! starts as given and changes with each pin command; the focus guard goes
//! by the mode of the moment.

use crate::focus::{guard_calls, on_focus_changed, PlacementMode};
use crate::geometry::WindowGeometry;
use crate::native::{NativeCall, NativeReply, NativeWindowHandle, SetWindowPosCall};
use crate::store::{loaded, saved, GeometryStore};
use crate::tracker::GeometryTracker;
use crate::wallpaper::{advanced, started, WallpaperAttach};
use crate::zorder::{pin_call, set_window_pos};
use vstd::prelude::*;

verus! {

/// A notification of the tracked window.
#[derive(Clone, Copy, Debug, PartialEq, Eq, Structural)]
pub enum WindowEvent {
    /// The window has a new size.
    Resized { width: u32, height: u32 },
    /// The window has a new position.
    Moved { x: i32, y: i32 },
    /// The window gained (`true`) or lost (`false`) the focus.
    Focused(bool),
    /// Any other notification.
    Other,
}

/// What the host program is to do after a notification.
#[derive(Clone, Copy, Debug, PartialEq, Eq, Structural)]
pub enum Reaction {
    Nothing,
    /// Write the content of the store to the geometry file.
    WriteRecord,
    /// Make this call of `SetWindowPos`.
    Call(SetWindowPosCall),
}

/// How the window starts: where it is placed, and the first native call.
#[derive(Clone, Copy, Debug, PartialEq, Eq, Structural)]
pub struct Startup {
    pub geometry: WindowGeometry,
    pub call: Option<NativeCall>,
}

/// The state of a placement, as its contracts see it.
pub struct PlacementState {
    pub mode: PlacementMode,
    /// The last known geometry of the window.
    pub last: WindowGeometry,
    /// The content of the geometry file.
    pub slot: Option<Seq<u8>>,
    /// The attachment to the desktop's background, in `WallpaperLayer` mode.
    pub attach: Option<WallpaperAttach>,
}

/// The geometry that the window starts with: the stored record, or the
/// fallback where none can be read.
pub open spec fn startup_geometry(slot: Option<Seq<u8>>) -> WindowGeometry {
    match loaded(slot) {
        Some(g) => g,
        None => WindowGeometry::fallback(),
    }
}

/// The native call that a mode asks for at the start: a pin for the pinned
/// modes, the first step of an attachment for the wallpaper layer, none for
/// a normal window.
pub open spec fn startup_call(mode: PlacementMode, window: NativeWindowHandle) -> Option<
    NativeCall,
> {
    match mode {
        PlacementMode::Normal => None,
        PlacementMode::PinnedBelow => Some(NativeCall::SetWindowPos(pin_call(window, false))),
        PlacementMode::PinnedAbove => Some(NativeCall::SetWindowPos(pin_call(window, true))),
        PlacementMode::WallpaperLayer => Some(NativeCall::FindShell),
    }
}

/// The placement at the start.
pub open spec fn begun(
    slot: Option<Seq<u8>>,
    mode: PlacementMode,
    window: NativeWindowHandle,
) -> PlacementState {
    PlacementState {
        mode,
        last: startup_geometry(slot),
        slot,
        attach: if mode == PlacementMode::WallpaperLayer {
            Some(started(window))
        } else {
            None
        },
    }
}

/// The placement after a new geometry `g` was taken and saved.
pub open spec fn recorded(s: PlacementState, g: WindowGeometry) -> (PlacementState, Reaction) {
    (
        PlacementState { last: g, slot: saved(s.slot, g), ..s },
        if g.persistable() {
            Reaction::WriteRecord
        } else {
            Reaction::Nothing
        },
    )
}

/// The placement after a notification of `window`, and what is to be done.
pub open spec fn reacted(s: PlacementState, window: NativeWindowHandle, event: WindowEvent) -> (
    PlacementState,
    Reaction,
) {
    match event {
        WindowEvent::Resized { width, height } => recorded(s, s.last.resized(width, height)),
        WindowEvent::Moved { x, y } => recorded(s, s.last.moved(x, y)),
        WindowEvent::Focused(focused) => (
            s,
            match guard_calls(s.mode, window, focused) {
                Some(call) => Reaction::Call(call),
                None => Reaction::Nothing,
            },
        ),
        WindowEvent::Other => (s, Reaction::Nothing),
    }
}

/// The placement after the reply of a native call, and the next call. Only
/// an attachment has a next call; the reply of a pin is taken and dropped,
/// whether the pin succeeded or not.
pub open spec fn replied(s: PlacementState, reply: NativeReply) -> (
    PlacementState,
    Option<NativeCall>,
) {
    match s.attach {
        Some(attach) => (
            PlacementState { attach: Some(advanced(attach, reply).0), ..s },
            advanced(attach, reply).1,
        ),
        None => (s, None),
    }
}

/// The mode that a pin command asks for.
pub open spec fn pinned_mode(above: bool) -> PlacementMode {
    if above {
        PlacementMode::PinnedAbove
    } else {
        PlacementMode::PinnedBelow
    }
}

/// The placement after a pin command: the mode is the one that the command
/// asks for, and nothing else has changed.
pub open spec fn pinned(s: PlacementState, above: bool) -> PlacementState {
    PlacementState { mode: pinned_mode(above), ..s }
}

/// A pin command decides what the focus guard does from then on, whatever
/// the mode was before: after a pin above, a loss of focus pins nothing;
/// after a pin below, it pins to the bottom again.
pub proof fn lemma_pin_command_sets_the_guard(
    s: PlacementState,
    window: NativeWindowHandle,
    focused: bool,
)
    ensures
        reacted(pinned(s, true), window, WindowEvent::Focused(focused)) == (
            pinned(s, true),
            Reaction::Nothing,
        ),
        reacted(pinned(s, false), window, WindowEvent::Focused(false)) == (
            pinned(s, false),
            Reaction::Call(pin_call(window, false)),
        ),
        reacted(pinned(s, false), window, WindowEvent::Focused(true)) == (
            pinned(s, false),
            Reaction::Nothing,
        ),
{
}

/// The focus guard never sends a window to the bottom unless the placement
/// is in `PinnedBelow` mode and the focus was lost.
pub proof fn lemma_guard_pins_below_only(
    s: PlacementState,
    window: NativeWindowHandle,
    event: WindowEvent,
)
    ensures
        reacted(s, window, event).1 is Call ==> s.mode == PlacementMode::PinnedBelow && event
            == WindowEvent::Focused(false) && reacted(s, window, event).1 == Reaction::Call(
            pin_call(window, false),
        ),
        reacted(s, window, event).0.mode == s.mode,
{
}

/// After a size and a position were reported, in either order, the stored
/// record is the window's geometry, provided that the window has an area.
pub proof fn lemma_stored_record_follows_the_window(
    s: PlacementState,
    window: NativeWindowHandle,
    width: u32,
    height: u32,
    x: i32,
    y: i32,
)
    requires
        width > 0,
        height > 0,
    ensures
        ({
            let resized = reacted(s, window, WindowEvent::Resized { width, height }).0;
            let both = reacted(resized, window, WindowEvent::Moved { x, y }).0;
            both.last == (WindowGeometry { width, height, x, y }) && loaded(both.slot) == Some(
                both.last,
            )
        }),
        ({
            let moved = reacted(s, window, WindowEvent::Moved { x, y }).0;
            let both = reacted(moved, window, WindowEvent::Resized { width, height }).0;
            both.last == (WindowGeometry { width, height, x, y }) && loaded(both.slot) == Some(
                both.last,
            )
        }),
{
    let g = WindowGeometry { width, height, x, y };
    crate::store::lemma_saved_record_loads_back(
        reacted(s, window, WindowEvent::Resized { width, height }).0.slot,
        g,
    );
    crate::store::lemma_saved_record_loads_back(
        reacted(s, window, WindowEvent::Moved { x, y }).0.slot,
        g,
    );
}

/// A window that is pinned below the icons and loses the focus is pinned to
/// the bottom again, by exactly one call; the placement itself is unchanged.
pub proof fn lemma_focus_loss_pins_again(s: PlacementState, window: NativeWindowHandle)
    requires
        s.mode == PlacementMode::PinnedBelow,
    ensures
        reacted(s, window, WindowEvent::Focused(false)) == (
            s,
            Reaction::Call(pin_call(window, false)),
        ),
        reacted(s, window, WindowEvent::Focused(true)) == (s, Reaction::Nothing),
{
}

/// One window's placement.
pub struct Placement {
    mode: PlacementMode,
    tracker: GeometryTracker,
    store: GeometryStore,
    attach: Option<WallpaperAttach>,
}

impl View for Placement {
    type V = PlacementState;

    closed spec fn view(&self) -> PlacementState {
        PlacementState {
            mode: self.mode,
            last: self.tracker@,
            slot: self.store@,
            attach: self.attach,
        }
    }
}

impl Placement {
    /// Starts the placement of `window` from what the geometry file held;
    /// `None` where there was no file or it could not be read.
    pub fn start(contents: Option<Vec<u8>>, mode: PlacementMode, window: NativeWindowHandle) -> (r:
        (Placement, Startup))
        ensures
            r.0@ == begun(
                match contents {
                    Some(bytes) => Some(bytes@),
                    None => None,
                },
                mode,
                window,
            ),
            r.1.geometry == r.0@.last,
            r.1.call == startup_call(mode, window),
            contents.is_none() ==> r.1.geometry == WindowGeometry::fallback(),
    {
        let store = GeometryStore::open(contents);
        let geometry = match store.load() {
            Some(g) => g,
            None => WindowGeometry::default(),
        };
        let (attach, call) = match mode {
            PlacementMode::Normal => (None, None),
            PlacementMode::PinnedBelow => (
                None,
                Some(NativeCall::SetWindowPos(set_window_pos(window, false))),
            ),
            PlacementMode::PinnedAbove => (
                None,
                Some(NativeCall::SetWindowPos(set_window_pos(window, true))),
            ),
            PlacementMode::WallpaperLayer => {
                let (attempt, first) = WallpaperAttach::begin(window);
                (Some(attempt), Some(first))
            },
        };
        (
            Placement { mode, tracker: GeometryTracker::new(geometry), store, attach },
            Startup { geometry, call },
        )
    }

    /// Takes a notification of `window` and says what is to be done.
    pub fn on_window_event(&mut self, window: NativeWindowHandle, event: WindowEvent) -> (reaction:
        Reaction)
        ensures
            (final(self)@, reaction) == reacted(old(self)@, window, event),
            reaction matches Reaction::Call(c) ==> c.keeps_position() && c.keeps_size()
                && c.keeps_activation() && !c.shows(),
    {
        match event {
            WindowEvent::Resized { width, height } => {
                let record = self.tracker.on_resized(width, height);
                if self.store.save(&record) {
                    Reaction::WriteRecord
                } else {
                    Reaction::Nothing
                }
            },
            WindowEvent::Moved { x, y } => {
                let record = self.tracker.on_moved(x, y);
                if self.store.save(&record) {
                    Reaction::WriteRecord
                } else {
                    Reaction::Nothing
                }
            },
            WindowEvent::Focused(focused) => {
                match on_focus_changed(self.mode, window, focused) {
                    Some(call) => Reaction::Call(call),
                    None => Reaction::Nothing,
                }
            },
            WindowEvent::Other => Reaction::Nothing,
        }
    }

    /// Takes a pin command for `window`: gives the call that pins it above
    /// all other windows (`above`) or below them, and makes that the mode of
    /// the placement, so that the focus guard keeps the window where the
    /// command put it.
    pub fn pin(&mut self, window: NativeWindowHandle, above: bool) -> (call: SetWindowPosCall)
        ensures
            call == pin_call(window, above),
            call.keeps_position() && call.keeps_size() && call.keeps_activation(),
            !call.shows(),
            final(self)@ == pinned(old(self)@, above),
            final(self)@.mode == (if above {
                PlacementMode::PinnedAbove
            } else {
                PlacementMode::PinnedBelow
            }),
            final(self)@.last == old(self)@.last,
            final(self)@.slot == old(self)@.slot,
            final(self)@.attach == old(self)@.attach,
    {
        self.mode = if above {
            PlacementMode::PinnedAbove
        } else {
            PlacementMode::PinnedBelow
        };
        set_window_pos(window, above)
    }

    /// The command that pins `window` below the desktop icons. From now on
    /// the focus guard pins it there again whenever it loses the focus.
    pub fn set_window_below_icons(&mut self, window: NativeWindowHandle) -> (call:
        SetWindowPosCall)
        ensures
            call == pin_call(window, false),
            !call.shows(),
            final(self)@ == pinned(old(self)@, false),
            final(self)@.mode == PlacementMode::PinnedBelow,
    {
        self.pin(window, false)
    }

    /// The command that pins `window` above the desktop icons. From now on
    /// the focus guard leaves it alone.
    pub fn set_window_above_icons(&mut self, window: NativeWindowHandle) -> (call:
        SetWindowPosCall)
        ensures
            call == pin_call(window, true),
            !call.shows(),
            final(self)@ == pinned(old(self)@, true),
            final(self)@.mode == PlacementMode::PinnedAbove,
    {
        self.pin(window, true)
    }

    /// Takes the reply of the native call that was made last and gives the
    /// next call to make, if there is one.
    pub fn on_reply(&mut self, reply: NativeReply) -> (call: Option<NativeCall>)
        ensures
            (final(self)@, call) == replied(old(self)@, reply),
    {
        match self.attach {
            Some(mut attempt) => {
                let call = attempt.advance(reply);
                self.attach = Some(attempt);
                call
            },
            None => None,
        }
    }

    /// The bytes that the geometry file is to hold, if any.
    pub fn record(&self) -> (bytes: Option<&[u8]>)
        ensures
            match bytes {
                Some(b) => self@.slot == Some(b@),
                None => self@.slot.is_none(),
            },
    {
        self.store.contents()
    }

    /// The last known geometry of the window.
    pub fn geometry(&self) -> (g: WindowGeometry)
        ensures
            g == self@.last,
    {
        self.tracker.last()
    }

    /// The mode that the placement is in: the one it was started in, or the
    /// one that the last pin command asked for.
    pub fn mode(&self) -> (mode: PlacementMode)
        ensures
            mode == self@.mode,
    {
        self.mode
    }

    /// The attachment to the desktop's background, in `WallpaperLayer` mode.
    pub fn attachment(&self) -> (attach: Option<WallpaperAttach>)
        ensures
            attach == self@.attach,
    {
        self.attach
    }
}

} // verus!
