use vstd::prelude::*;

use crate::atom::{
    Atoms, MANAGER, _NET_SYSTEM_TRAY_S0, _NET_WM_WINDOW_TYPE, _NET_WM_WINDOW_TYPE_DOCK,
};
use crate::event::{classified, ready_after, Classifier, Event, RawEvent};

verus! {

/// Horizontal placement of the strip on the screen.
#[derive(Clone, Copy, Debug, PartialEq, Eq, Structural)]
pub enum HorizontalAlign {
    Left,
    Right,
}

/// Vertical placement of the strip on the screen.
#[derive(Clone, Copy, Debug, PartialEq, Eq, Structural)]
pub enum VerticalAlign {
    Top,
    Bottom,
}

/// Where the strip sits: the vertical and the horizontal choice.
pub type Position = (VerticalAlign, HorizontalAlign);

/// The strip in the top left corner.
pub const TOP_LEFT: Position = (VerticalAlign::Top, HorizontalAlign::Left);

/// The strip in the top right corner.
pub const TOP_RIGHT: Position = (VerticalAlign::Top, HorizontalAlign::Right);

/// The strip in the bottom left corner.
pub const BOTTOM_LEFT: Position = (VerticalAlign::Bottom, HorizontalAlign::Left);

/// The strip in the bottom right corner.
pub const BOTTOM_RIGHT: Position = (VerticalAlign::Bottom, HorizontalAlign::Right);

/// The largest width, in pixels, that a window can be given.
pub const MAX_STRIP_WIDTH: u32 = 65535;

/// Exit status of a tray that could not take the selection.
pub const EXIT_FAILED_SELECT: i32 = 11;

/// The window that denotes "no window" in the protocol.
pub const NO_WINDOW: u32 = 0;

/// The screen the strip is shown on.
#[derive(Clone, Copy, Debug, PartialEq, Eq, Structural)]
pub struct Screen {
    pub root: u32,
    pub width: u16,
    pub height: u16,
}

/// The identifiers of the well-known names the tray speaks of.
#[derive(Clone, Copy, Debug, PartialEq, Eq, Structural)]
pub struct TrayAtoms {
    pub selection: u32,
    pub window_type: u32,
    pub window_type_dock: u32,
    pub manager: u32,
}

/// Life cycle of the tray.
#[derive(Clone, Copy, Debug, PartialEq, Eq, Structural)]
pub enum Phase {
    /// The host window identifier is allocated; the window is not created yet.
    Created,
    /// The host window exists; the selection is not claimed yet.
    AwaitingSelection,
    /// The selection is held; icons are embedded and laid out.
    Active,
    /// The icons were handed back and the host window is being destroyed.
    Finishing,
    /// The destruction of the host window was confirmed.
    Terminated,
}

/// Which notifications about a window are asked for.
#[derive(Clone, Copy, Debug, PartialEq, Eq, Structural)]
pub enum EventMask {
    NoEvent,
    PropertyChange,
    StructureNotify,
}

/// A protocol request for the window server, in the order it is to be sent.
#[derive(Clone, Copy, Debug, PartialEq, Eq, Structural)]
pub enum Request {
    /// Create the input-output window `window` under `parent` at the origin,
    /// `size` pixels square, with a black background, asking for `events`.
    CreateWindow { window: u32, parent: u32, size: u16, events: EventMask },
    /// Replace the atom-valued property `property` of `window` by `value`.
    SetWindowType { window: u32, property: u32, value: u32 },
    /// Make `owner` the owner of `selection` as of `time`, then read the
    /// owner back and report it to `Tray::take_selection`.
    ClaimSelection { owner: u32, selection: u32, time: u32 },
    /// Send to `root`, with the structure-notify mask, the client message of
    /// type `message_type` whose 32-bit words are `time`, `selection`,
    /// `owner`, 0 and 0.
    Announce { root: u32, message_type: u32, time: u32, selection: u32, owner: u32 },
    /// Replace the notifications asked for on `window` by `events`.
    SelectEvents { window: u32, events: EventMask },
    /// Move `window` under `parent`, at offset (`x`, `y`).
    Reparent { window: u32, parent: u32, x: i32, y: i32 },
    /// Show `window`.
    MapWindow { window: u32 },
    /// Hide `window`.
    UnmapWindow { window: u32 },
    /// Move `window` to (`x`, `y`) within its parent.
    MoveWindow { window: u32, x: i32, y: i32 },
    /// Read the size of `window` and report it to `Tray::force_size`.
    QueryGeometry { window: u32 },
    /// Give `window` the size `width` by `height`.
    Resize { window: u32, width: u16, height: u16 },
    /// Move `window` to (`x`, `y`) and give it the width `width`.
    Place { window: u32, x: i32, y: i32, width: u16 },
    /// Destroy `window`.
    Destroy { window: u32 },
}

/// The state of a tray, as its contracts speak of it.
pub struct TrayState {
    pub window: u32,
    pub screen: Screen,
    pub atoms: TrayAtoms,
    pub icon_size: u16,
    pub position: Position,
    pub children: Seq<u32>,
    pub timestamp: u32,
    pub phase: Phase,
    pub ready: bool,
}

/// The invariant of every tray: each icon is embedded once, the host is not
/// one of its own icons, the strip fits in a window, and nothing is recorded
/// before the selection is held.
pub open spec fn state_wf(v: TrayState) -> bool {
    &&& v.children.no_duplicates()
    &&& !v.children.contains(v.window)
    &&& strip_width(v) <= MAX_STRIP_WIDTH
    &&& (v.phase == Phase::Created || v.phase == Phase::AwaitingSelection) ==> v.timestamp == 0
        && v.children.len() == 0
}

/// Length of the strip: one icon edge per embedded icon.
pub open spec fn strip_width(v: TrayState) -> int {
    v.children.len() * v.icon_size
}

/// Horizontal position of the host window.
pub open spec fn host_x(v: TrayState) -> int {
    match v.position.1 {
        HorizontalAlign::Left => 0,
        HorizontalAlign::Right => v.screen.width - strip_width(v),
    }
}

/// Vertical position of the host window.
pub open spec fn host_y(v: TrayState) -> int {
    match v.position.0 {
        VerticalAlign::Top => 0,
        VerticalAlign::Bottom => v.screen.height - v.icon_size,
    }
}

/// The requests that put each icon of `children` in its slot of the strip,
/// the icon at index `i` at offset `i` times `icon_size`.
pub open spec fn child_moves(children: Seq<u32>, icon_size: u16) -> Seq<Request>
    decreases children.len(),
{
    if children.len() == 0 {
        seq![]
    } else {
        child_moves(children.drop_last(), icon_size) + seq![
            Request::MoveWindow {
                window: children.last(),
                x: ((children.len() - 1) * icon_size) as i32,
                y: 0,
            },
        ]
    }
}

/// The requests that lay the strip out: hide the host window when the strip
/// is empty, else place it and show it; then put every icon in its slot.
pub open spec fn layout_requests(v: TrayState) -> Seq<Request> {
    (if strip_width(v) == 0 {
        seq![Request::UnmapWindow { window: v.window }]
    } else {
        seq![
            Request::Place {
                window: v.window,
                x: host_x(v) as i32,
                y: host_y(v) as i32,
                width: strip_width(v) as u16,
            },
            Request::MapWindow { window: v.window },
        ]
    }) + child_moves(v.children, v.icon_size)
}

/// The requests that bring `window` back to the icon size: with a known size
/// `dimensions`, a resize exactly when it is not the icon size; with no known
/// size, a query of the size, whose answer decides.
pub open spec fn resize_requests(v: TrayState, window: u32, dimensions: Option<(u16, u16)>) -> Seq<
    Request,
> {
    match dimensions {
        None => seq![Request::QueryGeometry { window }],
        Some(d) => if d == (v.icon_size, v.icon_size) {
            seq![]
        } else {
            seq![Request::Resize { window, width: v.icon_size, height: v.icon_size }]
        },
    }
}

/// The host window and its setup, as `Tray::create` asks for them.
pub open spec fn create_requests(v: TrayState) -> Seq<Request> {
    if v.phase == Phase::Created {
        seq![
            Request::CreateWindow {
                window: v.window,
                parent: v.screen.root,
                size: v.icon_size,
                events: EventMask::PropertyChange,
            },
            Request::SetWindowType {
                window: v.window,
                property: v.atoms.window_type,
                value: v.atoms.window_type_dock,
            },
        ]
    } else {
        seq![]
    }
}

/// The state after `Tray::create`.
pub open spec fn created(v: TrayState) -> TrayState {
    if v.phase == Phase::Created {
        TrayState { phase: Phase::AwaitingSelection, ..v }
    } else {
        v
    }
}

/// Whether `window` can join the strip: the selection is held, the window is
/// neither the host nor embedded already, and the longer strip still fits.
pub open spec fn can_adopt(v: TrayState, window: u32) -> bool {
    &&& v.phase == Phase::Active
    &&& window != v.window
    &&& !v.children.contains(window)
    &&& (v.children.len() + 1) * v.icon_size <= MAX_STRIP_WIDTH
}

/// The state after `Tray::adopt`: the window is appended to the strip.
pub open spec fn adopted(v: TrayState, window: u32) -> TrayState {
    if can_adopt(v, window) {
        TrayState { children: v.children.push(window), ..v }
    } else {
        v
    }
}

/// The requests of `Tray::adopt`: watch the window, move it into the host at
/// the end of the strip, show it, ask for its size (the answer goes to
/// `Tray::force_size`, which resizes it only when it is not the icon size),
/// then lay out.
pub open spec fn adopt_requests(v: TrayState, window: u32) -> Seq<Request> {
    if can_adopt(v, window) {
        seq![
            Request::SelectEvents { window, events: EventMask::StructureNotify },
            Request::Reparent { window, parent: v.window, x: strip_width(v) as i32, y: 0 },
            Request::MapWindow { window },
        ] + resize_requests(v, window, None) + layout_requests(adopted(v, window))
    } else {
        seq![]
    }
}

/// The state after `Tray::forget`: the window leaves the strip, the others
/// keep their order.
pub open spec fn forgotten(v: TrayState, window: u32) -> TrayState {
    if v.children.contains(window) {
        TrayState { children: v.children.remove(v.children.index_of(window)), ..v }
    } else {
        v
    }
}

/// The requests of `Tray::forget`: a new layout when the window was embedded.
pub open spec fn forget_requests(v: TrayState, window: u32) -> Seq<Request> {
    if v.children.contains(window) {
        layout_requests(forgotten(v, window))
    } else {
        seq![]
    }
}

/// Whether a claim of the selection succeeded: the tray was waiting for it
/// and the owner read back is the host window.
pub open spec fn claim_succeeds(v: TrayState, owner: u32) -> bool {
    v.phase == Phase::AwaitingSelection && owner == v.window
}

/// The state after `Tray::take_selection`.
pub open spec fn selection_taken(v: TrayState, timestamp: u32, owner: u32) -> TrayState {
    if claim_succeeds(v, owner) {
        TrayState { timestamp, phase: Phase::Active, ..v }
    } else {
        v
    }
}

/// The requests of `Tray::take_selection`: the announcement of the new owner.
pub open spec fn announce_requests(v: TrayState, timestamp: u32, owner: u32) -> Seq<Request> {
    if claim_succeeds(v, owner) {
        seq![
            Request::Announce {
                root: v.screen.root,
                message_type: v.atoms.manager,
                time: timestamp,
                selection: v.atoms.selection,
                owner: v.window,
            },
        ]
    } else {
        seq![]
    }
}

/// The requests that hand `children` back to `root`, in order: each stops
/// being watched, is hidden and is moved under the root at the origin.
pub open spec fn detach_requests(children: Seq<u32>, root: u32) -> Seq<Request>
    decreases children.len(),
{
    if children.len() == 0 {
        seq![]
    } else {
        let c = children.last();
        detach_requests(children.drop_last(), root) + seq![
            Request::SelectEvents { window: c, events: EventMask::NoEvent },
            Request::UnmapWindow { window: c },
            Request::Reparent { window: c, parent: root, x: 0, y: 0 },
        ]
    }
}

/// Whether the host window exists and is not being destroyed yet.
pub open spec fn host_alive(v: TrayState) -> bool {
    v.phase == Phase::AwaitingSelection || v.phase == Phase::Active
}

/// The state after `Tray::finish`.
pub open spec fn finished(v: TrayState) -> TrayState {
    if host_alive(v) {
        TrayState { phase: Phase::Finishing, ..v }
    } else if v.phase == Phase::Created {
        TrayState { phase: Phase::Terminated, ..v }
    } else {
        v
    }
}

/// The requests of `Tray::finish`: hand every icon back, then watch the host
/// window and destroy it.
pub open spec fn finish_requests(v: TrayState) -> Seq<Request> {
    if host_alive(v) {
        detach_requests(v.children, v.screen.root) + seq![
            Request::SelectEvents { window: v.window, events: EventMask::StructureNotify },
            Request::Destroy { window: v.window },
        ]
    } else {
        seq![]
    }
}

/// The tray after the classifier has looked at `raw`.
pub open spec fn after_classifying(v: TrayState, raw: RawEvent) -> TrayState {
    TrayState { ready: ready_after(v.window, v.ready, raw), ..v }
}

/// What `Tray::handle_event` does with `raw`: the next state, the requests,
/// and the exit status once the shutdown is confirmed.
///
/// While finishing, only the destruction of the host window counts, and it
/// ends the tray with status 0. While the host window is alive, losing the
/// selection starts the shutdown, an icon moved elsewhere is forgotten, and
/// the classified events drive the rest: readiness claims the selection,
/// and, while the selection is held, requests embed, destructions forget and
/// configurations of icons restore the icon size.
pub open spec fn handled(v: TrayState, raw: RawEvent) -> (TrayState, Seq<Request>, Option<i32>) {
    if v.phase == Phase::Finishing {
        if raw == (RawEvent::DestroyNotify { window: v.window }) {
            (TrayState { phase: Phase::Terminated, ..v }, seq![], Some(0i32))
        } else {
            (v, seq![], None)
        }
    } else if !host_alive(v) {
        (v, seq![], None)
    } else {
        match raw {
            RawEvent::SelectionClear { .. } => {
                if v.phase == Phase::Active {
                    (finished(v), finish_requests(v), None)
                } else {
                    (v, seq![], None)
                }
            },
            RawEvent::ReparentNotify { window, parent } => {
                if v.phase == Phase::Active && parent != v.window {
                    (forgotten(v, window), forget_requests(v, window), None)
                } else {
                    (v, seq![], None)
                }
            },
            _ => {
                let w = after_classifying(v, raw);
                match classified(v.window, v.ready, raw) {
                    Some(Event::Ready(time)) => {
                        if v.phase == Phase::AwaitingSelection {
                            (
                                w,
                                seq![
                                    Request::ClaimSelection {
                                        owner: v.window,
                                        selection: v.atoms.selection,
                                        time,
                                    },
                                ],
                                None,
                            )
                        } else {
                            (w, seq![], None)
                        }
                    },
                    Some(Event::ChildRequest(window)) => (
                        adopted(w, window),
                        adopt_requests(w, window),
                        None,
                    ),
                    Some(Event::ChildDestroyed(window)) => {
                        if v.phase == Phase::Active {
                            (forgotten(w, window), forget_requests(w, window), None)
                        } else {
                            (w, seq![], None)
                        }
                    },
                    Some(Event::ChildConfigured(window, dimensions)) => {
                        if v.phase == Phase::Active && v.children.contains(window) {
                            (w, resize_requests(w, window, dimensions), None)
                        } else {
                            (w, seq![], None)
                        }
                    },
                    None => (w, seq![], None),
                }
            },
        }
    }
}

/// The tray protocol engine: the host window, the configuration of the strip,
/// the embedded icons in strip order, the selection timestamp and the phase.
/// Every operation appends the protocol requests it needs to `out`, to be
/// sent in order.
pub struct Tray {
    window: u32,
    screen: Screen,
    atoms: TrayAtoms,
    icon_size: u16,
    position: Position,
    children: Vec<u32>,
    timestamp: u32,
    phase: Phase,
    classifier: Classifier,
}

impl View for Tray {
    type V = TrayState;

    closed spec fn view(&self) -> TrayState {
        TrayState {
            window: self.window,
            screen: self.screen,
            atoms: self.atoms,
            icon_size: self.icon_size,
            position: self.position,
            children: self.children@,
            timestamp: self.timestamp,
            phase: self.phase,
            ready: self.classifier.has_signaled_ready(),
        }
    }
}

impl Tray {
    /// The invariant of `state_wf`, with the classifier watching the host.
    pub closed spec fn wf(&self) -> bool {
        &&& state_wf(self@)
        &&& self.classifier.host() == self.window
    }

    /// Every well-formed tray satisfies `state_wf`: for instance, a tray
    /// with icons, or with a timestamp other than 0, holds or held the
    /// selection.
    pub proof fn lemma_wf(&self)
        requires
            self.wf(),
        ensures
            state_wf(self@),
    {
    }

    /// A tray whose host window will be `window`, shown on `screen` with
    /// icons `icon_size` pixels square placed at `position`. The identifiers
    /// of the well-known names are taken from `atoms`; without all four there
    /// is no tray.
    pub fn new(window: u32, screen: Screen, atoms: &Atoms, icon_size: u16, position: Position) -> (r:
        Option<Tray>)
        ensures
            r is Some <==> atoms@.contains_key(_NET_SYSTEM_TRAY_S0@) && atoms@.contains_key(
                _NET_WM_WINDOW_TYPE@,
            ) && atoms@.contains_key(_NET_WM_WINDOW_TYPE_DOCK@) && atoms@.contains_key(
                MANAGER@,
            ),
            r matches Some(t) ==> t.wf() && t@ == (TrayState {
                window,
                screen,
                atoms: TrayAtoms {
                    selection: atoms@[_NET_SYSTEM_TRAY_S0@],
                    window_type: atoms@[_NET_WM_WINDOW_TYPE@],
                    window_type_dock: atoms@[_NET_WM_WINDOW_TYPE_DOCK@],
                    manager: atoms@[MANAGER@],
                },
                icon_size,
                position,
                children: Seq::empty(),
                timestamp: 0,
                phase: Phase::Created,
                ready: false,
            }),
    {
        let selection = atoms.get(_NET_SYSTEM_TRAY_S0)?;
        let window_type = atoms.get(_NET_WM_WINDOW_TYPE)?;
        let window_type_dock = atoms.get(_NET_WM_WINDOW_TYPE_DOCK)?;
        let manager = atoms.get(MANAGER)?;
        let r = Tray {
            window,
            screen,
            atoms: TrayAtoms { selection, window_type, window_type_dock, manager },
            icon_size,
            position,
            children: Vec::new(),
            timestamp: 0,
            phase: Phase::Created,
            classifier: Classifier::new(window),
        };
        proof {
            assert(r@.children =~= Seq::<u32>::empty());
        }
        Some(r)
    }

    /// Creates the host window and marks it as a dock; after that the tray
    /// waits for the moment to claim the selection. Only the first call has
    /// an effect.
    pub fn create(&mut self, out: &mut Vec<Request>)
        requires
            old(self).wf(),
        ensures
            final(self).wf(),
            final(self)@ == created(old(self)@),
            final(out)@ == old(out)@ + create_requests(old(self)@),
    {
        if self.phase == Phase::Created {
            out.push(
                Request::CreateWindow {
                    window: self.window,
                    parent: self.screen.root,
                    size: self.icon_size,
                    events: EventMask::PropertyChange,
                },
            );
            out.push(
                Request::SetWindowType {
                    window: self.window,
                    property: self.atoms.window_type,
                    value: self.atoms.window_type_dock,
                },
            );
            self.phase = Phase::AwaitingSelection;
        }
    }

    /// Whether the selection is free, given the owner read from the server.
    pub fn is_selection_available(&self, owner: u32) -> (r: bool)
        ensures
            r == (owner == NO_WINDOW),
    {
        owner == NO_WINDOW
    }

    /// The strip length, in pixels.
    fn strip_width(&self) -> (r: u32)
        requires
            self.wf(),
        ensures
            r == strip_width(self@),
    {
        if self.icon_size == 0 {
            proof {
                assert(strip_width(self@) == 0) by (nonlinear_arith)
                    requires
                        strip_width(self@) == self@.children.len() * self@.icon_size,
                        self@.icon_size == 0,
                ;
            }
            0
        } else {
            proof {
                let n = self@.children.len() as int;
                let s = self@.icon_size as int;
                assert(n <= MAX_STRIP_WIDTH) by (nonlinear_arith)
                    requires
                        n * s <= MAX_STRIP_WIDTH,
                        s >= 1,
                        n >= 0,
                ;
            }
            (self.children.len() as u32) * (self.icon_size as u32)
        }
    }

    /// Brings `window` back to the icon size. With its size `dimensions`
    /// known, a resize is asked for exactly when that is not the icon size;
    /// with no size known, its size is asked for, to be reported back here.
    pub fn force_size(&self, window: u32, dimensions: Option<(u16, u16)>, out: &mut Vec<Request>)
        ensures
            final(out)@ == old(out)@ + resize_requests(self@, window, dimensions),
            dimensions is None ==> final(out)@ == old(out)@.push(
                Request::QueryGeometry { window },
            ),
            dimensions matches Some(d) ==> (final(out)@ == old(out)@.push(
                Request::Resize { window, width: self@.icon_size, height: self@.icon_size },
            ) <==> d != (self@.icon_size, self@.icon_size)),
            dimensions matches Some(d) ==> (final(out)@ == old(out)@ <==> d == (
            self@.icon_size,
            self@.icon_size,
            )),
    {
        match dimensions {
            None => {
                out.push(Request::QueryGeometry { window });
            },
            Some((width, height)) => {
                if width != self.icon_size || height != self.icon_size {
                    out.push(
                        Request::Resize { window, width: self.icon_size, height: self.icon_size },
                    );
                }
            },
        }
        proof {
            assert(old(out)@.push(
                Request::Resize { window, width: self@.icon_size, height: self@.icon_size },
            ).len() != old(out)@.len());
        }
    }

    /// Lays the strip out again from the number of icons alone: hides the
    /// host window when there is none, else places it and shows it.
    pub fn reposition(&self, out: &mut Vec<Request>)
        requires
            self.wf(),
        ensures
            final(out)@ == old(out)@ + layout_requests(self@),
    {
        let width = self.strip_width();
        if width > 0 {
            let y: i32 = match self.position.0 {
                VerticalAlign::Top => 0,
                VerticalAlign::Bottom => self.screen.height as i32 - self.icon_size as i32,
            };
            let x: i32 = match self.position.1 {
                HorizontalAlign::Left => 0,
                HorizontalAlign::Right => self.screen.width as i32 - width as i32,
            };
            out.push(Request::Place { window: self.window, x, y, width: width as u16 });
            out.push(Request::MapWindow { window: self.window });
        } else {
            out.push(Request::UnmapWindow { window: self.window });
        }
        let ghost start = out@;
        let mut i: usize = 0;
        let mut offset: u32 = 0;
        while i < self.children.len()
            invariant
                self.wf(),
                i <= self.children@.len(),
                offset == i * self.icon_size,
                out@ == start + child_moves(self.children@.take(i as int), self.icon_size),
            decreases self.children@.len() - i,
        {
            proof {
                let n = self.children@.len() as int;
                let s = self.icon_size as int;
                assert((i + 1) * s <= n * s) by (nonlinear_arith)
                    requires
                        i + 1 <= n,
                        s >= 0,
                ;
                assert((i + 1) * s == i * s + s) by (nonlinear_arith);
                let t = self.children@.take(i + 1);
                assert(t.drop_last() =~= self.children@.take(i as int));
            }
            out.push(Request::MoveWindow { window: self.children[i], x: offset as i32, y: 0 });
            offset = offset + self.icon_size as u32;
            i = i + 1;
        }
        proof {
            assert(self.children@.take(i as int) =~= self.children@);
        }
    }

    /// The host window.
    pub fn window(&self) -> (r: u32)
        ensures
            r == self@.window,
    {
        self.window
    }

    /// The edge length of every icon.
    pub fn icon_size(&self) -> (r: u16)
        ensures
            r == self@.icon_size,
    {
        self.icon_size
    }

    /// The embedded icons, in strip order.
    pub fn children(&self) -> (r: &[u32])
        ensures
            r@ == self@.children,
    {
        self.children.as_slice()
    }

    /// The timestamp at which the selection was acquired; 0 before that.
    pub fn timestamp(&self) -> (r: u32)
        ensures
            r == self@.timestamp,
    {
        self.timestamp
    }

    /// The current phase.
    pub fn phase(&self) -> (r: Phase)
        ensures
            r == self@.phase,
    {
        self.phase
    }
    /// Records the outcome of a claim of the selection at `timestamp`, given
    /// the `owner` read back from the server afterwards. The claim succeeds
    /// only when the tray was waiting for it and the owner is the host
    /// window: then the timestamp is kept, the tray becomes active and the
    /// new owner is announced. Otherwise nothing changes.
    pub fn take_selection(&mut self, timestamp: u32, owner: u32, out: &mut Vec<Request>) -> (r:
        bool)
        requires
            old(self).wf(),
        ensures
            final(self).wf(),
            r == claim_succeeds(old(self)@, owner),
            final(self)@ == selection_taken(old(self)@, timestamp, owner),
            final(out)@ == old(out)@ + announce_requests(old(self)@, timestamp, owner),
    {
        let ok = self.phase == Phase::AwaitingSelection && owner == self.window;
        if ok {
            self.timestamp = timestamp;
            self.phase = Phase::Active;
            out.push(
                Request::Announce {
                    root: self.screen.root,
                    message_type: self.atoms.manager,
                    time: timestamp,
                    selection: self.atoms.selection,
                    owner: self.window,
                },
            );
        }
        ok
    }

    /// Reports the owner read back after a `ClaimSelection` request: does
    /// what `take_selection` does, and gives the exit status
    /// `EXIT_FAILED_SELECT` when the claim failed.
    pub fn selection_claimed(&mut self, timestamp: u32, owner: u32, out: &mut Vec<Request>) -> (r:
        Option<i32>)
        requires
            old(self).wf(),
        ensures
            final(self).wf(),
            r == (if claim_succeeds(old(self)@, owner) {
                None
            } else {
                Some(EXIT_FAILED_SELECT)
            }),
            final(self)@ == selection_taken(old(self)@, timestamp, owner),
            final(out)@ == old(out)@ + announce_requests(old(self)@, timestamp, owner),
    {
        if self.take_selection(timestamp, owner, out) {
            None
        } else {
            Some(EXIT_FAILED_SELECT)
        }
    }

    /// Embeds `window` at the end of the strip and lays the strip out again.
    /// Nothing happens unless the selection is held, the window is not the
    /// host nor embedded already, and the strip has room for one more icon.
    pub fn adopt(&mut self, window: u32, out: &mut Vec<Request>)
        requires
            old(self).wf(),
        ensures
            final(self).wf(),
            final(self)@ == adopted(old(self)@, window),
            final(out)@ == old(out)@ + adopt_requests(old(self)@, window),
    {
        if self.phase != Phase::Active || window == self.window || self.contains(window) {
            return ;
        }
        let offset = self.strip_width();
        if offset as u64 + self.icon_size as u64 > MAX_STRIP_WIDTH as u64 {
            proof {
                let n = self@.children.len() as int;
                let s = self@.icon_size as int;
                assert((n + 1) * s == n * s + s) by (nonlinear_arith);
            }
            return ;
        }
        proof {
            let n = self@.children.len() as int;
            let s = self@.icon_size as int;
            assert((n + 1) * s == n * s + s) by (nonlinear_arith);
        }
        let ghost before = self@;
        let ghost start = out@;
        out.push(Request::SelectEvents { window, events: EventMask::StructureNotify });
        out.push(Request::Reparent { window, parent: self.window, x: offset as i32, y: 0 });
        out.push(Request::MapWindow { window });
        self.force_size(window, None, out);
        self.children.push(window);
        proof {
            assert(self@ == adopted(before, window));
            assert(self@.children.no_duplicates()) by {
                assert forall|i: int, j: int|
                    0 <= i < self@.children.len() && 0 <= j < self@.children.len() && i != j
                        implies self@.children[i] != self@.children[j] by {
                    if i < before.children.len() && j < before.children.len() {
                    } else if i < before.children.len() {
                        assert(before.children.contains(before.children[i]));
                    } else {
                        assert(before.children.contains(before.children[j]));
                    }
                }
            }
            assert(!self@.children.contains(self.window)) by {
                if self@.children.contains(self.window) {
                    let k = choose|k: int|
                        0 <= k < self@.children.len() && self@.children[k] == self.window;
                    if k < before.children.len() {
                        assert(before.children.contains(before.children[k]));
                    }
                }
            }
        }
        self.reposition(out);
        proof {
            assert(out@ =~= start + adopt_requests(before, window));
        }
    }

    /// Whether `window` is embedded.
    fn contains(&self, window: u32) -> (r: bool)
        ensures
            r == self@.children.contains(window),
    {
        match self.index_of(window) {
            Some(_) => true,
            None => false,
        }
    }

    /// The place of `window` in the strip, if it is embedded.
    fn index_of(&self, window: u32) -> (r: Option<usize>)
        ensures
            r matches Some(i) ==> i < self@.children.len() && self@.children[i as int] == window,
            r is None <==> !self@.children.contains(window),
    {
        let mut i: usize = 0;
        while i < self.children.len()
            invariant
                i <= self.children@.len(),
                forall|k: int| 0 <= k < i ==> self.children@[k] != window,
            decreases self.children@.len() - i,
        {
            if self.children[i] == window {
                return Some(i);
            }
            i = i + 1;
        }
        None
    }

    /// Takes `window` out of the strip, keeping the order of the others, and
    /// lays the strip out again. A window that is not embedded is ignored.
    pub fn forget(&mut self, window: u32, out: &mut Vec<Request>)
        requires
            old(self).wf(),
        ensures
            final(self).wf(),
            final(self)@ == forgotten(old(self)@, window),
            final(out)@ == old(out)@ + forget_requests(old(self)@, window),
    {
        match self.index_of(window) {
            None => {},
            Some(i) => {
                let ghost before = self@;
                proof {
                    assert(before.children.contains(window));
                    let j = before.children.index_of(window);
                    assert(before.children[j] == window);
                    assert(j == i);
                }
                self.children.remove(i);
                proof {
                    assert(self@ == forgotten(before, window));
                    let n = before.children.len() as int;
                    let s = before.icon_size as int;
                    assert((n - 1) * s <= n * s) by (nonlinear_arith)
                        requires
                            n >= 1,
                            s >= 0,
                    ;
                    assert(self@.children.no_duplicates()) by {
                        assert forall|a: int, b: int|
                            0 <= a < self@.children.len() && 0 <= b < self@.children.len() && a
                                != b implies self@.children[a] != self@.children[b] by {
                            let a2 = if a < i { a } else { a + 1 };
                            let b2 = if b < i { b } else { b + 1 };
                            assert(self@.children[a] == before.children[a2]);
                            assert(self@.children[b] == before.children[b2]);
                        }
                    }
                    assert(!self@.children.contains(self.window)) by {
                        if self@.children.contains(self.window) {
                            let k = choose|k: int|
                                0 <= k < self@.children.len() && self@.children[k]
                                    == self.window;
                            let k2 = if k < i { k } else { k + 1 };
                            assert(before.children[k2] == self.window);
                        }
                    }
                }
                self.reposition(out);
            },
        }
    }

    /// Starts the shutdown: every icon is handed back to the root window at
    /// the origin, then the host window is watched and destroyed, and the
    /// tray waits for the confirmation. A tray whose host window was never
    /// created ends at once; one that is finishing already is left as it is.
    pub fn finish(&mut self, out: &mut Vec<Request>)
        requires
            old(self).wf(),
        ensures
            final(self).wf(),
            final(self)@ == finished(old(self)@),
            final(out)@ == old(out)@ + finish_requests(old(self)@),
    {
        if self.phase == Phase::Created {
            self.phase = Phase::Terminated;
            return ;
        }
        if self.phase != Phase::AwaitingSelection && self.phase != Phase::Active {
            return ;
        }
        let ghost start = out@;
        let root = self.screen.root;
        let mut i: usize = 0;
        while i < self.children.len()
            invariant
                i <= self.children@.len(),
                out@ == start + detach_requests(self.children@.take(i as int), root),
            decreases self.children@.len() - i,
        {
            let window = self.children[i];
            out.push(Request::SelectEvents { window, events: EventMask::NoEvent });
            out.push(Request::UnmapWindow { window });
            out.push(Request::Reparent { window, parent: root, x: 0, y: 0 });
            proof {
                let t = self.children@.take(i + 1);
                assert(t.drop_last() =~= self.children@.take(i as int));
                assert(t.last() == window);
            }
            i = i + 1;
        }
        proof {
            assert(self.children@.take(i as int) =~= self.children@);
        }
        out.push(Request::SelectEvents { window: self.window, events: EventMask::StructureNotify });
        out.push(Request::Destroy { window: self.window });
        self.phase = Phase::Finishing;
        proof {
            assert(out@ =~= start + finish_requests(old(self)@));
        }
    }
    /// Reacts to one notification from the window server (see `handled`).
    /// Returns the exit status once the destruction of the host window is
    /// confirmed during the shutdown.
    pub fn handle_event(&mut self, raw: &RawEvent, out: &mut Vec<Request>) -> (r: Option<i32>)
        requires
            old(self).wf(),
        ensures
            final(self).wf(),
            final(self)@ == handled(old(self)@, *raw).0,
            final(out)@ == old(out)@ + handled(old(self)@, *raw).1,
            r == handled(old(self)@, *raw).2,
    {
        if self.phase == Phase::Finishing {
            self.handle_event_finishing(raw)
        } else if self.phase == Phase::AwaitingSelection || self.phase == Phase::Active {
            self.handle_event_normal(raw, out);
            None
        } else {
            None
        }
    }

    fn handle_event_finishing(&mut self, raw: &RawEvent) -> (r: Option<i32>)
        requires
            old(self).wf(),
            old(self)@.phase == Phase::Finishing,
        ensures
            final(self).wf(),
            final(self)@ == handled(old(self)@, *raw).0,
            handled(old(self)@, *raw).1 == Seq::<Request>::empty(),
            r == handled(old(self)@, *raw).2,
    {
        match raw {
            RawEvent::DestroyNotify { window } => {
                if *window == self.window {
                    self.phase = Phase::Terminated;
                    return Some(0);
                }
            },
            _ => {},
        }
        None
    }

    fn handle_event_normal(&mut self, raw: &RawEvent, out: &mut Vec<Request>)
        requires
            old(self).wf(),
            host_alive(old(self)@),
        ensures
            final(self).wf(),
            final(self)@ == handled(old(self)@, *raw).0,
            final(out)@ == old(out)@ + handled(old(self)@, *raw).1,
            handled(old(self)@, *raw).2 is None,
    {
        match raw {
            RawEvent::SelectionClear { .. } => {
                if self.phase == Phase::Active {
                    self.finish(out);
                }
                return ;
            },
            RawEvent::ReparentNotify { window, parent } => {
                if self.phase == Phase::Active && *parent != self.window {
                    self.forget(*window, out);
                }
                return ;
            },
            _ => {},
        }
        let ghost before = self@;
        let event = self.classifier.classify(raw);
        assert(self@ == after_classifying(before, *raw));
        match event {
            Some(Event::Ready(time)) => {
                if self.phase == Phase::AwaitingSelection {
                    out.push(
                        Request::ClaimSelection {
                            owner: self.window,
                            selection: self.atoms.selection,
                            time,
                        },
                    );
                }
            },
            Some(Event::ChildRequest(window)) => {
                self.adopt(window, out);
            },
            Some(Event::ChildDestroyed(window)) => {
                if self.phase == Phase::Active {
                    self.forget(window, out);
                }
            },
            Some(Event::ChildConfigured(window, dimensions)) => {
                if self.phase == Phase::Active && self.contains(window) {
                    self.force_size(window, dimensions, out);
                }
            },
            None => {},
        }
    }
}

} // verus!
