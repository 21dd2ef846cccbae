use rustray::atom::{
    Atoms, MANAGER, _NET_SYSTEM_TRAY_S0, _NET_WM_WINDOW_TYPE, _NET_WM_WINDOW_TYPE_DOCK,
};
use rustray::event::RawEvent;
use rustray::tray::{
    EventMask, Phase, Position, Request, Screen, Tray, BOTTOM_RIGHT, EXIT_FAILED_SELECT, TOP_LEFT,
    TOP_RIGHT,
};

const HOST: u32 = 1;
const ROOT: u32 = 2;
const SELECTION: u32 = 10;
const MANAGER_ATOM: u32 = 13;

fn atoms() -> Atoms {
    let mut atoms = Atoms::new();
    atoms.insert(_NET_SYSTEM_TRAY_S0, SELECTION);
    atoms.insert(_NET_WM_WINDOW_TYPE, 11);
    atoms.insert(_NET_WM_WINDOW_TYPE_DOCK, 12);
    atoms.insert(MANAGER, MANAGER_ATOM);
    atoms
}

fn screen() -> Screen {
    Screen { root: ROOT, width: 1000, height: 800 }
}

fn new_tray(icon_size: u16, position: Position) -> Tray {
    Tray::new(HOST, screen(), &atoms(), icon_size, position).unwrap()
}

/// A tray that holds the selection.
fn active_tray(icon_size: u16, position: Position) -> Tray {
    let mut tray = new_tray(icon_size, position);
    let mut out = Vec::new();
    tray.create(&mut out);
    tray.handle_event(&RawEvent::PropertyNotify { window: HOST, time: 5 }, &mut out);
    assert!(tray.take_selection(5, HOST, &mut out));
    tray
}

fn request_child(tray: &mut Tray, window: u32) -> Vec<Request> {
    let mut out = Vec::new();
    let raw = RawEvent::ClientMessage { window: HOST, data: [0, 0, window, 0, 0] };
    assert_eq!(tray.handle_event(&raw, &mut out), None);
    out
}

fn host_place(out: &[Request]) -> Option<(i32, i32, u16)> {
    out.iter().rev().find_map(|r| match r {
        Request::Place { window, x, y, width } if *window == HOST => Some((*x, *y, *width)),
        _ => None,
    })
}

#[test]
fn new_needs_every_well_known_name() {
    let mut partial = Atoms::new();
    partial.insert(_NET_SYSTEM_TRAY_S0, SELECTION);
    partial.insert(MANAGER, MANAGER_ATOM);
    assert!(Tray::new(HOST, screen(), &partial, 20, TOP_LEFT).is_none());
    let tray = new_tray(20, TOP_LEFT);
    assert_eq!(tray.phase(), Phase::Created);
    assert_eq!(tray.timestamp(), 0);
    assert!(tray.children().is_empty());
    assert_eq!(tray.window(), HOST);
    assert_eq!(tray.icon_size(), 20);
}

#[test]
fn create_makes_a_dock_window_once() {
    let mut tray = new_tray(20, TOP_LEFT);
    let mut out = Vec::new();
    tray.create(&mut out);
    assert_eq!(
        out,
        vec![
            Request::CreateWindow {
                window: HOST,
                parent: ROOT,
                size: 20,
                events: EventMask::PropertyChange
            },
            Request::SetWindowType { window: HOST, property: 11, value: 12 },
        ]
    );
    assert_eq!(tray.phase(), Phase::AwaitingSelection);
    let mut again = Vec::new();
    tray.create(&mut again);
    assert!(again.is_empty());
}

#[test]
fn first_property_change_claims_the_selection() {
    let mut tray = new_tray(20, TOP_LEFT);
    let mut out = Vec::new();
    tray.create(&mut out);
    out.clear();
    tray.handle_event(&RawEvent::PropertyNotify { window: HOST, time: 5 }, &mut out);
    assert_eq!(out, vec![Request::ClaimSelection { owner: HOST, selection: SELECTION, time: 5 }]);
    out.clear();
    tray.handle_event(&RawEvent::PropertyNotify { window: HOST, time: 6 }, &mut out);
    assert!(out.is_empty());
}

#[test]
fn acquisition_announces_the_owner() {
    let mut tray = new_tray(20, TOP_LEFT);
    let mut out = Vec::new();
    tray.create(&mut out);
    out.clear();
    assert!(tray.take_selection(5, HOST, &mut out));
    assert_eq!(tray.phase(), Phase::Active);
    assert_eq!(tray.timestamp(), 5);
    assert_eq!(
        out,
        vec![Request::Announce {
            root: ROOT,
            message_type: MANAGER_ATOM,
            time: 5,
            selection: SELECTION,
            owner: HOST
        }]
    );
}

#[test]
fn acquisition_fails_when_another_owns() {
    let mut tray = new_tray(20, TOP_LEFT);
    let mut out = Vec::new();
    tray.create(&mut out);
    out.clear();
    assert!(!tray.take_selection(5, 999, &mut out));
    assert_eq!(tray.phase(), Phase::AwaitingSelection);
    assert_eq!(tray.timestamp(), 0);
    assert!(out.is_empty());
}

#[test]
fn selection_availability() {
    let tray = new_tray(20, TOP_LEFT);
    assert!(tray.is_selection_available(0));
    assert!(!tray.is_selection_available(44));
}

#[test]
fn scenario_adopt_and_forget_top_left() {
    let mut tray = active_tray(20, TOP_LEFT);
    let out = request_child(&mut tray, 100);
    assert_eq!(tray.children(), &[100]);
    assert_eq!(host_place(&out), Some((0, 0, 20)));
    assert_eq!(out.last(), Some(&Request::MoveWindow { window: 100, x: 0, y: 0 }));
    assert!(out.contains(&Request::MapWindow { window: HOST }));
    assert!(out.contains(&Request::Reparent { window: 100, parent: HOST, x: 0, y: 0 }));
    assert!(out.contains(&Request::QueryGeometry { window: 100 }));
    assert!(!out.contains(&Request::Resize { window: 100, width: 20, height: 20 }));

    let out = request_child(&mut tray, 200);
    assert_eq!(tray.children(), &[100, 200]);
    assert_eq!(host_place(&out), Some((0, 0, 40)));
    assert!(out.contains(&Request::Reparent { window: 200, parent: HOST, x: 20, y: 0 }));

    let mut out = Vec::new();
    tray.handle_event(&RawEvent::DestroyNotify { window: 100 }, &mut out);
    assert_eq!(tray.children(), &[200]);
    assert_eq!(host_place(&out), Some((0, 0, 20)));
    assert!(out.contains(&Request::MoveWindow { window: 200, x: 0, y: 0 }));
}

#[test]
fn scenario_bottom_right() {
    let mut tray = active_tray(20, BOTTOM_RIGHT);
    let out = request_child(&mut tray, 100);
    assert_eq!(host_place(&out), Some((980, 780, 20)));
}

#[test]
fn top_right_moves_left_as_the_strip_grows() {
    let mut tray = active_tray(20, TOP_RIGHT);
    request_child(&mut tray, 100);
    let out = request_child(&mut tray, 200);
    assert_eq!(host_place(&out), Some((960, 0, 40)));
}

#[test]
fn scenario_selection_taken_by_another() {
    let mut tray = new_tray(20, TOP_LEFT);
    let mut out = Vec::new();
    tray.create(&mut out);
    tray.handle_event(&RawEvent::PropertyNotify { window: HOST, time: 5 }, &mut out);
    assert!(!tray.take_selection(5, 31337, &mut out));
    assert_eq!(tray.phase(), Phase::AwaitingSelection);
    // a child request before the selection is held is not served
    let out = request_child(&mut tray, 100);
    assert!(out.is_empty());
    assert!(tray.children().is_empty());
}

#[test]
fn scenario_selection_cleared_with_two_children() {
    let mut tray = active_tray(20, TOP_LEFT);
    request_child(&mut tray, 100);
    request_child(&mut tray, 200);
    let mut out = Vec::new();
    tray.handle_event(&RawEvent::SelectionClear { owner: HOST, time: 9 }, &mut out);
    assert_eq!(tray.phase(), Phase::Finishing);
    assert_eq!(
        out,
        vec![
            Request::SelectEvents { window: 100, events: EventMask::NoEvent },
            Request::UnmapWindow { window: 100 },
            Request::Reparent { window: 100, parent: ROOT, x: 0, y: 0 },
            Request::SelectEvents { window: 200, events: EventMask::NoEvent },
            Request::UnmapWindow { window: 200 },
            Request::Reparent { window: 200, parent: ROOT, x: 0, y: 0 },
            Request::SelectEvents { window: HOST, events: EventMask::StructureNotify },
            Request::Destroy { window: HOST },
        ]
    );

    let mut out = Vec::new();
    assert_eq!(request_child(&mut tray, 300), vec![]);
    assert_eq!(tray.handle_event(&RawEvent::DestroyNotify { window: 100 }, &mut out), None);
    assert_eq!(
        tray.handle_event(
            &RawEvent::ConfigureNotify { window: 200, width: 5, height: 5 },
            &mut out
        ),
        None
    );
    assert_eq!(tray.handle_event(&RawEvent::SelectionClear { owner: HOST, time: 10 }, &mut out), None);
    assert!(out.is_empty());
    assert_eq!(tray.children(), &[100, 200]);
    assert_eq!(tray.phase(), Phase::Finishing);

    assert_eq!(tray.handle_event(&RawEvent::DestroyNotify { window: HOST }, &mut out), Some(0));
    assert_eq!(tray.phase(), Phase::Terminated);
    assert!(out.is_empty());
}

#[test]
fn finish_twice_detaches_once() {
    let mut tray = active_tray(20, TOP_LEFT);
    request_child(&mut tray, 100);
    let mut out = Vec::new();
    tray.finish(&mut out);
    assert_eq!(out.len(), 5);
    let mut again = Vec::new();
    tray.finish(&mut again);
    assert!(again.is_empty());
}

#[test]
fn finish_before_create_ends_at_once() {
    let mut tray = new_tray(20, TOP_LEFT);
    let mut out = Vec::new();
    tray.finish(&mut out);
    assert!(out.is_empty());
    assert_eq!(tray.phase(), Phase::Terminated);
}

#[test]
fn adopt_and_forget_counts() {
    let mut tray = active_tray(20, TOP_LEFT);
    let mut out = Vec::new();
    for w in 100..110u32 {
        tray.adopt(w, &mut out);
    }
    assert_eq!(tray.children().len(), 10);
    tray.forget(103, &mut out);
    tray.forget(107, &mut out);
    assert_eq!(tray.children(), &[100, 101, 102, 104, 105, 106, 108, 109]);
    out.clear();
    tray.forget(103, &mut out);
    tray.forget(555, &mut out);
    assert_eq!(tray.children().len(), 8);
    assert!(out.is_empty());
}

#[test]
fn adopting_twice_or_the_host_is_ignored() {
    let mut tray = active_tray(20, TOP_LEFT);
    let mut out = Vec::new();
    tray.adopt(100, &mut out);
    out.clear();
    tray.adopt(100, &mut out);
    tray.adopt(HOST, &mut out);
    assert!(out.is_empty());
    assert_eq!(tray.children(), &[100]);
}

#[test]
fn strip_never_exceeds_the_widest_window() {
    let mut tray = active_tray(30000, TOP_LEFT);
    let mut out = Vec::new();
    tray.adopt(100, &mut out);
    tray.adopt(101, &mut out);
    out.clear();
    tray.adopt(102, &mut out);
    assert!(out.is_empty());
    assert_eq!(tray.children(), &[100, 101]);
}

#[test]
fn empty_strip_hides_the_host() {
    let mut tray = active_tray(20, TOP_LEFT);
    let mut out = Vec::new();
    tray.adopt(100, &mut out);
    out.clear();
    tray.forget(100, &mut out);
    assert_eq!(out, vec![Request::UnmapWindow { window: HOST }]);
}

#[test]
fn reposition_twice_gives_the_same_geometry() {
    let mut tray = active_tray(20, BOTTOM_RIGHT);
    let mut out = Vec::new();
    tray.adopt(100, &mut out);
    tray.adopt(200, &mut out);
    let mut first = Vec::new();
    tray.reposition(&mut first);
    let mut second = Vec::new();
    tray.reposition(&mut second);
    assert_eq!(first, second);
    assert_eq!(host_place(&first), Some((960, 780, 40)));
}

#[test]
fn configure_of_an_icon_restores_its_size() {
    let mut tray = active_tray(20, TOP_LEFT);
    request_child(&mut tray, 100);
    let mut out = Vec::new();
    tray.handle_event(&RawEvent::ConfigureNotify { window: 100, width: 50, height: 20 }, &mut out);
    assert_eq!(out, vec![Request::Resize { window: 100, width: 20, height: 20 }]);
    out.clear();
    tray.handle_event(&RawEvent::ConfigureNotify { window: 100, width: 20, height: 20 }, &mut out);
    tray.handle_event(&RawEvent::ConfigureNotify { window: 555, width: 50, height: 50 }, &mut out);
    assert!(out.is_empty());
}

#[test]
fn force_size_without_known_size_asks_for_it() {
    let tray = active_tray(24, TOP_LEFT);
    let mut out = Vec::new();
    tray.force_size(7, None, &mut out);
    tray.force_size(8, Some((24, 24)), &mut out);
    tray.force_size(9, Some((24, 25)), &mut out);
    assert_eq!(
        out,
        vec![
            Request::QueryGeometry { window: 7 },
            Request::Resize { window: 9, width: 24, height: 24 },
        ]
    );
}

#[test]
fn adopted_icon_is_resized_only_when_its_size_differs() {
    let mut tray = active_tray(20, TOP_LEFT);
    let out = request_child(&mut tray, 100);
    assert_eq!(out[3], Request::QueryGeometry { window: 100 });
    let mut answer = Vec::new();
    tray.force_size(100, Some((20, 20)), &mut answer);
    assert!(answer.is_empty());
    tray.force_size(100, Some((32, 32)), &mut answer);
    assert_eq!(answer, vec![Request::Resize { window: 100, width: 20, height: 20 }]);
}

#[test]
fn failed_claim_gives_the_exit_status() {
    let mut tray = new_tray(20, TOP_LEFT);
    let mut out = Vec::new();
    tray.create(&mut out);
    out.clear();
    assert_eq!(tray.selection_claimed(5, 77, &mut out), Some(EXIT_FAILED_SELECT));
    assert_eq!(EXIT_FAILED_SELECT, 11);
    assert_eq!(tray.phase(), Phase::AwaitingSelection);
    assert!(out.is_empty());
    assert_eq!(tray.selection_claimed(5, HOST, &mut out), None);
    assert_eq!(tray.phase(), Phase::Active);
    assert_eq!(tray.timestamp(), 5);
    assert_eq!(out.len(), 1);
}

#[test]
fn icon_moved_elsewhere_is_forgotten() {
    let mut tray = active_tray(20, TOP_LEFT);
    request_child(&mut tray, 100);
    request_child(&mut tray, 200);
    let mut out = Vec::new();
    tray.handle_event(&RawEvent::ReparentNotify { window: 100, parent: HOST }, &mut out);
    assert_eq!(tray.children(), &[100, 200]);
    tray.handle_event(&RawEvent::ReparentNotify { window: 100, parent: ROOT }, &mut out);
    assert_eq!(tray.children(), &[200]);
}
