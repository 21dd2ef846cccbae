//! Properties of the tray that relate several of its operations.
use vstd::prelude::*;

use crate::event::RawEvent;
use crate::tray::{
    adopt_requests,
    adopted, announce_requests, child_moves, claim_succeeds, finish_requests, finished, forget_requests,
    forgotten, handled, resize_requests, can_adopt, host_x, host_y, layout_requests, selection_taken, state_wf,
    strip_width, Phase, Request, TrayState, MAX_STRIP_WIDTH,
};

verus! {

/// An operation on the strip of icons.
pub enum StripOp {
    Adopt(u32),
    Forget(u32),
}

/// The tray after one operation.
pub open spec fn apply_op(v: TrayState, op: StripOp) -> TrayState {
    match op {
        StripOp::Adopt(w) => adopted(v, w),
        StripOp::Forget(w) => forgotten(v, w),
    }
}

/// The tray after the operations `ops`, in order.
pub open spec fn apply_ops(v: TrayState, ops: Seq<StripOp>) -> TrayState
    decreases ops.len(),
{
    if ops.len() == 0 {
        v
    } else {
        apply_ops(apply_op(v, ops[0]), ops.drop_first())
    }
}

/// The number of adoptions in `ops`.
pub open spec fn adopt_count(ops: Seq<StripOp>) -> nat
    decreases ops.len(),
{
    if ops.len() == 0 {
        0
    } else {
        (if ops[0] is Adopt {
            1nat
        } else {
            0nat
        }) + adopt_count(ops.drop_first())
    }
}

/// The number of operations in `ops` that forget a window embedded at the
/// time, starting from `v`.
pub open spec fn forget_hits(v: TrayState, ops: Seq<StripOp>) -> nat
    decreases ops.len(),
{
    if ops.len() == 0 {
        0
    } else {
        (if ops[0] matches StripOp::Forget(w) && v.children.contains(w) {
            1nat
        } else {
            0nat
        }) + forget_hits(apply_op(v, ops[0]), ops.drop_first())
    }
}

/// Whether each adoption in `ops`, starting from `v`, names a window that is
/// neither the host nor embedded at the time.
pub open spec fn adopts_are_new(v: TrayState, ops: Seq<StripOp>) -> bool
    decreases ops.len(),
{
    ops.len() == 0 || (match ops[0] {
        StripOp::Adopt(w) => w != v.window && !v.children.contains(w),
        StripOp::Forget(_) => true,
    }) && adopts_are_new(apply_op(v, ops[0]), ops.drop_first())
}

/// Over any run of adoptions of new windows and of forgets, while the
/// selection is held and the strip has room, the number of icons grows by
/// one per adoption and shrinks by one per forget of an embedded window.
pub proof fn lemma_strip_count(v: TrayState, ops: Seq<StripOp>)
    requires
        v.phase == Phase::Active,
        adopts_are_new(v, ops),
        (v.children.len() + adopt_count(ops)) * v.icon_size <= MAX_STRIP_WIDTH,
    ensures
        apply_ops(v, ops).children.len() + forget_hits(v, ops) == v.children.len()
            + adopt_count(ops),
    decreases ops.len(),
{
    if ops.len() > 0 {
        let n = v.children.len() as int;
        let k = adopt_count(ops) as int;
        let s = v.icon_size as int;
        let next = apply_op(v, ops[0]);
        match ops[0] {
            StripOp::Adopt(w) => {
                assert((n + 1) * s <= (n + k) * s) by (nonlinear_arith)
                    requires
                        k >= 1,
                        s >= 0,
                ;
                assert(next.children.len() == n + 1);
            },
            StripOp::Forget(w) => {
                if v.children.contains(w) {
                    assert(next.children.len() == n - 1);
                    assert((n - 1 + k) * s <= (n + k) * s) by (nonlinear_arith)
                        requires
                            s >= 0,
                    ;
                }
            },
        }
        lemma_strip_count(next, ops.drop_first());
    }
}

/// An icon being adopted is not resized blindly: its size is asked for, and
/// once the size is reported a resize follows exactly when it is not the
/// icon size.
pub proof fn lemma_adopt_resizes_only_when_needed(v: TrayState, window: u32, size: (u16, u16))
    requires
        can_adopt(v, window),
    ensures
        adopt_requests(v, window)[3] == (Request::QueryGeometry { window }),
        !adopt_requests(v, window).contains(
            Request::Resize { window, width: v.icon_size, height: v.icon_size },
        ),
        resize_requests(adopted(v, window), window, Some(size)) == (if size == (
            v.icon_size,
            v.icon_size,
        ) {
            Seq::<Request>::empty()
        } else {
            seq![Request::Resize { window, width: v.icon_size, height: v.icon_size }]
        }),
{
    let w = adopted(v, window);
    lemma_child_moves(w.children, w.icon_size);
    let r = adopt_requests(v, window);
    let resize = Request::Resize { window, width: v.icon_size, height: v.icon_size };
    if r.contains(resize) {
        let i = choose|i: int| 0 <= i < r.len() && r[i] == resize;
        assert(i >= 4);
        let h = if strip_width(w) == 0 { 1int } else { 2int };
        if i < 4 + h {
        } else {
            assert(r[i] == child_moves(w.children, w.icon_size)[i - 4 - h]);
        }
    }
}

/// Forgetting a window that is not embedded changes nothing and asks for
/// nothing.
pub proof fn lemma_forget_absent(v: TrayState, window: u32)
    requires
        !v.children.contains(window),
    ensures
        forgotten(v, window) == v,
        forget_requests(v, window) == Seq::<Request>::empty(),
{
}

/// The moves of a layout are moves of the icons, one per icon.
proof fn lemma_child_moves(children: Seq<u32>, icon_size: u16)
    ensures
        child_moves(children, icon_size).len() == children.len(),
        forall|i: int|
            0 <= i < children.len() ==> child_moves(children, icon_size)[i] == (
            Request::MoveWindow { window: children[i], x: (i * icon_size) as i32, y: 0 }),
    decreases children.len(),
{
    if children.len() > 0 {
        lemma_child_moves(children.drop_last(), icon_size);
    }
}

/// With icons of non-zero size, the layout shows the host window exactly
/// when there is at least one icon, and then gives it the width of one icon
/// per icon, at the place its alignment asks for.
pub proof fn lemma_layout(v: TrayState)
    requires
        state_wf(v),
        v.icon_size > 0,
    ensures
        layout_requests(v).contains(Request::MapWindow { window: v.window }) <==> v.children.len()
            > 0,
        v.children.len() > 0 ==> layout_requests(v)[0] == (Request::Place {
            window: v.window,
            x: host_x(v) as i32,
            y: host_y(v) as i32,
            width: strip_width(v) as u16,
        }) && strip_width(v) as u16 == v.children.len() * v.icon_size,
{
    let n = v.children.len() as int;
    let s = v.icon_size as int;
    lemma_child_moves(v.children, v.icon_size);
    if n > 0 {
        assert(n * s > 0) by (nonlinear_arith)
            requires
                n > 0,
                s > 0,
        ;
        assert(layout_requests(v)[1] == Request::MapWindow { window: v.window });
    } else {
        assert(n * s == 0) by (nonlinear_arith)
            requires
                n == 0,
        ;
        assert(layout_requests(v) =~= seq![Request::UnmapWindow { window: v.window }]);
    }
    if layout_requests(v).contains(Request::MapWindow { window: v.window }) {
        let i = choose|i: int|
            0 <= i < layout_requests(v).len() && layout_requests(v)[i] == Request::MapWindow {
                window: v.window,
            };
        if n > 0 {
            assert(i == 1 || i >= 2);
        }
    }
}

/// The layout is a function of the configuration and of the icons alone, so
/// laying out again with no adoption or forget in between asks for the same
/// geometry; the host window's place and width depend on the number of icons
/// only.
pub proof fn lemma_layout_repeatable(a: TrayState, b: TrayState)
    requires
        a.window == b.window,
        a.screen == b.screen,
        a.icon_size == b.icon_size,
        a.position == b.position,
        a.children.len() == b.children.len(),
    ensures
        host_x(a) == host_x(b),
        host_y(a) == host_y(b),
        strip_width(a) == strip_width(b),
        a.children == b.children ==> layout_requests(a) == layout_requests(b),
{
}

/// A claim of the selection either makes the tray active with the claim's
/// timestamp, or leaves it exactly as it was, with nothing announced.
pub proof fn lemma_selection_all_or_nothing(v: TrayState, timestamp: u32, owner: u32)
    requires
        state_wf(v),
    ensures
        ({
            let w = selection_taken(v, timestamp, owner);
            ||| claim_succeeds(v, owner) && owner == v.window && w.phase == Phase::Active
                && w.timestamp == timestamp && w.children == v.children
                && announce_requests(v, timestamp, owner).len() == 1
            ||| !claim_succeeds(v, owner) && w == v && announce_requests(v, timestamp, owner)
                == Seq::<Request>::empty()
        }),
        v.phase == Phase::AwaitingSelection && owner != v.window ==> selection_taken(
            v,
            timestamp,
            owner,
        ).phase == Phase::AwaitingSelection && selection_taken(v, timestamp, owner).timestamp
            == 0,
{
}

/// While finishing, no notification changes the icons or asks for anything;
/// only the destruction of the host window ends the tray. A second request
/// to finish does nothing.
pub proof fn lemma_finishing_ignores(v: TrayState, raw: RawEvent)
    requires
        v.phase == Phase::Finishing,
    ensures
        handled(v, raw).0.children == v.children,
        handled(v, raw).1 == Seq::<Request>::empty(),
        raw != (RawEvent::DestroyNotify { window: v.window }) ==> handled(v, raw).0 == v
            && handled(v, raw).2 is None,
        raw == (RawEvent::DestroyNotify { window: v.window }) ==> handled(v, raw).0.phase
            == Phase::Terminated && handled(v, raw).2 == Some(0i32),
        finished(v) == v,
        finish_requests(v) == Seq::<Request>::empty(),
{
}

} // verus!
