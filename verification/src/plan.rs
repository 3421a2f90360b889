//! The layout interpreter: from the typed model to the ordered sequence
//! of multiplexer operations.
//!
//! The probe that decides between reattaching and populating is an
//! external call; the planner takes its outcome as an argument and is
//! exact for either value.  When the probe attached, nothing further is
//! issued (the idempotence short-circuit).  Otherwise the session is
//! created, each window is materialised in document order — a new
//! window for every window but the first, rename before split before
//! send-keys — and the session is attached at the end.

use vstd::prelude::*;
use crate::doc::string_eq_str;
use crate::model::{DocumentV, LayoutDocument, PaneGroupSpec, PaneGroupV, WindowSpec, WindowV};
use crate::ops::{lemma_ops_view_push, ops_view, Op, OpV, SplitDir};
use crate::target::{pane_target, target_seq};

verus! {

/// The split a layout policy calls for: `main-horizontal` is the
/// default orientation, `main-vertical` is vertical, anything else or
/// nothing calls for no split.
pub open spec fn split_of(layout: Option<Seq<char>>) -> Option<SplitDir> {
    match layout {
        Some(l) => if l == "main-horizontal"@ {
            Some(SplitDir::Horizontal)
        } else if l == "main-vertical"@ {
            Some(SplitDir::Vertical)
        } else {
            None
        },
        None => None,
    }
}

/// The split operations a layout policy yields: exactly one, or none.
pub open spec fn split_ops(session: Seq<char>, layout: Option<Seq<char>>) -> Seq<OpV> {
    match split_of(layout) {
        Some(dir) => seq![OpV::SplitWindow { session, dir }],
        None => Seq::empty(),
    }
}

/// One send-keys operation per pane command, in order, each addressed
/// to pane `pi` of window `wi`.
pub open spec fn send_ops(session: Seq<char>, wi: nat, cmds: Seq<Seq<char>>) -> Seq<OpV> {
    Seq::new(
        cmds.len(),
        |pi: int|
            OpV::SendKeys { target: target_seq(session, wi, pi as nat), command: cmds[pi] },
    )
}

/// The operations a pane group yields within window `wi`: its one split
/// (if any) before all of its send-keys.
pub open spec fn group_ops(session: Seq<char>, wi: nat, g: PaneGroupV) -> Seq<OpV> {
    match g {
        PaneGroupV::SingleCommand { command } => seq![
            OpV::SendKeys { target: target_seq(session, wi, 0), command },
        ],
        PaneGroupV::Layout { layout, panes } => split_ops(session, layout) + send_ops(
            session,
            wi,
            panes,
        ),
    }
}

/// The operations window `wi` yields: a new window for every window but
/// the first, then (for a titled window) its rename, then its content.
pub open spec fn window_ops(session: Seq<char>, wi: nat, w: WindowV) -> Seq<OpV> {
    let lead: Seq<OpV> = if wi > 0 {
        seq![OpV::NewWindow { session }]
    } else {
        Seq::empty()
    };
    match w {
        WindowV::Simple { command } => lead + seq![
            OpV::SendKeys { target: target_seq(session, wi, 0), command },
        ],
        WindowV::Named { title, body } => lead + seq![OpV::RenameWindow { session, title }]
            + group_ops(session, wi, body),
    }
}

/// The operations of windows `i`, `i + 1`, ... in order: window `i + 1`
/// is never begun before window `i` is fully issued.
pub open spec fn windows_ops_from(session: Seq<char>, ws: Seq<WindowV>, i: int) -> Seq<OpV>
    decreases ws.len() - i,
{
    if i < 0 || i >= ws.len() {
        Seq::empty()
    } else {
        window_ops(session, i as nat, ws[i]) + windows_ops_from(session, ws, i + 1)
    }
}

/// The operations that populate a fresh session with all its windows.
pub open spec fn populate_ops_spec(session: Seq<char>, ws: Seq<WindowV>) -> Seq<OpV> {
    windows_ops_from(session, ws, 0)
}

/// The operations issued after the attach probe: none when the probe
/// attached; otherwise create, populate, attach.
pub open spec fn plan_ops(d: DocumentV, attached: bool) -> Seq<OpV> {
    if attached {
        Seq::empty()
    } else {
        seq![OpV::CreateSession { session: d.name }] + populate_ops_spec(d.name, d.windows)
            + seq![OpV::AttachSession { session: d.name }]
    }
}

/// Every operation of a run, the attach probe included: the probe is
/// always the first operation issued, and the plan follows it.
pub open spec fn full_trace(d: DocumentV, attached: bool) -> Seq<OpV> {
    seq![OpV::AttachSession { session: d.name }] + plan_ops(d, attached)
}

fn push_send_ops(ops: &mut Vec<Op>, session: &String, wi: usize, cmds: &Vec<String>)
    ensures
        ops_view(final(ops)@) == ops_view(old(ops)@) + send_ops(
            session@,
            wi as nat,
            cmds@.map_values(|s: String| s@),
        ),
{
    let ghost sent = send_ops(session@, wi as nat, cmds@.map_values(|s: String| s@));
    let mut pi: usize = 0;
    while pi < cmds.len()
        invariant
            0 <= pi <= cmds.len(),
            sent == send_ops(session@, wi as nat, cmds@.map_values(|s: String| s@)),
            sent.len() == cmds@.len(),
            ops_view(ops@) =~= ops_view(old(ops)@) + sent.take(pi as int),
        decreases cmds.len() - pi,
    {
        let ghost prev = ops@;
        let target = pane_target(session, wi, pi);
        ops.push(Op::SendKeys(target, cmds[pi].clone()));
        proof {
            lemma_ops_view_push(prev, Op::SendKeys(target, cmds@[pi as int]));
            assert(sent[pi as int] == (OpV::SendKeys {
                target: target_seq(session@, wi as nat, pi as nat),
                command: cmds@[pi as int]@,
            }));
            assert(sent.take(pi + 1) =~= sent.take(pi as int).push(sent[pi as int]));
            assert(ops_view(ops@) =~= ops_view(old(ops)@) + sent.take(pi + 1));
        }
        pi = pi + 1;
    }
    proof {
        assert(sent.take(cmds@.len() as int) =~= sent);
    }
}

fn push_group_ops(ops: &mut Vec<Op>, session: &String, wi: usize, g: &PaneGroupSpec)
    ensures
        ops_view(final(ops)@) == ops_view(old(ops)@) + group_ops(session@, wi as nat, g@),
{
    match g {
        PaneGroupSpec::SingleCommand(cmd) => {
            let ghost prev = ops@;
            let target = pane_target(session, wi, 0);
            ops.push(Op::SendKeys(target, cmd.clone()));
            proof {
                lemma_ops_view_push(prev, Op::SendKeys(target, *cmd));
                assert(ops_view(ops@) =~= ops_view(old(ops)@) + group_ops(
                    session@,
                    wi as nat,
                    g@,
                ));
            }
        },
        PaneGroupSpec::Layout { layout, panes } => {
            match layout {
                Some(l) => {
                    if string_eq_str(l, "main-horizontal") {
                        let ghost prev = ops@;
                        ops.push(Op::SplitWindow(session.clone(), SplitDir::Horizontal));
                        proof {
                            lemma_ops_view_push(
                                prev,
                                Op::SplitWindow(*session, SplitDir::Horizontal),
                            );
                        }
                    } else if string_eq_str(l, "main-vertical") {
                        let ghost prev = ops@;
                        ops.push(Op::SplitWindow(session.clone(), SplitDir::Vertical));
                        proof {
                            lemma_ops_view_push(prev, Op::SplitWindow(*session, SplitDir::Vertical));
                        }
                    }
                },
                None => {},
            }
            proof {
                assert(ops_view(ops@) =~= ops_view(old(ops)@) + split_ops(
                    session@,
                    g@->Layout_layout,
                ));
            }
            push_send_ops(ops, session, wi, panes);
            proof {
                assert(ops_view(ops@) =~= ops_view(old(ops)@) + (split_ops(
                    session@,
                    g@->Layout_layout,
                ) + send_ops(session@, wi as nat, panes@.map_values(|s: String| s@))));
            }
        },
    }
}

fn push_window_ops(ops: &mut Vec<Op>, session: &String, wi: usize, w: &WindowSpec)
    ensures
        ops_view(final(ops)@) == ops_view(old(ops)@) + window_ops(session@, wi as nat, w@),
{
    if wi > 0 {
        let ghost prev = ops@;
        ops.push(Op::NewWindow(session.clone()));
        proof {
            lemma_ops_view_push(prev, Op::NewWindow(*session));
        }
    }
    match w {
        WindowSpec::Simple(cmd) => {
            let ghost prev = ops@;
            let target = pane_target(session, wi, 0);
            ops.push(Op::SendKeys(target, cmd.clone()));
            proof {
                lemma_ops_view_push(prev, Op::SendKeys(target, *cmd));
                assert(ops_view(ops@) =~= ops_view(old(ops)@) + window_ops(
                    session@,
                    wi as nat,
                    w@,
                ));
            }
        },
        WindowSpec::Named { title, body } => {
            let ghost prev = ops@;
            ops.push(Op::RenameWindow(session.clone(), title.clone()));
            proof {
                lemma_ops_view_push(prev, Op::RenameWindow(*session, *title));
            }
            push_group_ops(ops, session, wi, body);
            proof {
                assert(ops_view(ops@) =~= ops_view(old(ops)@) + window_ops(
                    session@,
                    wi as nat,
                    w@,
                ));
            }
        },
    }
}

/// Emits the operations that populate a fresh session `session` with
/// `windows`, window by window in document order.
pub fn populate_ops(session: &String, windows: &Vec<WindowSpec>) -> (r: Vec<Op>)
    ensures
        ops_view(r@) == populate_ops_spec(session@, windows@.map_values(|w: WindowSpec| w@)),
{
    let ghost wsv = windows@.map_values(|w: WindowSpec| w@);
    let mut ops: Vec<Op> = Vec::new();
    let mut wi: usize = 0;
    proof {
        assert(ops_view(ops@) =~= Seq::<OpV>::empty());
    }
    while wi < windows.len()
        invariant
            0 <= wi <= windows.len(),
            wsv == windows@.map_values(|w: WindowSpec| w@),
            wsv.len() == windows@.len(),
            ops_view(ops@) + windows_ops_from(session@, wsv, wi as int) =~= windows_ops_from(
                session@,
                wsv,
                0,
            ),
        decreases windows.len() - wi,
    {
        let ghost prev = ops@;
        push_window_ops(&mut ops, session, wi, &windows[wi]);
        proof {
            assert(wsv[wi as int] == windows@[wi as int]@);
            assert(ops_view(ops@) + windows_ops_from(session@, wsv, wi + 1) =~= (ops_view(prev)
                + window_ops(session@, wi as nat, wsv[wi as int])) + windows_ops_from(
                session@,
                wsv,
                wi + 1,
            ));
            assert((ops_view(prev) + window_ops(session@, wi as nat, wsv[wi as int]))
                + windows_ops_from(session@, wsv, wi + 1) =~= ops_view(prev) + (window_ops(
                session@,
                wi as nat,
                wsv[wi as int],
            ) + windows_ops_from(session@, wsv, wi + 1)));
        }
        wi = wi + 1;
    }
    proof {
        assert(ops_view(ops@) =~= ops_view(ops@) + windows_ops_from(
            session@,
            wsv,
            wsv.len() as int,
        ));
    }
    ops
}

/// The operations owed after the attach probe for document `doc`.
///
/// When the probe already attached (`attached`), the session existed:
/// nothing further is owed, and the returned plan is empty.  Otherwise
/// the plan creates the session detached, populates every window, and
/// attaches at the end.
pub fn plan_after_probe(doc: &LayoutDocument, attached: bool) -> (r: Vec<Op>)
    ensures
        ops_view(r@) == plan_ops(doc@, attached),
{
    let mut ops: Vec<Op> = Vec::new();
    proof {
        assert(ops_view(ops@) =~= Seq::<OpV>::empty());
    }
    if attached {
        return ops;
    }
    let ghost e0 = ops@;
    ops.push(Op::CreateSession(doc.name.clone()));
    proof {
        lemma_ops_view_push(e0, Op::CreateSession(doc.name));
    }
    let mut body = populate_ops(&doc.name, &doc.windows);
    let ghost created = ops@;
    let ghost body_v = body@;
    ops.append(&mut body);
    proof {
        crate::ops::lemma_ops_view_add(created, body_v);
        assert(ops_view(ops@) =~= ops_view(created) + ops_view(body_v));
    }
    let ghost populated = ops@;
    ops.push(Op::AttachSession(doc.name.clone()));
    proof {
        lemma_ops_view_push(populated, Op::AttachSession(doc.name));
        assert(ops_view(ops@) =~= plan_ops(doc@, attached));
    }
    ops
}

} // verus!
