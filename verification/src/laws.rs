//! The interpreter's guarantees, stated and proved once and for all:
//! idempotent attach, first-window suppression, deterministic pane
//! addressing, the layout-to-split mapping, rename-before-content, and
//! graceful degradation on a malformed `windows` field.

use vstd::prelude::*;
use crate::doc::{lookup, Doc};
use crate::model::{doc_model, doc_session_name, doc_windows, DocumentV, PaneGroupV, WindowV};
use crate::ops::{
    count_kind, kind_of, lemma_count_kind_add, lemma_count_kind_singleton, lemma_count_kind_zero,
    OpKind, OpV, SplitDir,
};
use crate::plan::{
    full_trace, group_ops, plan_ops, populate_ops_spec, send_ops, split_of, split_ops, window_ops,
    windows_ops_from,
};
use crate::target::target_seq;

verus! {

/// When the attach probe finds the session already running, the whole
/// run is that single attach: no create, no window, no rename, no split
/// and no keys are ever issued.
pub proof fn lemma_idempotence_short_circuit(d: DocumentV)
    ensures
        full_trace(d, true) =~= seq![OpV::AttachSession { session: d.name }],
        count_kind(full_trace(d, true), OpKind::AttachSession) == 1,
        forall|k: OpKind|
            k != OpKind::AttachSession ==> count_kind(full_trace(d, true), k) == 0,
{
    assert(full_trace(d, true) =~= seq![OpV::AttachSession { session: d.name }]);
    assert forall|k: OpKind| #[trigger] count_kind(full_trace(d, true), k) == (
        if k == OpKind::AttachSession {
            1nat
        } else {
            0nat
        }) by {
        lemma_count_kind_singleton(OpV::AttachSession { session: d.name }, k);
        assert(count_kind(full_trace(d, true), k) == count_kind(
            seq![OpV::AttachSession { session: d.name }],
            k,
        ));
    }
}

proof fn lemma_send_ops_count(session: Seq<char>, wi: nat, cmds: Seq<Seq<char>>, k: OpKind)
    requires
        k != OpKind::SendKeys,
    ensures
        count_kind(send_ops(session, wi, cmds), k) == 0,
{
    lemma_count_kind_zero(send_ops(session, wi, cmds), k);
}

proof fn lemma_group_ops_count(session: Seq<char>, wi: nat, g: PaneGroupV, k: OpKind)
    requires
        k == OpKind::NewWindow || k == OpKind::RenameWindow,
    ensures
        count_kind(group_ops(session, wi, g), k) == 0,
{
    match g {
        PaneGroupV::SingleCommand { command } => {
            lemma_count_kind_singleton(
                OpV::SendKeys { target: target_seq(session, wi, 0), command },
                k,
            );
        },
        PaneGroupV::Layout { layout, panes } => {
            lemma_count_kind_add(split_ops(session, layout), send_ops(session, wi, panes), k);
            lemma_count_kind_zero(split_ops(session, layout), k);
            lemma_send_ops_count(session, wi, panes, k);
        },
    }
}

/// Window `wi` opens a new window exactly when it is not the first.
proof fn lemma_window_new_count(session: Seq<char>, wi: nat, w: WindowV)
    ensures
        count_kind(window_ops(session, wi, w), OpKind::NewWindow) == (if wi > 0 {
            1nat
        } else {
            0nat
        }),
{
    let lead: Seq<OpV> = if wi > 0 {
        seq![OpV::NewWindow { session }]
    } else {
        Seq::empty()
    };
    if wi > 0 {
        lemma_count_kind_singleton(OpV::NewWindow { session }, OpKind::NewWindow);
    }
    match w {
        WindowV::Simple { command } => {
            let tail = seq![OpV::SendKeys { target: target_seq(session, wi, 0), command }];
            lemma_count_kind_add(lead, tail, OpKind::NewWindow);
            lemma_count_kind_zero(tail, OpKind::NewWindow);
        },
        WindowV::Named { title, body } => {
            let rename = seq![OpV::RenameWindow { session, title }];
            lemma_count_kind_add(lead, rename, OpKind::NewWindow);
            lemma_count_kind_add(lead + rename, group_ops(session, wi, body), OpKind::NewWindow);
            lemma_count_kind_zero(rename, OpKind::NewWindow);
            lemma_group_ops_count(session, wi, body, OpKind::NewWindow);
        },
    }
}

proof fn lemma_windows_new_count(session: Seq<char>, ws: Seq<WindowV>, i: int)
    requires
        0 <= i <= ws.len(),
    ensures
        count_kind(windows_ops_from(session, ws, i), OpKind::NewWindow) == (if i == 0 {
            if ws.len() == 0 {
                0nat
            } else {
                (ws.len() - 1) as nat
            }
        } else {
            (ws.len() - i) as nat
        }),
    decreases ws.len() - i,
{
    if i < ws.len() {
        lemma_count_kind_add(
            window_ops(session, i as nat, ws[i]),
            windows_ops_from(session, ws, i + 1),
            OpKind::NewWindow,
        );
        lemma_window_new_count(session, i as nat, ws[i]);
        lemma_windows_new_count(session, ws, i + 1);
    }
}

/// For a document with at least one window, a run that populates issues
/// one `NewWindow` per window except the first: the first window comes
/// with the created session.
pub proof fn lemma_first_window_suppression(d: DocumentV)
    requires
        d.windows.len() >= 1,
    ensures
        count_kind(full_trace(d, false), OpKind::NewWindow) == d.windows.len() - 1,
{
    let probe = seq![OpV::AttachSession { session: d.name }];
    let create = seq![OpV::CreateSession { session: d.name }];
    let attach = seq![OpV::AttachSession { session: d.name }];
    let body = populate_ops_spec(d.name, d.windows);
    lemma_count_kind_add(probe, plan_ops(d, false), OpKind::NewWindow);
    lemma_count_kind_singleton(OpV::AttachSession { session: d.name }, OpKind::NewWindow);
    lemma_count_kind_add(create, body, OpKind::NewWindow);
    lemma_count_kind_add(create + body, attach, OpKind::NewWindow);
    lemma_count_kind_singleton(OpV::CreateSession { session: d.name }, OpKind::NewWindow);
    lemma_windows_new_count(d.name, d.windows, 0);
}

/// Pane addressing is deterministic: within window `wi`, whatever the
/// layout policy, the command at position `pi` of the pane list is sent
/// to target `{session}:{wi}.{pi}`, and pane commands follow the one
/// split (if any) in list order.
pub proof fn lemma_addressing_determinism(
    session: Seq<char>,
    wi: nat,
    layout: Option<Seq<char>>,
    panes: Seq<Seq<char>>,
    pi: int,
)
    requires
        0 <= pi < panes.len(),
    ensures
        ({
            let ops = group_ops(session, wi, PaneGroupV::Layout { layout, panes });
            let base = split_ops(session, layout).len() as int;
            &&& ops.len() == base + panes.len()
            &&& ops[base + pi] == (OpV::SendKeys {
                target: target_seq(session, wi, pi as nat),
                command: panes[pi],
            })
        }),
{
}

/// A single-command window sends its one command to pane `0` of its
/// window, with no split.
pub proof fn lemma_addressing_single(session: Seq<char>, wi: nat, command: Seq<char>)
    ensures
        group_ops(session, wi, PaneGroupV::SingleCommand { command }) =~= seq![
            OpV::SendKeys { target: target_seq(session, wi, 0), command },
        ],
{
}

/// Within a whole window's operations the same addressing holds, for
/// every window form: a window's single command goes to pane `0`, and
/// the command at position `pi` of a pane list goes to pane `pi`, right
/// after the window's one split (if any).
pub proof fn lemma_window_addressing(session: Seq<char>, wi: nat, w: WindowV)
    ensures
        ({
            let ops = window_ops(session, wi, w);
            let lead = if wi > 0 {
                1int
            } else {
                0int
            };
            match w {
                WindowV::Simple { command } => ops.len() == lead + 1 && ops[lead]
                    == (OpV::SendKeys { target: target_seq(session, wi, 0), command }),
                WindowV::Named { title, body } => match body {
                    PaneGroupV::SingleCommand { command } => ops.len() == lead + 2 && ops[lead + 1]
                        == (OpV::SendKeys { target: target_seq(session, wi, 0), command }),
                    PaneGroupV::Layout { layout, panes } => {
                        let base = lead + 1 + split_ops(session, layout).len();
                        &&& ops.len() == base + panes.len()
                        &&& forall|pi: int|
                            0 <= pi < panes.len() ==> #[trigger] ops[base + pi]
                                == (OpV::SendKeys {
                                target: target_seq(session, wi, pi as nat),
                                command: panes[pi],
                            })
                    },
                },
            }
        }),
{
    let ops = window_ops(session, wi, w);
    let lead = if wi > 0 {
        1int
    } else {
        0int
    };
    match w {
        WindowV::Simple { command } => {},
        WindowV::Named { title, body } => {
            match body {
                PaneGroupV::SingleCommand { command } => {},
                PaneGroupV::Layout { layout, panes } => {
                    let splits = split_ops(session, layout);
                    let sends = send_ops(session, wi, panes);
                    let base = lead + 1 + splits.len();
                    assert(ops.len() == base + panes.len());
                    assert forall|pi: int| 0 <= pi < panes.len() implies #[trigger] ops[base + pi]
                        == (OpV::SendKeys {
                        target: target_seq(session, wi, pi as nat),
                        command: panes[pi],
                    }) by {
                        assert(ops[base + pi] == sends[pi]);
                    }
                },
            }
        },
    }
}

/// The layout-to-split mapping: `main-horizontal` yields exactly one
/// split in the default orientation, `main-vertical` exactly one
/// vertical split, and any other or absent policy yields no split.
pub proof fn lemma_layout_split_mapping(session: Seq<char>, layout: Option<Seq<char>>)
    ensures
        layout == Some("main-horizontal"@) ==> split_ops(session, layout) =~= seq![
            OpV::SplitWindow { session, dir: SplitDir::Horizontal },
        ],
        layout == Some("main-vertical"@) ==> split_ops(session, layout) =~= seq![
            OpV::SplitWindow { session, dir: SplitDir::Vertical },
        ],
        (match layout {
            Some(l) => l != "main-horizontal"@ && l != "main-vertical"@,
            None => true,
        }) ==> split_ops(session, layout) =~= Seq::<OpV>::empty(),
{
    reveal_strlit("main-horizontal");
    reveal_strlit("main-vertical");
    assert("main-horizontal"@.len() == 15);
    assert("main-vertical"@.len() == 13);
}

/// Within one window, every split is issued before every send-keys, and
/// there is at most one split: exactly one when the window's body is a
/// pane list with a recognised layout policy, none otherwise.
pub proof fn lemma_one_split_before_sends(session: Seq<char>, wi: nat, w: WindowV)
    ensures
        count_kind(window_ops(session, wi, w), OpKind::SplitWindow) == (match w {
            WindowV::Named { body: PaneGroupV::Layout { layout, .. }, .. } => if split_of(layout)
                is Some {
                1nat
            } else {
                0nat
            },
            _ => 0nat,
        }),
        forall|i: int, j: int|
            0 <= i < window_ops(session, wi, w).len() && 0 <= j < window_ops(session, wi, w).len()
                && kind_of(window_ops(session, wi, w)[i]) == OpKind::SplitWindow && kind_of(
                window_ops(session, wi, w)[j],
            ) == OpKind::SendKeys ==> i < j,
{
    let ops = window_ops(session, wi, w);
    let lead: Seq<OpV> = if wi > 0 {
        seq![OpV::NewWindow { session }]
    } else {
        Seq::empty()
    };
    if wi > 0 {
        lemma_count_kind_singleton(OpV::NewWindow { session }, OpKind::SplitWindow);
    }
    match w {
        WindowV::Simple { command } => {
            let tail = seq![OpV::SendKeys { target: target_seq(session, wi, 0), command }];
            lemma_count_kind_add(lead, tail, OpKind::SplitWindow);
            lemma_count_kind_zero(tail, OpKind::SplitWindow);
            assert forall|i: int| 0 <= i < ops.len() implies kind_of(ops[i])
                != OpKind::SplitWindow by {}
        },
        WindowV::Named { title, body } => {
            let rename = seq![OpV::RenameWindow { session, title }];
            let head = lead + rename;
            lemma_count_kind_add(lead, rename, OpKind::SplitWindow);
            lemma_count_kind_add(head, group_ops(session, wi, body), OpKind::SplitWindow);
            lemma_count_kind_zero(rename, OpKind::SplitWindow);
            match body {
                PaneGroupV::SingleCommand { command } => {
                    lemma_count_kind_singleton(
                        OpV::SendKeys { target: target_seq(session, wi, 0), command },
                        OpKind::SplitWindow,
                    );
                    assert forall|i: int| 0 <= i < ops.len() implies kind_of(ops[i])
                        != OpKind::SplitWindow by {}
                },
                PaneGroupV::Layout { layout, panes } => {
                    let splits = split_ops(session, layout);
                    let sends = send_ops(session, wi, panes);
                    lemma_count_kind_add(splits, sends, OpKind::SplitWindow);
                    lemma_count_kind_zero(sends, OpKind::SplitWindow);
                    if split_of(layout) is Some {
                        lemma_count_kind_singleton(splits[0], OpKind::SplitWindow);
                        assert(splits =~= seq![splits[0]]);
                    }
                    let b = head.len() as int;
                    let sk = splits.len() as int;
                    assert(ops =~= head + (splits + sends));
                    assert forall|i: int|
                        0 <= i < ops.len() && kind_of(ops[i]) == OpKind::SplitWindow implies b <= i
                        < b + sk by {
                        if i < b {
                            assert(ops[i] == head[i]);
                        } else {
                            assert(ops[i] == (splits + sends)[i - b]);
                        }
                    }
                    assert forall|j: int|
                        0 <= j < ops.len() && kind_of(ops[j]) == OpKind::SendKeys implies b + sk
                        <= j by {
                        if j < b {
                            assert(ops[j] == head[j]);
                        } else {
                            assert(ops[j] == (splits + sends)[j - b]);
                            if j - b < sk {
                                assert(kind_of(splits[j - b]) == OpKind::SplitWindow);
                            }
                        }
                    }
                },
            }
        },
    }
}

/// For a titled window, the rename is issued strictly before every
/// split and every send-keys of that window.
pub proof fn lemma_rename_before_content(
    session: Seq<char>,
    wi: nat,
    title: Seq<char>,
    body: PaneGroupV,
)
    ensures
        ({
            let ops = window_ops(session, wi, WindowV::Named { title, body });
            let r = if wi > 0 {
                1int
            } else {
                0int
            };
            &&& 0 <= r < ops.len()
            &&& ops[r] == (OpV::RenameWindow { session, title })
            &&& forall|j: int|
                0 <= j < ops.len() && (kind_of(ops[j]) == OpKind::SplitWindow || kind_of(ops[j])
                    == OpKind::SendKeys) ==> r < j
        }),
{
    let ops = window_ops(session, wi, WindowV::Named { title, body });
    let lead: Seq<OpV> = if wi > 0 {
        seq![OpV::NewWindow { session }]
    } else {
        Seq::empty()
    };
    let rename = seq![OpV::RenameWindow { session, title }];
    let head = lead + rename;
    let r = if wi > 0 {
        1int
    } else {
        0int
    };
    assert(ops =~= head + group_ops(session, wi, body));
    assert(ops[r] == head[r]);
    assert forall|j: int|
        0 <= j < ops.len() && (kind_of(ops[j]) == OpKind::SplitWindow || kind_of(ops[j])
            == OpKind::SendKeys) implies r < j by {
        if j < head.len() {
            assert(ops[j] == head[j]);
        }
    }
}

/// Graceful degradation: a document whose `windows` entry is not a
/// sequence (here: any shape but a sequence, a string included) yields
/// a model with no windows, and the creation-path plan is exactly the
/// session's creation followed by the final attach — no window, pane or
/// key operation, and no error.
pub proof fn lemma_graceful_degradation(d: Doc)
    requires
        match d {
            Doc::Mapping(entries) => !(lookup(entries@, "windows"@) matches Some(
                Doc::List(_),
            )),
            _ => true,
        },
    ensures
        doc_windows(d) =~= Seq::<WindowV>::empty(),
        plan_ops(doc_model(d), false) =~= seq![
            OpV::CreateSession { session: doc_session_name(d) },
            OpV::AttachSession { session: doc_session_name(d) },
        ],
{
    assert(doc_windows(d) =~= Seq::<WindowV>::empty());
    assert(plan_ops(doc_model(d), false) =~= seq![
        OpV::CreateSession { session: doc_session_name(d) },
        OpV::AttachSession { session: doc_session_name(d) },
    ]);
}

} // verus!
