//! The multiplexer operation surface: the six session-management
//! operations the interpreter emits, in the order they must be issued.

use vstd::prelude::*;

verus! {

/// The orientation of a window split.
#[derive(Debug, Clone, Copy, PartialEq, Eq)]
pub enum SplitDir {
    /// The multiplexer's default split orientation.
    Horizontal,
    /// A vertical split.
    Vertical,
}

/// One operation against the multiplexer, ready to be issued.
#[derive(Debug, Clone, PartialEq, Eq)]
pub enum Op {
    /// Create a detached session with the given name.
    CreateSession(String),
    /// Attach to the session with the given name.
    AttachSession(String),
    /// Open a new window in the given session.
    NewWindow(String),
    /// Rename the current window of the given session.
    RenameWindow(String, String),
    /// Split the current window of the given session.
    SplitWindow(String, SplitDir),
    /// Send a command to the pane addressed by the target string.
    SendKeys(String, String),
}

/// The mathematical form of an operation: the same six shapes over
/// character sequences.
#[verifier::ext_equal]
pub enum OpV {
    CreateSession { session: Seq<char> },
    AttachSession { session: Seq<char> },
    NewWindow { session: Seq<char> },
    RenameWindow { session: Seq<char>, title: Seq<char> },
    SplitWindow { session: Seq<char>, dir: SplitDir },
    SendKeys { target: Seq<char>, command: Seq<char> },
}

impl View for Op {
    type V = OpV;

    open spec fn view(&self) -> OpV {
        match self {
            Op::CreateSession(s) => OpV::CreateSession { session: s@ },
            Op::AttachSession(s) => OpV::AttachSession { session: s@ },
            Op::NewWindow(s) => OpV::NewWindow { session: s@ },
            Op::RenameWindow(s, t) => OpV::RenameWindow { session: s@, title: t@ },
            Op::SplitWindow(s, d) => OpV::SplitWindow { session: s@, dir: *d },
            Op::SendKeys(t, c) => OpV::SendKeys { target: t@, command: c@ },
        }
    }
}

/// The views of a sequence of operations.
pub open spec fn ops_view(ops: Seq<Op>) -> Seq<OpV> {
    ops.map_values(|o: Op| o@)
}

pub proof fn lemma_ops_view_push(ops: Seq<Op>, o: Op)
    ensures
        ops_view(ops.push(o)) =~= ops_view(ops).push(o@),
{
}

pub proof fn lemma_ops_view_add(a: Seq<Op>, b: Seq<Op>)
    ensures
        ops_view(a + b) =~= ops_view(a) + ops_view(b),
{
}

/// The six shapes of operation, without their arguments.
#[derive(Debug, Clone, Copy, PartialEq, Eq, Structural)]
pub enum OpKind {
    CreateSession,
    AttachSession,
    NewWindow,
    RenameWindow,
    SplitWindow,
    SendKeys,
}

/// The shape of an operation.
pub open spec fn kind_of(o: OpV) -> OpKind {
    match o {
        OpV::CreateSession { .. } => OpKind::CreateSession,
        OpV::AttachSession { .. } => OpKind::AttachSession,
        OpV::NewWindow { .. } => OpKind::NewWindow,
        OpV::RenameWindow { .. } => OpKind::RenameWindow,
        OpV::SplitWindow { .. } => OpKind::SplitWindow,
        OpV::SendKeys { .. } => OpKind::SendKeys,
    }
}

/// How many operations of `ops` have shape `k`.
pub open spec fn count_kind(ops: Seq<OpV>, k: OpKind) -> nat
    decreases ops.len(),
{
    if ops.len() == 0 {
        0
    } else {
        count_kind(ops.drop_last(), k) + (if kind_of(ops.last()) == k {
            1nat
        } else {
            0nat
        })
    }
}

pub proof fn lemma_count_kind_add(a: Seq<OpV>, b: Seq<OpV>, k: OpKind)
    ensures
        count_kind(a + b, k) == count_kind(a, k) + count_kind(b, k),
    decreases b.len(),
{
    if b.len() == 0 {
        assert(a + b =~= a);
    } else {
        assert((a + b).drop_last() =~= a + b.drop_last());
        assert((a + b).last() == b.last());
        lemma_count_kind_add(a, b.drop_last(), k);
    }
}

pub proof fn lemma_count_kind_zero(ops: Seq<OpV>, k: OpKind)
    requires
        forall|i: int| 0 <= i < ops.len() ==> kind_of(ops[i]) != k,
    ensures
        count_kind(ops, k) == 0,
    decreases ops.len(),
{
    if ops.len() > 0 {
        lemma_count_kind_zero(ops.drop_last(), k);
    }
}

pub proof fn lemma_count_kind_singleton(o: OpV, k: OpKind)
    ensures
        count_kind(seq![o], k) == (if kind_of(o) == k {
            1nat
        } else {
            0nat
        }),
{
    assert(seq![o].drop_last() =~= Seq::<OpV>::empty());
    assert(count_kind(Seq::<OpV>::empty(), k) == 0);
    assert(seq![o].last() == o);
}

} // verus!
