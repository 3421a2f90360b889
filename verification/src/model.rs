//! The typed layout model and its extraction from the document tree.
//!
//! A layout document declares a session name and an ordered list of
//! windows.  Extraction is total and lenient: a field of an unexpected
//! shape degrades to the nearest no-op (no windows, no panes, no split)
//! rather than failing.

use vstd::prelude::*;
use crate::doc::{lookup, Doc};
use crate::doc::{find_value, string_eq_str};

verus! {

/// The content of one window: either a single pane running one command,
/// or a pane list split according to a layout policy.
#[derive(Debug, Clone, PartialEq, Eq)]
pub enum PaneGroupSpec {
    /// One pane, one command.
    SingleCommand(String),
    /// One command per pane, split once according to `layout`.
    Layout { layout: Option<String>, panes: Vec<String> },
}

/// One window of the session.
#[derive(Debug, Clone, PartialEq, Eq)]
pub enum WindowSpec {
    /// An untitled window with one pane running the command.
    Simple(String),
    /// A titled window whose content is further specified.
    Named { title: String, body: PaneGroupSpec },
}

/// A whole layout document: the session name and its windows, in order.
#[derive(Debug, Clone, PartialEq, Eq)]
pub struct LayoutDocument {
    pub name: String,
    pub windows: Vec<WindowSpec>,
}

/// The mathematical form of a pane group.
#[verifier::ext_equal]
pub enum PaneGroupV {
    SingleCommand { command: Seq<char> },
    Layout { layout: Option<Seq<char>>, panes: Seq<Seq<char>> },
}

/// The mathematical form of a window.
#[verifier::ext_equal]
pub enum WindowV {
    Simple { command: Seq<char> },
    Named { title: Seq<char>, body: PaneGroupV },
}

/// The mathematical form of a layout document.
#[verifier::ext_equal]
pub struct DocumentV {
    pub name: Seq<char>,
    pub windows: Seq<WindowV>,
}

impl View for PaneGroupSpec {
    type V = PaneGroupV;

    open spec fn view(&self) -> PaneGroupV {
        match self {
            PaneGroupSpec::SingleCommand(c) => PaneGroupV::SingleCommand { command: c@ },
            PaneGroupSpec::Layout { layout, panes } => PaneGroupV::Layout {
                layout: match layout {
                    Some(l) => Some(l@),
                    None => None,
                },
                panes: panes@.map_values(|s: String| s@),
            },
        }
    }
}

impl View for WindowSpec {
    type V = WindowV;

    open spec fn view(&self) -> WindowV {
        match self {
            WindowSpec::Simple(c) => WindowV::Simple { command: c@ },
            WindowSpec::Named { title, body } => WindowV::Named { title: title@, body: body@ },
        }
    }
}

impl View for LayoutDocument {
    type V = DocumentV;

    open spec fn view(&self) -> DocumentV {
        DocumentV { name: self.name@, windows: self.windows@.map_values(|w: WindowSpec| w@) }
    }
}

/// The session name a document declares: its `name` entry, or
/// `"default"` where that entry is absent or not a string.
pub open spec fn doc_session_name(d: Doc) -> Seq<char> {
    match d {
        Doc::Mapping(entries) => match lookup(entries@, "name"@) {
            Some(Doc::Text(s)) => s@,
            _ => "default"@,
        },
        _ => "default"@,
    }
}

/// The display title a mapping key declares: the key itself where it is
/// a non-empty string, the literal `"shell"` otherwise.
pub open spec fn title_of(k: Doc) -> Seq<char> {
    match k {
        Doc::Text(s) => if s@.len() > 0 {
            s@
        } else {
            "shell"@
        },
        _ => "shell"@,
    }
}

/// The string entries of `items` at or after position `i`, in order;
/// entries of any other shape are skipped.
pub open spec fn commands_from(items: Seq<Doc>, i: int) -> Seq<Seq<char>>
    decreases items.len() - i,
{
    if i < 0 || i >= items.len() {
        Seq::empty()
    } else {
        let rest = commands_from(items, i + 1);
        match items[i] {
            Doc::Text(cmd) => seq![cmd@] + rest,
            _ => rest,
        }
    }
}

/// The layout policy a pane-group mapping declares: its `layout` entry,
/// where that entry is a string.
pub open spec fn layout_of(entries: Seq<(Doc, Doc)>) -> Option<Seq<char>> {
    match lookup(entries, "layout"@) {
        Some(Doc::Text(l)) => Some(l@),
        _ => None,
    }
}

/// The pane commands a pane-group mapping declares: the string entries
/// of its `panes` sequence, or none where that entry is absent or not a
/// sequence.
pub open spec fn panes_of(entries: Seq<(Doc, Doc)>) -> Seq<Seq<char>> {
    match lookup(entries, "panes"@) {
        Some(Doc::List(items)) => commands_from(items@, 0),
        _ => Seq::empty(),
    }
}

/// The pane group a window body declares.  A body of an unexpected
/// shape degrades to a layout with no split and no panes.
pub open spec fn group_of(v: Doc) -> PaneGroupV {
    match v {
        Doc::Text(cmd) => PaneGroupV::SingleCommand { command: cmd@ },
        Doc::Mapping(entries) => PaneGroupV::Layout {
            layout: layout_of(entries@),
            panes: panes_of(entries@),
        },
        _ => PaneGroupV::Layout { layout: None, panes: Seq::empty() },
    }
}

/// The window a `windows` entry declares: a string is an untitled
/// single-command window; a non-empty mapping's first entry is a titled
/// window; anything else is skipped.
pub open spec fn window_of(w: Doc) -> Option<WindowV> {
    match w {
        Doc::Text(cmd) => Some(WindowV::Simple { command: cmd@ }),
        Doc::Mapping(entries) => if entries@.len() > 0 {
            Some(
                WindowV::Named { title: title_of(entries@[0].0), body: group_of(entries@[0].1) },
            )
        } else {
            None
        },
        _ => None,
    }
}

/// The windows declared by `items` at or after position `i`, in order;
/// entries that declare no window are skipped.
pub open spec fn windows_from(items: Seq<Doc>, i: int) -> Seq<WindowV>
    decreases items.len() - i,
{
    if i < 0 || i >= items.len() {
        Seq::empty()
    } else {
        let rest = windows_from(items, i + 1);
        match window_of(items[i]) {
            Some(w) => seq![w] + rest,
            None => rest,
        }
    }
}

/// The windows a document declares: the recognised entries of its
/// `windows` sequence, or none where that entry is absent or not a
/// sequence.
pub open spec fn doc_windows(d: Doc) -> Seq<WindowV> {
    match d {
        Doc::Mapping(entries) => match lookup(entries@, "windows"@) {
            Some(Doc::List(items)) => windows_from(items@, 0),
            _ => Seq::empty(),
        },
        _ => Seq::empty(),
    }
}

/// The typed model of a document: its session name and windows.
pub open spec fn doc_model(d: Doc) -> DocumentV {
    DocumentV { name: doc_session_name(d), windows: doc_windows(d) }
}

fn default_session_name() -> (r: String)
    ensures
        r@ == "default"@,
{
    "default".to_owned()
}

fn shell_title() -> (r: String)
    ensures
        r@ == "shell"@,
{
    "shell".to_owned()
}

/// Extracts the session name from a document, falling back to
/// `"default"` where the `name` entry is absent or not a string.
pub fn resolve_session(doc: &Doc) -> (r: String)
    ensures
        r@ == doc_session_name(*doc),
{
    match doc {
        Doc::Mapping(entries) => match find_value(entries, "name") {
            Some(d) => match d {
                Doc::Text(s) => s.clone(),
                _ => default_session_name(),
            },
            None => default_session_name(),
        },
        _ => default_session_name(),
    }
}

fn parse_title(k: &Doc) -> (r: String)
    ensures
        r@ == title_of(*k),
{
    match k {
        Doc::Text(s) => {
            if s.as_str().is_empty() {
                shell_title()
            } else {
                s.clone()
            }
        },
        _ => shell_title(),
    }
}

fn collect_commands(items: &Vec<Doc>) -> (r: Vec<String>)
    ensures
        r@.map_values(|s: String| s@) == commands_from(items@, 0),
{
    let mut r: Vec<String> = Vec::new();
    let mut i: usize = 0;
    while i < items.len()
        invariant
            0 <= i <= items.len(),
            r@.map_values(|s: String| s@) + commands_from(items@, i as int) == commands_from(
                items@,
                0,
            ),
        decreases items.len() - i,
    {
        let ghost prev = r@;
        match &items[i] {
            Doc::Text(cmd) => {
                r.push(cmd.clone());
                proof {
                    assert(r@.map_values(|s: String| s@) =~= prev.map_values(|s: String| s@)
                        + seq![items@[i as int]->Text_0@]);
                    assert(prev.map_values(|s: String| s@) + (seq![items@[i as int]->Text_0@]
                        + commands_from(items@, i + 1)) =~= (prev.map_values(|s: String| s@)
                        + seq![items@[i as int]->Text_0@]) + commands_from(items@, i + 1));
                }
            },
            _ => {},
        }
        i = i + 1;
    }
    proof {
        assert(r@.map_values(|s: String| s@) =~= r@.map_values(|s: String| s@) + commands_from(
            items@,
            items@.len() as int,
        ));
    }
    r
}

fn parse_group(v: &Doc) -> (r: PaneGroupSpec)
    ensures
        r@ == group_of(*v),
{
    match v {
        Doc::Text(cmd) => PaneGroupSpec::SingleCommand(cmd.clone()),
        Doc::Mapping(entries) => {
            let layout: Option<String> = match find_value(entries, "layout") {
                Some(d) => match d {
                    Doc::Text(l) => Some(l.clone()),
                    _ => None,
                },
                None => None,
            };
            let panes: Vec<String> = match find_value(entries, "panes") {
                Some(d) => match d {
                    Doc::List(items) => collect_commands(items),
                    _ => Vec::new(),
                },
                None => Vec::new(),
            };
            proof {
                assert(Seq::<String>::empty().map_values(|s: String| s@) =~= Seq::<
                    Seq<char>,
                >::empty());
            }
            PaneGroupSpec::Layout { layout, panes }
        },
        _ => {
            proof {
                assert(Seq::<String>::empty().map_values(|s: String| s@) =~= Seq::<
                    Seq<char>,
                >::empty());
            }
            PaneGroupSpec::Layout { layout: None, panes: Vec::new() }
        },
    }
}

fn parse_window(w: &Doc) -> (r: Option<WindowSpec>)
    ensures
        match r {
            Some(ws) => window_of(*w) == Some(ws@),
            None => window_of(*w) is None,
        },
{
    match w {
        Doc::Text(cmd) => Some(WindowSpec::Simple(cmd.clone())),
        Doc::Mapping(entries) => {
            if entries.len() > 0 {
                let (k, v) = &entries[0];
                let title = parse_title(k);
                let body = parse_group(v);
                Some(WindowSpec::Named { title, body })
            } else {
                None
            }
        },
        _ => None,
    }
}

fn collect_windows(items: &Vec<Doc>) -> (r: Vec<WindowSpec>)
    ensures
        r@.map_values(|w: WindowSpec| w@) == windows_from(items@, 0),
{
    let mut r: Vec<WindowSpec> = Vec::new();
    let mut i: usize = 0;
    while i < items.len()
        invariant
            0 <= i <= items.len(),
            r@.map_values(|w: WindowSpec| w@) + windows_from(items@, i as int) == windows_from(
                items@,
                0,
            ),
        decreases items.len() - i,
    {
        let ghost prev = r@;
        match parse_window(&items[i]) {
            Some(ws) => {
                let ghost wv = ws@;
                r.push(ws);
                proof {
                    assert(r@.map_values(|w: WindowSpec| w@) =~= prev.map_values(
                        |w: WindowSpec| w@,
                    ) + seq![wv]);
                    assert(prev.map_values(|w: WindowSpec| w@) + (seq![wv] + windows_from(
                        items@,
                        i + 1,
                    )) =~= (prev.map_values(|w: WindowSpec| w@) + seq![wv]) + windows_from(
                        items@,
                        i + 1,
                    ));
                }
            },
            None => {},
        }
        i = i + 1;
    }
    proof {
        assert(r@.map_values(|w: WindowSpec| w@) =~= r@.map_values(|w: WindowSpec| w@)
            + windows_from(items@, items@.len() as int));
    }
    r
}

/// Builds the typed model of a document: the session name and the
/// recognised windows, in document order.  Extraction never fails;
/// unrecognised constructs are skipped.
pub fn build_document(doc: &Doc) -> (r: LayoutDocument)
    ensures
        r@ == doc_model(*doc),
{
    let name = resolve_session(doc);
    let windows: Vec<WindowSpec> = match doc {
        Doc::Mapping(entries) => match find_value(entries, "windows") {
            Some(d) => match d {
                Doc::List(items) => collect_windows(items),
                _ => Vec::new(),
            },
            None => Vec::new(),
        },
        _ => Vec::new(),
    };
    proof {
        assert(Seq::<WindowSpec>::empty().map_values(|w: WindowSpec| w@) =~= Seq::<
            WindowV,
        >::empty());
    }
    LayoutDocument { name, windows }
}

} // verus!
