//! The menu that adds a node: which rows it holds, what each says, and what a
//! text on the clipboard would paste as.

use vstd::prelude::*;
use vstd::string::*;

use crate::slot::{clone_text_opt, text_opt};
use crate::text::same_text;

verus! {

/// One kind of node, or one pattern, that can be added.
#[derive(Clone, Debug, PartialEq, Eq)]
pub struct UiAddNodeMenuEntry {
    pub label: String,
    pub icon: String,
    /// What adding it does, in a sentence.
    pub summary: String,
    /// Why it cannot be added here, where it cannot.
    pub unavailable: Option<String>,
}

/// The menu: the kinds, and the patterns that can be imported or why none can.
#[derive(Clone, Debug, PartialEq, Eq)]
pub struct UiAddNodeMenu {
    pub entries: Vec<UiAddNodeMenuEntry>,
    pub imports: Vec<UiAddNodeMenuEntry>,
    pub imports_empty: Option<String>,
}

/// What faded rows add to their class.
pub const FADED_CLASS: &'static str = " tw:opacity-55";

/// How a row of the menu is drawn.
#[derive(Clone, Debug, PartialEq, Eq)]
pub struct AddNodeRow {
    pub title: String,
    pub class: String,
    pub disabled: bool,
    pub annotation: Option<String>,
}

/// How a row of the menu is drawn. A kind that cannot be added stays in the list
/// and says why.
pub fn add_node_row(entry: &UiAddNodeMenuEntry, row_class: &str) -> (r: AddNodeRow)
    ensures
        r.title@ == match entry.unavailable {
            Some(reason) => reason@ + " \u{2014} "@ + entry.summary@,
            None => entry.summary@,
        },
        r.class@ == match entry.unavailable {
            Some(_) => row_class@ + FADED_CLASS@,
            None => row_class@,
        },
        r.disabled == entry.unavailable is Some,
        text_opt(r.annotation) == text_opt(entry.unavailable),
{
    let mut class: String = row_class.to_string();
    let title: String = match &entry.unavailable {
        Some(reason) => {
            class.append(FADED_CLASS);
            let mut title: String = reason.clone();
            title.append(" \u{2014} ");
            title.append(entry.summary.as_str());
            title
        },
        None => entry.summary.clone(),
    };
    AddNodeRow {
        title,
        class,
        disabled: entry.unavailable.is_some(),
        annotation: clone_text_opt(&entry.unavailable),
    }
}

/// Whether the menu holds the section of patterns to import. A menu where
/// nothing is imported has neither rows nor a reason for their absence.
pub fn shows_imports(menu: &UiAddNodeMenu) -> (r: bool)
    ensures
        r == (menu.imports@.len() > 0 || menu.imports_empty is Some),
{
    menu.imports.len() > 0 || menu.imports_empty.is_some()
}

/// The class of the row that stands for a source with nothing to offer.
pub fn empty_source_class(row_class: &str) -> (r: String)
    ensures
        r@ == row_class@ + FADED_CLASS@,
{
    let mut class: String = row_class.to_string();
    class.append(FADED_CLASS);
    class
}

/// What the header of a copied text was read as.
#[derive(Clone, Debug, PartialEq, Eq)]
pub enum PeekedHeader {
    /// An envelope, and the kind of thing in it.
    Envelope { kind: String },
    /// No envelope, and why.
    Unreadable { error: String },
}

/// What pasting does.
#[derive(Clone, Debug, PartialEq, Eq)]
pub enum PasteOutcome {
    /// Paste the text, a copied node.
    Paste { envelope: String },
    /// Paste nothing, and log this.
    Refuse { warning: String },
}

/// What pasting `text` as a node does, by what its header was read as: only an
/// envelope of the kind `node_kind` is pasted.
pub fn paste_outcome(text: &str, header: &PeekedHeader, node_kind: &str) -> (r: PasteOutcome)
    ensures
        match *header {
            PeekedHeader::Envelope { kind } => if kind@ == node_kind@ {
                r matches PasteOutcome::Paste { envelope } && envelope@ == text@
            } else {
                r matches PasteOutcome::Refuse { warning } && warning@
                    == "paste node: the clipboard holds a "@ + kind@ + " envelope, not a node"@
            },
            PeekedHeader::Unreadable { error } => r matches PasteOutcome::Refuse { warning }
                && warning@ == "paste node: "@ + error@,
        },
{
    match header {
        PeekedHeader::Envelope { kind } => {
            if same_text(kind.as_str(), node_kind) {
                PasteOutcome::Paste { envelope: text.to_string() }
            } else {
                let mut warning: String = "paste node: the clipboard holds a ".to_string();
                warning.append(kind.as_str());
                warning.append(" envelope, not a node");
                PasteOutcome::Refuse { warning }
            }
        },
        PeekedHeader::Unreadable { error } => {
            let mut warning: String = "paste node: ".to_string();
            warning.append(error.as_str());
            PasteOutcome::Refuse { warning }
        },
    }
}

pub const ADD_NODE_CLASS: &'static str = "tw:inline-flex tw:cursor-pointer tw:appearance-none tw:items-center tw:gap-2 tw:justify-self-start tw:rounded-md tw:border tw:border-dashed tw:border-border-subtle tw:bg-transparent tw:px-3 tw:py-2 tw:text-sm tw:text-subtle-foreground tw:hover:bg-card-muted tw:hover:text-soft-foreground";

pub const ADD_NODE_OPEN: &'static str = " tw:bg-card-muted tw:text-soft-foreground";

/// The class of the workspace's add button, at rest or with the menu open.
pub fn workspace_add_class(open: bool) -> (r: String)
    ensures
        r@ == if open {
            ADD_NODE_CLASS@ + ADD_NODE_OPEN@
        } else {
            ADD_NODE_CLASS@
        },
{
    let mut class: String = ADD_NODE_CLASS.to_string();
    if open {
        class.append(ADD_NODE_OPEN);
    }
    class
}

} // verus!
