//! Slots of a project: their addresses and the values that edits write.

use vstd::prelude::*;
use vstd::string::*;

use crate::text::{decimal, decimal_is_injective, decimal_text, has_prefix};

verus! {

/// Where a slot lives: the node, which of the node's slot trees, and the path
/// in that tree, written like `channels[0].count.some`.
#[derive(Debug, PartialEq, Eq)]
pub struct ProjectSlotAddress {
    pub node: String,
    pub root: String,
    pub path: String,
}

/// What a [`ProjectSlotAddress`] says.
pub struct SlotAddressView {
    pub node: Seq<char>,
    pub root: Seq<char>,
    pub path: Seq<char>,
}

impl View for ProjectSlotAddress {
    type V = SlotAddressView;

    open spec fn view(&self) -> SlotAddressView {
        SlotAddressView { node: self.node@, root: self.root@, path: self.path@ }
    }
}

/// The name can stand as one field of a slot path.
pub open spec fn is_field_name(name: Seq<char>) -> bool {
    name.len() > 0 && forall|i: int|
        0 <= i < name.len() ==> (#[trigger] name[i]) != '.' && name[i] != '[' && name[i] != ']'
}

impl SlotAddressView {
    /// The entry of a map slot under `key`.
    pub open spec fn map_entry(self, key: u32) -> SlotAddressView {
        SlotAddressView { path: self.path + "["@ + decimal(key as nat) + "]"@, ..self }
    }

    /// The field of a record slot called `name`.
    pub open spec fn field(self, name: Seq<char>) -> SlotAddressView {
        SlotAddressView { path: self.path + "."@ + name, ..self }
    }
}

impl Clone for ProjectSlotAddress {
    fn clone(&self) -> (r: Self)
        ensures
            r == *self,
    {
        ProjectSlotAddress {
            node: self.node.clone(),
            root: self.root.clone(),
            path: self.path.clone(),
        }
    }
}

impl ProjectSlotAddress {
    /// An address from its three parts.
    pub fn new(node: &str, root: &str, path: &str) -> (r: Self)
        ensures
            r@ == (SlotAddressView { node: node@, root: root@, path: path@ }),
    {
        ProjectSlotAddress {
            node: node.to_string(),
            root: root.to_string(),
            path: path.to_string(),
        }
    }

    /// The address of one entry of a map slot.
    pub fn child_map_entry(&self, key: u32) -> (r: Self)
        ensures
            r@ == self@.map_entry(key),
    {
        let mut path: String = self.path.clone();
        path.append("[");
        path.append(decimal_text(key as u64).as_str());
        path.append("]");
        ProjectSlotAddress { node: self.node.clone(), root: self.root.clone(), path }
    }

    /// The address of one field of a record slot, where `name` can be one.
    pub fn child_field(&self, name: &str) -> (r: Option<Self>)
        ensures
            r is Some <==> is_field_name(name@),
            r matches Some(address) ==> address@ == self@.field(name@),
    {
        let len: usize = name.unicode_len();
        if len == 0 {
            return None;
        }
        let mut at: usize = 0;
        while at < len
            invariant
                len == name@.len(),
                at <= len,
                forall|i: int|
                    0 <= i < at ==> (#[trigger] name@[i]) != '.' && name@[i] != '[' && name@[i]
                        != ']',
            decreases len - at,
        {
            let c: char = name.get_char(at);
            if c == '.' || c == '[' || c == ']' {
                assert(!is_field_name(name@)) by {
                    assert(name@[at as int] == c);
                }
                return None;
            }
            at += 1;
        }
        let mut path: String = self.path.clone();
        path.append(".");
        path.append(name);
        Some(ProjectSlotAddress { node: self.node.clone(), root: self.root.clone(), path })
    }

    /// Whether two addresses name the same slot.
    pub fn same(&self, other: &ProjectSlotAddress) -> (r: bool)
        ensures
            r == (self@ == other@),
    {
        self.node == other.node && self.root == other.root && self.path == other.path
    }
}

/// Two entries of one map have different addresses.
pub proof fn map_entries_do_not_collide(address: SlotAddressView, a: u32, b: u32)
    requires
        address.map_entry(a) == address.map_entry(b),
    ensures
        a == b,
{
    reveal_strlit("[");
    reveal_strlit("]");
    let head = address.path + "["@;
    let x = head + decimal(a as nat) + "]"@;
    let y = head + decimal(b as nat) + "]"@;
    assert(address.map_entry(a).path == x);
    assert(address.map_entry(b).path == y);
    assert(x.subrange(head.len() as int, x.len() - 1) =~= decimal(a as nat));
    assert(y.subrange(head.len() as int, y.len() - 1) =~= decimal(b as nat));
    decimal_is_injective(a as nat, b as nat);
}

/// The address of a field or of a map entry extends the address it was made
/// from, which it therefore never equals.
pub proof fn children_extend_their_parent(address: SlotAddressView, key: u32, name: Seq<char>)
    ensures
        has_prefix(address.map_entry(key).path, address.path),
        has_prefix(address.field(name).path, address.path),
        address.map_entry(key) != address,
        address.field(name) != address,
{
    reveal_strlit("[");
    reveal_strlit("]");
    reveal_strlit(".");
    assert(address.map_entry(key).path.take(address.path.len() as int) =~= address.path);
    assert(address.field(name).path.take(address.path.len() as int) =~= address.path);
    assert(address.map_entry(key).path.len() > address.path.len());
    assert(address.field(name).path.len() > address.path.len());
}

/// A value that a slot holds. A single-precision number is kept as its bit
/// pattern: nothing here computes with it.
#[derive(Debug, PartialEq, Eq)]
pub enum LpValue {
    Bool(bool),
    U32(u32),
    F32(u32),
    String(String),
    /// A record of unsigned fields, in order.
    Struct { name: Option<String>, fields: Vec<(String, u32)> },
}

/// What an [`LpValue`] holds.
pub enum LpValueView {
    Bool(bool),
    U32(u32),
    F32(u32),
    String(Seq<char>),
    Struct { name: Option<Seq<char>>, fields: Seq<(Seq<char>, u32)> },
}

/// The text of an optional string.
pub open spec fn text_opt(s: Option<String>) -> Option<Seq<char>> {
    match s {
        Some(text) => Some(text@),
        None => None,
    }
}

impl View for LpValue {
    type V = LpValueView;

    open spec fn view(&self) -> LpValueView {
        match *self {
            LpValue::Bool(value) => LpValueView::Bool(value),
            LpValue::U32(value) => LpValueView::U32(value),
            LpValue::F32(bits) => LpValueView::F32(bits),
            LpValue::String(text) => LpValueView::String(text@),
            LpValue::Struct { name, fields } => LpValueView::Struct {
                name: text_opt(name),
                fields: Seq::new(fields@.len(), |i: int| (fields@[i].0@, fields@[i].1)),
            },
        }
    }
}

/// Copies an optional string.
pub fn clone_text_opt(s: &Option<String>) -> (r: Option<String>)
    ensures
        r == *s,
{
    match s {
        Some(text) => Some(text.clone()),
        None => None,
    }
}

impl Clone for LpValue {
    fn clone(&self) -> (r: Self)
        ensures
            r@ == self@,
    {
        match self {
            LpValue::Bool(value) => LpValue::Bool(*value),
            LpValue::U32(value) => LpValue::U32(*value),
            LpValue::F32(bits) => LpValue::F32(*bits),
            LpValue::String(text) => LpValue::String(text.clone()),
            LpValue::Struct { name, fields } => {
                let mut copies: Vec<(String, u32)> = Vec::new();
                let mut at: usize = 0;
                while at < fields.len()
                    invariant
                        at <= fields.len(),
                        copies.len() == at,
                        forall|i: int|
                            0 <= i < at ==> (#[trigger] copies@[i]).0@ == fields@[i].0@
                                && copies@[i].1 == fields@[i].1,
                    decreases fields.len() - at,
                {
                    copies.push((fields[at].0.clone(), fields[at].1));
                    at += 1;
                }
                let r: LpValue = LpValue::Struct { name: clone_text_opt(name), fields: copies };
                assert(r@->fields =~= self@->fields);
                r
            },
        }
    }
}

} // verus!
