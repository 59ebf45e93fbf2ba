use vstd::prelude::*;

use crate::command::owned;

verus! {

/// The registry root a value lives under.
#[derive(Clone, Copy, Debug, PartialEq, Eq, Structural)]
pub enum Hive {
    CurrentUser,
    LocalMachine,
}

/// A named value under a registry key.
#[derive(Clone, Debug, PartialEq, Eq)]
pub struct RegistryValue {
    pub hive: Hive,
    pub key: String,
    pub name: String,
}

/// The plain content of a [`RegistryValue`].
pub struct RegistryValueView {
    pub hive: Hive,
    pub key: Seq<char>,
    pub name: Seq<char>,
}

impl View for RegistryValue {
    type V = RegistryValueView;

    open spec fn view(&self) -> RegistryValueView {
        RegistryValueView { hive: self.hive, key: self.key@, name: self.name@ }
    }
}

/// A string value to store in the registry.
#[derive(Clone, Debug, PartialEq, Eq)]
pub struct RegistryWrite {
    pub target: RegistryValue,
    pub data: String,
}

/// A 32-bit number to store in the registry.
#[derive(Clone, Debug, PartialEq, Eq)]
pub struct DwordWrite {
    pub target: RegistryValue,
    pub data: u32,
}

/// The registry as the shell sees it: the string stored under each value
/// that holds one.
pub type RegistryContents = Map<RegistryValueView, Seq<char>>;

/// What reading `target` as a string gives: the stored text, or nothing.
pub open spec fn read_value(reg: RegistryContents, target: RegistryValueView) -> Option<
    Seq<char>,
> {
    if reg.dom().contains(target) {
        Some(reg[target])
    } else {
        None
    }
}

/// The plain content of a [`RegistryWrite`].
pub struct RegistryWriteView {
    pub target: RegistryValueView,
    pub data: Seq<char>,
}

impl View for RegistryWrite {
    type V = RegistryWriteView;

    open spec fn view(&self) -> RegistryWriteView {
        RegistryWriteView { target: self.target@, data: self.data@ }
    }
}

/// The registry after a write has stored its text.
pub open spec fn after_write(reg: RegistryContents, w: RegistryWriteView) -> RegistryContents {
    reg.insert(w.target, w.data)
}

/// The registry after a value has been deleted.
pub open spec fn after_delete(reg: RegistryContents, target: RegistryValueView) -> RegistryContents {
    reg.remove(target)
}

/// A registry value with the given location.
pub fn registry_value(hive: Hive, key: &str, name: &str) -> (v: RegistryValue)
    ensures
        v@ == (RegistryValueView { hive, key: key@, name: name@ }),
{
    RegistryValue { hive, key: owned(key), name: owned(name) }
}

} // verus!
