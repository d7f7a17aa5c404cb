//! Window attributes and the writes that set them.
//!
//! The compositor keeps a few attributes for each window and lets the
//! application set them, one call for one attribute. This module names the two
//! attributes that the shell touches, gives the value that each write carries,
//! and models the window as the last value written to each attribute.

use vstd::prelude::*;

verus! {

/// The style code of the backdrop material that the shell gives its window.
/// The shell knows the material as Mica Alt; the compositor's headers list
/// this code as the material of a main window.
pub const MICA_ALT: i32 = 2;

/// Whether the platform can take the window effects at all. It is found out
/// once, when the application starts, and handed to each operation.
#[derive(Clone, Copy, Debug, PartialEq, Eq, Structural)]
pub enum WindowEffects {
    /// The compositor has the attributes below.
    Supported,
    /// It has not: every operation leaves the window alone.
    Unsupported,
}

/// An attribute of a window's chrome.
#[derive(Clone, Copy, Debug, PartialEq, Eq, Hash, Structural)]
pub enum WindowAttribute {
    /// Title bar and borders are drawn dark where the value is 1, light where
    /// it is 0.
    ImmersiveDarkMode,
    /// The material behind the window's content, by its style code.
    SystemBackdrop,
}

/// One call to the compositor: `attribute` is set to `value`, a 32-bit integer.
#[derive(Clone, Copy, Debug, PartialEq, Eq, Structural)]
pub struct AttributeWrite {
    pub attribute: WindowAttribute,
    pub value: i32,
}

/// The write that gives the window its backdrop material.
pub open spec fn mica_alt_write() -> AttributeWrite {
    AttributeWrite { attribute: WindowAttribute::SystemBackdrop, value: MICA_ALT }
}

/// The write that turns the dark title bar on or off: the flag as an integer.
pub open spec fn dark_mode_write(dark: bool) -> AttributeWrite {
    AttributeWrite {
        attribute: WindowAttribute::ImmersiveDarkMode,
        value: if dark { 1i32 } else { 0i32 },
    }
}

/// The write that applies the backdrop material.
pub fn enable_mica_alt() -> (write: AttributeWrite)
    ensures
        write == mica_alt_write(),
{
    AttributeWrite { attribute: WindowAttribute::SystemBackdrop, value: MICA_ALT }
}

/// The write that sets the dark title bar to `dark`.
pub fn set_immersive_dark_mode(dark: bool) -> (write: AttributeWrite)
    ensures
        write == dark_mode_write(dark),
        write.value == 1 <==> dark,
{
    let value: i32 = if dark { 1 } else { 0 };
    AttributeWrite { attribute: WindowAttribute::ImmersiveDarkMode, value }
}

/// The window after `write` took effect. A window is modelled as the
/// compositor holds it: for each attribute that was ever set, the value of
/// the last write to it.
pub open spec fn after_write(chrome: Map<WindowAttribute, i32>, write: AttributeWrite) -> Map<
    WindowAttribute,
    i32,
> {
    chrome.insert(write.attribute, write.value)
}

/// The window after each of `writes` took effect, in order.
pub open spec fn after_writes(chrome: Map<WindowAttribute, i32>, writes: Seq<AttributeWrite>) -> Map<
    WindowAttribute,
    i32,
>
    decreases writes.len(),
{
    if writes.len() == 0 {
        chrome
    } else {
        after_write(after_writes(chrome, writes.drop_last()), writes.last())
    }
}

/// What the window holds for `attribute`, if it was ever set.
pub open spec fn value_of(chrome: Map<WindowAttribute, i32>, attribute: WindowAttribute) -> Option<
    i32,
> {
    if chrome.contains_key(attribute) {
        Some(chrome[attribute])
    } else {
        None
    }
}

/// The value of the last of `writes` that sets `attribute`, if any does.
pub open spec fn last_written(writes: Seq<AttributeWrite>, attribute: WindowAttribute) -> Option<
    i32,
>
    decreases writes.len(),
{
    if writes.len() == 0 {
        None
    } else if writes.last().attribute == attribute {
        Some(writes.last().value)
    } else {
        last_written(writes.drop_last(), attribute)
    }
}

/// After `writes`, an attribute holds the value of the last write to it, and
/// what it held before where none of them sets it.
pub proof fn lemma_after_writes(
    chrome: Map<WindowAttribute, i32>,
    writes: Seq<AttributeWrite>,
    attribute: WindowAttribute,
)
    ensures
        value_of(after_writes(chrome, writes), attribute) == match last_written(writes, attribute) {
            Some(value) => Some(value),
            None => value_of(chrome, attribute),
        },
    decreases writes.len(),
{
    if writes.len() > 0 {
        lemma_after_writes(chrome, writes.drop_last(), attribute);
    }
}

/// Writes that took effect once change nothing when they take effect again:
/// the window after two rounds is the window after one.
pub proof fn lemma_writes_idempotent(chrome: Map<WindowAttribute, i32>, writes: Seq<AttributeWrite>)
    ensures
        after_writes(after_writes(chrome, writes), writes) == after_writes(chrome, writes),
{
    let once = after_writes(chrome, writes);
    let twice = after_writes(once, writes);
    assert forall|attribute: WindowAttribute|
        #![trigger twice.dom().contains(attribute)]
        #![trigger once.dom().contains(attribute)]
        twice.dom().contains(attribute) == once.dom().contains(attribute) && (once.dom().contains(
            attribute,
        ) ==> twice[attribute] == once[attribute]) by {
        lemma_after_writes(chrome, writes, attribute);
        lemma_after_writes(once, writes, attribute);
        assert(value_of(twice, attribute) == value_of(once, attribute));
    }
    assert(twice =~= once);
}

} // verus!
