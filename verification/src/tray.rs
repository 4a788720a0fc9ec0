//! What the system tray icon shows and does: the Vietnamese/English state,
//! the typing method, and the labels of its menu.

use vstd::prelude::*;

verus! {

/// Method number of Telex in the tray menu.
pub const METHOD_TELEX: u8 = 0u8;
/// Method number of VNI in the tray menu.
pub const METHOD_VNI: u8 = 1u8;

/// The tray's state: whether Vietnamese typing is on, and the typing method
/// (`0` Telex, `1` VNI).
#[derive(Debug, Clone, Copy, PartialEq, Eq)]
pub struct VnikeyTray {
    pub is_vietnamese_enabled: bool,
    pub input_method: u8,
}

impl VnikeyTray {
    pub fn id(&self) -> (r: &'static str)
        ensures
            r@ == "vnikey"@,
    {
        "vnikey"
    }

    /// The symbolic keyboard icon while Vietnamese typing is on, the plain
    /// one otherwise.
    pub fn icon_name(&self) -> (r: &'static str)
        ensures
            r@ == (if self.is_vietnamese_enabled {
                "input-keyboard-symbolic"@
            } else {
                "input-keyboard"@
            }),
    {
        if self.is_vietnamese_enabled {
            "input-keyboard-symbolic"
        } else {
            "input-keyboard"
        }
    }

    /// `[V] Vietnamese` or `[E] English`; also the tooltip's title.
    pub fn title(&self) -> (r: &'static str)
        ensures
            r@ == (if self.is_vietnamese_enabled {
                "[V] Vietnamese"@
            } else {
                "[E] English"@
            }),
    {
        if self.is_vietnamese_enabled {
            "[V] Vietnamese"
        } else {
            "[E] English"
        }
    }

    /// A click on the icon flips Vietnamese typing; the new state is returned.
    pub fn activate(&mut self) -> (r: bool)
        ensures
            r == !old(self).is_vietnamese_enabled,
            final(self).is_vietnamese_enabled == r,
            final(self).input_method == old(self).input_method,
    {
        self.is_vietnamese_enabled = !self.is_vietnamese_enabled;
        self.is_vietnamese_enabled
    }

    /// Label of the menu item that flips the language.
    pub fn language_label(&self) -> (r: &'static str)
        ensures
            r@ == (if self.is_vietnamese_enabled {
                "✓ Tiếng Việt"@
            } else {
                "  Tiếng Anh"@
            }),
    {
        if self.is_vietnamese_enabled {
            "✓ Tiếng Việt"
        } else {
            "  Tiếng Anh"
        }
    }

    /// Label of the Telex menu item, checked while Telex is chosen.
    pub fn telex_label(&self) -> (r: &'static str)
        ensures
            r@ == (if self.input_method == METHOD_TELEX {
                "✓ Telex"@
            } else {
                "  Telex"@
            }),
    {
        if self.input_method == METHOD_TELEX {
            "✓ Telex"
        } else {
            "  Telex"
        }
    }

    /// Label of the VNI menu item, checked while VNI is chosen.
    pub fn vni_label(&self) -> (r: &'static str)
        ensures
            r@ == (if self.input_method == METHOD_VNI {
                "✓ VNI"@
            } else {
                "  VNI"@
            }),
    {
        if self.input_method == METHOD_VNI {
            "✓ VNI"
        } else {
            "  VNI"
        }
    }

    /// Chooses the typing method from the menu.
    pub fn select_method(&mut self, method: u8)
        ensures
            final(self).input_method == method,
            final(self).is_vietnamese_enabled == old(self).is_vietnamese_enabled,
    {
        self.input_method = method;
    }
}

/// Clicking the icon twice leaves the tray as it was.
pub proof fn lemma_activate_twice(before: VnikeyTray, middle: VnikeyTray, after: VnikeyTray)
    requires
        middle.is_vietnamese_enabled == !before.is_vietnamese_enabled,
        middle.input_method == before.input_method,
        after.is_vietnamese_enabled == !middle.is_vietnamese_enabled,
        after.input_method == middle.input_method,
    ensures
        after == before,
{
}

} // verus!
