//! The global shortcut and the palette window it opens.
use vstd::prelude::*;

verus! {

/// The global shortcut that reveals the palette.
pub const DEFAULT_SHORTCUT: &'static str = "Ctrl+Shift+V";

/// The label of the application's window.
pub const MAIN_WINDOW: &'static str = "main";

/// The event announced to the window when it is shown; it carries whether the
/// palette is compact.
pub const PALETTE_OPENED_EVENT: &'static str = "palette-opened";

/// The size of the window, in logical pixels, and whether it is the compact palette.
#[derive(Clone, Copy, Debug, PartialEq, Eq, Structural)]
pub struct PaletteLayout {
    pub width: u32,
    pub height: u32,
    pub compact: bool,
}

/// The compact palette, shown by the global shortcut.
pub fn compact_palette() -> (layout: PaletteLayout)
    ensures
        layout == (PaletteLayout { width: 620, height: 520, compact: true }),
{
    PaletteLayout { width: 620, height: 520, compact: true }
}

/// The full workspace, shown from the tray.
pub fn full_workspace() -> (layout: PaletteLayout)
    ensures
        layout == (PaletteLayout { width: 980, height: 650, compact: false }),
{
    PaletteLayout { width: 980, height: 650, compact: false }
}

} // verus!
