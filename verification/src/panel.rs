//! How large indicators are drawn on panels of the sizes that a desktop
//! offers.

use crate::configuration::general::{GeneralConfiguration, DEFAULT_INDICATOR_FONT_SIZE};
use vstd::prelude::*;

verus! {

/// The size of an icon on the smallest panel.
pub const DEFAULT_INDICATOR_ICON_SIZE: u16 = 12;

/// The space between two indicators.
pub const DEFAULT_INDICATOR_SPACING: u16 = 8;

/// The sizes that a panel comes in.
#[derive(Debug, Clone, Copy, PartialEq, Eq, Structural)]
pub enum PanelSize {
    XS,
    S,
    M,
    L,
    XL,
}

/// The font size for a panel: the one that the settings give for the
/// panel's size and direction, and the default for a panel of no named size.
pub open spec fn font_size_for(
    configuration: GeneralConfiguration,
    size: Option<PanelSize>,
    horizontal: bool,
) -> u16 {
    match size {
        Some(PanelSize::XS) => if horizontal {
            configuration.horizontal_font_size_xs
        } else {
            configuration.vertical_font_size_xs
        },
        Some(PanelSize::S) => if horizontal {
            configuration.horizontal_font_size_sm
        } else {
            configuration.vertical_font_size_sm
        },
        Some(PanelSize::M) => if horizontal {
            configuration.horizontal_font_size_md
        } else {
            configuration.vertical_font_size_md
        },
        Some(PanelSize::L) => if horizontal {
            configuration.horizontal_font_size_lg
        } else {
            configuration.vertical_font_size_lg
        },
        Some(PanelSize::XL) => if horizontal {
            configuration.horizontal_font_size_xl
        } else {
            configuration.vertical_font_size_xl
        },
        None => DEFAULT_INDICATOR_FONT_SIZE,
    }
}

/// The icon size for a panel: two more for each size above the smallest,
/// and that of the smallest for a panel of no named size.
pub open spec fn icon_size_for(size: Option<PanelSize>) -> u16 {
    match size {
        Some(PanelSize::XS) => 12,
        Some(PanelSize::S) => 14,
        Some(PanelSize::M) => 16,
        Some(PanelSize::L) => 18,
        Some(PanelSize::XL) => 20,
        None => 12,
    }
}

/// The font size for a panel of the given size and direction.
pub fn font_size(configuration: &GeneralConfiguration, size: Option<PanelSize>, horizontal: bool)
    -> (points: u16)
    ensures
        points == font_size_for(*configuration, size, horizontal),
{
    match size {
        Some(PanelSize::XS) => if horizontal {
            configuration.horizontal_font_size_xs
        } else {
            configuration.vertical_font_size_xs
        },
        Some(PanelSize::S) => if horizontal {
            configuration.horizontal_font_size_sm
        } else {
            configuration.vertical_font_size_sm
        },
        Some(PanelSize::M) => if horizontal {
            configuration.horizontal_font_size_md
        } else {
            configuration.vertical_font_size_md
        },
        Some(PanelSize::L) => if horizontal {
            configuration.horizontal_font_size_lg
        } else {
            configuration.vertical_font_size_lg
        },
        Some(PanelSize::XL) => if horizontal {
            configuration.horizontal_font_size_xl
        } else {
            configuration.vertical_font_size_xl
        },
        None => DEFAULT_INDICATOR_FONT_SIZE,
    }
}

/// The icon size for a panel of the given size.
pub fn icon_size(size: Option<PanelSize>) -> (points: u16)
    ensures
        points == icon_size_for(size),
{
    match size {
        Some(PanelSize::XS) => DEFAULT_INDICATOR_ICON_SIZE,
        Some(PanelSize::S) => DEFAULT_INDICATOR_ICON_SIZE + 2,
        Some(PanelSize::M) => DEFAULT_INDICATOR_ICON_SIZE + 4,
        Some(PanelSize::L) => DEFAULT_INDICATOR_ICON_SIZE + 6,
        Some(PanelSize::XL) => DEFAULT_INDICATOR_ICON_SIZE + 8,
        None => DEFAULT_INDICATOR_ICON_SIZE,
    }
}

} // verus!
