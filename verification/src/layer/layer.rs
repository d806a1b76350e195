//! Core layer types: [`LayerId`], [`Linetype`], [`Layer`].

use vstd::prelude::*;
use vstd::string::*;
use crate::util::Color;

verus! {

/// Unique identifier for a layer.
///
/// The default layer always has ID 0.
#[derive(Debug, Clone, Copy, PartialEq, Eq, Hash, Structural)]
pub struct LayerId(pub u32);

/// The ID of the built-in default layer, 0.
impl Default for LayerId {
    fn default() -> (id: Self)
        ensures
            id == LayerId(0),
    {
        LayerId(0)
    }
}

/// Line-style pattern used when rendering geometry on a layer.
#[derive(Debug, Clone, Copy, PartialEq, Eq, Hash, Structural)]
pub enum Linetype {
    /// Continuous solid line.
    Solid,
    /// Short evenly spaced dots.
    Dotted,
    /// Regularly spaced dashes.
    Dashed,
    /// Alternating dash-dot pattern.
    DashDot,
    /// Double-dash border pattern.
    Border,
    /// Long-dash center-line pattern.
    Center,
}

/// The renderer's stipple bitmask for each linetype.
pub open spec fn stipple_mask(lt: Linetype) -> u32 {
    match lt {
        Linetype::Solid => 0xFFFF,
        Linetype::Dotted => 0x3333,
        Linetype::Dashed => 0x0F0F,
        Linetype::DashDot => 0x1B1B,
        Linetype::Border => 0xAAAA,
        Linetype::Center => 0xCCCC,
    }
}

/// The lower-case display name of each linetype.
pub open spec fn linetype_name(lt: Linetype) -> Seq<char> {
    match lt {
        Linetype::Solid => "solid"@,
        Linetype::Dotted => "dotted"@,
        Linetype::Dashed => "dashed"@,
        Linetype::DashDot => "dashdot"@,
        Linetype::Border => "border"@,
        Linetype::Center => "center"@,
    }
}

impl Default for Linetype {
    fn default() -> (lt: Self)
        ensures
            lt == Linetype::Solid,
    {
        Linetype::Solid
    }
}

impl From<Linetype> for u32 {
    fn from(lt: Linetype) -> (mask: u32) {
        match lt {
            Linetype::Solid => 0xFFFF,
            Linetype::Dotted => 0x3333,
            Linetype::Dashed => 0x0F0F,
            Linetype::DashDot => 0x1B1B,
            Linetype::Border => 0xAAAA,
            Linetype::Center => 0xCCCC,
        }
    }
}

impl vstd::std_specs::convert::FromSpecImpl<Linetype> for u32 {
    open spec fn obeys_from_spec() -> bool {
        true
    }

    open spec fn from_spec(lt: Linetype) -> u32 {
        stipple_mask(lt)
    }
}

impl Linetype {
    /// The lower-case display name ("solid", "dotted", ...).
    pub fn to_string(&self) -> (s: String)
        ensures
            s@ == linetype_name(*self),
    {
        match self {
            Linetype::Solid => String::from_str("solid"),
            Linetype::Dotted => String::from_str("dotted"),
            Linetype::Dashed => String::from_str("dashed"),
            Linetype::DashDot => String::from_str("dashdot"),
            Linetype::Border => String::from_str("border"),
            Linetype::Center => String::from_str("center"),
        }
    }
}

/// Bit pattern of the `f32` value 0.25, the default stroke width.
pub const DEFAULT_LINEWIDTH_BITS: u32 = 0x3E80_0000u32;

/// A named layer that groups entities sharing visual properties.
///
/// Each layer has a unique ID, a display name, and rendering attributes
/// such as colour, linetype, linewidth, and visibility toggles.
#[derive(Debug, Clone)]
pub struct Layer {
    /// Unique identifier.
    pub id: LayerId,
    /// Human-readable layer name.
    pub name: String,
    /// RGBA colour used for geometry on this layer.
    pub color: Color,
    /// Line-style pattern.
    pub linetype: Linetype,
    /// Stroke width in drawing units (`f32` bit pattern).
    pub linewidth: u32,
    /// Whether geometry on this layer is visible.
    pub visible: bool,
    /// Whether editing of geometry on this layer is prevented.
    pub locked: bool,
    /// Whether the layer is frozen (invisible and excluded from regeneration).
    pub frozen: bool,
}

/// The mathematical value of a layer: its fields, with the name as characters.
pub struct LayerView {
    pub id: LayerId,
    pub name: Seq<char>,
    pub color: Color,
    pub linetype: Linetype,
    pub linewidth: u32,
    pub visible: bool,
    pub locked: bool,
    pub frozen: bool,
}

impl View for Layer {
    type V = LayerView;

    open spec fn view(&self) -> LayerView {
        LayerView {
            id: self.id,
            name: self.name@,
            color: self.color,
            linetype: self.linetype,
            linewidth: self.linewidth,
            visible: self.visible,
            locked: self.locked,
            frozen: self.frozen,
        }
    }
}

/// A freshly created layer: the given id and name with the default style
/// (white, solid, linewidth 0.25, visible, unlocked, thawed).
pub open spec fn fresh_layer(id: LayerId, name: Seq<char>) -> LayerView {
    LayerView {
        id,
        name,
        color: Color { r: 0x3F80_0000, g: 0x3F80_0000, b: 0x3F80_0000, a: 0x3F80_0000 },
        linetype: Linetype::Solid,
        linewidth: DEFAULT_LINEWIDTH_BITS,
        visible: true,
        locked: false,
        frozen: false,
    }
}

impl Layer {
    /// Create a layer with the given id and name and default style.
    pub fn new(id: LayerId, name: &str) -> (l: Layer)
        ensures
            l@ == fresh_layer(id, name@),
    {
        Layer {
            id,
            name: name.to_owned(),
            color: Color::white(),
            linetype: Linetype::Solid,
            linewidth: DEFAULT_LINEWIDTH_BITS,
            visible: true,
            locked: false,
            frozen: false,
        }
    }

    /// The layer's name.
    pub fn name(&self) -> (n: &str)
        ensures
            n@ == self.name@,
    {
        self.name.as_str()
    }

    /// The layer's ID.
    pub fn id(&self) -> (i: LayerId)
        ensures
            i == self.id,
    {
        self.id
    }

    /// Replace the layer's name.
    pub fn set_name(&mut self, name: String)
        ensures
            final(self)@ == (LayerView { name: name@, ..old(self)@ }),
    {
        self.name = name;
    }
}

impl Default for Layer {
    fn default() -> (l: Self)
        ensures
            l@ == fresh_layer(LayerId(0), Seq::empty()),
    {
        Layer {
            id: LayerId(0),
            name: String::new(),
            color: Color::white(),
            linetype: Linetype::Solid,
            linewidth: DEFAULT_LINEWIDTH_BITS,
            visible: true,
            locked: false,
            frozen: false,
        }
    }
}

} // verus!
