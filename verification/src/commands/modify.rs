//! The modify commands that act on the selection: ERASE, MOVE, COPY,
//! ROTATE, SCALE, MIRROR, OFFSET and EXPLODE.
//!
//! Each command captures the selected entities when it is created and
//! collects its parameters step by step.  When they are complete it
//! finishes with the decision (which displacement, which centre and
//! angle, ...) and the label of the transaction; the caller carries the
//! decision out on the entities' geometry.

use vstd::prelude::*;
use vstd::string::*;
use crate::ecs::EntityId;
use super::{PreviewEntity, CommandInput, NumberText, Outcome};
use super::labels::{entity_label, make_entity_label};

verus! {

/// "No entities selected. Select objects before running `name`."
pub open spec fn no_selection_message(name: Seq<char>) -> Seq<char> {
    "No entities selected. Select objects before running "@ + name + "."@
}

/// The error for a modify command started with an empty selection.
pub fn no_selection_error(name: &str) -> (s: String)
    ensures
        s@ == no_selection_message(name@),
{
    let mut s = String::from_str("No entities selected. Select objects before running ");
    s.append(name);
    s.append(".");
    s
}

/// `prefix` + `text` + `suffix`.
fn quote_error(prefix: &str, text: &str, suffix: &str) -> (s: String)
    ensures
        s@ == prefix@ + text@ + suffix@,
{
    let mut s = String::from_str(prefix);
    s.append(text);
    s.append(suffix);
    s
}

// ---------------------------------------------------------------------------
// ERASE
// ---------------------------------------------------------------------------

/// ERASE: remove the selected entities.
#[derive(Debug, Clone)]
pub struct EraseCommand {
    /// Entities to erase (captured at construction).
    pub selected_entities: Vec<EntityId>,
}

impl EraseCommand {
    /// Create the command with the current selection.
    pub fn new(selection: Vec<EntityId>) -> (c: Self)
        ensures
            c.selected_entities@ == selection@,
    {
        EraseCommand { selected_entities: selection }
    }

    /// Whether nothing was selected.
    pub fn is_empty(&self) -> (b: bool)
        ensures
            b == (self.selected_entities@.len() == 0),
    {
        self.selected_entities.len() == 0
    }

    /// Command name used on the command line.
    pub fn name(&self) -> (n: &'static str)
        ensures
            n@ == "ERASE"@,
    {
        "ERASE"
    }

    /// Prompt of the single step.
    pub fn prompt(&self) -> (p: String)
        ensures
            p@ == "Select objects to erase:"@,
    {
        String::from_str("Select objects to erase:")
    }

    /// Steps remaining: always one.
    pub fn steps_remaining(&self) -> (n: usize)
        ensures
            n == 1,
    {
        1
    }

    /// `Confirm` erases the selection (the result is the transaction's
    /// label); `Cancel` cancels; anything else is an error.
    pub fn on_input<P, S>(&mut self, input: CommandInput<P, S>) -> (r: Outcome<String>)
        ensures
            final(self).selected_entities@ == old(self).selected_entities@,
            match input {
                CommandInput::Confirm => if old(self).selected_entities@.len() == 0 {
                    r matches Outcome::Error(m) && m@ == no_selection_message("ERASE"@)
                } else {
                    r matches Outcome::Done(l)
                        && l@ == entity_label("Erase"@, old(self).selected_entities@.len())
                },
                CommandInput::Cancel => r is Cancelled,
                _ => r matches Outcome::Error(m)
                    && m@ == "Press Enter to erase selected objects, or Esc to cancel."@,
            },
    {
        match input {
            CommandInput::Confirm => {
                if self.selected_entities.len() == 0 {
                    Outcome::Error(no_selection_error("ERASE"))
                } else {
                    Outcome::Done(make_entity_label("Erase", self.selected_entities.len()))
                }
            },
            CommandInput::Cancel => {
                self.on_cancel();
                Outcome::Cancelled
            },
            _ => Outcome::Error(String::from_str("Press Enter to erase selected objects, or Esc to cancel.")),
        }
    }

    /// Preview geometry drawn while the command runs: none.
    pub fn preview<Q>(&self) -> (v: Vec<PreviewEntity<Q>>)
        ensures
            v@.len() == 0,
    {
        Vec::new()
    }

    /// Nothing to clean up.
    pub fn on_cancel(&mut self)
        ensures
            final(self).selected_entities@ == old(self).selected_entities@,
    {
    }
}

// ---------------------------------------------------------------------------
// MOVE and COPY
// ---------------------------------------------------------------------------

/// The displacement MOVE or COPY applies.
#[derive(Debug, Clone, Copy, PartialEq, Eq, Structural)]
pub enum Displacement<P> {
    /// From the base point to the second point.
    Between(P, P),
    /// The base point itself, read as a vector from the origin.
    FromOrigin(P),
}

/// A finished MOVE or COPY: the displacement and the transaction label.
#[derive(Debug)]
pub struct DisplaceCommit<P> {
    /// What to displace the entities by.
    pub displacement: Displacement<P>,
    /// "Move n entities" / "Copy n entities".
    pub label: String,
}

/// What MOVE (`verb` "Move", `name` "MOVE") and COPY do with an input.
pub open spec fn displace_spec<P, S>(
    verb: Seq<char>,
    name: Seq<char>,
    count: nat,
    base: Option<P>,
    input: CommandInput<P, S>,
    new_base: Option<P>,
    r: Outcome<DisplaceCommit<P>>,
) -> bool {
    match input {
        CommandInput::Point(p) => if count == 0 {
            r matches Outcome::Error(m) && m@ == no_selection_message(name) && new_base == base
        } else {
            match base {
                None => r is Continue && new_base == Some(p),
                Some(b) => new_base == base && (r matches Outcome::Done(c) && c.displacement
                    == Displacement::Between(b, p) && c.label@ == entity_label(verb, count)),
            }
        },
        CommandInput::Confirm => new_base == base && if count == 0 {
            r matches Outcome::Error(m) && m@ == no_selection_message(name)
        } else {
            match base {
                None => r matches Outcome::Error(m) && m@ == "Specify a base point first."@,
                Some(b) => r matches Outcome::Done(c) && c.displacement == Displacement::FromOrigin(b)
                    && c.label@ == entity_label(verb, count),
            }
        },
        CommandInput::Cancel => r is Cancelled && new_base is None,
        _ => r matches Outcome::Error(m) && m@ == "Specify a point."@ && new_base == base,
    }
}

/// The shared two-step logic of MOVE and COPY.
fn displace_input<P: Copy, S>(
    verb: &str,
    name: &str,
    count: usize,
    base: &mut Option<P>,
    input: CommandInput<P, S>,
) -> (r: Outcome<DisplaceCommit<P>>)
    ensures
        displace_spec(verb@, name@, count as nat, *old(base), input, *final(base), r),
{
    match input {
        CommandInput::Point(p) => {
            if count == 0 {
                return Outcome::Error(no_selection_error(name));
            }
            match *base {
                None => {
                    *base = Some(p);
                    Outcome::Continue
                },
                Some(b) => Outcome::Done(DisplaceCommit {
                    displacement: Displacement::Between(b, p),
                    label: make_entity_label(verb, count),
                }),
            }
        },
        CommandInput::Confirm => {
            if count == 0 {
                return Outcome::Error(no_selection_error(name));
            }
            match *base {
                Some(b) => Outcome::Done(DisplaceCommit {
                    displacement: Displacement::FromOrigin(b),
                    label: make_entity_label(verb, count),
                }),
                None => Outcome::Error(String::from_str("Specify a base point first.")),
            }
        },
        CommandInput::Cancel => {
            *base = None;
            Outcome::Cancelled
        },
        _ => Outcome::Error(String::from_str("Specify a point.")),
    }
}

/// The prompt of MOVE and COPY.
pub open spec fn displace_prompt<P>(base: Option<P>) -> Seq<char> {
    if base is None {
        "Specify base point or displacement:"@
    } else {
        "Specify second point or <use first point as displacement>:"@
    }
}

fn displace_prompt_text<P>(base: &Option<P>) -> (p: String)
    ensures
        p@ == displace_prompt(*base),
{
    if base.is_none() {
        String::from_str("Specify base point or displacement:")
    } else {
        String::from_str("Specify second point or <use first point as displacement>:")
    }
}

/// MOVE: displace the selected entities by a vector.
#[derive(Debug, Clone)]
pub struct MoveCommand<P> {
    /// Entities to move (captured at construction).
    pub selected_entities: Vec<EntityId>,
    /// The base point, once picked.
    pub base_point: Option<P>,
}

impl<P: Copy> MoveCommand<P> {
    /// Create the command with the current selection.
    pub fn new(selection: Vec<EntityId>) -> (c: Self)
        ensures
            c.selected_entities@ == selection@,
            c.base_point is None,
    {
        MoveCommand { selected_entities: selection, base_point: None }
    }

    /// Whether nothing was selected.
    pub fn is_empty(&self) -> (b: bool)
        ensures
            b == (self.selected_entities@.len() == 0),
    {
        self.selected_entities.len() == 0
    }

    /// Command name used on the command line.
    pub fn name(&self) -> (n: &'static str)
        ensures
            n@ == "MOVE"@,
    {
        "MOVE"
    }

    /// Prompt for the current step.
    pub fn prompt(&self) -> (p: String)
        ensures
            p@ == displace_prompt(self.base_point),
    {
        displace_prompt_text(&self.base_point)
    }

    /// Steps remaining: two before the base point, then one.
    pub fn steps_remaining(&self) -> (n: usize)
        ensures
            n == (if self.base_point is None { 2usize } else { 1usize }),
    {
        if self.base_point.is_none() { 2 } else { 1 }
    }

    /// A first point is the base point; a second point finishes with the
    /// displacement between the two; `Confirm` after the base point
    /// finishes with the base point as the displacement; `Cancel` forgets
    /// the base point.  Points and `Confirm` fail on an empty selection.
    pub fn on_input<S>(&mut self, input: CommandInput<P, S>) -> (r: Outcome<DisplaceCommit<P>>)
        ensures
            final(self).selected_entities@ == old(self).selected_entities@,
            displace_spec("Move"@, "MOVE"@, old(self).selected_entities@.len(), old(self).base_point,
                input, final(self).base_point, r),
    {
        let count = self.selected_entities.len();
        displace_input("Move", "MOVE", count, &mut self.base_point, input)
    }

    /// Preview geometry drawn while the command runs: none.
    pub fn preview<Q>(&self) -> (v: Vec<PreviewEntity<Q>>)
        ensures
            v@.len() == 0,
    {
        Vec::new()
    }

    /// Forget the base point.
    pub fn on_cancel(&mut self)
        ensures
            final(self).selected_entities@ == old(self).selected_entities@,
            final(self).base_point is None,
    {
        self.base_point = None;
    }
}

/// COPY: spawn displaced copies of the selected entities.
#[derive(Debug, Clone)]
pub struct CopyCommand<P> {
    /// Entities to copy (captured at construction).
    pub selected_entities: Vec<EntityId>,
    /// The base point, once picked.
    pub base_point: Option<P>,
}

impl<P: Copy> CopyCommand<P> {
    /// Create the command with the current selection.
    pub fn new(selection: Vec<EntityId>) -> (c: Self)
        ensures
            c.selected_entities@ == selection@,
            c.base_point is None,
    {
        CopyCommand { selected_entities: selection, base_point: None }
    }

    /// Whether nothing was selected.
    pub fn is_empty(&self) -> (b: bool)
        ensures
            b == (self.selected_entities@.len() == 0),
    {
        self.selected_entities.len() == 0
    }

    /// Command name used on the command line.
    pub fn name(&self) -> (n: &'static str)
        ensures
            n@ == "COPY"@,
    {
        "COPY"
    }

    /// Prompt for the current step.
    pub fn prompt(&self) -> (p: String)
        ensures
            p@ == displace_prompt(self.base_point),
    {
        displace_prompt_text(&self.base_point)
    }

    /// Steps remaining: two before the base point, then one.
    pub fn steps_remaining(&self) -> (n: usize)
        ensures
            n == (if self.base_point is None { 2usize } else { 1usize }),
    {
        if self.base_point.is_none() { 2 } else { 1 }
    }

    /// As MOVE, but the entities are copied rather than moved.
    pub fn on_input<S>(&mut self, input: CommandInput<P, S>) -> (r: Outcome<DisplaceCommit<P>>)
        ensures
            final(self).selected_entities@ == old(self).selected_entities@,
            displace_spec("Copy"@, "COPY"@, old(self).selected_entities@.len(), old(self).base_point,
                input, final(self).base_point, r),
    {
        let count = self.selected_entities.len();
        displace_input("Copy", "COPY", count, &mut self.base_point, input)
    }

    /// Preview geometry drawn while the command runs: none.
    pub fn preview<Q>(&self) -> (v: Vec<PreviewEntity<Q>>)
        ensures
            v@.len() == 0,
    {
        Vec::new()
    }

    /// Forget the base point.
    pub fn on_cancel(&mut self)
        ensures
            final(self).selected_entities@ == old(self).selected_entities@,
            final(self).base_point is None,
    {
        self.base_point = None;
    }
}

// ---------------------------------------------------------------------------
// ROTATE
// ---------------------------------------------------------------------------

/// How far ROTATE turns the entities.
#[derive(Debug, Clone, Copy, PartialEq, Eq, Structural)]
pub enum RotateBy<P, S> {
    /// A typed angle in degrees.
    Degrees(S),
    /// The angle of the direction from the centre to this point.
    TowardPoint(P),
}

/// A finished ROTATE.
#[derive(Debug)]
pub struct RotateCommit<P, S> {
    /// Centre of rotation.
    pub center: P,
    /// The rotation.
    pub by: RotateBy<P, S>,
    /// "Rotate n entities".
    pub label: String,
}

/// ROTATE: turn the selected entities around a base point.
#[derive(Debug, Clone)]
pub struct RotateCommand<P> {
    /// Entities to rotate (captured at construction).
    pub selected_entities: Vec<EntityId>,
    /// Centre of rotation, once picked.
    pub base_point: Option<P>,
}

impl<P: Copy> RotateCommand<P> {
    /// Create the command with the current selection.
    pub fn new(selection: Vec<EntityId>) -> (c: Self)
        ensures
            c.selected_entities@ == selection@,
            c.base_point is None,
    {
        RotateCommand { selected_entities: selection, base_point: None }
    }

    /// Whether nothing was selected.
    pub fn is_empty(&self) -> (b: bool)
        ensures
            b == (self.selected_entities@.len() == 0),
    {
        self.selected_entities.len() == 0
    }

    /// Command name used on the command line.
    pub fn name(&self) -> (n: &'static str)
        ensures
            n@ == "ROTATE"@,
    {
        "ROTATE"
    }

    /// Prompt for the current step.
    pub fn prompt(&self) -> (p: String)
        ensures
            p@ == (if self.base_point is None {
                "Specify base point:"@
            } else {
                "Specify rotation angle or second point:"@
            }),
    {
        if self.base_point.is_none() {
            String::from_str("Specify base point:")
        } else {
            String::from_str("Specify rotation angle or second point:")
        }
    }

    /// Steps remaining: two before the base point, then one.
    pub fn steps_remaining(&self) -> (n: usize)
        ensures
            n == (if self.base_point is None { 2usize } else { 1usize }),
    {
        if self.base_point.is_none() { 2 } else { 1 }
    }

    /// Process an input; `number` is what the caller read from a text
    /// input as a number (consulted for text inputs only).
    ///
    /// Every input fails on an empty selection.  A first point is the
    /// centre; then a point finishes turning toward it and a number
    /// finishes turning by that many degrees.
    pub fn on_input<S>(&mut self, input: CommandInput<P, S>, number: NumberText<S>)
        -> (r: Outcome<RotateCommit<P, S>>)
        ensures
            final(self).selected_entities@ == old(self).selected_entities@,
            old(self).selected_entities@.len() == 0 ==> {
                &&& r matches Outcome::Error(m) && m@ == no_selection_message("ROTATE"@)
                &&& final(self).base_point == old(self).base_point
            },
            old(self).selected_entities@.len() > 0 ==> {
                let label = entity_label("Rotate"@, old(self).selected_entities@.len());
                match input {
                    CommandInput::Point(p) => match old(self).base_point {
                        None => r is Continue && final(self).base_point == Some(p),
                        Some(b) => final(self).base_point == Some(b) && (r matches Outcome::Done(c)
                            && c.center == b && c.by == RotateBy::<P, S>::TowardPoint(p) && c.label@ == label),
                    },
                    CommandInput::Text(s) => final(self).base_point == old(self).base_point
                        && match old(self).base_point {
                        None => r matches Outcome::Error(m) && m@ == "Specify a base point first."@,
                        Some(b) => match number {
                            NumberText::Number { value, .. } => r matches Outcome::Done(c) && c.center == b
                                && c.by == RotateBy::<P, S>::Degrees(value) && c.label@ == label,
                            NumberText::NotANumber => r matches Outcome::Error(m)
                                && m@ == "Invalid angle: '"@ + s@ + "'. Enter a number in degrees."@,
                        },
                    },
                    CommandInput::Confirm => final(self).base_point == old(self).base_point
                        && (r matches Outcome::Error(m) && m@ == "Specify a rotation angle or second point."@),
                    CommandInput::Cancel => r is Cancelled && final(self).base_point is None,
                    _ => final(self).base_point == old(self).base_point
                        && (r matches Outcome::Error(m) && m@ == "Specify an angle or point."@),
                }
            },
    {
        if self.selected_entities.len() == 0 {
            return Outcome::Error(no_selection_error("ROTATE"));
        }
        match input {
            CommandInput::Point(p) => match self.base_point {
                None => {
                    self.base_point = Some(p);
                    Outcome::Continue
                },
                Some(b) => Outcome::Done(RotateCommit {
                    center: b,
                    by: RotateBy::TowardPoint(p),
                    label: make_entity_label("Rotate", self.selected_entities.len()),
                }),
            },
            CommandInput::Text(s) => match self.base_point {
                None => Outcome::Error(String::from_str("Specify a base point first.")),
                Some(b) => match number {
                    NumberText::Number { value, .. } => Outcome::Done(RotateCommit {
                        center: b,
                        by: RotateBy::Degrees(value),
                        label: make_entity_label("Rotate", self.selected_entities.len()),
                    }),
                    NumberText::NotANumber => Outcome::Error(
                        quote_error("Invalid angle: '", s.as_str(), "'. Enter a number in degrees."),
                    ),
                },
            },
            CommandInput::Confirm => Outcome::Error(String::from_str("Specify a rotation angle or second point.")),
            CommandInput::Cancel => {
                self.on_cancel();
                Outcome::Cancelled
            },
            _ => Outcome::Error(String::from_str("Specify an angle or point.")),
        }
    }

    /// Preview geometry drawn while the command runs: none.
    pub fn preview<Q>(&self) -> (v: Vec<PreviewEntity<Q>>)
        ensures
            v@.len() == 0,
    {
        Vec::new()
    }

    /// Forget the base point.
    pub fn on_cancel(&mut self)
        ensures
            final(self).selected_entities@ == old(self).selected_entities@,
            final(self).base_point is None,
    {
        self.base_point = None;
    }
}

// ---------------------------------------------------------------------------
// SCALE
// ---------------------------------------------------------------------------

/// A finished SCALE.
#[derive(Debug)]
pub struct ScaleCommit<P, S> {
    /// Centre of the scaling.
    pub center: P,
    /// The (non-zero) factor.
    pub factor: S,
    /// "Scale n entities".
    pub label: String,
}

/// SCALE: scale the selected entities around a base point.
#[derive(Debug, Clone)]
pub struct ScaleCommand<P> {
    /// Entities to scale (captured at construction).
    pub selected_entities: Vec<EntityId>,
    /// Centre of the scaling, once picked.
    pub base_point: Option<P>,
}

impl<P: Copy> ScaleCommand<P> {
    /// Create the command with the current selection.
    pub fn new(selection: Vec<EntityId>) -> (c: Self)
        ensures
            c.selected_entities@ == selection@,
            c.base_point is None,
    {
        ScaleCommand { selected_entities: selection, base_point: None }
    }

    /// Whether nothing was selected.
    pub fn is_empty(&self) -> (b: bool)
        ensures
            b == (self.selected_entities@.len() == 0),
    {
        self.selected_entities.len() == 0
    }

    /// Command name used on the command line.
    pub fn name(&self) -> (n: &'static str)
        ensures
            n@ == "SCALE"@,
    {
        "SCALE"
    }

    /// Prompt for the current step.
    pub fn prompt(&self) -> (p: String)
        ensures
            p@ == (if self.base_point is None {
                "Specify base point:"@
            } else {
                "Specify scale factor (e.g., 2 for 2x, 0.5 for half):"@
            }),
    {
        if self.base_point.is_none() {
            String::from_str("Specify base point:")
        } else {
            String::from_str("Specify scale factor (e.g., 2 for 2x, 0.5 for half):")
        }
    }

    /// Steps remaining: two before the base point, then one.
    pub fn steps_remaining(&self) -> (n: usize)
        ensures
            n == (if self.base_point is None { 2usize } else { 1usize }),
    {
        if self.base_point.is_none() { 2 } else { 1 }
    }

    /// Process an input; `number` is what the caller read from a text
    /// input as a number (consulted for text inputs only).
    ///
    /// Every input fails on an empty selection.  A first point is the
    /// centre; then a non-zero number finishes with that factor.
    pub fn on_input<S>(&mut self, input: CommandInput<P, S>, number: NumberText<S>)
        -> (r: Outcome<ScaleCommit<P, S>>)
        ensures
            final(self).selected_entities@ == old(self).selected_entities@,
            old(self).selected_entities@.len() == 0 ==> {
                &&& r matches Outcome::Error(m) && m@ == no_selection_message("SCALE"@)
                &&& final(self).base_point == old(self).base_point
            },
            old(self).selected_entities@.len() > 0 ==> match input {
                CommandInput::Point(p) => match old(self).base_point {
                    None => r is Continue && final(self).base_point == Some(p),
                    Some(b) => final(self).base_point == Some(b) && (r matches Outcome::Error(m)
                        && m@ == "Enter a numeric scale factor (e.g., 2 for 2x)."@),
                },
                CommandInput::Text(s) => final(self).base_point == old(self).base_point
                    && match old(self).base_point {
                    None => r matches Outcome::Error(m) && m@ == "Specify a base point first."@,
                    Some(b) => match number {
                        NumberText::Number { value, zero, .. } => if zero {
                            r matches Outcome::Error(m) && m@ == "Scale factor must be non-zero."@
                        } else {
                            r matches Outcome::Done(c) && c.center == b && c.factor == value
                                && c.label@ == entity_label("Scale"@, old(self).selected_entities@.len())
                        },
                        NumberText::NotANumber => r matches Outcome::Error(m)
                            && m@ == "Invalid scale factor: '"@ + s@ + "'. Enter a number (e.g., 2 for 2x)."@,
                    },
                },
                CommandInput::Confirm => final(self).base_point == old(self).base_point
                    && (r matches Outcome::Error(m) && m@ == "Specify a scale factor or second point."@),
                CommandInput::Cancel => r is Cancelled && final(self).base_point is None,
                _ => final(self).base_point == old(self).base_point
                    && (r matches Outcome::Error(m) && m@ == "Specify a factor or point."@),
            },
    {
        if self.selected_entities.len() == 0 {
            return Outcome::Error(no_selection_error("SCALE"));
        }
        match input {
            CommandInput::Point(p) => match self.base_point {
                None => {
                    self.base_point = Some(p);
                    Outcome::Continue
                },
                Some(_) => Outcome::Error(String::from_str("Enter a numeric scale factor (e.g., 2 for 2x).")),
            },
            CommandInput::Text(s) => match self.base_point {
                None => Outcome::Error(String::from_str("Specify a base point first.")),
                Some(b) => match number {
                    NumberText::Number { value, zero, .. } => {
                        if zero {
                            Outcome::Error(String::from_str("Scale factor must be non-zero."))
                        } else {
                            Outcome::Done(ScaleCommit {
                                center: b,
                                factor: value,
                                label: make_entity_label("Scale", self.selected_entities.len()),
                            })
                        }
                    },
                    NumberText::NotANumber => Outcome::Error(
                        quote_error("Invalid scale factor: '", s.as_str(), "'. Enter a number (e.g., 2 for 2x)."),
                    ),
                },
            },
            CommandInput::Confirm => Outcome::Error(String::from_str("Specify a scale factor or second point.")),
            CommandInput::Cancel => {
                self.on_cancel();
                Outcome::Cancelled
            },
            _ => Outcome::Error(String::from_str("Specify a factor or point.")),
        }
    }

    /// Preview geometry drawn while the command runs: none.
    pub fn preview<Q>(&self) -> (v: Vec<PreviewEntity<Q>>)
        ensures
            v@.len() == 0,
    {
        Vec::new()
    }

    /// Forget the base point.
    pub fn on_cancel(&mut self)
        ensures
            final(self).selected_entities@ == old(self).selected_entities@,
            final(self).base_point is None,
    {
        self.base_point = None;
    }
}

// ---------------------------------------------------------------------------
// MIRROR
// ---------------------------------------------------------------------------

/// A finished MIRROR: the mirror line through two points.
#[derive(Debug)]
pub struct MirrorCommit<P> {
    /// First point of the mirror line.
    pub first: P,
    /// Second point of the mirror line.
    pub second: P,
    /// "Mirror n entities".
    pub label: String,
}

/// MIRROR: reflect the selected entities across a line.
#[derive(Debug, Clone)]
pub struct MirrorCommand<P> {
    /// Entities to mirror (captured at construction).
    pub selected_entities: Vec<EntityId>,
    /// First point of the mirror line, once picked.
    pub point1: Option<P>,
}

impl<P: Copy> MirrorCommand<P> {
    /// Create the command with the current selection.
    pub fn new(selection: Vec<EntityId>) -> (c: Self)
        ensures
            c.selected_entities@ == selection@,
            c.point1 is None,
    {
        MirrorCommand { selected_entities: selection, point1: None }
    }

    /// Whether nothing was selected.
    pub fn is_empty(&self) -> (b: bool)
        ensures
            b == (self.selected_entities@.len() == 0),
    {
        self.selected_entities.len() == 0
    }

    /// Command name used on the command line.
    pub fn name(&self) -> (n: &'static str)
        ensures
            n@ == "MIRROR"@,
    {
        "MIRROR"
    }

    /// Prompt for the current step.
    pub fn prompt(&self) -> (p: String)
        ensures
            p@ == (if self.point1 is None {
                "Specify first point of mirror line:"@
            } else {
                "Specify second point of mirror line:"@
            }),
    {
        if self.point1.is_none() {
            String::from_str("Specify first point of mirror line:")
        } else {
            String::from_str("Specify second point of mirror line:")
        }
    }

    /// Steps remaining: two before the first point, then one.
    pub fn steps_remaining(&self) -> (n: usize)
        ensures
            n == (if self.point1 is None { 2usize } else { 1usize }),
    {
        if self.point1.is_none() { 2 } else { 1 }
    }

    /// Every input fails on an empty selection.  Two points define the
    /// mirror line and finish the command.
    pub fn on_input<S>(&mut self, input: CommandInput<P, S>) -> (r: Outcome<MirrorCommit<P>>)
        ensures
            final(self).selected_entities@ == old(self).selected_entities@,
            old(self).selected_entities@.len() == 0 ==> {
                &&& r matches Outcome::Error(m) && m@ == no_selection_message("MIRROR"@)
                &&& final(self).point1 == old(self).point1
            },
            old(self).selected_entities@.len() > 0 ==> match input {
                CommandInput::Point(p) => match old(self).point1 {
                    None => r is Continue && final(self).point1 == Some(p),
                    Some(a) => final(self).point1 == Some(a) && (r matches Outcome::Done(c)
                        && c.first == a && c.second == p
                        && c.label@ == entity_label("Mirror"@, old(self).selected_entities@.len())),
                },
                CommandInput::Confirm => final(self).point1 == old(self).point1
                    && (r matches Outcome::Error(m) && m@ == "Specify two points to define the mirror line."@),
                CommandInput::Cancel => r is Cancelled && final(self).point1 is None,
                _ => final(self).point1 == old(self).point1
                    && (r matches Outcome::Error(m) && m@ == "Specify a point."@),
            },
    {
        if self.selected_entities.len() == 0 {
            return Outcome::Error(no_selection_error("MIRROR"));
        }
        match input {
            CommandInput::Point(p) => match self.point1 {
                None => {
                    self.point1 = Some(p);
                    Outcome::Continue
                },
                Some(a) => Outcome::Done(MirrorCommit {
                    first: a,
                    second: p,
                    label: make_entity_label("Mirror", self.selected_entities.len()),
                }),
            },
            CommandInput::Confirm => Outcome::Error(String::from_str("Specify two points to define the mirror line.")),
            CommandInput::Cancel => {
                self.on_cancel();
                Outcome::Cancelled
            },
            _ => Outcome::Error(String::from_str("Specify a point.")),
        }
    }

    /// Preview geometry drawn while the command runs: none.
    pub fn preview<Q>(&self) -> (v: Vec<PreviewEntity<Q>>)
        ensures
            v@.len() == 0,
    {
        Vec::new()
    }

    /// Forget the first point.
    pub fn on_cancel(&mut self)
        ensures
            final(self).selected_entities@ == old(self).selected_entities@,
            final(self).point1 is None,
    {
        self.point1 = None;
    }
}

// ---------------------------------------------------------------------------
// OFFSET
// ---------------------------------------------------------------------------

/// A requested OFFSET: the distance and the point that picks the side.
#[derive(Debug, Clone, Copy, PartialEq, Eq, Structural)]
pub struct OffsetRequest<P, S> {
    /// Offset distance (positive).
    pub distance: S,
    /// The point on the side to offset toward.
    pub side: P,
}

/// OFFSET: create parallel copies of the selected entities.
#[derive(Debug, Clone)]
pub struct OffsetCommand<S> {
    /// Entities to offset (captured at construction).
    pub selected_entities: Vec<EntityId>,
    /// The offset distance, once typed.
    pub distance: Option<S>,
}

impl<S: Copy> OffsetCommand<S> {
    /// Create the command with the current selection.
    pub fn new(selection: Vec<EntityId>) -> (c: Self)
        ensures
            c.selected_entities@ == selection@,
            c.distance is None,
    {
        OffsetCommand { selected_entities: selection, distance: None }
    }

    /// Whether nothing was selected.
    pub fn is_empty(&self) -> (b: bool)
        ensures
            b == (self.selected_entities@.len() == 0),
    {
        self.selected_entities.len() == 0
    }

    /// Command name used on the command line.
    pub fn name(&self) -> (n: &'static str)
        ensures
            n@ == "OFFSET"@,
    {
        "OFFSET"
    }

    /// Prompt for the current step.
    pub fn prompt(&self) -> (p: String)
        ensures
            p@ == (if self.distance is None {
                "Specify offset distance:"@
            } else {
                "Specify side to offset (click on one side):"@
            }),
    {
        if self.distance.is_none() {
            String::from_str("Specify offset distance:")
        } else {
            String::from_str("Specify side to offset (click on one side):")
        }
    }

    /// Steps remaining: two before the distance, then one.
    pub fn steps_remaining(&self) -> (n: usize)
        ensures
            n == (if self.distance is None { 2usize } else { 1usize }),
    {
        if self.distance.is_none() { 2 } else { 1 }
    }

    /// Process an input; `number` is what the caller read from a text
    /// input as a number (consulted for text inputs only).
    ///
    /// Every input fails on an empty selection.  A positive number sets
    /// the distance; then a point picks the side and finishes with the
    /// request, which the caller carries out and reports on with
    /// [`finish`](Self::finish).
    pub fn on_input<P>(&mut self, input: CommandInput<P, S>, number: NumberText<S>)
        -> (r: Outcome<OffsetRequest<P, S>>)
        ensures
            final(self).selected_entities@ == old(self).selected_entities@,
            old(self).selected_entities@.len() == 0 ==> {
                &&& r matches Outcome::Error(m) && m@ == no_selection_message("OFFSET"@)
                &&& final(self).distance == old(self).distance
            },
            old(self).selected_entities@.len() > 0 ==> match input {
                CommandInput::Text(s) => match old(self).distance {
                    Some(_) => final(self).distance == old(self).distance && (r matches Outcome::Error(m)
                        && m@ == "Distance already set. Click to pick side."@),
                    None => match number {
                        NumberText::Number { value, positive, .. } => if positive {
                            r is Continue && final(self).distance == Some(value)
                        } else {
                            final(self).distance is None && (r matches Outcome::Error(m)
                                && m@ == "Offset distance must be positive."@)
                        },
                        NumberText::NotANumber => final(self).distance is None && (r matches Outcome::Error(m)
                            && m@ == "Invalid distance: '"@ + s@ + "'. Enter a positive number."@),
                    },
                },
                CommandInput::Point(p) => final(self).distance == old(self).distance
                    && match old(self).distance {
                    None => r matches Outcome::Error(m) && m@ == "Specify an offset distance first."@,
                    Some(d) => r == Outcome::Done(OffsetRequest { distance: d, side: p }),
                },
                CommandInput::Confirm => final(self).distance == old(self).distance
                    && (r matches Outcome::Error(m) && m@ == (if old(self).distance is None {
                        "Specify an offset distance first."@
                    } else {
                        "Click to pick the offset side."@
                    })),
                CommandInput::Cancel => r is Cancelled && final(self).distance is None,
                _ => final(self).distance == old(self).distance
                    && (r matches Outcome::Error(m) && m@ == "Specify a distance or point."@),
            },
    {
        if self.selected_entities.len() == 0 {
            return Outcome::Error(no_selection_error("OFFSET"));
        }
        match input {
            CommandInput::Text(s) => {
                if self.distance.is_some() {
                    return Outcome::Error(String::from_str("Distance already set. Click to pick side."));
                }
                match number {
                    NumberText::Number { value, positive, .. } => {
                        if positive {
                            self.distance = Some(value);
                            Outcome::Continue
                        } else {
                            Outcome::Error(String::from_str("Offset distance must be positive."))
                        }
                    },
                    NumberText::NotANumber => Outcome::Error(
                        quote_error("Invalid distance: '", s.as_str(), "'. Enter a positive number."),
                    ),
                }
            },
            CommandInput::Point(p) => match self.distance {
                None => Outcome::Error(String::from_str("Specify an offset distance first.")),
                Some(d) => Outcome::Done(OffsetRequest { distance: d, side: p }),
            },
            CommandInput::Confirm => {
                if self.distance.is_none() {
                    Outcome::Error(String::from_str("Specify an offset distance first."))
                } else {
                    Outcome::Error(String::from_str("Click to pick the offset side."))
                }
            },
            CommandInput::Cancel => {
                self.on_cancel();
                Outcome::Cancelled
            },
            _ => Outcome::Error(String::from_str("Specify a distance or point.")),
        }
    }

    /// Report on a carried-out request: `created` is the number of offset
    /// copies the caller made.  None is an error; otherwise the result is
    /// the transaction's label.
    pub fn finish(&self, created: usize) -> (r: Outcome<String>)
        ensures
            created == 0 ==> (r matches Outcome::Error(m) && m@
                == "No supported entities for OFFSET. Only lines and circles are supported in v0.2.0."@),
            created > 0 ==> (r matches Outcome::Done(l) && l@ == entity_label("Offset"@, created as nat)),
    {
        if created == 0 {
            Outcome::Error(String::from_str(
                "No supported entities for OFFSET. Only lines and circles are supported in v0.2.0.",
            ))
        } else {
            Outcome::Done(make_entity_label("Offset", created))
        }
    }

    /// Preview geometry drawn while the command runs: none.
    pub fn preview<Q>(&self) -> (v: Vec<PreviewEntity<Q>>)
        ensures
            v@.len() == 0,
    {
        Vec::new()
    }

    /// Forget the distance.
    pub fn on_cancel(&mut self)
        ensures
            final(self).selected_entities@ == old(self).selected_entities@,
            final(self).distance is None,
    {
        self.distance = None;
    }
}

// ---------------------------------------------------------------------------
// EXPLODE
// ---------------------------------------------------------------------------

/// EXPLODE: decompose the selected block inserts into primitives.
///
/// `I` is what the caller captured of each block insert when the command
/// was created (the insert, its definition's entities and its transform).
#[derive(Debug, Clone)]
pub struct ExplodeCommand<I> {
    /// The captured block inserts.
    pub instances: Vec<I>,
}

impl<I> ExplodeCommand<I> {
    /// Create the command with the captured block inserts.
    pub fn new(instances: Vec<I>) -> (c: Self)
        ensures
            c.instances@ == instances@,
    {
        ExplodeCommand { instances }
    }

    /// Whether no block insert was captured.
    pub fn is_empty(&self) -> (b: bool)
        ensures
            b == (self.instances@.len() == 0),
    {
        self.instances.len() == 0
    }

    /// Command name used on the command line.
    pub fn name(&self) -> (n: &'static str)
        ensures
            n@ == "EXPLODE"@,
    {
        "EXPLODE"
    }

    /// Prompt of the single step.
    pub fn prompt(&self) -> (p: String)
        ensures
            p@ == "Select objects to explode:"@,
    {
        String::from_str("Select objects to explode:")
    }

    /// Steps remaining: always one.
    pub fn steps_remaining(&self) -> (n: usize)
        ensures
            n == 1,
    {
        1
    }

    /// `Confirm` explodes the captured inserts (the result is the
    /// transaction's label); `Cancel` cancels; anything else is an error.
    pub fn on_input<P, S>(&mut self, input: CommandInput<P, S>) -> (r: Outcome<String>)
        ensures
            final(self).instances@ == old(self).instances@,
            match input {
                CommandInput::Confirm => if old(self).instances@.len() == 0 {
                    r matches Outcome::Error(m)
                        && m@ == "No block references found in selection. Select blocks before EXPLODE."@
                } else {
                    r matches Outcome::Done(l) && l@ == "Explode Block"@
                },
                CommandInput::Cancel => r is Cancelled,
                _ => r matches Outcome::Error(m)
                    && m@ == "Press Enter to explode selected blocks, or Esc to cancel."@,
            },
    {
        match input {
            CommandInput::Confirm => {
                if self.instances.len() == 0 {
                    Outcome::Error(String::from_str(
                        "No block references found in selection. Select blocks before EXPLODE.",
                    ))
                } else {
                    Outcome::Done(String::from_str("Explode Block"))
                }
            },
            CommandInput::Cancel => {
                self.on_cancel();
                Outcome::Cancelled
            },
            _ => Outcome::Error(String::from_str("Press Enter to explode selected blocks, or Esc to cancel.")),
        }
    }

    /// Preview geometry drawn while the command runs: none.
    pub fn preview<Q>(&self) -> (v: Vec<PreviewEntity<Q>>)
        ensures
            v@.len() == 0,
    {
        Vec::new()
    }

    /// Nothing to clean up: nothing has been spawned yet.
    pub fn on_cancel(&mut self)
        ensures
            final(self).instances@ == old(self).instances@,
    {
    }
}

} // verus!
