//! The drawing commands that build one shape from a few picks: RECTANGLE,
//! POLYGON, ELLIPSE and SPLINE.
//!
//! Each command collects its defining points step by step and finishes
//! with them and the label of the transaction; the caller computes the
//! shape's vertices from those points and spawns it.

use vstd::prelude::*;
use vstd::string::*;
use crate::util::{decimal, push_decimal};
use super::{PreviewEntity, CommandInput, Outcome};
use super::labels::{counted_label, make_counted_label};

verus! {

// ---------------------------------------------------------------------------
// RECTANGLE
// ---------------------------------------------------------------------------

/// A finished RECTANGLE: two opposite corners.
#[derive(Debug)]
pub struct RectangleCommit<P> {
    /// The first corner picked.
    pub first: P,
    /// The opposite corner.
    pub second: P,
    /// "Rectangle".
    pub label: String,
}

/// RECTANGLE: two opposite corners define an axis-aligned rectangle of
/// four line segments.
#[derive(Debug, Clone, Copy)]
pub struct RectangleCommand<P> {
    /// First corner (set in step 1).
    pub first_corner: Option<P>,
}

impl<P: Copy> RectangleCommand<P> {
    /// Create the command with no corner set.
    pub fn new() -> (c: Self)
        ensures
            c.first_corner is None,
    {
        RectangleCommand { first_corner: None }
    }

    /// Command name used on the command line.
    pub fn name(&self) -> (n: &'static str)
        ensures
            n@ == "RECTANGLE"@,
    {
        "RECTANGLE"
    }

    /// Prompt for the current step.
    pub fn prompt(&self) -> (p: String)
        ensures
            p@ == (if self.first_corner is Some {
                "Specify opposite corner:"@
            } else {
                "Specify first corner:"@
            }),
    {
        if self.first_corner.is_some() {
            String::from_str("Specify opposite corner:")
        } else {
            String::from_str("Specify first corner:")
        }
    }

    /// Steps remaining: two, then one after the first corner.
    pub fn steps_remaining(&self) -> (n: usize)
        ensures
            n == (if self.first_corner is Some { 1usize } else { 2usize }),
    {
        if self.first_corner.is_some() { 1 } else { 2 }
    }

    /// The first point is a corner, the second finishes the rectangle.
    pub fn on_input<S>(&mut self, input: CommandInput<P, S>) -> (r: Outcome<RectangleCommit<P>>)
        ensures
            match input {
                CommandInput::Point(p) => match old(self).first_corner {
                    None => r is Continue && final(self).first_corner == Some(p),
                    Some(a) => final(self).first_corner == Some(a)
                        && (r matches Outcome::Done(c) && c.first == a && c.second == p
                        && c.label@ == "Rectangle"@),
                },
                CommandInput::Cancel => r is Cancelled && final(self).first_corner is None,
                _ => final(self).first_corner == old(self).first_corner
                    && (r matches Outcome::Error(m) && m@ == "Specify a point."@),
            },
    {
        match input {
            CommandInput::Point(p) => match self.first_corner {
                None => {
                    self.first_corner = Some(p);
                    Outcome::Continue
                },
                Some(a) => Outcome::Done(RectangleCommit { first: a, second: p, label: String::from_str("Rectangle") }),
            },
            CommandInput::Cancel => {
                self.on_cancel();
                Outcome::Cancelled
            },
            _ => Outcome::Error(String::from_str("Specify a point.")),
        }
    }

    /// Preview geometry drawn while the command runs: none.
    pub fn preview<Q>(&self) -> (v: Vec<PreviewEntity<Q>>)
        ensures
            v@.len() == 0,
    {
        Vec::new()
    }

    /// Forget the first corner.
    pub fn on_cancel(&mut self)
        ensures
            final(self).first_corner is None,
    {
        self.first_corner = None;
    }
}

impl<P: Copy> Default for RectangleCommand<P> {
    fn default() -> (c: Self)
        ensures
            c.first_corner is None,
    {
        RectangleCommand::new()
    }
}

// ---------------------------------------------------------------------------
// POLYGON
// ---------------------------------------------------------------------------

/// How the radius of a polygon or the minor ratio of an ellipse was given.
#[derive(Debug, Clone, Copy, PartialEq, Eq, Structural)]
pub enum SizeInput<P, S> {
    /// By a picked point (its distance from the centre).
    Point(P),
    /// By a typed value.
    Typed(S),
}

/// A finished POLYGON.
#[derive(Debug)]
pub struct PolygonCommit<P, S> {
    /// Centre of the polygon.
    pub center: P,
    /// Its radius.
    pub radius: SizeInput<P, S>,
    /// Number of sides.
    pub sides: u32,
    /// "Polygon (n sides)".
    pub label: String,
}

/// "Polygon (`n` sides)".
pub open spec fn polygon_label(n: nat) -> Seq<char> {
    "Polygon ("@ + decimal(n) + " sides)"@
}

/// POLYGON: a regular polygon from its centre and radius.
#[derive(Debug, Clone, Copy)]
pub struct PolygonCommand<P> {
    /// Centre (set in step 1).
    pub center: Option<P>,
    /// Number of sides (6 unless set; at least 3).
    pub sides: u32,
}

impl<P: Copy> PolygonCommand<P> {
    /// Create the command: no centre, six sides.
    pub fn new() -> (c: Self)
        ensures
            c.center is None,
            c.sides == 6,
    {
        PolygonCommand { center: None, sides: 6 }
    }

    /// Set the number of sides; fewer than three gives three.
    pub fn set_sides(&mut self, sides: u32)
        ensures
            final(self).sides == (if sides < 3 { 3 } else { sides }),
            final(self).center == old(self).center,
    {
        self.sides = if sides < 3 { 3 } else { sides };
    }

    /// Command name used on the command line.
    pub fn name(&self) -> (n: &'static str)
        ensures
            n@ == "POLYGON"@,
    {
        "POLYGON"
    }

    /// Prompt for the current step.
    pub fn prompt(&self) -> (p: String)
        ensures
            p@ == (if self.center is Some { "Specify radius:"@ } else { "Specify center:"@ }),
    {
        if self.center.is_some() {
            String::from_str("Specify radius:")
        } else {
            String::from_str("Specify center:")
        }
    }

    /// Steps remaining: two, then one after the centre.
    pub fn steps_remaining(&self) -> (n: usize)
        ensures
            n == (if self.center is Some { 1usize } else { 2usize }),
    {
        if self.center.is_some() { 1 } else { 2 }
    }

    /// The first point is the centre; then a point or a typed distance
    /// gives the radius and finishes the polygon.
    pub fn on_input<S>(&mut self, input: CommandInput<P, S>) -> (r: Outcome<PolygonCommit<P, S>>)
        ensures
            final(self).sides == old(self).sides,
            match input {
                CommandInput::Point(p) => match old(self).center {
                    None => r is Continue && final(self).center == Some(p),
                    Some(c) => final(self).center == Some(c) && (r matches Outcome::Done(k)
                        && k.center == c && k.radius == SizeInput::<P, S>::Point(p) && k.sides == old(self).sides
                        && k.label@ == polygon_label(old(self).sides as nat)),
                },
                CommandInput::Distance(d) => final(self).center == old(self).center && match old(self).center {
                    None => r matches Outcome::Error(m) && m@ == "Specify center point first."@,
                    Some(c) => r matches Outcome::Done(k) && k.center == c
                        && k.radius == SizeInput::<P, S>::Typed(d) && k.sides == old(self).sides
                        && k.label@ == polygon_label(old(self).sides as nat),
                },
                CommandInput::Cancel => r is Cancelled && final(self).center is None,
                _ => final(self).center == old(self).center
                    && (r matches Outcome::Error(m) && m@ == "Specify a point or distance."@),
            },
    {
        match input {
            CommandInput::Point(p) => match self.center {
                None => {
                    self.center = Some(p);
                    Outcome::Continue
                },
                Some(c) => Outcome::Done(PolygonCommit {
                    center: c,
                    radius: SizeInput::Point(p),
                    sides: self.sides,
                    label: self.label(),
                }),
            },
            CommandInput::Distance(d) => match self.center {
                None => Outcome::Error(String::from_str("Specify center point first.")),
                Some(c) => Outcome::Done(PolygonCommit {
                    center: c,
                    radius: SizeInput::Typed(d),
                    sides: self.sides,
                    label: self.label(),
                }),
            },
            CommandInput::Cancel => {
                self.on_cancel();
                Outcome::Cancelled
            },
            _ => Outcome::Error(String::from_str("Specify a point or distance.")),
        }
    }

    fn label(&self) -> (l: String)
        ensures
            l@ == polygon_label(self.sides as nat),
    {
        let mut l = String::from_str("Polygon (");
        push_decimal(&mut l, self.sides as u64);
        l.append(" sides)");
        l
    }

    /// Preview geometry drawn while the command runs: none.
    pub fn preview<Q>(&self) -> (v: Vec<PreviewEntity<Q>>)
        ensures
            v@.len() == 0,
    {
        Vec::new()
    }

    /// Forget the centre.
    pub fn on_cancel(&mut self)
        ensures
            final(self).center is None,
            final(self).sides == old(self).sides,
    {
        self.center = None;
    }
}

impl<P: Copy> Default for PolygonCommand<P> {
    fn default() -> (c: Self)
        ensures
            c.center is None,
            c.sides == 6,
    {
        PolygonCommand::new()
    }
}

// ---------------------------------------------------------------------------
// ELLIPSE
// ---------------------------------------------------------------------------

/// A finished ELLIPSE.
#[derive(Debug)]
pub struct EllipseCommit<P, S> {
    /// Centre.
    pub center: P,
    /// End of the major axis.
    pub major_end: P,
    /// The minor-to-major ratio, picked or typed.
    pub ratio: SizeInput<P, S>,
    /// "Ellipse".
    pub label: String,
}

/// ELLIPSE: centre, major axis end point, then the minor ratio.
#[derive(Debug, Clone, Copy)]
pub struct EllipseCommand<P, S> {
    /// Centre (set in step 1).
    pub center: Option<P>,
    /// End of the major axis (set in step 2).
    pub major_end: Option<P>,
    /// Minor-to-major ratio (cleared on cancel).
    pub minor_ratio: Option<S>,
}

/// The prompt of an ELLIPSE command.
pub open spec fn ellipse_prompt<P>(center: Option<P>, major_end: Option<P>) -> Seq<char> {
    if center is None {
        "Specify center:"@
    } else if major_end is None {
        "Specify major axis endpoint:"@
    } else {
        "Specify minor ratio or point:"@
    }
}

impl<P: Copy, S: Copy> EllipseCommand<P, S> {
    /// Create the command with nothing set.
    pub fn new() -> (c: Self)
        ensures
            c.center is None,
            c.major_end is None,
            c.minor_ratio is None,
    {
        EllipseCommand { center: None, major_end: None, minor_ratio: None }
    }

    /// Command name used on the command line.
    pub fn name(&self) -> (n: &'static str)
        ensures
            n@ == "ELLIPSE"@,
    {
        "ELLIPSE"
    }

    /// Prompt for the current step.
    pub fn prompt(&self) -> (p: String)
        ensures
            p@ == ellipse_prompt(self.center, self.major_end),
    {
        if self.center.is_none() {
            String::from_str("Specify center:")
        } else if self.major_end.is_none() {
            String::from_str("Specify major axis endpoint:")
        } else {
            String::from_str("Specify minor ratio or point:")
        }
    }

    /// Steps remaining: three, two after the centre, one after the major
    /// axis.
    pub fn steps_remaining(&self) -> (n: usize)
        ensures
            n == (if self.center is None { 3usize } else if self.major_end is None { 2usize } else { 1usize }),
    {
        if self.center.is_none() {
            3
        } else if self.major_end.is_none() {
            2
        } else {
            1
        }
    }

    /// Points give the centre, then the major axis end; then a point or a
    /// typed ratio finishes the ellipse.
    pub fn on_input(&mut self, input: CommandInput<P, S>) -> (r: Outcome<EllipseCommit<P, S>>)
        ensures
            final(self).minor_ratio == (if input is Cancel { None } else { old(self).minor_ratio }),
            match input {
                CommandInput::Point(p) => match (old(self).center, old(self).major_end) {
                    (None, _) => r is Continue && final(self).center == Some(p)
                        && final(self).major_end == old(self).major_end,
                    (Some(c), None) => r is Continue && final(self).center == Some(c)
                        && final(self).major_end == Some(p),
                    (Some(c), Some(m)) => final(self).center == Some(c) && final(self).major_end == Some(m)
                        && (r matches Outcome::Done(k) && k.center == c && k.major_end == m
                        && k.ratio == SizeInput::<P, S>::Point(p) && k.label@ == "Ellipse"@),
                },
                CommandInput::Distance(d) => final(self).center == old(self).center
                    && final(self).major_end == old(self).major_end
                    && match (old(self).center, old(self).major_end) {
                    (Some(c), Some(m)) => r matches Outcome::Done(k) && k.center == c && k.major_end == m
                        && k.ratio == SizeInput::<P, S>::Typed(d) && k.label@ == "Ellipse"@,
                    _ => r matches Outcome::Error(e) && e@ == "Set center and major axis first."@,
                },
                CommandInput::Cancel => r is Cancelled && final(self).center is None
                    && final(self).major_end is None,
                _ => final(self).center == old(self).center && final(self).major_end == old(self).major_end
                    && (r matches Outcome::Error(e) && e@ == "Specify a point or distance."@),
            },
    {
        match input {
            CommandInput::Point(p) => match (self.center, self.major_end) {
                (None, _) => {
                    self.center = Some(p);
                    Outcome::Continue
                },
                (Some(_), None) => {
                    self.major_end = Some(p);
                    Outcome::Continue
                },
                (Some(c), Some(m)) => Outcome::Done(EllipseCommit {
                    center: c,
                    major_end: m,
                    ratio: SizeInput::Point(p),
                    label: String::from_str("Ellipse"),
                }),
            },
            CommandInput::Distance(d) => match (self.center, self.major_end) {
                (Some(c), Some(m)) => Outcome::Done(EllipseCommit {
                    center: c,
                    major_end: m,
                    ratio: SizeInput::Typed(d),
                    label: String::from_str("Ellipse"),
                }),
                _ => Outcome::Error(String::from_str("Set center and major axis first.")),
            },
            CommandInput::Cancel => {
                self.on_cancel();
                Outcome::Cancelled
            },
            _ => Outcome::Error(String::from_str("Specify a point or distance.")),
        }
    }

    /// Preview geometry drawn while the command runs: none.
    pub fn preview<Q>(&self) -> (v: Vec<PreviewEntity<Q>>)
        ensures
            v@.len() == 0,
    {
        Vec::new()
    }

    /// Forget everything picked.
    pub fn on_cancel(&mut self)
        ensures
            final(self).center is None,
            final(self).major_end is None,
            final(self).minor_ratio is None,
    {
        self.center = None;
        self.major_end = None;
        self.minor_ratio = None;
    }
}

impl<P: Copy, S: Copy> Default for EllipseCommand<P, S> {
    fn default() -> (c: Self)
        ensures
            c.center is None,
            c.major_end is None,
            c.minor_ratio is None,
    {
        EllipseCommand::new()
    }
}

// ---------------------------------------------------------------------------
// SPLINE
// ---------------------------------------------------------------------------

/// The four Catmull-Rom control points of the piece of a spline between
/// fit points `i` and `i + 1`: the first and last fit points are repeated
/// at the ends.
pub open spec fn control_quad<P>(s: Seq<P>, i: int) -> (P, P, P, P) {
    (
        s[if i == 0 { 0 } else { i - 1 }],
        s[i],
        s[i + 1],
        s[if i + 2 < s.len() { i + 2 } else { s.len() - 1 }],
    )
}

/// The control quads of every piece of a spline through `s`.
pub open spec fn control_quads<P>(s: Seq<P>) -> Seq<(P, P, P, P)> {
    Seq::new(if s.len() < 2 { 0 } else { (s.len() - 1) as nat }, |i: int| control_quad(s, i))
}

/// The spline passes through its fit points in order: piece `i` runs from
/// fit point `i` to fit point `i + 1`, so each piece ends where the next
/// one starts, and there is one piece fewer than fit points.
pub proof fn law_spline_pieces_join<P>(s: Seq<P>)
    requires
        s.len() >= 2,
    ensures
        control_quads(s).len() == s.len() - 1,
        forall|i: int| 0 <= i < s.len() - 1 ==> (#[trigger] control_quads(s)[i]).1 == s[i]
            && control_quads(s)[i].2 == s[i + 1],
        forall|i: int| 0 <= i < s.len() - 2 ==> (#[trigger] control_quads(s)[i]).2 == control_quads(s)[i + 1].1,
{
}

/// The tangents of each piece come from the neighbouring fit points: piece
/// `i` starts its tangent at fit point `i - 1` (fit point 0 for the first
/// piece) and ends it at fit point `i + 2`; only the last piece, which has
/// no fit point after its end, repeats the last fit point.  So consecutive
/// pieces agree: the far tangent point of a piece is where the next piece
/// ends, and the near tangent point of the next piece is where this piece
/// starts.
pub proof fn law_spline_tangents_from_neighbours<P>(s: Seq<P>)
    requires
        s.len() >= 2,
    ensures
        control_quads(s)[0].0 == s[0],
        forall|i: int| 0 < i < s.len() - 1 ==> (#[trigger] control_quads(s)[i]).0 == s[i - 1],
        forall|i: int| 0 <= i && i + 2 < s.len() ==> (#[trigger] control_quads(s)[i]).3 == s[i + 2],
        control_quads(s)[s.len() - 2].3 == s[s.len() - 1],
        forall|i: int| 0 <= i && i + 2 < s.len() ==> (#[trigger] control_quads(s)[i]).3 == control_quads(s)[i + 1].2,
        forall|i: int| 0 <= i && i + 2 < s.len() ==> (#[trigger] control_quads(s)[i + 1]).0 == control_quads(s)[i].1,
{
}

/// The control quads of the pieces of a spline through `points`.
pub fn spline_control_quads<P: Copy>(points: &Vec<P>) -> (q: Vec<(P, P, P, P)>)
    ensures
        q@ == control_quads(points@),
{
    let n = points.len();
    let mut q: Vec<(P, P, P, P)> = Vec::new();
    if n < 2 {
        assert(q@ =~= control_quads(points@));
        return q;
    }
    let mut i: usize = 0;
    while i < n - 1
        invariant
            n == points@.len(),
            n >= 2,
            i <= n - 1,
            q@.len() == i,
            forall|k: int| 0 <= k < i ==> #[trigger] q@[k] == control_quad(points@, k),
        decreases n - 1 - i,
    {
        let p0 = if i == 0 { points[0] } else { points[i - 1] };
        let p3 = if i + 2 < n { points[i + 2] } else { points[n - 1] };
        q.push((p0, points[i], points[i + 1], p3));
        i = i + 1;
    }
    assert(q@ =~= control_quads(points@));
    q
}

/// The vertices of consecutive curve pieces joined into one polyline: each
/// piece after the first non-empty one loses its first vertex, which
/// repeats the last vertex before it.
pub open spec fn stitch<P>(pieces: Seq<Seq<P>>) -> Seq<P>
    decreases pieces.len(),
{
    if pieces.len() == 0 {
        Seq::empty()
    } else {
        let before = stitch(pieces.drop_last());
        if before.len() == 0 {
            pieces.last()
        } else {
            before + pieces.last().skip(1)
        }
    }
}

/// Whether the pieces can be joined: no empty piece follows a non-empty
/// one.
pub open spec fn stitchable<P>(pieces: Seq<Seq<P>>) -> bool {
    forall|i: int| 0 < i < pieces.len() && stitch(pieces.take(i)).len() > 0 ==> #[trigger] pieces[i].len() > 0
}

/// Join the vertices of the pieces of a spline into one polyline; an empty
/// result is an error.
pub fn spline_vertices<P: Copy>(pieces: &Vec<Vec<P>>) -> (r: Result<Vec<P>, String>)
    requires
        stitchable(pieces@.map_values(|v: Vec<P>| v@)),
    ensures
        ({
            let joined = stitch(pieces@.map_values(|v: Vec<P>| v@));
            match r {
                Ok(v) => v@ == joined && joined.len() > 0,
                Err(m) => joined.len() == 0 && m@ == "Failed to build spline (no vertices)."@,
            }
        }),
{
    let ghost views = pieces@.map_values(|v: Vec<P>| v@);
    let mut all: Vec<P> = Vec::new();
    let mut i: usize = 0;
    assert(views.take(0) =~= Seq::<Seq<P>>::empty());
    while i < pieces.len()
        invariant
            views == pieces@.map_values(|v: Vec<P>| v@),
            stitchable(views),
            i <= pieces@.len(),
            all@ == stitch(views.take(i as int)),
        decreases pieces@.len() - i,
    {
        let piece = &pieces[i];
        assert(views.take(i + 1).drop_last() =~= views.take(i as int));
        assert(views.take(i + 1).last() == piece@);
        let first: usize = if all.len() == 0 { 0 } else { 1 };
        if first == 1 {
            assert(piece@.len() > 0);
        }
        let mut k: usize = first;
        let ghost start = all@;
        while k < piece.len()
            invariant
                first <= k,
                first <= piece@.len(),
                k <= piece@.len(),
                all@ == start + piece@.subrange(first as int, k as int),
            decreases piece@.len() - k,
        {
            all.push(piece[k]);
            assert(start + piece@.subrange(first as int, k + 1)
                =~= (start + piece@.subrange(first as int, k as int)).push(piece@[k as int]));
            k = k + 1;
        }
        assert(piece@.subrange(first as int, piece@.len() as int) =~= piece@.skip(first as int));
        assert(start + piece@.skip(0) =~= piece@ || start.len() > 0);
        i = i + 1;
    }
    assert(views.take(pieces@.len() as int) =~= views);
    if all.len() == 0 {
        Err(String::from_str("Failed to build spline (no vertices)."))
    } else {
        Ok(all)
    }
}

/// A finished SPLINE: the control quads of its pieces.
#[derive(Debug)]
pub struct SplineCommit<P> {
    /// Catmull-Rom control points of each piece, in order.
    pub quads: Vec<(P, P, P, P)>,
    /// "Spline (n points)".
    pub label: String,
}

/// "Need at least 2 points for a spline (got `n`)."
pub open spec fn too_few_points_message(n: nat) -> Seq<char> {
    "Need at least 2 points for a spline (got "@ + decimal(n) + ")."@
}

/// SPLINE: a smooth curve through picked fit points.
#[derive(Debug, Clone)]
pub struct SplineCommand<P> {
    /// Accumulated fit points.
    pub pending_points: Vec<P>,
}

impl<P: Copy> SplineCommand<P> {
    /// Create the command with no points.
    pub fn new() -> (c: Self)
        ensures
            c.pending_points@ == Seq::<P>::empty(),
    {
        SplineCommand { pending_points: Vec::new() }
    }

    /// Command name used on the command line.
    pub fn name(&self) -> (n: &'static str)
        ensures
            n@ == "SPLINE"@,
    {
        "SPLINE"
    }

    /// Prompt for the current step.
    pub fn prompt(&self) -> (p: String)
        ensures
            p@ == (if self.pending_points@.len() == 0 {
                "Specify first fit point:"@
            } else {
                "Specify next fit point or press Enter to confirm:"@
            }),
    {
        if self.pending_points.len() == 0 {
            String::from_str("Specify first fit point:")
        } else {
            String::from_str("Specify next fit point or press Enter to confirm:")
        }
    }

    /// Points still needed: two fit points at least.
    pub fn steps_remaining(&self) -> (n: usize)
        ensures
            n == (if self.pending_points@.len() < 2 { 2 - self.pending_points@.len() } else { 0 }),
    {
        if self.pending_points.len() < 2 {
            2 - self.pending_points.len()
        } else {
            0
        }
    }

    /// Points are collected; `Confirm` with at least two finishes with the
    /// control quads of the curve; `Cancel` clears the points.
    pub fn on_input<S>(&mut self, input: CommandInput<P, S>) -> (r: Outcome<SplineCommit<P>>)
        ensures
            match input {
                CommandInput::Point(p) => r is Continue
                    && final(self).pending_points@ == old(self).pending_points@.push(p),
                CommandInput::Confirm => final(self).pending_points@ == old(self).pending_points@
                    && if old(self).pending_points@.len() < 2 {
                    r matches Outcome::Error(m) && m@ == too_few_points_message(old(self).pending_points@.len())
                } else {
                    r matches Outcome::Done(c) && c.quads@ == control_quads(old(self).pending_points@)
                        && c.label@ == counted_label("Spline"@, old(self).pending_points@.len(), "point"@)
                },
                CommandInput::Cancel => r is Cancelled && final(self).pending_points@ == Seq::<P>::empty(),
                _ => final(self).pending_points@ == old(self).pending_points@
                    && (r matches Outcome::Error(m) && m@ == "Specify a point or press Enter."@),
            },
    {
        match input {
            CommandInput::Point(p) => {
                self.pending_points.push(p);
                Outcome::Continue
            },
            CommandInput::Confirm => {
                let n = self.pending_points.len();
                if n < 2 {
                    let mut m = String::from_str("Need at least 2 points for a spline (got ");
                    push_decimal(&mut m, n as u64);
                    m.append(").");
                    return Outcome::Error(m);
                }
                let quads = spline_control_quads(&self.pending_points);
                Outcome::Done(SplineCommit { quads, label: make_counted_label("Spline", n, "point") })
            },
            CommandInput::Cancel => {
                self.on_cancel();
                Outcome::Cancelled
            },
            _ => Outcome::Error(String::from_str("Specify a point or press Enter.")),
        }
    }

    /// Preview geometry drawn while the command runs: none.
    pub fn preview<Q>(&self) -> (v: Vec<PreviewEntity<Q>>)
        ensures
            v@.len() == 0,
    {
        Vec::new()
    }

    /// Drop the collected points.
    pub fn on_cancel(&mut self)
        ensures
            final(self).pending_points@ == Seq::<P>::empty(),
    {
        self.pending_points.clear();
    }
}

impl<P: Copy> Default for SplineCommand<P> {
    fn default() -> (c: Self)
        ensures
            c.pending_points@ == Seq::<P>::empty(),
    {
        SplineCommand::new()
    }
}

} // verus!
