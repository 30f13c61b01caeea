//! What the UI engine paints, laid out for the wire.
//!
//! The engine hands out shapes, nested and each with its clip rectangle. What
//! travels is a flat list of the shapes that reach into their clip rectangle.
//! Text travels as its layout job, since glyphs belong to the fonts of the
//! side that paints them. A mesh holds its vertices interleaved: position,
//! texture coordinate and colour of one vertex stand together; on the wire the
//! three travel as columns of their own, which takes no padding and
//! compresses better.
//!
//! The geometry is that of the engine: whether two rectangles intersect, or
//! where the bounds of a shape lie, is asked of it and not worked out here.
//! Each such answer has a name below, and all that is known of it is that it
//! depends on nothing but what was asked. The engine's shapes themselves are
//! taken with the variants and fields that the engine gives them.

use egui::epaint::text::LayoutJob;
use egui::epaint::{
    CircleShape, ClippedShape, CubicBezierShape, Galley, Mesh, PaintCallback, PathShape,
    QuadraticBezierShape, RectShape, Shape, TextShape, Vertex,
};
use egui::{Color32, Pos2, Rect, Rounding, Stroke, TextureId};
use vstd::prelude::*;

verus! {

/// A point of the screen or of a texture.
#[verifier::external_type_specification]
#[verifier::external_body]
pub struct ExPos2(Pos2);

/// A colour.
#[verifier::external_type_specification]
#[verifier::external_body]
pub struct ExColor32(Color32);

/// Names the texture of a mesh.
#[verifier::external_type_specification]
pub struct ExTextureId(TextureId);

/// One vertex of a mesh: its position, its texture coordinate, its colour.
#[verifier::external_type_specification]
pub struct ExVertex(Vertex);

/// Textured triangles: the vertices, and the indices that pick three of them
/// for each triangle.
#[verifier::external_type_specification]
pub struct ExMesh(Mesh);

/// Like a [`Mesh`], but with one column for each part of a vertex.
#[derive(Clone, PartialEq)]
pub struct NetMesh {
    pub texture_id: TextureId,
    pub indices: Vec<u32>,
    pub pos: Vec<Pos2>,
    pub uv: Vec<Pos2>,
    pub color: Vec<Color32>,
}

/// The positions of the vertices, in order.
pub open spec fn positions(vertices: Seq<Vertex>) -> Seq<Pos2> {
    vertices.map_values(|v: Vertex| v.pos)
}

/// The texture coordinates of the vertices, in order.
pub open spec fn texture_coordinates(vertices: Seq<Vertex>) -> Seq<Pos2> {
    vertices.map_values(|v: Vertex| v.uv)
}

/// The colours of the vertices, in order.
pub open spec fn colors(vertices: Seq<Vertex>) -> Seq<Color32> {
    vertices.map_values(|v: Vertex| v.color)
}

/// The smallest of three lengths.
pub open spec fn shortest(a: nat, b: nat, c: nat) -> nat {
    if a <= b && a <= c {
        a
    } else if b <= c {
        b
    } else {
        c
    }
}

/// The vertices that three columns make, as far as all three reach.
pub open spec fn interleaved(pos: Seq<Pos2>, uv: Seq<Pos2>, color: Seq<Color32>) -> Seq<Vertex> {
    Seq::new(
        shortest(pos.len(), uv.len(), color.len()),
        |i: int| Vertex { pos: pos[i], uv: uv[i], color: color[i] },
    )
}

/// Copies a list of indices.
fn copy_indices(indices: &Vec<u32>) -> (copy: Vec<u32>)
    ensures
        copy@ == indices@,
{
    let copy = indices.clone();
    assert(copy@ =~= indices@);
    copy
}

impl From<&Mesh> for NetMesh {
    /// Lays a mesh out in columns.
    fn from(mesh: &Mesh) -> (net: NetMesh)
        ensures
            net.texture_id == mesh.texture_id,
            net.indices@ == mesh.indices@,
            net.pos@ == positions(mesh.vertices@),
            net.uv@ == texture_coordinates(mesh.vertices@),
            net.color@ == colors(mesh.vertices@),
    {
        let mut pos: Vec<Pos2> = Vec::new();
        let mut uv: Vec<Pos2> = Vec::new();
        let mut color: Vec<Color32> = Vec::new();
        let mut i: usize = 0;
        while i < mesh.vertices.len()
            invariant
                i <= mesh.vertices.len(),
                pos@ == positions(mesh.vertices@.take(i as int)),
                uv@ == texture_coordinates(mesh.vertices@.take(i as int)),
                color@ == colors(mesh.vertices@.take(i as int)),
            decreases mesh.vertices.len() - i,
        {
            let v: Vertex = mesh.vertices[i];
            pos.push(v.pos);
            uv.push(v.uv);
            color.push(v.color);
            i = i + 1;
            assert(pos@ =~= positions(mesh.vertices@.take(i as int)));
            assert(uv@ =~= texture_coordinates(mesh.vertices@.take(i as int)));
            assert(color@ =~= colors(mesh.vertices@.take(i as int)));
        }
        assert(mesh.vertices@.take(mesh.vertices.len() as int) =~= mesh.vertices@);
        let indices = copy_indices(&mesh.indices);
        NetMesh { texture_id: mesh.texture_id, indices, pos, uv, color }
    }
}

/// No value of a `NetMesh` can be written down in a contract, since it holds
/// vectors; what `from` returns is stated on `from` itself.
impl vstd::std_specs::convert::FromSpecImpl<&Mesh> for NetMesh {
    open spec fn obeys_from_spec() -> bool {
        false
    }

    open spec fn from_spec(mesh: &Mesh) -> NetMesh {
        arbitrary()
    }
}

impl From<&NetMesh> for Mesh {
    /// Puts the columns together again. Where they differ in length, the
    /// vertices end with the shortest column.
    fn from(net: &NetMesh) -> (mesh: Mesh)
        ensures
            mesh.texture_id == net.texture_id,
            mesh.indices@ == net.indices@,
            mesh.vertices@ == interleaved(net.pos@, net.uv@, net.color@),
    {
        let mut vertices: Vec<Vertex> = Vec::new();
        let mut i: usize = 0;
        while i < net.pos.len() && i < net.uv.len() && i < net.color.len()
            invariant
                i <= shortest(net.pos@.len(), net.uv@.len(), net.color@.len()),
                vertices@ == interleaved(net.pos@, net.uv@, net.color@).take(i as int),
            decreases net.pos.len() - i,
        {
            vertices.push(Vertex { pos: net.pos[i], uv: net.uv[i], color: net.color[i] });
            i = i + 1;
            assert(vertices@ =~= interleaved(net.pos@, net.uv@, net.color@).take(i as int));
        }
        assert(vertices@ =~= interleaved(net.pos@, net.uv@, net.color@));
        Mesh { indices: copy_indices(&net.indices), vertices, texture_id: net.texture_id }
    }
}

/// As for `NetMesh`: what `from` returns is stated on `from` itself.
impl vstd::std_specs::convert::FromSpecImpl<&NetMesh> for Mesh {
    open spec fn obeys_from_spec() -> bool {
        false
    }

    open spec fn from_spec(net: &NetMesh) -> Mesh {
        arbitrary()
    }
}

/// The columns of a mesh, put together again, are the mesh.
pub proof fn lemma_mesh_round_trip(vertices: Seq<Vertex>)
    ensures
        interleaved(positions(vertices), texture_coordinates(vertices), colors(vertices))
            == vertices,
{
    assert(interleaved(positions(vertices), texture_coordinates(vertices), colors(vertices))
        =~= vertices);
}

/// A rectangle of the screen.
#[verifier::external_type_specification]
#[verifier::external_body]
pub struct ExRect(Rect);

/// The width and colour of an outline.
#[verifier::external_type_specification]
#[verifier::external_body]
pub struct ExStroke(Stroke);

/// How round the corners of a rectangle are.
#[verifier::external_type_specification]
#[verifier::external_body]
pub struct ExRounding(Rounding);

/// A circle.
#[verifier::external_type_specification]
#[verifier::external_body]
pub struct ExCircleShape(CircleShape);

/// A quadratic Bézier curve.
#[verifier::external_type_specification]
#[verifier::external_body]
pub struct ExQuadraticBezierShape(QuadraticBezierShape);

/// A cubic Bézier curve.
#[verifier::external_type_specification]
#[verifier::external_body]
pub struct ExCubicBezierShape(CubicBezierShape);

/// Painting that only a backend of the host's own can do.
#[verifier::external_type_specification]
#[verifier::external_body]
pub struct ExPaintCallback(PaintCallback);

/// How to lay out a text: its characters, their fonts and sizes, the width to
/// wrap at.
#[verifier::external_type_specification]
#[verifier::external_body]
pub struct ExLayoutJob(LayoutJob);

/// A text that was laid out with the fonts of one side.
#[verifier::external_type_specification]
#[verifier::external_body]
pub struct ExGalley(Galley);

/// A series of lines between points.
#[verifier::external_type_specification]
pub struct ExPathShape(PathShape);

/// A rectangle with its outline and its fill.
#[verifier::external_type_specification]
pub struct ExRectShape(RectShape);

/// A text that was laid out, and where and how to paint it.
#[verifier::external_type_specification]
pub struct ExTextShape(TextShape);

/// What the UI engine paints.
#[verifier::external_type_specification]
pub struct ExShape(Shape);

/// A shape with the rectangle that clips it.
#[verifier::external_type_specification]
pub struct ExClippedShape(ClippedShape);

/// The answer of `Rect::is_positive`: the rectangle has a width and a height
/// above zero.
pub uninterp spec fn positive(rect: Rect) -> bool;

/// The answer of `Rect::is_negative`: the rectangle's width or height is below
/// zero.
pub uninterp spec fn negative(rect: Rect) -> bool;

/// The answer of `Rect::intersects`.
pub uninterp spec fn intersecting(a: Rect, b: Rect) -> bool;

/// The answer of `Shape::visual_bounding_rect`: the rectangle around all that
/// the shape paints, its outline too.
pub uninterp spec fn bounds(shape: Shape) -> Rect;

/// The answer of `Galley::is_empty`: the text has no section.
pub uninterp spec fn without_text(galley: Galley) -> bool;

/// The layout job that a galley was made from.
pub uninterp spec fn job_of(galley: Galley) -> LayoutJob;

/// The angle of a text, as the bits of its number.
pub uninterp spec fn angle_bits(text: TextShape) -> u32;

/// The clone of a point is a copy of it.
pub assume_specification[ <egui::Pos2 as core::clone::Clone>::clone ](
    value: &egui::Pos2,
) -> (copy: egui::Pos2)
    ensures
        copy == *value,
;

/// The clone of a rectangle is a copy of it.
pub assume_specification[ <egui::Rect as core::clone::Clone>::clone ](
    value: &egui::Rect,
) -> (copy: egui::Rect)
    ensures
        copy == *value,
;

/// The clone of a stroke is a copy of it.
pub assume_specification[ <egui::Stroke as core::clone::Clone>::clone ](
    value: &egui::Stroke,
) -> (copy: egui::Stroke)
    ensures
        copy == *value,
;

/// The clone of a texture name is a copy of it.
pub assume_specification[ <egui::TextureId as core::clone::Clone>::clone ](
    value: &egui::TextureId,
) -> (copy: egui::TextureId)
    ensures
        copy == *value,
;

/// The clone of a circle is a copy of it.
pub assume_specification[ <egui::epaint::CircleShape as core::clone::Clone>::clone ](
    value: &egui::epaint::CircleShape,
) -> (copy: egui::epaint::CircleShape)
    ensures
        copy == *value,
;

/// The clone of a rectangle shape is a copy of it.
pub assume_specification[ <egui::epaint::RectShape as core::clone::Clone>::clone ](
    value: &egui::epaint::RectShape,
) -> (copy: egui::epaint::RectShape)
    ensures
        copy == *value,
;

/// The clone of a curve is a copy of it.
pub assume_specification[ <egui::epaint::QuadraticBezierShape as core::clone::Clone>::clone ](
    value: &egui::epaint::QuadraticBezierShape,
) -> (copy: egui::epaint::QuadraticBezierShape)
    ensures
        copy == *value,
;

/// The clone of a curve is a copy of it.
pub assume_specification[ <egui::epaint::CubicBezierShape as core::clone::Clone>::clone ](
    value: &egui::epaint::CubicBezierShape,
) -> (copy: egui::epaint::CubicBezierShape)
    ensures
        copy == *value,
;

/// The clone of a path. Nothing is stated of it.
pub assume_specification[ <egui::epaint::PathShape as core::clone::Clone>::clone ](
    value: &egui::epaint::PathShape,
) -> egui::epaint::PathShape;

/// The clone of a layout job. Nothing is stated of it.
pub assume_specification[ <egui::epaint::text::LayoutJob as core::clone::Clone>::clone ](
    value: &egui::epaint::text::LayoutJob,
) -> egui::epaint::text::LayoutJob;

/// `Rect::is_positive` is a function of the rectangle.
pub assume_specification[ egui::Rect::is_positive ](rect: &egui::Rect) -> (answer: bool)
    ensures
        answer == positive(*rect),
;

/// `Rect::is_negative` is a function of the rectangle.
pub assume_specification[ egui::Rect::is_negative ](rect: &egui::Rect) -> (answer: bool)
    ensures
        answer == negative(*rect),
;

/// `Rect::intersects` is a function of the two rectangles.
pub assume_specification[ egui::Rect::intersects ](a: egui::Rect, b: egui::Rect) -> (answer: bool)
    ensures
        answer == intersecting(a, b),
;

/// `Shape::visual_bounding_rect` is a function of the shape.
pub assume_specification[ egui::epaint::Shape::visual_bounding_rect ](
    shape: &egui::epaint::Shape,
) -> (rect: egui::Rect)
    ensures
        rect == bounds(*shape),
;

/// `Galley::is_empty` is a function of the galley.
pub assume_specification[ egui::epaint::Galley::is_empty ](
    galley: &egui::epaint::Galley,
) -> (answer: bool)
    ensures
        answer == without_text(*galley),
;

/// Clones the layout job that a galley holds. The clone is a function of the
/// galley.
#[verifier::external_body]
fn layout_job(galley: &Galley) -> (job: LayoutJob)
    ensures
        job == job_of(*galley),
{
    (*galley.job).clone()
}

/// Reads the angle of a text with `to_bits`. The bits are a function of the
/// text shape.
#[verifier::external_body]
fn angle_to_bits(text: &TextShape) -> (bits: u32)
    ensures
        bits == angle_bits(*text),
{
    text.angle.to_bits()
}

/// Like a [`Shape`], but flat and free of anything that belongs to the fonts
/// of one side.
#[derive(Clone, PartialEq)]
pub enum NetShape {
    Circle(CircleShape),
    LineSegment { points: [Pos2; 2], stroke: Stroke },
    Path(PathShape),
    Rect(RectShape),
    Text(NetTextShape),
    Mesh(NetMesh),
    QuadraticBezier(QuadraticBezierShape),
    CubicBezier(CubicBezierShape),
}

/// How to draw some text on screen.
#[derive(Clone, PartialEq)]
pub struct NetTextShape {
    pub pos: Pos2,
    pub job: LayoutJob,
    pub underline: Stroke,
    pub override_text_color: Option<Color32>,
    /// The angle to turn the text by, as the bits of its number.
    pub angle: u32,
}

/// A wire shape with the rectangle that clips it.
#[derive(Clone, PartialEq)]
pub struct ClippedNetShape(pub Rect, pub NetShape);

/// A shape that is one thing to paint reaches into the clip rectangle `clip`,
/// and so travels. A path needs two points, a rectangle must not be turned
/// inside out, a text must have characters. Painting that only the host's
/// backend can do never travels.
pub open spec fn kept(clip: Rect, leaf: Shape) -> bool {
    match leaf {
        Shape::Noop => false,
        Shape::Vec(_) => false,
        Shape::Callback(_) => false,
        Shape::Path(path) => path.points@.len() >= 2 && intersecting(clip, bounds(leaf)),
        Shape::Rect(rect) => intersecting(clip, bounds(leaf)) && !negative(rect.rect),
        Shape::Text(text) => intersecting(clip, bounds(leaf)) && !without_text(*text.galley),
        _ => intersecting(clip, bounds(leaf)),
    }
}

/// The single shapes inside `shape` that are kept under `clip`, in the order
/// in which they are painted.
pub open spec fn visible_leaves(clip: Rect, shape: Shape) -> Seq<ClippedShape>
    decreases shape,
{
    match shape {
        Shape::Vec(shapes) => visible_leaves_of(clip, shapes, 0),
        _ => if kept(clip, shape) {
            seq![ClippedShape(clip, shape)]
        } else {
            Seq::empty()
        },
    }
}

/// The kept shapes of a list, from place `from` on.
pub open spec fn visible_leaves_of(clip: Rect, shapes: Vec<Shape>, from: nat) -> Seq<
    ClippedShape,
>
    decreases shapes, shapes.len() - from,
{
    if from >= shapes.len() {
        Seq::empty()
    } else {
        visible_leaves(clip, shapes[from as int]) + visible_leaves_of(clip, shapes, from + 1)
    }
}

/// What travels of one clipped shape: nothing where the clip rectangle has no
/// area, else its kept shapes.
pub open spec fn projected(shape: ClippedShape) -> Seq<ClippedShape> {
    if positive(shape.0) {
        visible_leaves(shape.0, shape.1)
    } else {
        Seq::empty()
    }
}

/// What travels of a list of clipped shapes.
pub open spec fn all_projected(shapes: Seq<ClippedShape>) -> Seq<ClippedShape>
    decreases shapes.len(),
{
    if shapes.len() == 0 {
        Seq::empty()
    } else {
        all_projected(shapes.drop_last()) + projected(shapes.last())
    }
}

/// A shape that is one thing to paint, and that a viewer can paint.
pub open spec fn travels(leaf: Shape) -> bool {
    match leaf {
        Shape::Noop => false,
        Shape::Vec(_) => false,
        Shape::Callback(_) => false,
        _ => true,
    }
}

/// All single shapes inside `shape` that a viewer can paint, in the order in
/// which they are painted: what would travel if nothing were left out for
/// being out of sight.
pub open spec fn all_leaves(clip: Rect, shape: Shape) -> Seq<ClippedShape>
    decreases shape,
{
    match shape {
        Shape::Vec(shapes) => all_leaves_of(clip, shapes, 0),
        _ => if travels(shape) {
            seq![ClippedShape(clip, shape)]
        } else {
            Seq::empty()
        },
    }
}

/// All such shapes of a list, from place `from` on.
pub open spec fn all_leaves_of(clip: Rect, shapes: Vec<Shape>, from: nat) -> Seq<ClippedShape>
    decreases shapes, shapes.len() - from,
{
    if from >= shapes.len() {
        Seq::empty()
    } else {
        all_leaves(clip, shapes[from as int]) + all_leaves_of(clip, shapes, from + 1)
    }
}

/// `part` is what is left of `whole` when some of its items are taken out and
/// the others keep their order.
pub open spec fn left_of(part: Seq<ClippedShape>, whole: Seq<ClippedShape>) -> bool
    decreases whole.len(),
{
    if part.len() == 0 {
        true
    } else if whole.len() == 0 {
        false
    } else {
        ||| (part.last() == whole.last() && left_of(part.drop_last(), whole.drop_last()))
        ||| left_of(part, whole.drop_last())
    }
}

/// What is left of two lists, one behind the other, is left of the two
/// behind each other.
pub proof fn lemma_left_of_both(
    part: Seq<ClippedShape>,
    whole: Seq<ClippedShape>,
    more_part: Seq<ClippedShape>,
    more_whole: Seq<ClippedShape>,
)
    requires
        left_of(part, whole),
        left_of(more_part, more_whole),
    ensures
        left_of(part + more_part, whole + more_whole),
    decreases more_whole.len(),
{
    if more_part.len() == 0 {
        assert(part + more_part =~= part);
        lemma_left_of_longer(part, whole, more_whole);
    } else {
        assert(more_whole.len() > 0);
        let shorter = more_whole.drop_last();
        assert((whole + more_whole).drop_last() =~= whole + shorter);
        assert((whole + more_whole).last() == more_whole.last());
        if more_part.last() == more_whole.last() && left_of(more_part.drop_last(), shorter) {
            lemma_left_of_both(part, whole, more_part.drop_last(), shorter);
            assert((part + more_part).drop_last() =~= part + more_part.drop_last());
            assert((part + more_part).last() == more_part.last());
        } else {
            lemma_left_of_both(part, whole, more_part, shorter);
        }
    }
}

/// What is left of a list is left of any longer one.
pub proof fn lemma_left_of_longer(
    part: Seq<ClippedShape>,
    whole: Seq<ClippedShape>,
    more: Seq<ClippedShape>,
)
    requires
        left_of(part, whole),
    ensures
        left_of(part, whole + more),
    decreases more.len(),
{
    if more.len() == 0 {
        assert(whole + more =~= whole);
    } else if part.len() > 0 {
        lemma_left_of_longer(part, whole, more.drop_last());
        assert((whole + more).drop_last() =~= whole + more.drop_last());
    }
}

/// Leaving out what is out of sight only ever leaves out: the shapes that
/// travel are among the shapes that a viewer could paint, in their order, and
/// each as it was.
pub proof fn lemma_culling_only_leaves_out(clip: Rect, shape: Shape)
    ensures
        left_of(visible_leaves(clip, shape), all_leaves(clip, shape)),
    decreases shape,
{
    match shape {
        Shape::Vec(shapes) => {
            lemma_culling_only_leaves_out_of(clip, shapes, 0);
        },
        _ => {
            if kept(clip, shape) {
                let one = seq![ClippedShape(clip, shape)];
                assert(one.drop_last() =~= Seq::<ClippedShape>::empty());
                assert(left_of(one.drop_last(), one.drop_last()));
            }
        },
    }
}

/// The same of a list of shapes.
pub proof fn lemma_culling_only_leaves_out_of(clip: Rect, shapes: Vec<Shape>, from: nat)
    ensures
        left_of(visible_leaves_of(clip, shapes, from), all_leaves_of(clip, shapes, from)),
    decreases shapes, shapes.len() - from,
{
    if from < shapes.len() {
        lemma_culling_only_leaves_out(clip, shapes[from as int]);
        lemma_culling_only_leaves_out_of(clip, shapes, from + 1);
        lemma_left_of_both(
            visible_leaves(clip, shapes[from as int]),
            all_leaves(clip, shapes[from as int]),
            visible_leaves_of(clip, shapes, from + 1),
            all_leaves_of(clip, shapes, from + 1),
        );
    }
}

/// `item` is the wire form of the single shape `leaf` under its clip rectangle.
pub open spec fn sent_as(item: ClippedNetShape, leaf: ClippedShape) -> bool {
    &&& item.0 == leaf.0
    &&& match leaf.1 {
        Shape::Circle(circle) => item.1 == NetShape::Circle(circle),
        Shape::LineSegment { points, stroke } => item.1 == (NetShape::LineSegment {
            points,
            stroke,
        }),
        Shape::Path(path) => item.1 == NetShape::Path(path),
        Shape::Rect(rect) => item.1 == NetShape::Rect(rect),
        Shape::Text(text) => item.1 matches NetShape::Text(net) && net.pos == text.pos
            && net.job == job_of(*text.galley) && net.underline == text.underline
            && net.override_text_color == text.override_text_color && net.angle == angle_bits(
            text,
        ),
        Shape::Mesh(mesh) => item.1 matches NetShape::Mesh(net) && net.texture_id
            == mesh.texture_id && net.indices@ == mesh.indices@ && net.pos@ == positions(
            mesh.vertices@,
        ) && net.uv@ == texture_coordinates(mesh.vertices@) && net.color@ == colors(
            mesh.vertices@,
        ),
        Shape::QuadraticBezier(bezier) => item.1 == NetShape::QuadraticBezier(bezier),
        Shape::CubicBezier(bezier) => item.1 == NetShape::CubicBezier(bezier),
        _ => false,
    }
}

/// `after` is `before` with the wire forms of `leaves` behind it.
pub open spec fn extended_by(
    before: Seq<ClippedNetShape>,
    after: Seq<ClippedNetShape>,
    leaves: Seq<ClippedShape>,
) -> bool {
    &&& after.len() == before.len() + leaves.len()
    &&& forall|i: int| 0 <= i < before.len() ==> after[i] == before[i]
    &&& forall|i: int|
        0 <= i < leaves.len() ==> sent_as(#[trigger] after[before.len() + i], leaves[i])
}

/// Extending twice is extending by both lists of leaves.
proof fn lemma_extended_twice(
    first: Seq<ClippedNetShape>,
    second: Seq<ClippedNetShape>,
    third: Seq<ClippedNetShape>,
    leaves: Seq<ClippedShape>,
    more: Seq<ClippedShape>,
)
    requires
        extended_by(first, second, leaves),
        extended_by(second, third, more),
    ensures
        extended_by(first, third, leaves + more),
{
    let all = leaves + more;
    assert forall|i: int| 0 <= i < first.len() implies third[i] == first[i] by {
        assert(third[i] == second[i]);
    }
    assert forall|i: int| 0 <= i < all.len() implies sent_as(
        #[trigger] third[first.len() + i],
        all[i],
    ) by {
        if i < leaves.len() {
            assert(third[first.len() + i] == second[first.len() + i]);
            assert(sent_as(second[first.len() + i], leaves[i]));
        } else {
            let k = i - leaves.len();
            assert(sent_as(third[second.len() + k], more[k]));
            assert(second.len() + k == first.len() + i);
        }
    }
}

/// Puts the wire forms of what travels of one clipped shape behind
/// `out_net_shapes`.
fn to_net_shapes(clip_rect: Rect, in_shape: Shape, out_net_shapes: &mut Vec<ClippedNetShape>)
    ensures
        extended_by(
            old(out_net_shapes)@,
            final(out_net_shapes)@,
            projected(ClippedShape(clip_rect, in_shape)),
        ),
    decreases in_shape,
{
    if !clip_rect.is_positive() {
        return ;
    }
    let reaches: bool = match &in_shape {
        Shape::Noop => false,
        Shape::Vec(_) => false,
        Shape::Callback(_) => false,
        _ => clip_rect.intersects(in_shape.visual_bounding_rect()),
    };
    match in_shape {
        Shape::Noop => {},
        Shape::Vec(shapes) => {
            let ghost all = shapes;
            let ghost mut done: Seq<ClippedShape> = Seq::empty();
            for shape in it: shapes.into_iter()
                invariant
                    it.seq() == all@,
                    decreases_to!(in_shape => all),
                    positive(clip_rect),
                    extended_by(old(out_net_shapes)@, out_net_shapes@, done),
                    done + visible_leaves_of(clip_rect, all, it.index() as nat)
                        == visible_leaves_of(clip_rect, all, 0),
            {
                let ghost before = out_net_shapes@;
                proof {
                    vstd::std_specs::vec::axiom_vec_index_decreases(all, it.index() as int);
                }
                to_net_shapes(clip_rect, shape, out_net_shapes);
                proof {
                    let here = visible_leaves(clip_rect, shape);
                    lemma_extended_twice(
                        old(out_net_shapes)@,
                        before,
                        out_net_shapes@,
                        done,
                        here,
                    );
                    assert((done + here) + visible_leaves_of(
                        clip_rect,
                        all,
                        (it.index() + 1) as nat,
                    ) =~= done + visible_leaves_of(clip_rect, all, it.index() as nat));
                    done = done + here;
                }
            }
            assert(done =~= visible_leaves_of(clip_rect, all, 0));
        },
        Shape::Circle(circle_shape) => {
            if reaches {
                out_net_shapes.push(ClippedNetShape(clip_rect, NetShape::Circle(circle_shape)));
            }
        },
        Shape::LineSegment { points, stroke } => {
            if reaches {
                out_net_shapes.push(
                    ClippedNetShape(clip_rect, NetShape::LineSegment { points, stroke }),
                );
            }
        },
        Shape::Path(path_shape) => {
            if path_shape.points.len() >= 2 && reaches {
                out_net_shapes.push(ClippedNetShape(clip_rect, NetShape::Path(path_shape)));
            }
        },
        Shape::Rect(rect_shape) => {
            if reaches && !rect_shape.rect.is_negative() {
                out_net_shapes.push(ClippedNetShape(clip_rect, NetShape::Rect(rect_shape)));
            }
        },
        Shape::Text(text_shape) => {
            if reaches && !text_shape.galley.is_empty() {
                out_net_shapes.push(
                    ClippedNetShape(
                        clip_rect,
                        NetShape::Text(
                            NetTextShape {
                                pos: text_shape.pos,
                                job: layout_job(&text_shape.galley),
                                underline: text_shape.underline,
                                override_text_color: text_shape.override_text_color,
                                angle: angle_to_bits(&text_shape),
                            },
                        ),
                    ),
                );
            }
        },
        Shape::Mesh(mesh) => {
            if reaches {
                let net_mesh = NetMesh::from(&mesh);
                out_net_shapes.push(ClippedNetShape(clip_rect, NetShape::Mesh(net_mesh)));
            }
        },
        Shape::QuadraticBezier(bezier_shape) => {
            if reaches {
                out_net_shapes.push(
                    ClippedNetShape(clip_rect, NetShape::QuadraticBezier(bezier_shape)),
                );
            }
        },
        Shape::CubicBezier(bezier_shape) => {
            if reaches {
                out_net_shapes.push(
                    ClippedNetShape(clip_rect, NetShape::CubicBezier(bezier_shape)),
                );
            }
        },
        Shape::Callback(_) => {},
    }
}

/// Lays out for the wire what the UI engine painted: the shapes that reach
/// into their clip rectangle, flat, in the order in which they are painted.
pub fn to_clipped_net_shapes(in_shapes: Vec<ClippedShape>) -> (net_shapes: Vec<ClippedNetShape>)
    ensures
        extended_by(Seq::empty(), net_shapes@, all_projected(in_shapes@)),
{
    let mut net_shapes: Vec<ClippedNetShape> = Vec::new();
    let ghost all = in_shapes@;
    let ghost mut done: Seq<ClippedShape> = Seq::empty();
    for clipped in it: in_shapes.into_iter()
        invariant
            it.seq() == all,
            extended_by(Seq::empty(), net_shapes@, done),
            done == all_projected(all.take(it.index() as int)),
    {
        let ghost before = net_shapes@;
        let ClippedShape(clip_rect, shape) = clipped;
        to_net_shapes(clip_rect, shape, &mut net_shapes);
        proof {
            lemma_extended_twice(Seq::empty(), before, net_shapes@, done, projected(clipped));
            assert(all.take(it.index() + 1).drop_last() =~= all.take(it.index() as int));
            done = done + projected(clipped);
        }
    }
    assert(all.take(all.len() as int) =~= all);
    net_shapes
}

/// `shape` is what a viewer paints for the wire shape `net`, where `reshape`
/// lays out text with the viewer's own fonts: the same shape, but for a mesh,
/// whose columns are put together again, and for a text. A text keeps its
/// place, its underline and its colour; its galley and its angle are those
/// of what `reshape` makes of it.
pub open spec fn painted_as<F: Fn(NetTextShape) -> TextShape>(
    reshape: F,
    net: NetShape,
    shape: Shape,
) -> bool {
    match net {
        NetShape::Circle(circle) => shape == Shape::Circle(circle),
        NetShape::LineSegment { points, stroke } => shape == (Shape::LineSegment {
            points,
            stroke,
        }),
        NetShape::Path(path) => shape == Shape::Path(path),
        NetShape::Rect(rect) => shape == Shape::Rect(rect),
        NetShape::Text(text) => shape matches Shape::Text(laid_out) && laid_out.pos
            == text.pos && laid_out.underline == text.underline
            && laid_out.override_text_color == text.override_text_color && exists|
            made: TextShape,
        |
            #[trigger] reshape.ensures((text,), made) && laid_out.galley == made.galley
                && laid_out.angle == made.angle,
        NetShape::Mesh(net_mesh) => shape matches Shape::Mesh(mesh) && mesh.texture_id
            == net_mesh.texture_id && mesh.indices@ == net_mesh.indices@ && mesh.vertices@
            == interleaved(net_mesh.pos@, net_mesh.uv@, net_mesh.color@),
        NetShape::QuadraticBezier(bezier) => shape == Shape::QuadraticBezier(bezier),
        NetShape::CubicBezier(bezier) => shape == Shape::CubicBezier(bezier),
    }
}

/// `shape` is what a viewer paints for `net`, under the same clip rectangle.
pub open spec fn received_as<F: Fn(NetTextShape) -> TextShape>(
    reshape: F,
    net: ClippedNetShape,
    shape: ClippedShape,
) -> bool {
    shape.0 == net.0 && painted_as(reshape, net.1, shape.1)
}

/// Makes of one wire shape the shape to paint.
fn to_epaint_shape<F: Fn(NetTextShape) -> TextShape>(reshape: &F, net_shape: NetShape) -> (shape:
    Shape)
    requires
        forall|text: NetTextShape| reshape.requires((text,)),
    ensures
        painted_as(*reshape, net_shape, shape),
{
    match net_shape {
        NetShape::Circle(circle_shape) => Shape::Circle(circle_shape),
        NetShape::LineSegment { points, stroke } => Shape::LineSegment { points, stroke },
        NetShape::Path(path_shape) => Shape::Path(path_shape),
        NetShape::Rect(rect_shape) => Shape::Rect(rect_shape),
        NetShape::Text(text_shape) => {
            let pos = text_shape.pos;
            let underline = text_shape.underline;
            let override_text_color = text_shape.override_text_color;
            let mut laid_out = reshape(text_shape);
            laid_out.pos = pos;
            laid_out.underline = underline;
            laid_out.override_text_color = override_text_color;
            Shape::Text(laid_out)
        },
        NetShape::Mesh(net_mesh) => Shape::Mesh(Mesh::from(&net_mesh)),
        NetShape::QuadraticBezier(bezier_shape) => Shape::QuadraticBezier(bezier_shape),
        NetShape::CubicBezier(bezier_shape) => Shape::CubicBezier(bezier_shape),
    }
}

/// Makes of the wire shapes the shapes to paint, one for one and in order.
///
/// Text is laid out by `reshape`, with the fonts of the side that paints: of
/// what `reshape` returns the galley and the angle are taken, and the place,
/// the underline and the colour are those of the wire shape.
pub fn from_clipped_net_shapes<F: Fn(NetTextShape) -> TextShape>(
    reshape: F,
    in_shapes: Vec<ClippedNetShape>,
) -> (shapes: Vec<ClippedShape>)
    requires
        forall|text: NetTextShape| reshape.requires((text,)),
    ensures
        shapes@.len() == in_shapes@.len(),
        forall|i: int|
            0 <= i < shapes@.len() ==> received_as(reshape, in_shapes@[i], #[trigger] shapes@[i]),
{
    let mut shapes: Vec<ClippedShape> = Vec::new();
    let ghost all = in_shapes@;
    for clipped in it: in_shapes.into_iter()
        invariant
            it.seq() == all,
            forall|text: NetTextShape| reshape.requires((text,)),
            shapes@.len() == it.index(),
            forall|i: int|
                0 <= i < shapes@.len() ==> received_as(reshape, all[i], #[trigger] shapes@[i]),
    {
        let ClippedNetShape(clip_rect, net_shape) = clipped;
        let shape = to_epaint_shape(&reshape, net_shape);
        shapes.push(ClippedShape(clip_rect, shape));
    }
    shapes
}

/// A text that travelled comes out at its place, with its underline and its
/// colour.
pub proof fn lemma_text_round_trip<F: Fn(NetTextShape) -> TextShape>(
    reshape: F,
    leaf: ClippedShape,
    net: ClippedNetShape,
    back: ClippedShape,
)
    requires
        sent_as(net, leaf),
        received_as(reshape, net, back),
        leaf.1 is Text,
    ensures
        back.0 == leaf.0,
        match (leaf.1, back.1) {
            (Shape::Text(before), Shape::Text(after)) => after.pos == before.pos
                && after.underline == before.underline && after.override_text_color
                == before.override_text_color,
            _ => false,
        },
{
}

/// A shape that travelled comes out as it went in, unless it is a text: the
/// same clip rectangle and the same shape, a mesh with the same triangles.
pub proof fn lemma_shape_round_trip<F: Fn(NetTextShape) -> TextShape>(
    reshape: F,
    leaf: ClippedShape,
    net: ClippedNetShape,
    back: ClippedShape,
)
    requires
        sent_as(net, leaf),
        received_as(reshape, net, back),
        !(leaf.1 is Text),
    ensures
        back.0 == leaf.0,
        leaf.1 is Mesh ==> back.1 is Mesh,
        match (leaf.1, back.1) {
            (Shape::Mesh(before), Shape::Mesh(after)) => after.texture_id == before.texture_id
                && after.indices@ == before.indices@ && after.vertices@ == before.vertices@,
            _ => back.1 == leaf.1,
        },
{
    match leaf.1 {
        Shape::Mesh(mesh) => {
            lemma_mesh_round_trip(mesh.vertices@);
        },
        _ => {},
    }
}

} // verus!
