//! The transform-stack interpreter: draining draw commands into render calls.

use whimsy::color::Color;
use whimsy::draw::DrawCommand;
use whimsy::draw::RenderCall;
use whimsy::draw::render_commands;
use whimsy::fx::FX_ONE;
use whimsy::fx::Fx;
use whimsy::geom::Mat;
use whimsy::geom::Rect;
use whimsy::lang::FillArg;
use whimsy::lang::HostCall;
use whimsy::lang::Lang;

fn fxi(n: i32) -> Fx {
    Fx::from_int(n)
}

fn opaque(r: Fx, g: Fx, b: Fx) -> Color {
    Color { r, g, b, a: Fx { bits: FX_ONE } }
}

fn black() -> Color {
    opaque(fxi(0), fxi(0), fxi(0))
}

fn red() -> Color {
    opaque(fxi(1), fxi(0), fxi(0))
}

fn fill_rects(calls: &[RenderCall]) -> Vec<(Rect, Color, Mat)> {
    calls
        .iter()
        .filter_map(|c| match c {
            RenderCall::FillRect(r, col, m) => Some((*r, *col, *m)),
            _ => None,
        })
        .collect()
}

#[test]
fn empty_queue_only_clears_background() {
    let cmds: Vec<DrawCommand> = Vec::new();
    let out = render_commands(&cmds);
    assert_eq!(out, vec![RenderCall::Clear(black())]);
}

#[test]
fn red_rect_renders_one_fill_under_center_translation() {
    let mut lang: Lang<u64> = Lang::new(1);
    let program = vec![
        HostCall::SetFill(FillArg::Name("red".to_string())),
        HostCall::EmitRect(fxi(0), fxi(0), fxi(10), fxi(10)),
    ];
    assert_eq!(lang.run_ast(&program), Ok(()));
    let cmds = lang.draw_commands();
    let out = render_commands(&cmds);

    let rects = fill_rects(&out);
    assert_eq!(rects.len(), 1);
    let (rect, color, mat) = rects[0];
    assert_eq!(rect, Rect { x: fxi(-5), y: fxi(-5), w: fxi(10), h: fxi(10) });
    assert_eq!(color, red());
    assert_eq!(mat, Mat::translation(fxi(5), fxi(5)));

    // The full call sequence: clear, the emit-rect frame push, the
    // translation to the center, the fill, and the frame pop.
    assert_eq!(
        out,
        vec![
            RenderCall::Clear(black()),
            RenderCall::SetTransform(Mat::identity()),
            RenderCall::SetTransform(Mat::translation(fxi(5), fxi(5))),
            RenderCall::FillRect(
                Rect { x: fxi(-5), y: fxi(-5), w: fxi(10), h: fxi(10) },
                red(),
                Mat::translation(fxi(5), fxi(5)),
            ),
            RenderCall::SetTransform(Mat::identity()),
        ]
    );
}

#[test]
fn rotation_does_not_leak_past_pop() {
    let mut lang: Lang<u64> = Lang::new(1);
    let program = vec![
        HostCall::PushFrame,
        HostCall::Rotate(fxi(90)),
        HostCall::EmitRect(fxi(0), fxi(0), fxi(10), fxi(10)),
        HostCall::PopFrame,
        HostCall::EmitRect(fxi(20), fxi(20), fxi(4), fxi(4)),
    ];
    assert_eq!(lang.run_ast(&program), Ok(()));
    let cmds = lang.draw_commands();
    let out = render_commands(&cmds);

    let rects = fill_rects(&out);
    assert_eq!(rects.len(), 2);

    // The second rectangle renders under the untouched prior transform:
    // only its own centering translation, no trace of the rotation.
    let (rect, _, mat) = rects[1];
    assert_eq!(rect, Rect { x: fxi(-2), y: fxi(-2), w: fxi(4), h: fxi(4) });
    assert_eq!(mat, Mat::translation(fxi(22), fxi(22)));

    // The first rectangle, by contrast, did render under the rotation.
    let (_, _, rotated) = rects[0];
    assert_ne!(rotated, Mat::translation(fxi(5), fxi(5)));
}

#[test]
fn popping_the_bottom_frame_is_a_no_op() {
    let cmds = vec![
        DrawCommand::PopTransform,
        DrawCommand::PopTransform,
        DrawCommand::Rect(Rect { x: fxi(0), y: fxi(0), w: fxi(1), h: fxi(1) }),
    ];
    let out = render_commands(&cmds);
    assert_eq!(
        out,
        vec![
            RenderCall::Clear(black()),
            RenderCall::SetTransform(Mat::identity()),
            RenderCall::SetTransform(Mat::identity()),
            RenderCall::FillRect(
                Rect { x: fxi(0), y: fxi(0), w: fxi(1), h: fxi(1) },
                opaque(fxi(1), fxi(1), fxi(1)),
                Mat::identity(),
            ),
        ]
    );
}

#[test]
fn fill_color_resets_to_white_each_frame() {
    // One frame fills red; the next frame's rectangle is white again.
    let frame_one = vec![
        DrawCommand::Fill(red()),
        DrawCommand::Rect(Rect { x: fxi(0), y: fxi(0), w: fxi(1), h: fxi(1) }),
    ];
    let out_one = render_commands(&frame_one);
    let rects_one = fill_rects(&out_one);
    assert_eq!(rects_one[0].1, red());

    let frame_two = vec![DrawCommand::Rect(Rect { x: fxi(0), y: fxi(0), w: fxi(1), h: fxi(1) })];
    let out_two = render_commands(&frame_two);
    let rects_two = fill_rects(&out_two);
    assert_eq!(rects_two[0].1, opaque(fxi(1), fxi(1), fxi(1)));
}

#[test]
fn transforms_compose_in_local_frames() {
    // translate(10, 0) then scale(2, 2): the scale acts inside the
    // translated frame, so the cumulative matrix keeps the translation
    // and scales the linear part.
    let cmds = vec![
        DrawCommand::Transform(Mat::translation(fxi(10), fxi(0))),
        DrawCommand::Transform(Mat::scaling(fxi(2), fxi(2))),
    ];
    let out = render_commands(&cmds);
    let expected = Mat {
        m00: fxi(2),
        m01: fxi(0),
        m02: fxi(10),
        m10: fxi(0),
        m11: fxi(2),
        m12: fxi(0),
    };
    assert_eq!(
        out,
        vec![
            RenderCall::Clear(black()),
            RenderCall::SetTransform(Mat::translation(fxi(10), fxi(0))),
            RenderCall::SetTransform(expected),
        ]
    );
}

#[test]
fn color_changes_do_not_affect_earlier_rects() {
    let cmds = vec![
        DrawCommand::Rect(Rect { x: fxi(0), y: fxi(0), w: fxi(1), h: fxi(1) }),
        DrawCommand::Fill(red()),
        DrawCommand::Rect(Rect { x: fxi(0), y: fxi(0), w: fxi(1), h: fxi(1) }),
    ];
    let out = render_commands(&cmds);
    let rects = fill_rects(&out);
    assert_eq!(rects.len(), 2);
    assert_eq!(rects[0].1, opaque(fxi(1), fxi(1), fxi(1)));
    assert_eq!(rects[1].1, red());
}
