use level_editor::draw::{Colour, Rectangle};
use level_editor::editor::EditorContext;
use level_editor::input::Input;
use level_editor::level::{Level, Platform};
use level_editor::scalar::{Scalar, Vec2};
use level_editor::tools::{MoveTool, PlatformTool, Selector, Tool};

fn s(value: f32) -> Scalar {
    Scalar::from_bits(value.to_bits())
}

fn v(x: f32, y: f32) -> Vec2 {
    Vec2::new(s(x), s(y))
}

fn frame(x: f32, y: f32, left_down: bool) -> Input {
    Input {
        mouse_pos: v(x, y),
        left_pressed: false,
        left_released: false,
        left_down,
        key_s: false,
        key_p: false,
        key_m: false,
        ctrl: false,
    }
}

fn two_squares() -> EditorContext {
    EditorContext::new(Level::new(
        vec![
            Platform::new(v(0.0, 0.0), v(10.0, 10.0)),
            Platform::new(v(20.0, 20.0), v(10.0, 10.0)),
        ],
        v(0.0, 0.0),
    ))
}

fn selection_is_valid(ctx: &EditorContext) -> bool {
    let count = ctx.get_level().get_platforms().len();
    ctx.get_selection().iter().all(|index| *index < count)
}

fn drag_select(ctx: &mut EditorContext, from: Vec2, to: Vec2) {
    let mut tool = Selector::new();
    tool.on_click(from, ctx);
    tool.update(&Input { mouse_pos: to, ..frame(0.0, 0.0, true) }, ctx);
    tool.on_mouse_release(to, ctx);
}

#[test]
fn new_tools_are_idle() {
    let selector = Selector::new();
    assert_eq!(selector.mouse_pressed_pos, v(0.0, 0.0));
    assert_eq!(selector.mouse_current_pos, v(0.0, 0.0));
    assert!(!selector.mouse_down);
    let platform_tool = PlatformTool::new();
    assert_eq!(platform_tool.mouse_pressed_pos, v(0.0, 0.0));
    assert!(!platform_tool.mouse_down);
    assert_eq!(platform_tool.preview_platform, None);
    let move_tool = MoveTool::new();
    assert_eq!(move_tool.last_recorded_mouse, v(0.0, 0.0));
    assert_eq!(move_tool.total_move_delta, v(0.0, 0.0));
    assert!(!move_tool.mouse_down);
}

#[test]
fn selector_picks_what_the_drag_overlaps() {
    let mut ctx = two_squares();
    drag_select(&mut ctx, v(5.0, 5.0), v(15.0, 15.0));
    assert_eq!(ctx.get_selection(), &[0]);
    drag_select(&mut ctx, v(0.0, 0.0), v(35.0, 35.0));
    assert_eq!(ctx.get_selection(), &[0, 1]);
}

#[test]
fn selector_works_from_any_corner() {
    let mut ctx = two_squares();
    drag_select(&mut ctx, v(15.0, 15.0), v(5.0, 5.0));
    assert_eq!(ctx.get_selection(), &[0]);
    drag_select(&mut ctx, v(35.0, 0.0), v(0.0, 35.0));
    assert_eq!(ctx.get_selection(), &[0, 1]);
    drag_select(&mut ctx, v(40.0, 40.0), v(25.0, 25.0));
    assert_eq!(ctx.get_selection(), &[1]);
}

#[test]
fn selector_replaces_the_selection() {
    let mut ctx = two_squares();
    drag_select(&mut ctx, v(0.0, 0.0), v(35.0, 35.0));
    drag_select(&mut ctx, v(100.0, 100.0), v(110.0, 110.0));
    assert!(ctx.get_selection().is_empty());
}

#[test]
fn selector_can_always_switch() {
    let mut ctx = two_squares();
    let mut tool = Selector::new();
    assert!(tool.can_switch());
    tool.on_click(v(1.0, 1.0), &mut ctx);
    assert!(tool.mouse_down);
    assert!(tool.can_switch());
    tool.on_mouse_release(v(1.0, 1.0), &mut ctx);
    assert!(!tool.mouse_down);
}

#[test]
fn selector_outline_follows_the_drag() {
    let mut ctx = two_squares();
    let mut tool = Selector::new();
    assert!(tool.draw(&ctx).is_empty());
    tool.on_click(v(5.0, 6.0), &mut ctx);
    tool.update(&frame(15.0, 10.0, true), &mut ctx);
    let red = |pos: Vec2, size: Vec2| Rectangle { pos, size, colour: Colour::Red };
    assert_eq!(
        tool.draw(&ctx),
        vec![
            red(v(5.0, 6.0), v(10.0, 1.0)),
            red(v(5.0, 6.0), v(1.0, 4.0)),
            red(v(15.0, 6.0), v(1.0, 5.0)),
            red(v(5.0, 10.0), v(11.0, 1.0)),
        ]
    );
    tool.on_click(v(15.0, 10.0), &mut ctx);
    tool.update(&frame(5.0, 6.0, true), &mut ctx);
    assert_eq!(
        tool.draw(&ctx),
        vec![
            red(v(5.0, 6.0), v(10.0, 1.0)),
            red(v(5.0, 6.0), v(1.0, 4.0)),
            red(v(15.0, 6.0), v(1.0, 5.0)),
            red(v(5.0, 10.0), v(11.0, 1.0)),
        ]
    );
}

#[test]
fn platform_tool_adds_the_dragged_platform() {
    let mut ctx = two_squares();
    let mut tool = PlatformTool::new();
    tool.on_click(v(40.0, 50.0), &mut ctx);
    assert!(tool.can_switch());
    tool.update(&frame(45.0, 42.0, true), &mut ctx);
    assert!(!tool.can_switch());
    assert_eq!(
        tool.preview_platform,
        Some(Platform { pos: v(40.0, 42.0), size: v(5.0, 8.0), friction: s(1.0) })
    );
    assert_eq!(
        tool.draw(&ctx),
        vec![Rectangle { pos: v(40.0, 42.0), size: v(5.0, 8.0), colour: Colour::White }]
    );
    tool.on_mouse_release(v(45.0, 42.0), &mut ctx);
    assert!(tool.can_switch());
    assert!(tool.draw(&ctx).is_empty());
    let platforms = ctx.get_level().get_platforms();
    assert_eq!(platforms.len(), 3);
    assert_eq!(platforms[2], Platform { pos: v(40.0, 42.0), size: v(5.0, 8.0), friction: s(1.0) });
}

#[test]
fn platform_tool_discards_a_drag_along_a_vertical_line() {
    let mut ctx = two_squares();
    let mut tool = PlatformTool::new();
    tool.on_click(v(40.0, 50.0), &mut ctx);
    tool.update(&frame(40.0, 70.0, true), &mut ctx);
    tool.on_mouse_release(v(40.0, 70.0), &mut ctx);
    assert_eq!(ctx.get_level().get_platforms().len(), 2);
    assert!(tool.can_switch());
}

#[test]
fn platform_tool_discards_a_drag_along_a_horizontal_line() {
    let mut ctx = two_squares();
    let mut tool = PlatformTool::new();
    tool.on_click(v(40.0, 50.0), &mut ctx);
    tool.update(&frame(90.0, 50.0, true), &mut ctx);
    tool.on_mouse_release(v(90.0, 50.0), &mut ctx);
    assert_eq!(ctx.get_level().get_platforms().len(), 2);
}

#[test]
fn platform_tool_discards_a_click_without_a_drag() {
    let mut ctx = two_squares();
    let mut tool = PlatformTool::new();
    tool.on_click(v(40.0, 50.0), &mut ctx);
    tool.update(&frame(40.0, 50.0, true), &mut ctx);
    tool.on_mouse_release(v(40.0, 50.0), &mut ctx);
    assert_eq!(ctx.get_level().get_platforms().len(), 2);
}

#[test]
fn platform_tool_discards_a_preview_without_area() {
    let mut ctx = two_squares();
    let mut tool = PlatformTool::new();
    tool.on_click(v(40.0, 50.0), &mut ctx);
    tool.update(&frame(40.0, 50.0, true), &mut ctx);
    tool.on_mouse_release(v(45.0, 55.0), &mut ctx);
    assert_eq!(ctx.get_level().get_platforms().len(), 2);
    tool.on_click(v(40.0, 50.0), &mut ctx);
    tool.update(&frame(60.0, 50.0, true), &mut ctx);
    tool.on_mouse_release(v(60.0, 51.0), &mut ctx);
    assert_eq!(ctx.get_level().get_platforms().len(), 2);
}

#[test]
fn platform_tool_adds_the_preview_of_the_last_frame() {
    let mut ctx = two_squares();
    let mut tool = PlatformTool::new();
    tool.on_click(v(40.0, 50.0), &mut ctx);
    tool.update(&frame(44.0, 52.0, true), &mut ctx);
    tool.on_mouse_release(v(45.0, 55.0), &mut ctx);
    assert_eq!(
        ctx.get_level().get_platforms()[2],
        Platform { pos: v(40.0, 50.0), size: v(4.0, 2.0), friction: s(1.0) }
    );
}

#[test]
fn platform_tool_release_without_a_press_does_nothing() {
    let mut ctx = two_squares();
    let mut tool = PlatformTool::new();
    tool.on_mouse_release(v(40.0, 50.0), &mut ctx);
    assert_eq!(ctx.get_level().get_platforms().len(), 2);
    assert_eq!(tool, PlatformTool::new());
}

#[test]
fn platform_tool_keeps_no_preview_while_the_button_is_up() {
    let mut ctx = two_squares();
    let mut tool = PlatformTool::new();
    tool.update(&frame(40.0, 50.0, false), &mut ctx);
    assert_eq!(tool.preview_platform, None);
    assert!(tool.can_switch());
}

#[test]
fn move_tool_moves_the_selected_platform() {
    let mut ctx = two_squares();
    assert!(ctx.select(vec![0]));
    let mut tool = MoveTool::new();
    tool.on_click(v(1.0, 1.0), &mut ctx);
    assert!(!tool.can_switch());
    tool.update(&frame(2.0, 3.0, true), &mut ctx);
    tool.update(&frame(4.0, 5.0, true), &mut ctx);
    assert_eq!(tool.total_move_delta, v(3.0, 4.0));
    assert_eq!(tool.last_recorded_mouse, v(4.0, 5.0));
    tool.on_mouse_release(v(4.0, 5.0), &mut ctx);
    assert!(tool.can_switch());
    assert_eq!(tool.total_move_delta, v(0.0, 0.0));
    let platforms = ctx.get_level().get_platforms();
    assert_eq!(platforms[0], Platform::new(v(3.0, 4.0), v(10.0, 10.0)));
    assert_eq!(platforms[1], Platform::new(v(20.0, 20.0), v(10.0, 10.0)));
    assert_eq!(ctx.get_selection(), &[0]);
}

#[test]
fn move_tool_commits_a_given_total() {
    let mut ctx = two_squares();
    assert!(ctx.select(vec![0]));
    let mut tool =
        MoveTool { last_recorded_mouse: v(9.0, 9.0), total_move_delta: v(3.0, 4.0), mouse_down: true };
    tool.on_mouse_release(v(9.0, 9.0), &mut ctx);
    assert_eq!(ctx.get_level().get_platforms()[0].pos, v(3.0, 4.0));
    assert_eq!(ctx.get_level().get_platforms()[0].size, v(10.0, 10.0));
    assert_eq!(ctx.get_level().get_platforms()[1].pos, v(20.0, 20.0));
}

#[test]
fn move_tool_ignores_the_cursor_while_the_button_is_up() {
    let mut ctx = two_squares();
    let mut tool = MoveTool::new();
    tool.update(&frame(50.0, 60.0, false), &mut ctx);
    assert_eq!(tool, MoveTool::new());
}

#[test]
fn move_tool_shows_where_the_selection_lands() {
    let mut ctx = two_squares();
    assert!(ctx.select(vec![1]));
    let mut tool = MoveTool::new();
    assert!(tool.draw(&ctx).is_empty());
    tool.on_click(v(0.0, 0.0), &mut ctx);
    tool.update(&frame(3.0, 4.0, true), &mut ctx);
    assert_eq!(
        tool.draw(&ctx),
        vec![Rectangle { pos: v(23.0, 24.0), size: v(10.0, 10.0), colour: Colour::Faint }]
    );
    assert_eq!(ctx.get_level().get_platforms()[1].pos, v(20.0, 20.0));
}

#[test]
fn selection_stays_valid_through_a_session() {
    let mut ctx = two_squares();
    let mut tool = Tool::Selector(Selector::new());
    tool.on_click(v(0.0, 0.0), &mut ctx);
    tool.update(&frame(35.0, 35.0, true), &mut ctx);
    tool.on_mouse_release(v(35.0, 35.0), &mut ctx);
    assert!(selection_is_valid(&ctx));
    let mut tool = Tool::PlatformTool(PlatformTool::new());
    tool.on_click(v(50.0, 50.0), &mut ctx);
    tool.update(&frame(60.0, 60.0, true), &mut ctx);
    tool.on_mouse_release(v(60.0, 60.0), &mut ctx);
    assert!(selection_is_valid(&ctx));
    let mut tool = Tool::MoveTool(MoveTool::new());
    tool.on_click(v(0.0, 0.0), &mut ctx);
    tool.update(&frame(100.0, 100.0, true), &mut ctx);
    tool.on_mouse_release(v(100.0, 100.0), &mut ctx);
    assert!(selection_is_valid(&ctx));
    assert_eq!(ctx.get_selection(), &[0, 1]);
    assert_eq!(ctx.get_level().get_platforms().len(), 3);
    assert_eq!(ctx.get_level().get_platforms()[0].pos, v(100.0, 100.0));
    assert_eq!(ctx.get_level().get_platforms()[2].pos, v(50.0, 50.0));
}

#[test]
fn tool_dispatch_reaches_the_tool_in_hand() {
    let mut ctx = two_squares();
    let mut tool = Tool::MoveTool(MoveTool::new());
    assert!(tool.can_switch());
    tool.on_click(v(1.0, 2.0), &mut ctx);
    assert!(!tool.can_switch());
    assert_eq!(
        tool,
        Tool::MoveTool(MoveTool {
            last_recorded_mouse: v(1.0, 2.0),
            total_move_delta: v(0.0, 0.0),
            mouse_down: true
        })
    );
    let mut tool = Tool::PlatformTool(PlatformTool::new());
    tool.on_click(v(1.0, 2.0), &mut ctx);
    tool.update(&frame(2.0, 4.0, true), &mut ctx);
    assert!(!tool.can_switch());
    assert_eq!(tool.draw(&ctx).len(), 1);
    let tool = Tool::Selector(Selector::new());
    assert!(tool.can_switch());
    assert!(tool.draw(&ctx).is_empty());
}

#[test]
fn context_refuses_indices_out_of_range() {
    let mut ctx = two_squares();
    assert!(ctx.select(vec![1]));
    assert!(!ctx.select(vec![0, 2]));
    assert_eq!(ctx.get_selection(), &[1]);
    ctx.clear_selection();
    assert!(ctx.get_selection().is_empty());
}

#[test]
fn context_hands_out_the_level_file() {
    let ctx = two_squares();
    let bytes = ctx.level_file();
    assert_eq!(bytes, ctx.get_level().to_bytes());
    assert_eq!(bytes.len(), 14 + 40);
    let level = ctx.into_level();
    assert_eq!(level.get_platforms().len(), 2);
}
