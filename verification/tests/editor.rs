use level_editor::draw::{Colour, Rectangle};
use level_editor::editor::{Editing, EditorState, Event, MainEditor, Menu};
use level_editor::input::Input;
use level_editor::level::{Level, Platform};
use level_editor::scalar::{Scalar, Vec2};
use level_editor::tools::{MoveTool, PlatformTool, Selector, Tool};
use level_editor::ui::Button;

fn s(value: f32) -> Scalar {
    Scalar::from_bits(value.to_bits())
}

fn v(x: f32, y: f32) -> Vec2 {
    Vec2::new(s(x), s(y))
}

fn idle(x: f32, y: f32) -> Input {
    Input {
        mouse_pos: v(x, y),
        left_pressed: false,
        left_released: false,
        left_down: false,
        key_s: false,
        key_p: false,
        key_m: false,
        ctrl: false,
    }
}

fn press(x: f32, y: f32) -> Input {
    Input { left_pressed: true, left_down: true, ..idle(x, y) }
}

fn hold(x: f32, y: f32) -> Input {
    Input { left_down: true, ..idle(x, y) }
}

fn release(x: f32, y: f32) -> Input {
    Input { left_released: true, ..idle(x, y) }
}

fn one_platform() -> Level {
    Level::new(vec![Platform::new(v(0.0, 0.0), v(10.0, 10.0))], v(1.0, 2.0))
}

fn editing(state: &EditorState) -> &Editing {
    match state {
        EditorState::Editing(editing) => editing,
        other => panic!("not editing: {other:?}"),
    }
}

#[test]
fn menu_layout() {
    let menu = Menu::new();
    assert_eq!(menu.quit_button, Button::new(v(100.0, 100.0), v(100.0, 100.0)));
    assert_eq!(menu.to_level, Button::new(v(100.0, 100.0), v(250.0, 100.0)));
    assert_eq!(
        menu.render(),
        vec![
            Rectangle { pos: v(250.0, 100.0), size: v(100.0, 100.0), colour: Colour::White },
            Rectangle { pos: v(100.0, 100.0), size: v(100.0, 100.0), colour: Colour::White },
        ]
    );
}

#[test]
fn button_hit_needs_a_press_inside() {
    let button = Button::new(v(100.0, 100.0), v(250.0, 100.0));
    assert!(button.was_clicked(v(300.0, 150.0), &press(300.0, 150.0)));
    assert!(button.was_clicked(v(250.0, 100.0), &press(250.0, 100.0)));
    assert!(button.was_clicked(v(350.0, 200.0), &press(350.0, 200.0)));
    assert!(!button.was_clicked(v(300.0, 150.0), &hold(300.0, 150.0)));
    assert!(!button.was_clicked(v(249.0, 150.0), &press(249.0, 150.0)));
    assert_eq!(
        button.render(),
        Rectangle { pos: v(250.0, 100.0), size: v(100.0, 100.0), colour: Colour::White }
    );
}

#[test]
fn menu_asks_to_quit() {
    let menu = Menu::new();
    assert!(matches!(menu.update(&press(150.0, 150.0)), Event::Quit));
    assert!(matches!(menu.update(&press(200.0, 200.0)), Event::Quit));
}

#[test]
fn menu_asks_for_an_empty_level() {
    let menu = Menu::new();
    match menu.update(&press(300.0, 150.0)) {
        Event::OpenLevel(level) => assert_eq!(level, Level::new(vec![], v(0.0, 0.0))),
        other => panic!("{other:?}"),
    }
}

#[test]
fn menu_asks_for_nothing_otherwise() {
    let menu = Menu::new();
    assert!(matches!(menu.update(&press(50.0, 50.0)), Event::Nothing));
    assert!(matches!(menu.update(&hold(150.0, 150.0)), Event::Nothing));
    assert!(matches!(menu.update(&idle(300.0, 150.0)), Event::Nothing));
}

#[test]
fn menu_opens_a_level() {
    let next = EditorState::new().next(Event::OpenLevel(one_platform()));
    let session = editing(&next);
    assert_eq!(session.context.get_level(), &one_platform());
    assert!(session.context.get_selection().is_empty());
    assert_eq!(session.current_tool, Tool::Selector(Selector::new()));
}

#[test]
fn every_mode_quits() {
    assert!(matches!(EditorState::new().next(Event::Quit), EditorState::Quitting));
    let session = EditorState::Editing(Editing::new(one_platform()));
    assert!(matches!(session.next(Event::Quit), EditorState::Quitting));
    assert!(matches!(EditorState::Quitting.next(Event::Quit), EditorState::Quitting));
    let failure = EditorState::Failure(String::from("x"));
    assert!(matches!(failure.next(Event::Quit), EditorState::Quitting));
}

#[test]
fn no_event_keeps_the_mode() {
    match EditorState::new().next(Event::Nothing) {
        EditorState::Menu(menu) => assert_eq!(menu, Menu::new()),
        other => panic!("{other:?}"),
    }
    let mut session = Editing::new(one_platform());
    assert!(session.context.select(vec![0]));
    session.current_tool = Tool::MoveTool(MoveTool::new());
    let next = EditorState::Editing(session).next(Event::Nothing);
    let kept = editing(&next);
    assert_eq!(kept.context.get_level(), &one_platform());
    assert_eq!(kept.context.get_selection(), &[0]);
    assert_eq!(kept.current_tool, Tool::MoveTool(MoveTool::new()));
    assert!(matches!(EditorState::Quitting.next(Event::Nothing), EditorState::Quitting));
    match EditorState::Failure(String::from("why")).next(Event::Nothing) {
        EditorState::Failure(message) => assert_eq!(message, "why"),
        other => panic!("{other:?}"),
    }
}

#[test]
fn other_pairs_fail_with_a_message() {
    let message_of = |state: EditorState| match state {
        EditorState::Failure(message) => message,
        other => panic!("{other:?}"),
    };
    assert_eq!(
        message_of(EditorState::new().next(Event::BackToMenu)),
        "Bad Combo: Menu, BackToMenu"
    );
    let session = EditorState::Editing(Editing::new(one_platform()));
    assert_eq!(message_of(session.next(Event::BackToMenu)), "Bad Combo: Editing, BackToMenu");
    let session = EditorState::Editing(Editing::new(one_platform()));
    assert_eq!(
        message_of(session.next(Event::OpenLevel(one_platform()))),
        "Bad Combo: Editing, OpenLevel"
    );
    assert_eq!(
        message_of(EditorState::Quitting.next(Event::OpenLevel(one_platform()))),
        "Bad Combo: Quitting, OpenLevel"
    );
    assert_eq!(
        message_of(EditorState::Failure(String::new()).next(Event::BackToMenu)),
        "Bad Combo: Failure, BackToMenu"
    );
}

#[test]
fn keys_change_the_tool() {
    let mut session = Editing::new(one_platform());
    session.change_tool(&Input { key_p: true, ..idle(0.0, 0.0) });
    assert_eq!(session.current_tool, Tool::PlatformTool(PlatformTool::new()));
    session.change_tool(&Input { key_m: true, ..idle(0.0, 0.0) });
    assert_eq!(session.current_tool, Tool::MoveTool(MoveTool::new()));
    session.change_tool(&idle(0.0, 0.0));
    assert_eq!(session.current_tool, Tool::MoveTool(MoveTool::new()));
    session.change_tool(&Input { key_s: true, key_p: true, key_m: true, ..idle(0.0, 0.0) });
    assert_eq!(session.current_tool, Tool::Selector(Selector::new()));
}

#[test]
fn keys_are_ignored_during_a_gesture() {
    let mut session = Editing::new(one_platform());
    assert!(!session.update(&Input { key_m: true, ..idle(0.0, 0.0) }));
    assert!(!session.update(&press(1.0, 1.0)));
    assert!(!session.update(&Input { key_p: true, ..hold(2.0, 2.0) }));
    assert!(matches!(session.current_tool, Tool::MoveTool(_)));
    assert!(!session.update(&release(2.0, 2.0)));
    assert!(!session.update(&Input { key_p: true, ..idle(2.0, 2.0) }));
    assert_eq!(session.current_tool, Tool::PlatformTool(PlatformTool::new()));
}

#[test]
fn a_session_draws_selects_and_moves() {
    let mut session = Editing::new(Level::new(vec![], v(0.0, 0.0)));
    session.update(&Input { key_p: true, ..idle(0.0, 0.0) });
    session.update(&press(0.0, 0.0));
    session.update(&hold(10.0, 10.0));
    session.update(&release(10.0, 10.0));
    assert_eq!(
        session.context.get_level().get_platforms(),
        &[Platform::new(v(0.0, 0.0), v(10.0, 10.0))]
    );
    session.update(&Input { key_s: true, ..idle(10.0, 10.0) });
    session.update(&press(5.0, 5.0));
    session.update(&hold(15.0, 15.0));
    session.update(&release(15.0, 15.0));
    assert_eq!(session.context.get_selection(), &[0]);
    session.update(&Input { key_m: true, ..idle(15.0, 15.0) });
    session.update(&press(1.0, 1.0));
    session.update(&hold(4.0, 5.0));
    assert_eq!(
        session.render(),
        vec![
            Rectangle { pos: v(3.0, 4.0), size: v(10.0, 10.0), colour: Colour::Faint },
            Rectangle { pos: v(0.0, 0.0), size: v(10.0, 10.0), colour: Colour::White },
        ]
    );
    session.update(&release(4.0, 5.0));
    assert_eq!(
        session.context.get_level().get_platforms(),
        &[Platform::new(v(3.0, 4.0), v(10.0, 10.0))]
    );
    assert_eq!(session.context.get_selection(), &[0]);
}

#[test]
fn control_s_asks_to_save() {
    let mut session = Editing::new(one_platform());
    assert!(session.update(&Input { ctrl: true, key_s: true, ..idle(0.0, 0.0) }));
    assert!(!session.update(&Input { ctrl: true, ..idle(0.0, 0.0) }));
    assert!(!session.update(&Input { key_s: true, ..idle(0.0, 0.0) }));
}

#[test]
fn editor_goes_from_menu_to_editing_to_quitting() {
    let mut editor = MainEditor::new();
    assert!(editor.in_menu());
    assert!(!editor.is_quitting());
    assert_eq!(editor.level_file(), None);
    assert_eq!(editor.render().len(), 2);
    assert_eq!(editor.update(&idle(0.0, 0.0)), Ok(false));
    assert_eq!(editor.render().len(), 2);
    assert_eq!(editor.update(&press(300.0, 150.0)), Ok(false));
    assert!(!editor.in_menu());
    assert_eq!(editor.level_file(), Some(Level::new(vec![], v(0.0, 0.0)).to_bytes()));
    assert!(editor.render().is_empty());
    assert_eq!(editor.update(&Input { key_p: true, ..idle(0.0, 0.0) }), Ok(false));
    assert_eq!(editor.update(&press(1.0, 1.0)), Ok(false));
    assert_eq!(editor.update(&hold(3.0, 4.0)), Ok(false));
    assert_eq!(editor.update(&release(3.0, 4.0)), Ok(false));
    let expected = Level::new(vec![Platform::new(v(1.0, 1.0), v(2.0, 3.0))], v(0.0, 0.0));
    assert_eq!(editor.update(&Input { ctrl: true, key_s: true, ..idle(0.0, 0.0) }), Ok(true));
    assert_eq!(editor.level_file(), Some(expected.to_bytes()));
    assert!(!editor.is_quitting());
}

#[test]
fn editor_quits_from_the_menu() {
    let mut editor = MainEditor::new();
    assert_eq!(editor.update(&press(150.0, 150.0)), Ok(false));
    assert!(editor.is_quitting());
    assert_eq!(editor.update(&press(300.0, 150.0)), Ok(false));
    assert!(editor.is_quitting());
    assert!(editor.render().is_empty());
}

#[test]
fn failure_gives_its_message_on_update() {
    let mut state = EditorState::new().next(Event::BackToMenu);
    assert_eq!(
        state.update(&idle(0.0, 0.0)).map(|frame| frame.save_requested),
        Err(String::from("Bad Combo: Menu, BackToMenu"))
    );
    assert!(matches!(state, EditorState::Failure(_)));
    assert!(state.render().is_empty());
}
