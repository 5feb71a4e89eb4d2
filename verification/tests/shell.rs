use sdl2_app::app::{App, AppError};
use sdl2_app::board::BitBoard;
use sdl2_app::color::Color;
use sdl2_app::events::{AppState, InputEvent};
use sdl2_app::render_components::{BuildError, RenderComponentBuilder};

#[test]
fn builder_texture_only_yields_defaults() {
    let component = RenderComponentBuilder::new().texture("a.png").build().unwrap();
    assert_eq!(component.texture_path(), "a.png");
    assert_eq!(component.x(), 0);
    assert_eq!(component.y(), 0);
    assert_eq!(component.z(), 0);
    assert!(component.on_click_fn().is_none());
}

#[test]
fn builder_missing_texture_is_an_error_not_a_crash() {
    let r = RenderComponentBuilder::new().x(5).y(6).z(7).on_click(3).build();
    assert_eq!(r.err(), Some(BuildError::MissingTexturePath));
}

#[test]
fn builder_setters_are_kept() {
    let component = RenderComponentBuilder::new()
        .texture("tex/piece.png")
        .x(10)
        .y(20)
        .z(30)
        .on_click(42)
        .build()
        .unwrap();
    assert_eq!(component.texture_path(), "tex/piece.png");
    assert_eq!(component.x(), 10);
    assert_eq!(component.y(), 20);
    assert_eq!(component.z(), 30);
    assert_eq!(component.on_click_fn(), Some(42));
}

#[test]
fn duplicate_identifier_fails_and_keeps_first_component() {
    let mut app = App::new("t", 100, 100);
    let c1 = RenderComponentBuilder::new().texture("one.png").x(1).build().unwrap();
    let c2 = RenderComponentBuilder::new().texture("two.png").x(2).build().unwrap();
    assert!(app.add_component("a", c1).is_ok());
    let r = app.add_component("a", c2);
    assert_eq!(r.err(), Some(AppError::DuplicateComponentKey));
    let kept = app.get_component("a").unwrap();
    assert_eq!(kept.texture_path(), "one.png");
    assert_eq!(kept.x(), 1);
}

#[test]
fn unique_identifiers_are_all_registered() {
    let mut app = App::new("t", 100, 100);
    let c1 = RenderComponentBuilder::new().texture("one.png").build().unwrap();
    let c2 = RenderComponentBuilder::new().texture("two.png").build().unwrap();
    assert!(app.add_component("a", c1).is_ok());
    assert!(app.add_component("b", c2).is_ok());
    assert_eq!(app.get_component("a").unwrap().texture_path(), "one.png");
    assert_eq!(app.get_component("b").unwrap().texture_path(), "two.png");
    assert!(app.get_component("c").is_none());
}

#[test]
fn error_message_text() {
    assert_eq!(AppError::DuplicateComponentKey.message(), "Duplicate render component key.");
}

#[test]
fn frame_with_no_events_caches_the_texture() {
    let mut app = App::new("t", 100, 100);
    let component =
        RenderComponentBuilder::new().texture("x.png").x(10).y(20).build().unwrap();
    assert!(app.add_component("a", component).is_ok());
    assert!(!app.texture_cached("x.png"));
    let plan = app.draw_frame(&Vec::new());
    assert_eq!(plan.state, AppState::Continue);
    assert_eq!(plan.events_consumed, 0);
    assert!(plan.render);
    assert!(plan.handlers.is_empty());
    assert_eq!(plan.loads, vec!["x.png".to_string()]);
    assert!(app.texture_cached("x.png"));
}

#[test]
fn quit_event_returns_quit_and_skips_the_render_pass() {
    let mut app = App::new("t", 100, 100);
    let component =
        RenderComponentBuilder::new().texture("x.png").on_click(7).build().unwrap();
    assert!(app.add_component("a", component).is_ok());
    let events = vec![
        InputEvent::Other,
        InputEvent::MouseButtonDown { x: 3, y: 4 },
        InputEvent::Quit,
        InputEvent::MouseButtonDown { x: 5, y: 6 },
    ];
    let plan = app.draw_frame(&events);
    assert_eq!(plan.state, AppState::RequestedQuit);
    // the press before the quit was dispatched; the quit itself was consumed
    assert_eq!(plan.events_consumed, 3);
    assert_eq!(plan.handlers, vec![7]);
    assert!(!plan.render);
    assert!(plan.loads.is_empty());
    // no texture assurance ran: the cache is untouched
    assert!(!app.texture_cached("x.png"));
    // the events left behind the quit are consumed by the next call
    let rest: Vec<InputEvent> = events[plan.events_consumed..].to_vec();
    let plan2 = app.draw_frame(&rest);
    assert_eq!(plan2.state, AppState::Continue);
    assert_eq!(plan2.handlers, vec![7]);
    assert!(app.texture_cached("x.png"));
}

#[test]
fn quit_as_first_event_consumes_only_the_quit() {
    let mut app = App::new("t", 100, 100);
    let events = vec![InputEvent::Quit, InputEvent::Other];
    let plan = app.draw_frame(&events);
    assert_eq!(plan.state, AppState::RequestedQuit);
    assert_eq!(plan.events_consumed, 1);
    assert!(plan.handlers.is_empty());
}

#[test]
fn press_dispatches_every_handler_once_whatever_the_coordinates() {
    let mut app = App::new("t", 100, 100);
    let with_handler =
        RenderComponentBuilder::new().texture("a.png").x(500).y(500).on_click(7).build().unwrap();
    let without_handler = RenderComponentBuilder::new().texture("b.png").build().unwrap();
    let with_other_handler =
        RenderComponentBuilder::new().texture("c.png").on_click(9).build().unwrap();
    assert!(app.add_component("a", with_handler).is_ok());
    assert!(app.add_component("b", without_handler).is_ok());
    assert!(app.add_component("c", with_other_handler).is_ok());

    // one press, far away from every component's position
    let plan = app.draw_frame(&vec![InputEvent::MouseButtonDown { x: 0, y: 0 }]);
    assert_eq!(plan.handlers, vec![7, 9]);

    // two presses at different coordinates: each dispatches the same round
    let events = vec![
        InputEvent::MouseButtonDown { x: 1, y: 2 },
        InputEvent::Other,
        InputEvent::MouseButtonDown { x: 1000, y: 1000 },
    ];
    let plan2 = app.draw_frame(&events);
    assert_eq!(plan2.handlers, vec![7, 9, 7, 9]);
}

#[test]
fn each_texture_path_is_loaded_exactly_once() {
    let mut app = App::new("t", 100, 100);
    let c1 = RenderComponentBuilder::new().texture("x.png").build().unwrap();
    let c2 = RenderComponentBuilder::new().texture("x.png").x(50).build().unwrap();
    let c3 = RenderComponentBuilder::new().texture("y.png").build().unwrap();
    assert!(app.add_component("a", c1).is_ok());
    assert!(app.add_component("b", c2).is_ok());
    assert!(app.add_component("c", c3).is_ok());

    // first frame: each distinct path once, in first-reference order
    let plan = app.draw_frame(&Vec::new());
    assert_eq!(plan.loads, vec!["x.png".to_string(), "y.png".to_string()]);

    // later frames: cache hits, nothing to load
    let plan2 = app.draw_frame(&Vec::new());
    assert!(plan2.loads.is_empty());
    let plan3 = app.draw_frame(&vec![InputEvent::Other]);
    assert!(plan3.loads.is_empty());
    assert!(app.texture_cached("x.png"));
    assert!(app.texture_cached("y.png"));

    // a component registered later with a cached path loads nothing new
    let c4 = RenderComponentBuilder::new().texture("y.png").build().unwrap();
    assert!(app.add_component("d", c4).is_ok());
    let plan4 = app.draw_frame(&Vec::new());
    assert!(plan4.loads.is_empty());
}

#[test]
fn clear_color_defaults_to_black_and_follows_the_setter() {
    let mut app = App::new("t", 100, 100);
    let plan = app.draw_frame(&Vec::new());
    assert_eq!(plan.clear_color, Color { r: 0, g: 0, b: 0, a: 255 });
    app.set_clear_color(10, 20, 30, 40);
    let plan2 = app.draw_frame(&Vec::new());
    assert_eq!(plan2.clear_color, Color { r: 10, g: 20, b: 30, a: 40 });
}

#[test]
fn make_move_sets_the_square_bit() {
    let mut board = BitBoard::default();
    board.make_move(4);
    board.make_move(5);
    assert_eq!(board.square_bit(4), 1u64 << 4);
    assert_eq!(board.square_bit(5), 1u64 << 5);
    assert_eq!(board.square_bit(0), 0);
    assert_eq!(board.square_bit(63), 0);
    board.make_move(63);
    assert_eq!(board.square_bit(63), 1u64 << 63);
    // a repeated move leaves the square set
    board.make_move(4);
    assert_eq!(board.square_bit(4), 1u64 << 4);
}
