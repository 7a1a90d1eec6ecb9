use resize_text::App;
use resize_text::create_app;

#[test]
fn test_can_create_app() {
    create_app();
}

#[test]
fn test_empty_app_has_no_texts() {
    let app = App::new();
    assert_eq!(app.count_n_texts(), 0);
}

#[test]
fn test_create_app_has_a_text() {
    let mut app = create_app();
    app.update();
    assert_eq!(app.count_n_texts(), 1);
}

#[test]
fn test_text_at_start_is_empty() {
    let mut app = create_app();
    app.update();
    assert_eq!(app.get_text_text(), "");
}

#[test]
fn test_respond_to_window_resize() {
    let mut app = create_app();
    app.update();

    // Resize the window to 100.0 x 100.0 pixels, given in tenths.
    app.send_resize(1000, 1000);
    app.update();

    assert_ne!(app.get_text_text(), "");
}

#[test]
fn test_resize_shows_dimensions() {
    let mut app = create_app();
    app.update();
    app.send_resize(1000, 1000);
    app.update();
    assert_eq!(app.get_text_text(), "100.0 x 100.0");
}

#[test]
fn test_tick_without_resize_keeps_text() {
    let mut app = create_app();
    app.update();
    assert_eq!(app.get_text_text(), "");
    app.update();
    assert_eq!(app.get_text_text(), "");

    app.send_resize(640, 480);
    app.update();
    assert_eq!(app.get_text_text(), "64.0 x 48.0");
    app.update();
    assert_eq!(app.get_text_text(), "64.0 x 48.0");
}

#[test]
fn test_last_resize_wins() {
    let mut app = create_app();
    app.update();
    app.send_resize(1, 2);
    app.send_resize(12345, 6789);
    app.send_resize(300, 455);
    app.update();
    assert_eq!(app.get_text_text(), "30.0 x 45.5");
}

#[test]
fn test_resize_before_first_tick() {
    let mut app = create_app();
    app.send_resize(8005, 6004);
    app.update();
    assert_eq!(app.get_text_text(), "800.5 x 600.4");
}

#[test]
fn test_app_without_systems_stays_empty() {
    let mut app = App::new();
    app.update();
    assert_eq!(app.count_n_texts(), 0);
}
