use media_controller::scene::{Placement, Rgba, Widget, WidgetKind};
use media_controller::service::{MyMediaController, Scene, SceneError};

fn controller() -> MyMediaController {
    MyMediaController::new(Scene::new())
}

fn texts(ws: &[Widget]) -> Vec<String> {
    ws.iter()
        .map(|w| match &w.widget {
            WidgetKind::Text { text } => text.clone(),
        })
        .collect()
}

#[test]
fn add_slide_issues_increasing_ids_from_one() {
    let mut c = controller();
    assert_eq!(c.last_slide_id(), 0);
    let mut prev = 0u64;
    for expected in 1..=50u64 {
        let id = c.add_slide();
        assert_eq!(id, expected);
        assert!(id > prev);
        prev = id;
    }
    assert_eq!(c.last_slide_id(), 50);
}

#[test]
fn add_slide_creates_empty_slide() {
    let mut c = controller();
    let id = c.add_slide();
    assert_eq!(c.slide(id).unwrap().widgets.len(), 0);
    assert!(c.current_slide().is_none());
}

#[test]
fn show_slide_succeeds_for_every_issued_id() {
    let mut c = controller();
    for _ in 0..5 {
        c.add_slide();
    }
    for id in 1..=5u64 {
        assert_eq!(c.show_slide(id), Ok(()));
    }
}

#[test]
fn added_text_is_the_only_widget_of_shown_slide() {
    let mut c = controller();
    let id = c.add_slide();
    assert_eq!(c.add_widgets_to_slide(id, "hello".to_string()), Ok(()));
    assert_eq!(c.show_slide(id), Ok(()));
    let current = c.current_slide().unwrap();
    assert_eq!(texts(&current.widgets), vec!["hello".to_string()]);
}

#[test]
fn many_appends_lose_none() {
    let mut c = controller();
    let id = c.add_slide();
    let other = c.add_slide();
    c.add_widgets_to_slide(other, "keep".to_string()).unwrap();
    for i in 0..100 {
        assert_eq!(c.add_widgets_to_slide(id, format!("w{}", i)), Ok(()));
    }
    assert_eq!(c.slide(id).unwrap().widgets.len(), 100);
    assert_eq!(c.slide(other).unwrap().widgets.len(), 1);
}

#[test]
fn show_unknown_slide_is_not_found_and_keeps_current() {
    let mut c = controller();
    assert_eq!(c.show_slide(0), Err(SceneError::NotFound { slide_id: 0 }));
    assert!(c.current_slide().is_none());
    let a = c.add_slide();
    let b = c.add_slide();
    c.add_widgets_to_slide(a, "x".to_string()).unwrap();
    c.show_slide(a).unwrap();
    assert_eq!(c.show_slide(0), Err(SceneError::NotFound { slide_id: 0 }));
    assert_eq!(c.show_slide(b + 1), Err(SceneError::NotFound { slide_id: b + 1 }));
    assert_eq!(c.show_slide(u64::MAX), Err(SceneError::NotFound { slide_id: u64::MAX }));
    assert_eq!(texts(&c.current_slide().unwrap().widgets), vec!["x".to_string()]);
}

#[test]
fn add_widget_to_unknown_slide_is_not_found_and_changes_nothing() {
    let mut c = controller();
    assert_eq!(
        c.add_widgets_to_slide(1, "x".to_string()),
        Err(SceneError::NotFound { slide_id: 1 })
    );
    let a = c.add_slide();
    c.add_widgets_to_slide(a, "y".to_string()).unwrap();
    assert_eq!(
        c.add_widgets_to_slide(7, "z".to_string()),
        Err(SceneError::NotFound { slide_id: 7 })
    );
    assert_eq!(
        c.add_widgets_to_slide(0, "z".to_string()),
        Err(SceneError::NotFound { slide_id: 0 })
    );
    assert_eq!(c.slide(a).unwrap().widgets.len(), 1);
    assert!(c.slide(7).is_none());
}

#[test]
fn current_slide_follows_later_edits() {
    let mut c = controller();
    assert_eq!(c.add_slide(), 1);
    assert_eq!(c.add_slide(), 2);
    assert_eq!(c.add_widgets_to_slide(1, "a".to_string()), Ok(()));
    assert_eq!(c.show_slide(1), Ok(()));
    assert_eq!(texts(&c.current_slide().unwrap().widgets), vec!["a".to_string()]);
    assert_eq!(c.add_widgets_to_slide(1, "b".to_string()), Ok(()));
    assert_eq!(
        texts(&c.current_slide().unwrap().widgets),
        vec!["a".to_string(), "b".to_string()]
    );
}

#[test]
fn standard_widget_fields() {
    let mut c = controller();
    let id = c.add_slide();
    c.add_widgets_to_slide(id, "t".to_string()).unwrap();
    let w = &c.slide(id).unwrap().widgets[0];
    assert_eq!(w.x, 10);
    assert_eq!(w.y, 100);
    assert_eq!(w.z, 1);
    assert_eq!(w.id, id);
    assert_eq!(w.color, Rgba { r: 255, g: 0, b: 0, a: 255 });
    assert_eq!(Placement::standard(), Placement { x: 10, y: 100, z: 1, color: Rgba::red() });
}

#[test]
fn placed_widget_keeps_its_placement_and_order() {
    let mut c = controller();
    let id = c.add_slide();
    let p = Placement { x: -3, y: 7, z: 5, color: Rgba { r: 1, g: 2, b: 3, a: 4 } };
    assert_eq!(c.add_placed_widget(id, "first".to_string(), p), Ok(()));
    c.add_widgets_to_slide(id, "second".to_string()).unwrap();
    assert_eq!(
        c.add_placed_widget(9, "none".to_string(), p),
        Err(SceneError::NotFound { slide_id: 9 })
    );
    let ws = &c.slide(id).unwrap().widgets;
    assert_eq!(ws[0], Widget::text(id, "first".to_string(), p));
    assert_eq!(texts(ws), vec!["first".to_string(), "second".to_string()]);
}

#[test]
fn showing_another_slide_switches_current() {
    let mut c = controller();
    let a = c.add_slide();
    let b = c.add_slide();
    c.add_widgets_to_slide(b, "on b".to_string()).unwrap();
    c.show_slide(a).unwrap();
    assert_eq!(c.current_slide().unwrap().widgets.len(), 0);
    c.show_slide(b).unwrap();
    assert_eq!(texts(&c.current_slide().unwrap().widgets), vec!["on b".to_string()]);
}
