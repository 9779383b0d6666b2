use interactivity::element_state::{ElementClickedState, InteractiveElementState, StateStore};
use interactivity::events::{DispatchPhase, MouseButton};
use interactivity::interaction::HoverFilter;
use interactivity::geometry::{distance_squared, Bounds, Point, Size};
use interactivity::input::{ElementInputHandler, InputHandlerModel, UTF16Selection};
use interactivity::interaction::Interactivity;
use interactivity::item::{
    ActivateOnClose, ClosePosition, Dedup, FollowEvent, ItemEvent, ItemSettings,
    ItemSettingsContent, PreviewTabsSettings, PreviewTabsSettingsContent, ShowDiagnostics,
    TabContentParams,
};
use interactivity::store::Store;

#[test]
fn store_set_get_take() {
    let mut store: Store<u64> = Store::new();
    assert_eq!(store.get(1), None);
    store.set(1, 10);
    store.set(2, 20);
    store.set(1, 11);
    assert_eq!(store.get(1), Some(11));
    assert_eq!(store.get(2), Some(20));
    assert_eq!(store.len(), 2);
    assert_eq!(store.take(1), Some(11));
    assert_eq!(store.get(1), None);
    assert_eq!(store.get(2), Some(20));
    assert_eq!(store.take(3), None);
}

#[test]
fn state_store_defaults_to_empty_state() {
    let mut store = StateStore::new();
    assert_eq!(store.get(5), InteractiveElementState::empty());
    let mut st = store.get(5);
    st.hover_state = true;
    store.set(5, st);
    assert!(store.get(5).hover_state);
    store.remove(5);
    assert_eq!(store.get(5), InteractiveElementState::empty());
}

#[test]
fn clicked_state_reports_either_flag() {
    let neither = ElementClickedState { group: false, element: false };
    assert!(!neither.is_clicked());
    let group_only = ElementClickedState { group: true, element: false };
    assert!(group_only.is_clicked());
    let element_only = ElementClickedState { group: false, element: true };
    assert!(element_only.is_clicked());
    assert_eq!(ElementClickedState::default(), neither);
}

#[test]
fn displacement_is_squared_distance() {
    let a = Point { x: 10, y: 10 };
    assert_eq!(distance_squared(&a, &Point { x: 11, y: 11 }), 2);
    assert_eq!(distance_squared(&a, &Point { x: 15, y: 15 }), 50);
    assert_eq!(distance_squared(&a, &a), 0);
    assert_eq!(distance_squared(&Point { x: -3, y: 4 }, &Point { x: 0, y: 0 }), 25);
}

#[test]
fn singleton_bindings_register_once() {
    let mut config = Interactivity::new();
    config.on_drag(1, 2, 3);
    assert!(config.drag_listener.is_some());
    config.on_hover(4);
    assert_eq!(config.hover_listener, Some(4));
    config.tooltip(5);
    let tb = config.tooltip_builder.unwrap();
    assert_eq!(tb.build, 5);
    assert!(!tb.hoverable);

    let mut config2 = Interactivity::new();
    config2.hoverable_tooltip(6);
    assert!(config2.tooltip_builder.unwrap().hoverable);
}

#[test]
fn hitbox_needed_for_any_mouse_discrimination() {
    let plain = Interactivity::new();
    assert!(!plain.should_insert_hitbox());

    let mut occluding = Interactivity::new();
    occluding.occlude_mouse();
    assert!(occluding.should_insert_hitbox());

    let mut grouped = Interactivity::new();
    grouped.group = Some(String::from("g"));
    assert!(grouped.should_insert_hitbox());

    let mut with_move = Interactivity::new();
    with_move.on_mouse_move(1);
    assert!(with_move.should_insert_hitbox());

    let mut with_drop = Interactivity::new();
    with_drop.on_drop(2, 3);
    assert!(with_drop.should_insert_hitbox());
}

#[test]
fn item_settings_load_uses_documented_defaults() {
    let settings = ItemSettings::load(ItemSettingsContent::default());
    assert!(!settings.git_status);
    assert_eq!(settings.close_position, ClosePosition::Right);
    assert_eq!(settings.activate_on_close, ActivateOnClose::History);
    assert!(!settings.file_icons);
    assert_eq!(settings.show_diagnostics, ShowDiagnostics::Off);
    assert!(!settings.always_show_close_button);

    let previews = PreviewTabsSettings::load(PreviewTabsSettingsContent::default());
    assert!(previews.enabled);
    assert!(!previews.enable_preview_from_file_finder);
    assert!(!previews.enable_preview_from_code_navigation);
}

#[test]
fn item_settings_content_merge_prefers_overlay() {
    let base = ItemSettingsContent {
        git_status: Some(true),
        close_position: Some(ClosePosition::Left),
        ..ItemSettingsContent::default()
    };
    let overlay = ItemSettingsContent {
        close_position: Some(ClosePosition::Right),
        show_diagnostics: Some(ShowDiagnostics::All),
        ..ItemSettingsContent::default()
    };
    let merged = base.merge(overlay);
    assert_eq!(merged.git_status, Some(true));
    assert_eq!(merged.close_position, Some(ClosePosition::Right));
    assert_eq!(merged.show_diagnostics, Some(ShowDiagnostics::All));

    let settings = ItemSettings::load(merged);
    assert!(settings.git_status);
    assert_eq!(settings.close_position, ClosePosition::Right);
    assert_eq!(settings.show_diagnostics, ShowDiagnostics::All);
}

#[test]
fn item_data_kinds_compare() {
    assert_ne!(ItemEvent::CloseItem, ItemEvent::Edit);
    assert!(matches!(FollowEvent::Unfollow, FollowEvent::Unfollow));
    assert!(matches!(Dedup::KeepExisting, Dedup::KeepExisting));
    let params = TabContentParams { detail: Some(2), selected: true, preview: false };
    assert_eq!(params.detail, Some(2));
}

struct FixedModel {
    text: String,
    seen_bounds: Option<Bounds>,
}

impl InputHandlerModel for FixedModel {
    fn text_for_range(&mut self, start: usize, end: usize) -> Option<String> {
        if start <= end && end <= self.text.len() {
            Some(String::from(&self.text[start..end]))
        } else {
            None
        }
    }

    fn selected_text_range(&mut self, _ignore_disabled_input: bool) -> Option<UTF16Selection> {
        Some(UTF16Selection { start: 0, end: self.text.len(), reversed: false })
    }

    fn marked_text_range(&mut self) -> Option<(usize, usize)> {
        None
    }

    fn unmark_text(&mut self) {}

    fn replace_text_in_range(&mut self, _range: Option<(usize, usize)>, text: &String) {
        self.text = text.clone();
    }

    fn replace_and_mark_text_in_range(
        &mut self,
        _range: Option<(usize, usize)>,
        new_text: &String,
        _new_selected_range: Option<(usize, usize)>,
    ) {
        self.text = new_text.clone();
    }

    fn bounds_for_range(
        &mut self,
        _start: usize,
        _end: usize,
        element_bounds: Bounds,
    ) -> Option<Bounds> {
        self.seen_bounds = Some(element_bounds);
        Some(element_bounds)
    }
}

#[test]
fn element_input_handler_forwards_with_element_bounds() {
    let element_bounds = Bounds {
        origin: Point { x: 3, y: 4 },
        size: Size { width: 10, height: 5 },
    };
    let model = FixedModel { text: String::from("hello"), seen_bounds: None };
    let mut handler = ElementInputHandler::new(element_bounds, model);
    assert_eq!(handler.element_bounds, element_bounds);
    assert_eq!(handler.text_for_range(1, 3), Some(String::from("el")));
    assert_eq!(handler.bounds_for_range(0, 2), Some(element_bounds));
    assert_eq!(handler.model.seen_bounds, Some(element_bounds));
    handler.replace_text_in_range(None, &String::from("bye"));
    assert_eq!(handler.text_for_range(0, 3), Some(String::from("bye")));
}

#[test]
fn hover_filter_of_registrations_is_recorded() {
    let mut config = Interactivity::new();
    config.on_mouse_down(MouseButton::Right, 1);
    config.on_mouse_up_out(MouseButton::Left, 2);
    config.on_drag_move(9, 3);
    assert_eq!(config.mouse_down_listeners[0].button, Some(MouseButton::Right));
    assert_eq!(config.mouse_down_listeners[0].phase, DispatchPhase::Bubble);
    assert_eq!(config.mouse_down_listeners[0].hover, HoverFilter::Hovered);
    assert_eq!(config.mouse_up_listeners[0].hover, HoverFilter::NotHovered);
    assert_eq!(config.mouse_up_listeners[0].phase, DispatchPhase::Capture);
    assert_eq!(config.mouse_move_listeners[0].drag_type, Some(9));
    assert_eq!(config.mouse_move_listeners[0].phase, DispatchPhase::Capture);
}
