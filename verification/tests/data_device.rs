use dway_server::clipboard::MimeTypeSet;
use dway_server::entity::Entity;
use dway_server::input::StartGrab;
use dway_server::wp::data_device::start_drag;
use dway_server::wp::data_device::data_offer::DropData;
use dway_server::wp::data_device::data_source::WlDataSource;
use dway_server::wp::data_device::dnd::{
    DndAction, DragAndDrop, DND_ACTION_ASK, DND_ACTION_COPY, DND_ACTION_MOVE, DND_ACTION_NONE,
};
use dway_server::wp::primary_selection::source::PrimarySelectionSource;
use dway_server::zwlr::data_control::source::ZwlrDataControlSource;

fn act(bits: u32) -> DndAction {
    DndAction::from_bits(bits)
}

fn drop_data() -> DropData {
    DropData { active: true, dropped: false, accepted: false, chosen_action: DndAction::empty() }
}

#[test]
fn choise_action_prefers_available_preference() {
    let all = act(DND_ACTION_COPY | DND_ACTION_MOVE | DND_ACTION_ASK);
    assert_eq!(DragAndDrop::choise_action(all, act(DND_ACTION_MOVE)), act(DND_ACTION_MOVE));
    assert_eq!(DragAndDrop::choise_action(all, act(DND_ACTION_COPY)), act(DND_ACTION_COPY));
}

#[test]
fn choise_action_falls_back_in_order() {
    let all = act(DND_ACTION_COPY | DND_ACTION_MOVE | DND_ACTION_ASK);
    assert_eq!(DragAndDrop::choise_action(all, act(DND_ACTION_NONE)), act(DND_ACTION_ASK));
    let copy_move = act(DND_ACTION_COPY | DND_ACTION_MOVE);
    assert_eq!(DragAndDrop::choise_action(copy_move, act(DND_ACTION_ASK)), act(DND_ACTION_COPY));
    assert_eq!(DragAndDrop::choise_action(act(DND_ACTION_MOVE), act(DND_ACTION_COPY)), act(DND_ACTION_MOVE));
    assert_eq!(DragAndDrop::choise_action(act(DND_ACTION_NONE), act(DND_ACTION_COPY)), act(DND_ACTION_NONE));
}

#[test]
fn choise_action_ignores_a_combined_preference() {
    let all = act(DND_ACTION_COPY | DND_ACTION_MOVE);
    assert_eq!(DragAndDrop::choise_action(all, act(DND_ACTION_COPY | DND_ACTION_MOVE)), act(DND_ACTION_COPY));
}

#[test]
fn choise_action_is_always_available() {
    for available in 0..8u32 {
        for preferred in 0..8u32 {
            let r = DragAndDrop::choise_action(act(available), act(preferred)).bits;
            assert!([0, 1, 2, 4].contains(&r));
            assert_eq!(available & r, r);
            assert_eq!(r == 0, available == 0);
        }
    }
}

#[test]
fn dnd_action_set_operations() {
    let a = act(DND_ACTION_COPY | DND_ACTION_ASK);
    assert!(a.contains(act(DND_ACTION_COPY)));
    assert!(!a.contains(act(DND_ACTION_MOVE)));
    assert!(a.contains(DndAction::empty()));
    assert_eq!(a.intersection(act(DND_ACTION_ASK | DND_ACTION_MOVE)), act(DND_ACTION_ASK));
}

#[test]
fn mime_type_set_keeps_each_type_once() {
    let mut set = MimeTypeSet::new();
    set.insert("text/plain".to_string());
    set.insert("text/html".to_string());
    set.insert("text/plain".to_string());
    assert_eq!(set.types, vec!["text/plain".to_string(), "text/html".to_string()]);
    assert!(set.contains(&"text/html".to_string()));
    assert!(!set.contains(&"image/png".to_string()));
}

#[test]
fn data_source_offer_and_actions() {
    let mut source = WlDataSource::new();
    assert_eq!(source.dnd_action, DndAction::empty());
    source.offer("text/plain".to_string());
    assert!(source.mime_types.contains(&"text/plain".to_string()));
    source.set_actions(Some(act(DND_ACTION_COPY)));
    assert_eq!(source.dnd_action, act(DND_ACTION_COPY));
    // An unknown value leaves the actions as they were.
    source.set_actions(None);
    assert_eq!(source.dnd_action, act(DND_ACTION_COPY));
}

#[test]
fn drop_accepts_only_offered_types() {
    let mut source = WlDataSource::new();
    source.offer("text/plain".to_string());
    let mut data = drop_data();
    data.accept(Some(&source), Some("text/plain".to_string()));
    assert!(data.accepted);
    data.accept(Some(&source), Some("image/png".to_string()));
    assert!(!data.accepted);
    data.accept(Some(&source), None);
    assert!(!data.accepted);
    data.accept(None, Some("text/plain".to_string()));
    assert!(!data.accepted);
}

#[test]
fn drop_set_actions_reports_only_changes() {
    let mut source = WlDataSource::new();
    source.set_actions(Some(act(DND_ACTION_COPY | DND_ACTION_MOVE)));
    let mut data = drop_data();
    let first = data.set_actions(Some(&source), Some(act(DND_ACTION_MOVE | DND_ACTION_ASK)), Some(act(DND_ACTION_MOVE)));
    assert_eq!(first, Some(act(DND_ACTION_MOVE)));
    assert_eq!(data.chosen_action, act(DND_ACTION_MOVE));
    let again = data.set_actions(Some(&source), Some(act(DND_ACTION_MOVE)), Some(act(DND_ACTION_MOVE)));
    assert_eq!(again, None);
    let copy = data.set_actions(Some(&source), Some(act(DND_ACTION_COPY)), None);
    assert_eq!(copy, Some(act(DND_ACTION_COPY)));
}

#[test]
fn drop_set_actions_without_source_does_nothing() {
    let mut data = drop_data();
    assert_eq!(data.set_actions(None, Some(act(DND_ACTION_COPY)), Some(act(DND_ACTION_COPY))), None);
    assert_eq!(data.chosen_action, DndAction::empty());
}

#[test]
fn drop_set_actions_unknown_destination_actions_take_none() {
    let mut source = WlDataSource::new();
    source.set_actions(Some(act(DND_ACTION_COPY)));
    let mut data = drop_data();
    data.chosen_action = act(DND_ACTION_COPY);
    let r = data.set_actions(Some(&source), None, Some(act(DND_ACTION_COPY)));
    assert_eq!(r, Some(DndAction::empty()));
}

#[test]
fn other_sources_collect_mime_types() {
    let mut p = PrimarySelectionSource::new();
    p.offer("text/plain".to_string());
    p.offer("text/plain".to_string());
    assert_eq!(p.mime_types.types.len(), 1);
    let mut z = ZwlrDataControlSource::new();
    z.offer("a".to_string());
    z.offer("b".to_string());
    assert_eq!(z.mime_types.types.len(), 2);
}

#[test]
fn start_drag_grabs_only_with_pointer() {
    let r = start_drag(Entity(1), Entity(2), Some(Entity(3)), Entity(4), Some(Entity(5)), 77, true);
    assert_eq!(r.drag, DragAndDrop { data_source: Some(Entity(3)), origin_surface: Entity(4), icon_surface: Some(Entity(5)), serial: 77 });
    assert_eq!(r.icon, Some(Entity(5)));
    assert_eq!(r.grab, Some(StartGrab::Drag { surface: Entity(4), seat: Entity(2), data_device: Entity(1), icon: Some(Entity(5)) }));
    let r = start_drag(Entity(1), Entity(2), None, Entity(4), None, 1, false);
    assert_eq!(r.grab, None);
    assert_eq!(r.drag.data_source, None);
}
