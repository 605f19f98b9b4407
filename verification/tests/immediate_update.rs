use gpu_charts::immediate_update::{BusyReason, ImmediateUpdater, RenderState, UpdateAction, UpdateEvent};

#[test]
fn test_update_processing() {
    let mut updater = ImmediateUpdater::new();

    // Test data change
    let action = updater.process_update(UpdateEvent::DataChanged);
    assert_eq!(action, UpdateAction::FetchAndRender);
    assert!(updater.needs_data_fetch());
    assert!(updater.needs_render());

    // Clear flags
    updater.clear_data_fetch_flag();
    updater.clear_render_flag();

    // Test view change
    let action = updater.process_update(UpdateEvent::ViewChanged { zoom: true, pan: false });
    assert_eq!(action, UpdateAction::RenderOnly);
    assert!(!updater.needs_data_fetch());
    assert!(updater.needs_render());
}

#[test]
fn test_state_transitions() {
    let mut updater = ImmediateUpdater::new();

    assert_eq!(updater.get_state(), RenderState::Ready);
    assert!(updater.is_ready());

    updater.set_busy(BusyReason::Rendering);
    assert_eq!(updater.get_state(), RenderState::Busy(BusyReason::Rendering));
    assert!(!updater.is_ready());

    updater.set_ready();
    assert_eq!(updater.get_state(), RenderState::Ready);
    assert!(updater.is_ready());
}

#[test]
fn config_and_resize_rebuild_pipelines() {
    let mut updater = ImmediateUpdater::default();
    assert_eq!(updater.process_update(UpdateEvent::ConfigChanged), UpdateAction::RebuildAndRender);
    assert!(updater.needs_pipeline_rebuild());
    assert!(updater.needs_render());
    assert!(!updater.needs_data_fetch());
    updater.clear_pipeline_rebuild_flag();
    assert!(!updater.needs_pipeline_rebuild());
    assert_eq!(updater.process_update(UpdateEvent::Resized(800, 600)), UpdateAction::RebuildAndRender);
    assert!(updater.needs_pipeline_rebuild());
}

#[test]
fn visibility_change_renders_only() {
    let mut updater = ImmediateUpdater::new();
    assert_eq!(updater.process_update(UpdateEvent::MetricVisibilityChanged), UpdateAction::RenderOnly);
    assert!(updater.needs_render());
    assert!(!updater.needs_data_fetch());
    assert!(!updater.needs_pipeline_rebuild());
}
