use anemo_slime::ActionError;
use anemo_slime::ExampleResourceManager;
use anemo_slime::ParamMap;
use anemo_slime::ResourceManager;
use anemo_slime::WidgetsData;

fn widget_attr(wd: &WidgetsData, widget: &str, attr: &str) -> Option<String> {
    wd.get(&widget.to_string()).and_then(|pm| pm.get(&attr.to_string())).cloned()
}

#[test]
fn scenario_create_click_render() {
    let mut rm = ExampleResourceManager::new();

    let before = rm.get_widgets_data();
    assert_eq!(widget_attr(&before, "TextBox1", "text"), Some("0".to_string()));
    assert_eq!(widget_attr(&before, "AddButton1", "width"), Some("50".to_string()));
    assert_eq!(widget_attr(&before, "AddButton1", "height"), Some("50".to_string()));
    assert_eq!(widget_attr(&before, "AddButton1", "label"), Some("Button".to_string()));

    let r = rm.perform_action("AddButton1".to_string(), "click".to_string(), &ParamMap::new());
    assert!(r.is_ok());

    let after = rm.get_widgets_data();
    assert_eq!(widget_attr(&after, "TextBox1", "text"), Some("1".to_string()));
}

#[test]
fn resource_render_is_pure() {
    let rm = ExampleResourceManager::new();
    let a = rm.get_widgets_data();
    let b = rm.get_widgets_data();
    assert_eq!(widget_attr(&a, "TextBox1", "text"), widget_attr(&b, "TextBox1", "text"));
    assert_eq!(widget_attr(&a, "AddButton1", "label"), widget_attr(&b, "AddButton1", "label"));
    assert_eq!(a.num_entries(), b.num_entries());
}

#[test]
fn unknown_widget_id_is_widget_not_found() {
    let mut rm = ExampleResourceManager::new();
    let r = rm.perform_action("NoSuchWidget".to_string(), "click".to_string(), &ParamMap::new());
    assert!(matches!(r, Err(ActionError::WidgetNotFound)));
    let after = rm.get_widgets_data();
    assert_eq!(widget_attr(&after, "TextBox1", "text"), Some("0".to_string()));
}

#[test]
fn unknown_action_type_is_silent_noop() {
    // A named policy, not an accident: an action type no binding of the
    // widget handles succeeds without mutating anything.
    let mut rm = ExampleResourceManager::new();
    let r = rm.perform_action("AddButton1".to_string(), "hover".to_string(), &ParamMap::new());
    assert!(r.is_ok());
    let after = rm.get_widgets_data();
    assert_eq!(widget_attr(&after, "TextBox1", "text"), Some("0".to_string()));
}

#[test]
fn viewmodel_id_is_stable() {
    let mut rm = ExampleResourceManager::new();
    let id_before = rm.get_viewmodel_id();
    assert_eq!(id_before.len(), 36);
    let _ = rm.perform_action("AddButton1".to_string(), "click".to_string(), &ParamMap::new());
    assert_eq!(rm.get_viewmodel_id(), id_before);
}

#[test]
fn repeated_clicks_accumulate() {
    let mut rm = ExampleResourceManager::new();
    let mut i: usize = 0;
    while i < 12 {
        let r = rm.perform_action("AddButton1".to_string(), "click".to_string(), &ParamMap::new());
        assert!(r.is_ok());
        i += 1;
    }
    let after = rm.get_widgets_data();
    assert_eq!(widget_attr(&after, "TextBox1", "text"), Some("12".to_string()));
}
