use anemo_slime::ASType;
use anemo_slime::ASWidget;
use anemo_slime::Button;
use anemo_slime::ExampleView;
use anemo_slime::ExampleViewModel;
use anemo_slime::ParamMap;
use anemo_slime::TextBox;
use anemo_slime::WidgetKind;
use anemo_slime::PROJ_ADD_VALUE;
use anemo_slime::PROJ_GET_CUSTOM_NUMBER;

fn get<'a>(pm: &'a ParamMap, key: &str) -> Option<&'a String> {
    pm.get(&key.to_string())
}

#[test]
fn textbox_renders_counter() {
    let vm = ExampleViewModel::new();
    let t = TextBox::new()
        .content(ASType::ViewModel2View(PROJ_GET_CUSTOM_NUMBER))
        .with_widget_id("TextBox1".to_string());
    let pm = t.get_widget_parameters(&vm);
    assert_eq!(get(&pm, "text"), Some(&"0".to_string()));
}

#[test]
fn textbox_default_renders_empty() {
    let vm = ExampleViewModel::new();
    let t = TextBox::new();
    let pm = t.get_widget_parameters(&vm);
    assert_eq!(get(&pm, "text"), Some(&"".to_string()));
}

#[test]
fn textbox_static_renders_constant() {
    let vm = ExampleViewModel::new();
    let t = TextBox::new().content(ASType::Static("hello".to_string()));
    let pm = t.get_widget_parameters(&vm);
    assert_eq!(get(&pm, "text"), Some(&"hello".to_string()));
}

#[test]
fn textbox_write_binding_renders_unknown() {
    let vm = ExampleViewModel::new();
    let t = TextBox::new().content(ASType::View2ViewModel(PROJ_ADD_VALUE));
    let pm = t.get_widget_parameters(&vm);
    assert_eq!(get(&pm, "text"), Some(&"unknown".to_string()));
}

#[test]
fn textbox_read_error_degrades_to_error_string() {
    let vm = ExampleViewModel::new();
    let t = TextBox::new().content(ASType::ViewModel2View(99));
    let pm = t.get_widget_parameters(&vm);
    assert_eq!(get(&pm, "text"), Some(&"Error : unknown projection".to_string()));
}

#[test]
fn button_renders_fixed_parameters() {
    let vm = ExampleViewModel::new();
    let b = Button::new();
    let pm = b.get_widget_parameters(&vm);
    assert_eq!(get(&pm, "width"), Some(&"50".to_string()));
    assert_eq!(get(&pm, "height"), Some(&"50".to_string()));
    assert_eq!(get(&pm, "label"), Some(&"Button".to_string()));
}

#[test]
fn button_click_mutates_view_model() {
    let mut vm = ExampleViewModel::new();
    let b = Button::new().click(PROJ_ADD_VALUE);
    let data = ParamMap::new();
    let r = b.perform_action("click".to_string(), &data, &mut vm);
    assert!(r.is_ok());
    assert_eq!(vm.custom_number, 1);
}

#[test]
fn button_unknown_action_type_is_noop_success() {
    let mut vm = ExampleViewModel::new();
    let b = Button::new().click(PROJ_ADD_VALUE);
    let data = ParamMap::new();
    let r = b.perform_action("hover".to_string(), &data, &mut vm);
    assert!(r.is_ok());
    assert_eq!(vm.custom_number, 0);
}

#[test]
fn button_without_binding_ignores_click() {
    let mut vm = ExampleViewModel::new();
    let b = Button::new();
    let data = ParamMap::new();
    let r = b.perform_action("click".to_string(), &data, &mut vm);
    assert!(r.is_ok());
    assert_eq!(vm.custom_number, 0);
}

#[test]
fn button_bad_projection_reports_binding_error() {
    let mut vm = ExampleViewModel::new();
    let b = Button::new().click(99);
    let data = ParamMap::new();
    let r = b.perform_action("click".to_string(), &data, &mut vm);
    assert_eq!(r, Err("unknown projection".to_string()));
    assert_eq!(vm.custom_number, 0);
}

#[test]
fn duplicate_widget_ids_last_write_wins() {
    let first = TextBox::new()
        .content(ASType::Static("first".to_string()))
        .with_widget_id("W".to_string());
    let second = TextBox::new()
        .content(ASType::Static("second".to_string()))
        .with_widget_id("W".to_string());
    let view = ExampleView::new(vec![WidgetKind::TextBox(first), WidgetKind::TextBox(second)]);
    let vm = ExampleViewModel::new();
    let w = view.get_widget(&"W".to_string()).expect("widget missing");
    let pm = w.get_widget_parameters(&vm);
    assert_eq!(pm.get(&"text".to_string()), Some(&"second".to_string()));
    assert!(view.get_widget(&"Other".to_string()).is_none());
}

#[test]
fn counter_overflow_reports_error_and_keeps_state() {
    let mut vm = ExampleViewModel::new();
    vm.custom_number = u32::MAX;
    let data = ParamMap::new();
    let r = vm.add_value(&data);
    assert_eq!(r, Err("counter overflow".to_string()));
    assert_eq!(vm.custom_number, u32::MAX);
}
