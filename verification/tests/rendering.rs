use anemo_slime::u32_to_string;
use anemo_slime::ParamMap;
use anemo_slime::WidgetsData;

#[test]
fn decimal_rendering_exact_values() {
    assert_eq!(u32_to_string(0), "0");
    assert_eq!(u32_to_string(7), "7");
    assert_eq!(u32_to_string(10), "10");
    assert_eq!(u32_to_string(509), "509");
    assert_eq!(u32_to_string(1000), "1000");
    assert_eq!(u32_to_string(u32::MAX), "4294967295");
}

#[test]
fn param_map_insert_and_get() {
    let mut pm = ParamMap::new();
    pm.insert("width".to_string(), "50".to_string());
    pm.insert("label".to_string(), "Button".to_string());
    assert_eq!(pm.get(&"width".to_string()), Some(&"50".to_string()));
    assert_eq!(pm.get(&"label".to_string()), Some(&"Button".to_string()));
    assert_eq!(pm.get(&"height".to_string()), None);
    assert_eq!(pm.num_entries(), 2);
}

#[test]
fn param_map_last_write_wins() {
    let mut pm = ParamMap::new();
    pm.insert("text".to_string(), "old".to_string());
    pm.insert("text".to_string(), "new".to_string());
    assert_eq!(pm.get(&"text".to_string()), Some(&"new".to_string()));
    assert_eq!(pm.num_entries(), 1);
}

#[test]
fn widgets_data_two_levels() {
    let mut inner = ParamMap::new();
    inner.insert("text".to_string(), "0".to_string());
    let mut wd = WidgetsData::new();
    wd.insert("TextBox1".to_string(), inner);
    let found = wd.get(&"TextBox1".to_string()).expect("widget missing");
    assert_eq!(found.get(&"text".to_string()), Some(&"0".to_string()));
    assert!(wd.get(&"Missing".to_string()).is_none());
    assert_eq!(wd.num_entries(), 1);
    assert_eq!(wd.key_at(0), &"TextBox1".to_string());
}
