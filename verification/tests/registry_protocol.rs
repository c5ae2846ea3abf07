use anemo_slime::ExampleResourceManager;
use anemo_slime::ParamMap;
use anemo_slime::ResourceManager;
use anemo_slime::RegistryError;
use anemo_slime::ResourceRegistry;
use anemo_slime::WidgetsData;

fn new_registry() -> ResourceRegistry<ExampleResourceManager> {
    ResourceRegistry::new()
}

fn text_of(wd: &WidgetsData) -> String {
    wd.get(&"TextBox1".to_string())
        .and_then(|pm| pm.get(&"text".to_string()))
        .cloned()
        .expect("TextBox1.text missing")
}

fn same_widgets_data(a: &WidgetsData, b: &WidgetsData) -> bool {
    if a.num_entries() != b.num_entries() {
        return false;
    }
    let mut i: usize = 0;
    while i < a.num_entries() {
        let key = a.key_at(i);
        let pa = a.value_at(i);
        let pb = match b.get(key) {
            Some(p) => p,
            None => return false,
        };
        if pa.num_entries() != pb.num_entries() {
            return false;
        }
        let mut j: usize = 0;
        while j < pa.num_entries() {
            let ak = pa.key_at(j);
            if pb.get(ak) != Some(pa.value_at(j)) {
                return false;
            }
            j += 1;
        }
        i += 1;
    }
    true
}

#[test]
fn create_then_view_round_trip() {
    let mut reg = new_registry();
    let (id, initial) = reg.create_and_register(ExampleResourceManager::new());
    let viewed = match reg.view_resource(&id) {
        Ok(wd) => wd,
        Err(_) => panic!("view of a fresh id failed"),
    };
    assert!(same_widgets_data(&initial, &viewed));
}

#[test]
fn render_is_pure() {
    let mut reg = new_registry();
    let (id, _) = reg.create_and_register(ExampleResourceManager::new());
    let first = match reg.view_resource(&id) {
        Ok(wd) => wd,
        Err(_) => panic!("first view failed"),
    };
    let second = match reg.view_resource(&id) {
        Ok(wd) => wd,
        Err(_) => panic!("second view failed"),
    };
    assert!(same_widgets_data(&first, &second));
}

#[test]
fn unknown_id_is_not_found() {
    let mut reg = new_registry();
    let (_, _) = reg.create_and_register(ExampleResourceManager::new());
    let fabricated = "00000000-0000-0000-0000-000000000000".to_string();
    assert!(matches!(reg.view_resource(&fabricated), Err(RegistryError::NotFound)));
    let r = reg.action(&fabricated, "AddButton1".to_string(), "click".to_string(), ParamMap::new());
    assert!(matches!(r, Err(RegistryError::NotFound)));
}

#[test]
fn taken_resource_is_exclusive() {
    let mut reg = new_registry();
    let (id, _) = reg.create_and_register(ExampleResourceManager::new());
    let owned = match reg.take(&id) {
        Ok(rm) => rm,
        Err(_) => panic!("first take failed"),
    };
    assert!(matches!(reg.take(&id), Err(RegistryError::Contended)));
    assert!(matches!(reg.view_resource(&id), Err(RegistryError::Contended)));
    let r = reg.action(&id, "AddButton1".to_string(), "click".to_string(), ParamMap::new());
    assert!(matches!(r, Err(RegistryError::Contended)));
    reg.restore(&id, owned);
    assert!(reg.view_resource(&id).is_ok());
}

#[test]
fn failed_action_still_restores_the_slot() {
    let mut reg = new_registry();
    let (id, _) = reg.create_and_register(ExampleResourceManager::new());
    let r = reg.action(&id, "NoSuchWidget".to_string(), "click".to_string(), ParamMap::new());
    assert!(matches!(r, Err(RegistryError::WidgetNotFound)));
    assert!(reg.view_resource(&id).is_ok());
}

#[test]
fn contended_turns_lose_no_updates() {
    let mut reg = new_registry();
    let (id, initial) = reg.create_and_register(ExampleResourceManager::new());
    assert_eq!(text_of(&initial), "0");
    let mut successes: u32 = 0;
    let mut turn: usize = 0;
    while turn < 5 {
        // One caller wins the turn; a rival arriving meanwhile only sees
        // contention and mutates nothing.
        let owned = match reg.take(&id) {
            Ok(rm) => rm,
            Err(_) => panic!("take failed on an idle slot"),
        };
        let rival = reg.action(&id, "AddButton1".to_string(), "click".to_string(), ParamMap::new());
        assert!(matches!(rival, Err(RegistryError::Contended)));
        reg.restore(&id, owned);
        let winner = reg.action(&id, "AddButton1".to_string(), "click".to_string(), ParamMap::new());
        match winner {
            Ok(_) => successes += 1,
            Err(_) => panic!("action failed on an idle slot"),
        }
        turn += 1;
    }
    assert_eq!(successes, 5);
    let after = match reg.view_resource(&id) {
        Ok(wd) => wd,
        Err(_) => panic!("final view failed"),
    };
    assert_eq!(text_of(&after), "5");
}

#[test]
fn with_resource_runs_op_and_restores() {
    let mut reg = new_registry();
    let (id, _) = reg.create_and_register(ExampleResourceManager::new());
    let r = reg.with_resource(&id, |rm| {
        let wd = rm.get_widgets_data();
        (rm, wd)
    });
    let wd = match r {
        Ok(wd) => wd,
        Err(_) => panic!("with_resource failed on an idle slot"),
    };
    assert_eq!(text_of(&wd), "0");
    // The resource went back to its slot.
    assert!(reg.view_resource(&id).is_ok());
    // An unknown id is rejected before the op runs.
    let fabricated = "ffffffff-ffff-ffff-ffff-ffffffffffff".to_string();
    let miss = reg.with_resource(&fabricated, |rm| (rm, ()));
    assert!(matches!(miss, Err(RegistryError::NotFound)));
}

#[test]
fn action_returns_post_mutation_render() {
    let mut reg = new_registry();
    let (id, _) = reg.create_and_register(ExampleResourceManager::new());
    let wd = match reg.action(&id, "AddButton1".to_string(), "click".to_string(), ParamMap::new()) {
        Ok(wd) => wd,
        Err(_) => panic!("action failed"),
    };
    assert_eq!(text_of(&wd), "1");
}

#[test]
fn binding_error_propagates_through_the_registry() {
    let mut reg = new_registry();
    let (id, _) = reg.create_and_register(ExampleResourceManager::new());
    // Drive the counter to its maximum by hand, then click once more.
    let mut rm = match reg.take(&id) {
        Ok(rm) => rm,
        Err(_) => panic!("take failed"),
    };
    rm.viewmodel.custom_number = u32::MAX;
    reg.restore(&id, rm);
    let r = reg.action(&id, "AddButton1".to_string(), "click".to_string(), ParamMap::new());
    match r {
        Err(RegistryError::BindingError(msg)) => assert_eq!(msg, "counter overflow"),
        _ => panic!("expected a binding error"),
    }
    // The failure still restored the slot.
    assert!(reg.view_resource(&id).is_ok());
}
