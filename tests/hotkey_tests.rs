use afterpot::hotkey::{HotkeyRegistry, ShortcutCall};
use afterpot::trigger::{TriggerAction, TriggerEvent, TriggerFlow};

#[test]
fn rebind_twice() {
    let mut reg = HotkeyRegistry::new("Ctrl+Shift+Q".to_string());
    let plan = reg.rebind_plan("Alt+T");
    assert_eq!(
        plan,
        vec![ShortcutCall::Unregister("Ctrl+Shift+Q".to_string()), ShortcutCall::Register("Alt+T".to_string())]
    );
    assert_eq!(reg.finish_rebind("Alt+T".to_string(), Ok(())), Ok("ホットキーを登録しました: Alt+T".to_string()));
    assert_eq!(reg.get_current_hotkey(), "Alt+T");
    let plan = reg.rebind_plan("Ctrl+Y");
    assert_eq!(
        plan,
        vec![ShortcutCall::Unregister("Alt+T".to_string()), ShortcutCall::Register("Ctrl+Y".to_string())]
    );
    assert_eq!(reg.finish_rebind("Ctrl+Y".to_string(), Ok(())), Ok("ホットキーを登録しました: Ctrl+Y".to_string()));
    assert_eq!(reg.get_current_hotkey(), "Ctrl+Y");
}

#[test]
fn rebind_failure_keeps_binding() {
    let mut reg = HotkeyRegistry::new("Ctrl+Shift+Q".to_string());
    let r = reg.finish_rebind("Alt+F4".to_string(), Err("taken".to_string()));
    assert_eq!(
        r,
        Err("ホットキーの登録に失敗しました: taken。このキーは他のアプリケーションで使用されている可能性があります。".to_string())
    );
    assert_eq!(reg.get_current_hotkey(), "Ctrl+Shift+Q");
}

#[test]
fn rebind_from_empty_unregisters_nothing() {
    let reg = HotkeyRegistry::new(String::new());
    let plan = reg.rebind_plan("Alt+T");
    assert_eq!(plan, vec![ShortcutCall::Register("Alt+T".to_string())]);
}

#[test]
fn trigger_reads_before_showing() {
    let mut flow = TriggerFlow::new();
    assert!(flow.is_idle());
    assert_eq!(flow.step(TriggerEvent::WindowShown), TriggerAction::Ignore);
    assert_eq!(flow.step(TriggerEvent::Pressed), TriggerAction::ReadSelection);
    assert_eq!(flow.step(TriggerEvent::WindowShown), TriggerAction::Ignore);
    assert_eq!(flow.step(TriggerEvent::Pressed), TriggerAction::Ignore);
    assert_eq!(flow.step(TriggerEvent::SelectionRead("text".to_string())), TriggerAction::ShowWindow);
    assert_eq!(flow.step(TriggerEvent::WindowShown), TriggerAction::Emit("text".to_string()));
    assert!(flow.is_idle());
    assert_eq!(flow.step(TriggerEvent::SelectionRead("late".to_string())), TriggerAction::Ignore);
}
