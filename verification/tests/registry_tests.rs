use weixin::registry::{ChatWindowRegistry, SettingsWindowLatch};

#[test]
fn one_window_per_conversation() {
    let mut reg = ChatWindowRegistry::new();
    assert!(reg.try_reserve("1"));
    assert!(!reg.try_reserve("1"));
    assert!(reg.contains("1"));
    assert!(reg.try_reserve("2"));
    reg.release("1");
    assert!(!reg.contains("1"));
    assert!(reg.contains("2"));
    assert!(reg.try_reserve("1"));
    reg.release("unknown");
    assert!(reg.contains("1"));
}

#[test]
fn one_settings_window() {
    let mut latch = SettingsWindowLatch::new();
    assert!(latch.try_open());
    assert!(!latch.try_open());
    latch.close();
    assert!(latch.try_open());
}
