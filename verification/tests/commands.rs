use easytier_pro::commands::{get_core_version, greet, user_agent, DEFAULT_CORE_VERSION};

#[test]
fn greet_names_the_caller() {
    assert_eq!(greet("世界"), "你好，世界！来自 Rust 的问候！");
    assert_eq!(greet(""), "你好，！来自 Rust 的问候！");
}

#[test]
fn core_version_defaults_when_unknown() {
    assert_eq!(get_core_version(""), "2.6.4");
    assert_eq!(DEFAULT_CORE_VERSION, "2.6.4");
    assert_eq!(get_core_version("2.7.0"), "2.7.0");
}

#[test]
fn user_agent_names_product_and_version() {
    assert_eq!(user_agent("0.0.4"), "EasyTierManager/0.0.4");
}
