use nice_log::editor::{synced_size, EguiNiceSettings, Size};

#[test]
fn synced_size_keeps_the_kind_of_size() {
    let stored: Size<(u32, u32), (u32, u32)> = Size::Logical((400, 300));
    assert_eq!(synced_size(&stored, (800, 600), (1600, 1200)), Size::Logical((800, 600)));
    let stored: Size<(u32, u32), (u32, u32)> = Size::Physical((400, 300));
    assert_eq!(synced_size(&stored, (800, 600), (1600, 1200)), Size::Physical((1600, 1200)));
}

#[test]
fn egui_settings_builder() {
    let settings: EguiNiceSettings<u8, bool, i32> = EguiNiceSettings::new();
    assert_eq!(settings.title, "");
    assert_eq!(settings.graphics, 0);
    let settings = settings
        .with_tile(String::from("Gain"))
        .with_graphics_config(7)
        .with_resize_mode(true)
        .with_resize_hint(-1);
    assert_eq!(settings.title, "Gain");
    assert_eq!(settings.graphics, 7);
    assert!(settings.resize_mode);
    assert_eq!(settings.resize_hint, -1);
    let settings = settings.with_tile(String::from("Other"));
    assert_eq!(settings.title, "Other");
    assert_eq!(settings.graphics, 7);
}
