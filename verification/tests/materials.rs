use window_vibrancy::material::NSVisualEffectMaterial;
use window_vibrancy::release::{supports_backdrop, APPKIT_10_10, APPKIT_10_11, APPKIT_10_14};
use window_vibrancy::state::NSVisualEffectState;

fn all_materials() -> Vec<NSVisualEffectMaterial> {
    vec![
        NSVisualEffectMaterial::AppearanceBased,
        NSVisualEffectMaterial::Light,
        NSVisualEffectMaterial::Dark,
        NSVisualEffectMaterial::MediumLight,
        NSVisualEffectMaterial::UltraDark,
        NSVisualEffectMaterial::Titlebar,
        NSVisualEffectMaterial::Selection,
        NSVisualEffectMaterial::Menu,
        NSVisualEffectMaterial::Popover,
        NSVisualEffectMaterial::Sidebar,
        NSVisualEffectMaterial::HeaderView,
        NSVisualEffectMaterial::Sheet,
        NSVisualEffectMaterial::WindowBackground,
        NSVisualEffectMaterial::HudWindow,
        NSVisualEffectMaterial::FullScreenUI,
        NSVisualEffectMaterial::Tooltip,
        NSVisualEffectMaterial::ContentBackground,
        NSVisualEffectMaterial::UnderWindowBackground,
        NSVisualEffectMaterial::UnderPageBackground,
    ]
}

fn versions() -> Vec<u64> {
    vec![0, 1, 1342, 1343, 1344, 1403, 1404, 1405, 1670, 1671, 1672, 2487, u64::MAX]
}

#[test]
fn release_numbers() {
    assert_eq!(APPKIT_10_10, 1343);
    assert_eq!(APPKIT_10_11, 1404);
    assert_eq!(APPKIT_10_14, 1671);
}

#[test]
fn backdrop_starts_with_10_10() {
    assert!(!supports_backdrop(0));
    assert!(!supports_backdrop(1342));
    assert!(supports_backdrop(1343));
    assert!(supports_backdrop(1671));
    assert!(supports_backdrop(u64::MAX));
}

#[test]
fn material_codes() {
    assert_eq!(NSVisualEffectMaterial::AppearanceBased.code(), 0);
    assert_eq!(NSVisualEffectMaterial::Light.code(), 1);
    assert_eq!(NSVisualEffectMaterial::Dark.code(), 2);
    assert_eq!(NSVisualEffectMaterial::Titlebar.code(), 3);
    assert_eq!(NSVisualEffectMaterial::Selection.code(), 4);
    assert_eq!(NSVisualEffectMaterial::Menu.code(), 5);
    assert_eq!(NSVisualEffectMaterial::Popover.code(), 6);
    assert_eq!(NSVisualEffectMaterial::Sidebar.code(), 7);
    assert_eq!(NSVisualEffectMaterial::MediumLight.code(), 8);
    assert_eq!(NSVisualEffectMaterial::UltraDark.code(), 9);
    assert_eq!(NSVisualEffectMaterial::HeaderView.code(), 10);
    assert_eq!(NSVisualEffectMaterial::Sheet.code(), 11);
    assert_eq!(NSVisualEffectMaterial::WindowBackground.code(), 12);
    assert_eq!(NSVisualEffectMaterial::HudWindow.code(), 13);
    assert_eq!(NSVisualEffectMaterial::FullScreenUI.code(), 15);
    assert_eq!(NSVisualEffectMaterial::Tooltip.code(), 17);
    assert_eq!(NSVisualEffectMaterial::ContentBackground.code(), 18);
    assert_eq!(NSVisualEffectMaterial::UnderWindowBackground.code(), 21);
    assert_eq!(NSVisualEffectMaterial::UnderPageBackground.code(), 22);
}

#[test]
fn state_codes() {
    assert_eq!(NSVisualEffectState::FollowsWindowActiveState.code(), 0);
    assert_eq!(NSVisualEffectState::Active.code(), 1);
    assert_eq!(NSVisualEffectState::Inactive.code(), 2);
}

#[test]
fn no_two_materials_share_a_code() {
    let all = all_materials();
    assert_eq!(all.len(), 19);
    for (i, a) in all.iter().enumerate() {
        for (j, b) in all.iter().enumerate() {
            assert_eq!(a.code() == b.code(), i == j);
            assert_eq!(a == b, i == j);
        }
    }
}

#[test]
fn minimum_version_of_each_material() {
    assert_eq!(NSVisualEffectMaterial::AppearanceBased.minimum_appkit_version(), 1343);
    assert_eq!(NSVisualEffectMaterial::Light.minimum_appkit_version(), 1343);
    assert_eq!(NSVisualEffectMaterial::Dark.minimum_appkit_version(), 1343);
    assert_eq!(NSVisualEffectMaterial::Titlebar.minimum_appkit_version(), 1343);
    assert_eq!(NSVisualEffectMaterial::Selection.minimum_appkit_version(), 1343);
    assert_eq!(NSVisualEffectMaterial::Menu.minimum_appkit_version(), 1404);
    assert_eq!(NSVisualEffectMaterial::Popover.minimum_appkit_version(), 1404);
    assert_eq!(NSVisualEffectMaterial::Sidebar.minimum_appkit_version(), 1404);
    assert_eq!(NSVisualEffectMaterial::MediumLight.minimum_appkit_version(), 1404);
    assert_eq!(NSVisualEffectMaterial::UltraDark.minimum_appkit_version(), 1404);
    assert_eq!(NSVisualEffectMaterial::HeaderView.minimum_appkit_version(), 1671);
    assert_eq!(NSVisualEffectMaterial::Sheet.minimum_appkit_version(), 1671);
    assert_eq!(NSVisualEffectMaterial::WindowBackground.minimum_appkit_version(), 1671);
    assert_eq!(NSVisualEffectMaterial::HudWindow.minimum_appkit_version(), 1671);
    assert_eq!(NSVisualEffectMaterial::FullScreenUI.minimum_appkit_version(), 1671);
    assert_eq!(NSVisualEffectMaterial::Tooltip.minimum_appkit_version(), 1671);
    assert_eq!(NSVisualEffectMaterial::ContentBackground.minimum_appkit_version(), 1671);
    assert_eq!(NSVisualEffectMaterial::UnderWindowBackground.minimum_appkit_version(), 1671);
    assert_eq!(NSVisualEffectMaterial::UnderPageBackground.minimum_appkit_version(), 1671);
}

#[test]
fn availability_at_the_edges() {
    assert!(!NSVisualEffectMaterial::Titlebar.is_available_on(1342));
    assert!(NSVisualEffectMaterial::Titlebar.is_available_on(1343));
    assert!(!NSVisualEffectMaterial::Sidebar.is_available_on(1403));
    assert!(NSVisualEffectMaterial::Sidebar.is_available_on(1404));
    assert!(!NSVisualEffectMaterial::UltraDark.is_available_on(1343));
    assert!(NSVisualEffectMaterial::UltraDark.is_available_on(1404));
    assert!(!NSVisualEffectMaterial::HudWindow.is_available_on(1670));
    assert!(NSVisualEffectMaterial::HudWindow.is_available_on(1671));
    assert!(NSVisualEffectMaterial::UnderPageBackground.is_available_on(u64::MAX));
    assert!(!NSVisualEffectMaterial::AppearanceBased.is_available_on(0));
}

#[test]
fn available_from_then_on() {
    let versions = versions();
    for material in all_materials() {
        for (i, earlier) in versions.iter().enumerate() {
            for later in versions[i..].iter() {
                if material.is_available_on(*earlier) {
                    assert!(material.is_available_on(*later));
                }
            }
        }
    }
}

#[test]
fn newer_material_gives_way_to_the_default() {
    assert_eq!(
        NSVisualEffectMaterial::Sheet.effective_on(1404),
        NSVisualEffectMaterial::AppearanceBased
    );
    assert_eq!(
        NSVisualEffectMaterial::UnderPageBackground.effective_on(1670),
        NSVisualEffectMaterial::AppearanceBased
    );
    assert_eq!(
        NSVisualEffectMaterial::Menu.effective_on(1343),
        NSVisualEffectMaterial::AppearanceBased
    );
    assert_eq!(
        NSVisualEffectMaterial::MediumLight.effective_on(1403),
        NSVisualEffectMaterial::AppearanceBased
    );
}

#[test]
fn known_material_stays() {
    assert_eq!(NSVisualEffectMaterial::Sheet.effective_on(1671), NSVisualEffectMaterial::Sheet);
    assert_eq!(NSVisualEffectMaterial::Menu.effective_on(1404), NSVisualEffectMaterial::Menu);
    assert_eq!(NSVisualEffectMaterial::Menu.effective_on(1700), NSVisualEffectMaterial::Menu);
    assert_eq!(NSVisualEffectMaterial::Dark.effective_on(1343), NSVisualEffectMaterial::Dark);
    assert_eq!(
        NSVisualEffectMaterial::Selection.effective_on(1343),
        NSVisualEffectMaterial::Selection
    );
    assert_eq!(
        NSVisualEffectMaterial::AppearanceBased.effective_on(1343),
        NSVisualEffectMaterial::AppearanceBased
    );
}

#[test]
fn effective_material_is_known_and_settled() {
    for material in all_materials() {
        for version in versions() {
            let handed = material.effective_on(version);
            if version >= APPKIT_10_10 {
                assert!(handed.is_available_on(version));
            }
            if material.is_available_on(version) {
                assert_eq!(handed, material);
            } else {
                assert_eq!(handed, NSVisualEffectMaterial::AppearanceBased);
            }
            assert_eq!(handed.effective_on(version), handed);
        }
    }
}
