use niri_macos::display::{
    any_promotion_mode, append_decimal, max_refresh_rate_of, normalize_display_modes, simulated_display_modes,
    DisplayBounds, DisplayInfo, DisplayManager, DisplayMode, MacOSDisplay, PlatformDisplay, ReportedDisplay,
};
use niri_macos::events::F64Bits;

fn mode(width: u32, height: u32, refresh_rate: u32, bits_per_pixel: u32) -> DisplayMode {
    DisplayMode { width, height, refresh_rate, bits_per_pixel, is_retina: false }
}

/// An enumerated display as the platform side hands it over: bounds at the
/// origin with the display's resolution, Retina when the scale factor is
/// above 1.5, and the given modes.
fn report_of(d: MacOSDisplay, modes: Vec<DisplayMode>) -> ReportedDisplay {
    let scale = f64::from_bits(d.scale_factor.0);
    let bounds = DisplayBounds {
        x: F64Bits(0.0f64.to_bits()),
        y: F64Bits(0.0f64.to_bits()),
        width: F64Bits((d.resolution.0 as f64).to_bits()),
        height: F64Bits((d.resolution.1 as f64).to_bits()),
    };
    ReportedDisplay { display: d, bounds, is_retina: scale > 1.5, modes }
}

fn enumerated_reports() -> Vec<ReportedDisplay> {
    DisplayManager::enumerate_displays().into_iter().map(|d| report_of(d, simulated_display_modes())).collect()
}

fn info(id: u32, name: &str, is_main: bool) -> ReportedDisplay {
    let d = MacOSDisplay {
        display_id: id,
        name: name.to_string(),
        physical_size_mm: None,
        resolution: (1920, 1080),
        refresh_rate: 60_000,
        scale_factor: F64Bits(1.0f64.to_bits()),
        is_main,
    };
    report_of(d, Vec::new())
}

#[test]
fn test_display_enumeration() {
    let displays = DisplayManager::enumerate_displays();
    assert!(!displays.is_empty(), "Should find at least one display");

    let main = displays.iter().find(|d| d.is_main);
    assert!(main.is_some(), "Should have a main display");
}

#[test]
fn test_display_manager_creation() {
    let manager = DisplayManager::new(enumerated_reports());
    let displays = manager.get_displays();
    assert!(!displays.is_empty());
}

#[test]
fn test_main_display() {
    let manager = DisplayManager::new(enumerated_reports());
    let main = manager.get_main_display();
    assert!(main.is_some());

    let main = main.unwrap();
    assert!(main.is_main);
    assert!(main.mode.width > 0);
    assert!(main.mode.height > 0);
}

#[test]
fn simulated_display_values() {
    let displays = DisplayManager::enumerate_displays();
    assert_eq!(displays.len(), 1);
    let d = &displays[0];
    assert_eq!(d.name, "Simulated Display");
    assert_eq!(d.physical_size_mm, Some((344, 215)));
    assert_eq!(d.resolution, (2560, 1600));
    assert_eq!(d.refresh_rate, 60_000);
    assert_eq!(f64::from_bits(d.scale_factor.0), 2.0);
    let manager = DisplayManager::new(enumerated_reports());
    let info = manager.get_display(0).unwrap();
    assert!(info.mode.is_retina);
    assert_eq!(info.mode.bits_per_pixel, 32);
    assert_eq!((info.mode.width, info.mode.height), (2560, 1600));
    assert!(info.is_builtin && info.is_main);
}

#[test]
fn later_display_with_same_id_replaces_earlier() {
    let mut manager = DisplayManager::new(vec![info(1, "first", false), info(2, "second", true), info(1, "third", false)]);
    let all = manager.get_displays();
    assert_eq!(all.len(), 2);
    assert_eq!(manager.get_display(1).unwrap().name, "third");
    assert_eq!(manager.get_display(2).unwrap().name, "second");
    assert!(manager.get_display(3).is_none());
    assert_eq!(manager.get_main_display().unwrap().id, 2);
    manager.refresh_displays(vec![info(5, "only", false)]);
    assert_eq!(manager.get_displays().len(), 1);
    assert!(manager.get_main_display().is_none());
    assert!(manager.get_display(2).is_none());
    manager.refresh_displays(Vec::new());
    assert!(manager.get_displays().is_empty());
}

#[test]
fn display_modes_of_platform() {
    let manager = DisplayManager::new(enumerated_reports());
    let modes = manager.get_display_modes(0);
    assert_eq!(modes.len(), 2);
    assert_eq!((modes[0].width, modes[0].height, modes[0].refresh_rate), (2560, 1600, 60_000));
    assert!(modes[0].is_retina);
    assert_eq!((modes[1].width, modes[1].height, modes[1].refresh_rate), (1920, 1200, 60_000));
    assert!(!modes[1].is_retina);
    assert!(!manager.supports_promotion(0));
    assert_eq!(manager.max_refresh_rate(0), 60_000);
    // A display that is not known lists no mode.
    assert!(manager.get_display_modes(9).is_empty());
    assert!(!manager.supports_promotion(9));
    assert_eq!(manager.max_refresh_rate(9), 60_000);
}

#[test]
fn promotion_display_modes() {
    let d = MacOSDisplay::from_platform(3, 3, (3024, 1964), 120_000, Some((302, 196)), F64Bits(2.0f64.to_bits()));
    let modes = vec![mode(3024, 1964, 60_000, 32), mode(3024, 1964, 120_000, 32), mode(3024, 1964, 60_000, 16)];
    let other = info(4, "other", false);
    let manager = DisplayManager::new(vec![report_of(d, modes), other]);
    assert!(manager.supports_promotion(3));
    assert_eq!(manager.max_refresh_rate(3), 120_000);
    let listed: Vec<(u32, u32)> = manager.get_display_modes(3).iter().map(|m| (m.refresh_rate, m.bits_per_pixel)).collect();
    assert_eq!(listed, vec![(120_000, 32), (60_000, 32)]);
    assert!(!manager.supports_promotion(4));
    let main = manager.get_main_display().unwrap();
    assert_eq!(main.id, 3);
    assert_eq!(main.name, "Built-in Display");
}

#[test]
fn display_info_from_enumerated_display() {
    let d = MacOSDisplay::from_platform(5, 1, (1920, 1200), 59_940, Some((520, 320)), F64Bits(1.0f64.to_bits()));
    let bounds = DisplayBounds {
        x: F64Bits(0.0f64.to_bits()),
        y: F64Bits(0.0f64.to_bits()),
        width: F64Bits(1920.0f64.to_bits()),
        height: F64Bits(1200.0f64.to_bits()),
    };
    let i = DisplayInfo::from_display(&d, bounds, false);
    assert_eq!(i.id, 5);
    assert_eq!(i.name, "Display 5");
    assert_eq!((i.mode.width, i.mode.height, i.mode.refresh_rate, i.mode.bits_per_pixel), (1920, 1200, 59_940, 32));
    assert!(!i.mode.is_retina);
    assert_eq!(i.physical_size_mm, Some((520, 320)));
    assert!(!i.is_builtin && !i.is_main);
    assert_eq!(f64::from_bits(i.bounds.width.0), 1920.0);
    assert_eq!(f64::from_bits(i.scale_factor.0), 1.0);
}

#[test]
fn display_list_from_platform() {
    let active = vec![
        PlatformDisplay {
            display_id: 69733378,
            resolution: (1512, 982),
            refresh_mhz: 120_000,
            physical_size_mm: Some((302, 196)),
            scale_factor: F64Bits(2.0f64.to_bits()),
        },
        PlatformDisplay {
            display_id: 2,
            resolution: (2560, 1440),
            refresh_mhz: 0,
            physical_size_mm: None,
            scale_factor: F64Bits(1.0f64.to_bits()),
        },
    ];
    let displays = MacOSDisplay::from_platform_list(&active, 69733378);
    assert_eq!(displays.len(), 2);
    assert_eq!(displays[0].display_id, 69733378);
    assert_eq!(displays[0].name, "Built-in Display");
    assert!(displays[0].is_main);
    assert_eq!(displays[0].refresh_rate, 120_000);
    assert_eq!(displays[1].name, "Display 2");
    assert!(!displays[1].is_main);
    assert_eq!(displays[1].refresh_rate, 60_000);
    assert_eq!(displays[1].resolution, (2560, 1440));
    assert!(MacOSDisplay::from_platform_list(&Vec::new(), 1).is_empty());
}

#[test]
fn decimal_names() {
    let mut s = String::from("id=");
    append_decimal(&mut s, 1_000_007);
    assert_eq!(s, "id=1000007");
    let mut z = String::new();
    append_decimal(&mut z, 0);
    assert_eq!(z, "0");
}

#[test]
fn normalize_sorts_and_dedups() {
    let raw = vec![
        mode(1920, 1080, 60_000, 24),
        mode(2560, 1600, 120_000, 32),
        mode(1920, 1080, 60_000, 32),
        mode(2560, 1600, 60_000, 32),
        mode(1920, 1200, 60_000, 32),
        mode(2560, 1600, 120_000, 16),
    ];
    let out = normalize_display_modes(&raw);
    let keys: Vec<(u32, u32, u32, u32)> =
        out.iter().map(|m| (m.width, m.height, m.refresh_rate, m.bits_per_pixel)).collect();
    assert_eq!(
        keys,
        vec![
            (2560, 1600, 120_000, 32),
            (2560, 1600, 60_000, 32),
            (1920, 1200, 60_000, 32),
            (1920, 1080, 60_000, 24),
        ]
    );
    // Normalizing twice gives the same list.
    let again = normalize_display_modes(&out);
    let keys2: Vec<(u32, u32, u32, u32)> =
        again.iter().map(|m| (m.width, m.height, m.refresh_rate, m.bits_per_pixel)).collect();
    assert_eq!(keys, keys2);
    assert!(normalize_display_modes(&Vec::new()).is_empty());
}

#[test]
fn refresh_rate_helpers() {
    assert_eq!(max_refresh_rate_of(&Vec::new()), 60_000);
    assert!(!any_promotion_mode(&Vec::new()));
    let modes = vec![mode(100, 100, 30_000, 32), mode(100, 100, 120_000, 32), mode(10, 10, 59_940, 32)];
    assert_eq!(max_refresh_rate_of(&modes), 120_000);
    assert!(any_promotion_mode(&modes));
    let slow = vec![mode(100, 100, 60_000, 32), mode(100, 100, 50_000, 32)];
    assert_eq!(max_refresh_rate_of(&slow), 60_000);
    assert!(!any_promotion_mode(&slow));
}

#[test]
fn displays_from_platform_values() {
    let main = MacOSDisplay::from_platform(1, 1, (3024, 1964), 120_000, Some((302, 196)), F64Bits(2.0f64.to_bits()));
    assert_eq!(main.name, "Built-in Display");
    assert!(main.is_main);
    assert_eq!(main.refresh_rate, 120_000);
    let other = MacOSDisplay::from_platform(42, 1, (1920, 1080), 0, None, F64Bits(1.0f64.to_bits()));
    assert_eq!(other.name, "Display 42");
    assert!(!other.is_main);
    // A display that reports no refresh rate counts as 60 Hz.
    assert_eq!(other.refresh_rate, 60_000);
    assert_eq!(other.resolution, (1920, 1080));
    let zero = MacOSDisplay::from_platform(0, 7, (1, 1), 50_000, None, F64Bits(1.0f64.to_bits()));
    assert_eq!(zero.name, "Display 0");
    assert_eq!(MacOSDisplay::from_platform(4294967295, 0, (1, 1), 1, None, F64Bits(0)).name, "Display 4294967295");
}

#[test]
fn display_modes_from_platform_values() {
    let m = DisplayMode::from_platform(2560, 1600, 0, 32, 0x0020_0000);
    assert_eq!(m.refresh_rate, 60_000);
    assert!(m.is_retina);
    let m = DisplayMode::from_platform(1280, 800, 59_940, 16, 0x0000_0003);
    assert_eq!(m.refresh_rate, 59_940);
    assert!(!m.is_retina);
    assert_eq!(m.bits_per_pixel, 16);
}

#[test]
fn unknown_refresh_rate_counts_as_60_hz() {
    let d = MacOSDisplay::from_platform(8, 8, (1440, 900), 0, None, F64Bits(1.0f64.to_bits()));
    let modes = vec![mode(1440, 900, 0, 32), mode(1280, 800, 75_000, 32), mode(1440, 900, 60_000, 24)];
    let manager = DisplayManager::new(vec![report_of(d, modes)]);
    let listed: Vec<(u32, u32, u32, u32)> =
        manager.get_display_modes(8).iter().map(|m| (m.width, m.height, m.refresh_rate, m.bits_per_pixel)).collect();
    // The 0 Hz mode is kept as 60 Hz, and the later 60 Hz mode of the same
    // size repeats it.
    assert_eq!(listed, vec![(1440, 900, 60_000, 32), (1280, 800, 75_000, 32)]);
    assert!(manager.get_display_modes(8).iter().all(|m| m.refresh_rate > 0));
    assert!(manager.supports_promotion(8));
    assert_eq!(manager.max_refresh_rate(8), 75_000);
}
