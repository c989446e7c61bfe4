use plan10::system::{
    format_bytes, format_duration_seconds, is_macos, require_macos, require_root, size_string,
    SystemError,
};

/// Rendering through double-precision arithmetic, to compare with.
fn float_rendering(bytes: u64, largest: usize) -> String {
    let units = ["B", "KB", "MB", "GB", "TB", "PB"];
    let mut size = bytes as f64;
    let mut unit = 0;
    while size >= 1024.0 && unit < largest {
        size /= 1024.0;
        unit += 1;
    }
    if unit == 0 {
        format!("{} {}", size as u64, units[unit])
    } else {
        format!("{:.1} {}", size, units[unit])
    }
}

#[test]
fn format_bytes_exact_values() {
    assert_eq!(format_bytes(0), "0 B");
    assert_eq!(format_bytes(512), "512 B");
    assert_eq!(format_bytes(1023), "1023 B");
    assert_eq!(format_bytes(1024), "1.0 KB");
    assert_eq!(format_bytes(1536), "1.5 KB");
    assert_eq!(format_bytes(1048576), "1.0 MB");
    assert_eq!(format_bytes(1073741824), "1.0 GB");
    assert_eq!(format_bytes(1099511627776), "1.0 TB");
    assert_eq!(format_bytes(1125899906842624), "1024.0 TB");
    assert_eq!(size_string(1125899906842624, 5), "1.0 PB");
}

#[test]
fn format_bytes_rounds_ties_to_even() {
    // 5376 / 1024 = 5.25 and 5478.4 is no tie; 1280 / 1024 = 1.25
    assert_eq!(format_bytes(5376), "5.2 KB");
    assert_eq!(format_bytes(1280), "1.2 KB");
    assert_eq!(format_bytes(1382), "1.3 KB");
    // 1.35 is no tie in binary, 1.75 is: 1792 / 1024
    assert_eq!(format_bytes(1792), "1.8 KB");
    assert_eq!(format_bytes(1024 * 1024 - 1), "1024.0 KB");
}

#[test]
fn format_bytes_agrees_with_double_precision() {
    let mut samples: Vec<u64> = vec![
        0,
        1,
        1023,
        1024,
        1025,
        u64::MAX,
        u64::MAX - 1,
        u64::MAX - 1023,
        u64::MAX - 1024,
        u64::MAX - 1025,
        u64::MAX - 2047,
        u64::MAX - 2048,
        1 << 53,
        (1 << 53) + 1,
        (1 << 53) + 2,
        (1 << 53) + 3,
        (1 << 54) + 2,
        (1 << 54) + 6,
        (1 << 63) + 1024,
        (1 << 63) + 1025,
        (1 << 63) + 3072,
    ];
    for shift in 0..64u32 {
        let base = 1u64 << shift;
        samples.push(base);
        samples.push(base - 1);
        samples.push(base + base / 3);
        samples.push(base + base / 4);
        samples.push(base + base / 4 + base / 8);
        samples.push(base / 1024 * 1280);
        samples.push(base / 1024 * 1331);
    }
    let mut x: u64 = 0x9E3779B97F4A7C15;
    for _ in 0..20000 {
        x ^= x << 13;
        x ^= x >> 7;
        x ^= x << 17;
        samples.push(x);
        samples.push(x >> (x % 64));
    }
    for bytes in samples {
        assert_eq!(format_bytes(bytes), float_rendering(bytes, 4), "{}", bytes);
        assert_eq!(size_string(bytes, 5), float_rendering(bytes, 5), "{}", bytes);
    }
}

#[test]
fn format_duration_seconds_exact_values() {
    assert_eq!(format_duration_seconds(0), "0s");
    assert_eq!(format_duration_seconds(59), "59s");
    assert_eq!(format_duration_seconds(60), "1m 0s");
    assert_eq!(format_duration_seconds(184), "3m 4s");
    assert_eq!(format_duration_seconds(3600), "1h 0m 0s");
    assert_eq!(format_duration_seconds(7205), "2h 0m 5s");
    assert_eq!(format_duration_seconds(93784), "1d 2h 3m 4s");
    assert_eq!(format_duration_seconds(u64::MAX), "213503982334601d 7h 0m 15s");
}

#[test]
fn macos_is_required() {
    assert!(is_macos("macos"));
    assert!(!is_macos("linux"));
    assert!(!is_macos("macOS"));
    assert_eq!(require_macos("macos"), Ok(()));
    assert_eq!(require_macos("linux"), Err(SystemError::MacOsRequired));
    assert_eq!(SystemError::MacOsRequired.message(), "This command requires macOS");
}

#[test]
fn root_is_required() {
    assert_eq!(require_root("0\n"), Ok(()));
    assert_eq!(require_root("501\n"), Err(SystemError::SudoRequired));
    assert_eq!(require_root(""), Err(SystemError::SudoRequired));
    assert_eq!(SystemError::SudoRequired.message(), "This command requires sudo privileges");
}
