use denarborea::viewer::format_file_size;

// The size in words as floating-point arithmetic gives it.
fn size_by_floating_point(bytes: u64) -> String {
    let units = ["B", "KB", "MB", "GB", "TB"];
    let threshold: f64 = 1024.0;
    if bytes == 0 {
        return "0 B".to_string();
    }
    let bytes_f = bytes as f64;
    let unit_index = (bytes_f.log2() / threshold.log2()).floor() as usize;
    let unit_index = unit_index.min(units.len() - 1);
    if unit_index == 0 {
        format!("{} B", bytes)
    } else {
        let size = bytes_f / threshold.powi(unit_index as i32);
        format!("{:.1} {}", size, units[unit_index])
    }
}

#[test]
fn file_sizes_round_to_the_nearest_tenth() {
    assert_eq!(format_file_size(1177), "1.1 KB");
    assert_eq!(format_file_size(1178), "1.2 KB");
    assert_eq!(format_file_size(1280), "1.2 KB");
    assert_eq!(format_file_size(1382), "1.3 KB");
    assert_eq!(format_file_size(1408), "1.4 KB");
    assert_eq!(format_file_size(1048575), "1024.0 KB");
    assert_eq!(format_file_size(1099511627776), "1.0 TB");
    assert_eq!(format_file_size(1125899906842624), "1024.0 TB");
    assert_eq!(format_file_size(u64::MAX), "16777216.0 TB");
}

#[test]
fn file_sizes_agree_with_floating_point() {
    let mut samples: Vec<u64> = Vec::new();
    for bytes in 0..5000u64 {
        samples.push(bytes);
    }
    for shift in 10..64u32 {
        let power = 1u64 << shift;
        for delta in [0u64, 1, 2, 51, 52, 102, 103, 511, 512, 513, 1023] {
            samples.push(power.wrapping_sub(delta).max(1));
            samples.push(power.saturating_add(delta));
            samples.push(power + power / 2 + delta);
            samples.push(power / 10 * 3 + delta);
        }
    }
    // ties between two tenths of a unit
    for unit in [1u64 << 10, 1 << 20, 1 << 30, 1 << 40] {
        for q in 0..400u64 {
            samples.push(unit + (2 * q + 1) * (unit / 20) + unit / 20 * 0);
            samples.push(unit * (20 + 2 * q + 1) / 20);
        }
    }
    let mut seed = 0x9e3779b97f4a7c15u64;
    for _ in 0..20000 {
        seed ^= seed << 13;
        seed ^= seed >> 7;
        seed ^= seed << 17;
        samples.push(seed);
        samples.push(seed >> (seed % 64));
    }
    samples.push(u64::MAX);
    samples.push(u64::MAX - 1);
    samples.push((1 << 53) + 1);
    samples.push((1 << 54) + 2);
    samples.push((1 << 54) + 6);
    for bytes in samples {
        assert_eq!(format_file_size(bytes), size_by_floating_point(bytes), "for {}", bytes);
    }
}
