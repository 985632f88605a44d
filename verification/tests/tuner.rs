use display_tuner::apply::ApplyPlan;
use display_tuner::catalog::{dpi_index_of, dpi_value, CATALOG_LEN};
use display_tuner::name::decode_friendly_name;
use display_tuner::scaling::{relative_scale_offset, scaling_from_offsets, scaling_update_offset};
use display_tuner::snapshot::build_snapshot;
use display_tuner::topology::{
    apply_mode_update, enumeration_candidates, find_path, plan_resolution_update,
    source_mode_dimensions, EnumCandidate, ModeUpdate,
};
use display_tuner::{
    DisplayConfig, DisplayInfo, DisplayTuner, ModeRecord, PathRecord, Topology, TunerError,
};

fn utf16(s: &str) -> Vec<u16> {
    s.encode_utf16().collect()
}

fn padded_utf16(s: &str, len: usize) -> Vec<u16> {
    let mut units = utf16(s);
    while units.len() < len {
        units.push(0);
    }
    units
}

#[test]
fn catalog_round_trip() {
    let expected: [i32; 12] = [100, 125, 150, 175, 200, 225, 250, 300, 350, 400, 450, 500];
    assert_eq!(CATALOG_LEN, expected.len());
    for (i, v) in expected.iter().enumerate() {
        assert_eq!(dpi_value(i), *v);
        assert_eq!(dpi_index_of(*v), Some(i));
    }
    assert_eq!(dpi_index_of(120), None);
    assert_eq!(dpi_index_of(0), None);
    assert_eq!(dpi_index_of(-100), None);
}

#[test]
fn scaling_offsets_resolve_to_percentages() {
    // Recommendation two entries up from the minimum, current one below it.
    assert_eq!(scaling_from_offsets(-2, -1, 9), Ok((125, 150)));
    // Current at the recommendation itself.
    assert_eq!(scaling_from_offsets(-2, 0, 9), Ok((150, 150)));
    // A positive minimum offset is taken by absolute value.
    assert_eq!(scaling_from_offsets(2, -1, 9), Ok((125, 150)));
}

#[test]
fn scaling_offsets_out_of_range() {
    // Current index below the catalog.
    assert_eq!(scaling_from_offsets(-1, -3, 0), Err(TunerError::DpiIndexOutOfRange));
    // Current index above the catalog.
    assert_eq!(scaling_from_offsets(-2, 10, 0), Err(TunerError::DpiIndexOutOfRange));
    // Recommended index above the catalog.
    assert_eq!(scaling_from_offsets(-13, -2, 0), Err(TunerError::DpiIndexOutOfRange));
}

#[test]
fn relative_offset_between_catalog_members() {
    assert_eq!(relative_scale_offset(150, 175), Ok(1));
    assert_eq!(relative_scale_offset(150, 150), Ok(0));
    assert_eq!(relative_scale_offset(150, 100), Ok(-2));
    assert_eq!(relative_scale_offset(100, 500), Ok(11));
}

#[test]
fn relative_offset_rejects_non_members() {
    assert_eq!(relative_scale_offset(150, 120), Err(TunerError::UnsupportedScalingValue));
    assert_eq!(relative_scale_offset(130, 175), Err(TunerError::UnsupportedScalingValue));
}

#[test]
fn scaling_only_change_offset() {
    // Snapshot current 100, recommended 150, desired 175: catalog positions
    // 0, 2 and 3, so the DPI set call must carry offset 3 - 2 = 1.
    let plan = DisplayTuner::default().apply_display_config(
        &display(100, 150),
        &DisplayConfig { width: 1920, height: 1080, scaling: 175 },
    );
    assert!(!plan.resolution_changed);
    assert!(plan.scaling_changed);
    // Fresh DPI query at apply time: recommended still two above the minimum,
    // current still at the minimum.
    assert_eq!(scaling_update_offset(-2, -2, 9, 175), Ok(1));
}

#[test]
fn unsupported_scaling_fails_before_any_set_call() {
    assert_eq!(scaling_update_offset(-2, -2, 9, 120), Err(TunerError::UnsupportedScalingValue));
}

#[test]
fn scaling_round_trip_reads_back_desired() {
    // Committing the offset makes a fresh query resolve to the desired value.
    let offset = scaling_update_offset(-2, -2, 9, 175).unwrap();
    assert_eq!(scaling_from_offsets(-2, offset, 9), Ok((175, 150)));
}

fn display(scaling_current: i32, scaling_recommended: i32) -> DisplayInfo {
    DisplayInfo {
        friendly_name: String::from("Mock"),
        source_id: 7,
        width: 1920,
        height: 1080,
        scaling_current,
        scaling_recommended,
    }
}

fn mock_topology() -> Topology {
    Topology {
        paths: vec![
            // A cloned target without a source mode of its own: skipped.
            PathRecord { source_id: 3, source_mode_index: 0xFFFF_FFFF },
            // The one active display.
            PathRecord { source_id: 7, source_mode_index: 1 },
            // A path whose mode entry is not a source mode: skipped.
            PathRecord { source_id: 9, source_mode_index: 0 },
            // A path whose mode index lies outside the buffer: skipped.
            PathRecord { source_id: 11, source_mode_index: 5 },
        ],
        modes: vec![ModeRecord::Other, ModeRecord::Source { width: 2560, height: 1440 }],
    }
}

#[test]
fn enumeration_keeps_one_active_path() {
    // One active path at 2560x1440, current scale index resolving to 125%,
    // recommended 150%: enumeration yields exactly one snapshot.
    let t = mock_topology();
    let candidates = enumeration_candidates(&t);
    assert_eq!(candidates.len(), 1);
    assert_eq!(
        candidates[0],
        EnumCandidate { path_index: 1, source_id: 7, width: 2560, height: 1440 }
    );

    let mut displays: Vec<DisplayInfo> = Vec::new();
    for c in &candidates {
        let name = padded_utf16("Mock HDR", 64);
        let snap = build_snapshot(c.source_id, &name, c.width, c.height, -2, -1, 9).unwrap();
        displays.push(snap);
    }
    assert_eq!(displays.len(), 1);
    let d = &displays[0];
    assert_eq!(d.source_id, 7);
    assert_eq!(d.width, 2560);
    assert_eq!(d.height, 1440);
    assert_eq!(d.scaling_current, 125);
    assert_eq!(d.scaling_recommended, 150);
    assert_eq!(d.friendly_name, "Mock HDR");
}

#[test]
fn enumeration_aborts_on_out_of_catalog_index() {
    let name = padded_utf16("Mock", 64);
    let r = build_snapshot(7, &name, 2560, 1440, -13, -2, 0);
    assert_eq!(r.unwrap_err(), TunerError::DpiIndexOutOfRange);
}

#[test]
fn resolution_only_change_rewrites_one_mode() {
    // Snapshot 1920x1080 at 100%, desired 3840x2160 at 100%: one mode
    // mutation, one topology commit, no DPI set.
    let tuner = DisplayTuner::default();
    let desired = DisplayConfig { width: 3840, height: 2160, scaling: 100 };
    let plan = tuner.apply_display_config(&display(100, 100), &desired);
    assert!(plan.resolution_changed);
    assert!(!plan.scaling_changed);

    let t = mock_topology();
    let update = plan_resolution_update(&t, 7, &desired).unwrap();
    assert_eq!(update, ModeUpdate { mode_index: 1, width: 3840, height: 2160 });

    let committed = apply_mode_update(&t.modes, &update);
    assert_eq!(committed.len(), t.modes.len());
    assert_eq!(committed[0], t.modes[0]);
    assert_eq!(committed[1], ModeRecord::Source { width: 3840, height: 2160 });

    // A fresh read of the same path now reports the desired resolution.
    let reread = Topology { paths: t.paths, modes: committed };
    let i = find_path(&reread.paths, 7).unwrap();
    assert_eq!(source_mode_dimensions(&reread.paths[i], &reread.modes), Some((3840, 2160)));
}

#[test]
fn idempotent_apply_plans_nothing() {
    let tuner = DisplayTuner::default();
    let d = display(125, 150);
    let same = DisplayConfig { width: d.width, height: d.height, scaling: d.scaling_current };
    let plan = tuner.apply_display_config(&d, &same);
    assert_eq!(plan, ApplyPlan { resolution_changed: false, scaling_changed: false });
}

#[test]
fn vanished_display_fails_with_not_found() {
    let t = mock_topology();
    assert_eq!(find_path(&t.paths, 42), Err(TunerError::DisplayNotFound));
    let desired = DisplayConfig { width: 3840, height: 2160, scaling: 100 };
    assert_eq!(plan_resolution_update(&t, 42, &desired), Err(TunerError::DisplayNotFound));
    // A path that is present but no longer renderable is treated the same.
    assert_eq!(plan_resolution_update(&t, 3, &desired), Err(TunerError::DisplayNotFound));
}

#[test]
fn render_with_recommendation_suffix() {
    let d = display(100, 150);
    assert_eq!(d.render(), "[id:7] Mock \u{2014} 1920x1080 @ 100% (rec 150%)");
}

#[test]
fn render_without_recommendation_suffix() {
    let mut d = display(150, 150);
    d.friendly_name = String::from("Dell U2720Q");
    d.source_id = 0;
    d.width = 3840;
    d.height = 2160;
    assert_eq!(d.render(), "[id:0] Dell U2720Q \u{2014} 3840x2160 @ 150%");
    assert!(!d.render().contains("(rec"));
}

#[test]
fn decode_name_trims_trailing_nulls() {
    assert_eq!(decode_friendly_name(&padded_utf16("AB", 64)), "AB");
    assert_eq!(decode_friendly_name(&vec![0u16; 64]), "");
    assert_eq!(decode_friendly_name(&Vec::new()), "");
    // Interior nulls are content, only the trailing run is padding.
    assert_eq!(decode_friendly_name(&vec![0x41, 0, 0x42, 0, 0]), "A\u{0}B");
    // Invalid UTF-16 decodes to the replacement character instead of failing.
    assert_eq!(decode_friendly_name(&vec![0xD800, 0, 0]), "\u{FFFD}");
}

#[test]
fn error_values_carry_status_codes() {
    assert_eq!(TunerError::QueryFailed(87), TunerError::QueryFailed(87));
    assert_ne!(TunerError::QueryFailed(87), TunerError::QueryFailed(5));
    assert_ne!(
        TunerError::NameQueryFailed(87).clone(),
        TunerError::ApplyFailed(87)
    );
    assert_ne!(TunerError::DisplayNotFound, TunerError::DpiIndexOutOfRange);
}

#[test]
fn default_tuner_is_empty() {
    assert!(DisplayTuner::default().displays.is_empty());
}
