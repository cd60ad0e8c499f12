use hwdash::kind::HWKind;
use hwdash::sched::{cpu_series, mem_series, net_series, Dashboard};
use hwdash::screen::{NavTarget, ScreenState};
use hwdash::snapshot::{
    Availability, CpuEntry, MemCounters, NetEntry, SampleParts, Snapshot, SystemIdentity,
};

fn parts_with_all_categories() -> SampleParts {
    SampleParts {
        cpus: Some(vec![
            CpuEntry { brand: "acme".to_string(), name: "cpu0".to_string(), usage_centi: 1000 },
            CpuEntry { brand: "acme".to_string(), name: "cpu1".to_string(), usage_centi: 2000 },
        ]),
        gpus: None,
        memory: Some(MemCounters {
            total_memory: 4000,
            used_memory: 1000,
            total_swap: 100,
            used_swap: 0,
        }),
        disks: Some(vec![]),
        networks: Some(vec![
            NetEntry { name: "eth0".to_string(), received: 10, transmitted: 5 },
            NetEntry { name: "lo".to_string(), received: 1, transmitted: 2 },
        ]),
        system: Some(SystemIdentity {
            host_name: "box".to_string(),
            os_name: "linux".to_string(),
            os_version: "1".to_string(),
            kernel_version: "6".to_string(),
        }),
        sensors: Some(vec![]),
        processes: Some(vec![]),
    }
}

fn sample() -> (Snapshot, Availability) {
    Snapshot::assemble(parts_with_all_categories())
}

#[test]
fn splash_boundary_is_inclusive() {
    // splash duration 2.0s, ticks of 0.5s each
    let mut d = Dashboard::new(1000, 2000, 3, 3, 3);
    for _ in 0..3 {
        d.tick_timers(500);
        assert_eq!(d.current_screen(), ScreenState::Splash);
    }
    // the 4th tick reaches exactly 2.0s: the boundary triggers the transition
    d.tick_timers(500);
    assert_eq!(d.current_screen(), ScreenState::Details);
    // further ticks do not re-trigger anything
    d.tick_timers(500);
    assert_eq!(d.current_screen(), ScreenState::Details);
}

#[test]
fn navigation_before_splash_elapses_is_ignored() {
    let mut d = Dashboard::new(1000, 2000, 3, 3, 3);
    d.navigate(NavTarget::Graphs);
    assert_eq!(d.current_screen(), ScreenState::Splash);
    d.tick_timers(2000);
    assert_eq!(d.current_screen(), ScreenState::Details);
}

#[test]
fn last_navigation_wins_after_splash_elapses() {
    let mut d = Dashboard::new(1000, 0, 3, 3, 3);
    d.tick_timers(1);
    assert_eq!(d.current_screen(), ScreenState::Details);
    d.navigate(NavTarget::Settings);
    d.navigate(NavTarget::Details);
    assert_eq!(d.current_screen(), ScreenState::Details);
}

#[test]
fn failing_gpu_category_leaves_rest_populated() {
    let (snap, avail) = sample();
    assert!(snap.gpus.is_empty());
    assert!(!avail.gpu);
    assert_eq!(snap.cpus.len(), 2);
    assert!(avail.cpu);
    assert_eq!(snap.memory.total_memory, 4000);
    assert!(avail.memory);

    let mut d = Dashboard::new(1000, 0, 3, 3, 3);
    d.tick_timers(1000);
    d.apply_sample(Some(sample()));
    assert!(!d.is_stale());
    assert!(d.current_snapshot().gpus.is_empty());
    assert_eq!(d.current_snapshot().cpus.len(), 2);
}

#[test]
fn three_full_intervals_append_three_samples_each() {
    // refresh interval 1.0s, three ticks of 1.0s each
    let mut d = Dashboard::new(1000, 0, 10, 10, 10);
    for _ in 0..3 {
        let due = d.tick_timers(1000);
        assert!(due);
        d.apply_sample(Some(sample()));
    }
    // exactly 3 samples per tracked series, with the exact extracted values
    assert_eq!(d.series_view(&cpu_series()), Some(vec![1500, 1500, 1500]));
    assert_eq!(d.series_view(&mem_series()), Some(vec![2500, 2500, 2500]));
    assert_eq!(d.series_view(&net_series()), Some(vec![18, 18, 18]));
}

#[test]
fn short_ticks_do_not_fire_the_refresh_timer() {
    let mut d = Dashboard::new(1000, 0, 10, 10, 10);
    assert!(!d.tick_timers(400));
    assert!(!d.tick_timers(400));
    // 1200 ms accumulated: the third tick crosses the interval
    assert!(d.tick_timers(400));
}

#[test]
fn unreachable_adapter_keeps_prior_snapshot_and_marks_stale() {
    let mut d = Dashboard::new(1000, 0, 3, 3, 3);
    assert!(d.is_stale());
    d.tick_timers(1000);
    d.apply_sample(Some(sample()));
    assert!(!d.is_stale());
    assert_eq!(d.current_snapshot().cpus.len(), 2);
    d.tick_timers(1000);
    d.apply_sample(None);
    // prior data retained, only the staleness indicator is raised
    assert!(d.is_stale());
    assert_eq!(d.current_snapshot().cpus.len(), 2);
    assert_eq!(d.series_view(&cpu_series()), Some(vec![1500]));
}

#[test]
fn series_view_of_unknown_name_is_none() {
    let mut d = Dashboard::new(1000, 0, 3, 3, 3);
    assert_eq!(d.series_view(&"nonesuch".to_string()), None);
}

#[test]
fn tracked_series_evict_at_capacity() {
    let mut d = Dashboard::new(1000, 0, 2, 2, 2);
    for _ in 0..5 {
        d.tick_timers(1000);
        d.apply_sample(Some(sample()));
    }
    let v = d.series_view(&cpu_series()).unwrap();
    assert_eq!(v.len(), 2);
}

#[test]
fn empty_cpu_and_memory_extract_to_zero() {
    let parts = SampleParts {
        cpus: Some(vec![]),
        gpus: None,
        memory: Some(MemCounters { total_memory: 0, used_memory: 0, total_swap: 0, used_swap: 0 }),
        disks: None,
        networks: Some(vec![]),
        system: None,
        sensors: None,
        processes: None,
    };
    let mut d = Dashboard::new(1000, 0, 3, 3, 3);
    d.tick_timers(1000);
    d.apply_sample(Some(Snapshot::assemble(parts)));
    assert_eq!(d.series_view(&cpu_series()), Some(vec![0]));
    assert_eq!(d.series_view(&mem_series()), Some(vec![0]));
    assert_eq!(d.series_view(&net_series()), Some(vec![0]));
}

#[test]
fn kind_labels_and_order() {
    let all = HWKind::all();
    assert_eq!(all.len(), 9);
    assert_eq!(all[0].label(), "CPU");
    assert_eq!(all[1].label(), "GPU");
    assert_eq!(all[2].label(), "RAM");
    assert_eq!(all[3].label(), "DISK");
    assert_eq!(all[4].label(), "NETWORK");
    assert_eq!(all[5].label(), "SYSTEM");
    assert_eq!(all[6].label(), "COMPONENTS");
    assert_eq!(all[7].label(), "PROCESSES");
    assert_eq!(all[8].label(), "MISC");
}
